use webpage::Opengraph;

#[test]
fn opengraph_test_type() {
    let mut opengraph = Opengraph::empty();
    assert_eq!(opengraph.og_type, "website");

    opengraph.extend("type", "article".to_string());
    assert_eq!(opengraph.og_type, "article");
}

#[test]
fn test_image() {
    let mut opengraph = Opengraph::empty();

    opengraph.extend("image", "http://example.org/image.png".to_string());
    opengraph.extend(
        "image:secure_url",
        "https://example.org/image.png".to_string(),
    );
    assert_eq!(opengraph.images.len(), 1);
    assert_eq!(opengraph.images[0].url, "http://example.org/image.png");

    let prop = opengraph.images[0].properties.get("secure_url");
    assert!(prop.is_some());
    assert_eq!(prop.unwrap(), "https://example.org/image.png");
}

#[test]
fn type_is_the_last_declared() {
    let mut opengraph = Opengraph::empty();
    opengraph.extend("title", "t".to_string());
    assert_eq!(opengraph.og_type, "website");
    opengraph.extend("type", "article".to_string());
    opengraph.extend("image", "i".to_string());
    opengraph.extend("type", "video.movie".to_string());
    opengraph.extend("locale", "en".to_string());
    assert_eq!(opengraph.og_type, "video.movie");
    assert_eq!(opengraph.properties.get("type"), None);
}

#[test]
fn image_grouping_is_exact() {
    let mut opengraph = Opengraph::empty();
    opengraph.extend("image", "http://x/img.png".to_string());
    opengraph.extend("image:secure_url", "https://x/img.png".to_string());
    assert_eq!(opengraph.images.len(), 1);
    assert_eq!(opengraph.images[0].url, "http://x/img.png");
    assert_eq!(opengraph.images[0].properties.len(), 1);
    assert_eq!(
        opengraph.images[0].properties.get("secure_url"),
        Some(&"https://x/img.png".to_string())
    );
    assert!(opengraph.videos.is_empty());
    assert!(opengraph.audios.is_empty());
    assert!(opengraph.properties.is_empty());
}

#[test]
fn each_opener_starts_a_new_object() {
    let mut opengraph = Opengraph::empty();
    opengraph.extend("video", "a".to_string());
    opengraph.extend("video:width", "1".to_string());
    opengraph.extend("video:url", "b".to_string());
    opengraph.extend("video:width", "2".to_string());
    opengraph.extend("video:width", "3".to_string());
    opengraph.extend("audio:url", "c".to_string());
    opengraph.extend("audio:type", "audio/mpeg".to_string());
    assert_eq!(opengraph.videos.len(), 2);
    assert_eq!(opengraph.videos[0].url, "a");
    assert_eq!(
        opengraph.videos[0].properties.get("width"),
        Some(&"1".to_string())
    );
    assert_eq!(opengraph.videos[1].url, "b");
    assert_eq!(
        opengraph.videos[1].properties.get("width"),
        Some(&"3".to_string())
    );
    assert_eq!(opengraph.videos[1].properties.len(), 1);
    assert_eq!(opengraph.audios.len(), 1);
    assert_eq!(opengraph.audios[0].url, "c");
    assert_eq!(
        opengraph.audios[0].properties.get("type"),
        Some(&"audio/mpeg".to_string())
    );
    assert!(opengraph.images.is_empty());
}

#[test]
fn property_without_an_open_object_is_dropped() {
    let mut opengraph = Opengraph::empty();
    opengraph.extend("image:width", "100".to_string());
    opengraph.extend("image:", "x".to_string());
    assert!(opengraph.images.is_empty());
    assert!(opengraph.properties.is_empty());

    opengraph.extend("image", "i".to_string());
    opengraph.extend("image:", "x".to_string());
    opengraph.extend("images", "y".to_string());
    assert_eq!(opengraph.images.len(), 1);
    assert!(opengraph.images[0].properties.is_empty());

    opengraph.extend("imagery", "z".to_string());
    assert_eq!(
        opengraph.images[0].properties.get("y"),
        Some(&"z".to_string())
    );
}

#[test]
fn flat_properties_overwrite() {
    let mut opengraph = Opengraph::empty();
    opengraph.extend("title", "one".to_string());
    opengraph.extend("title", "two".to_string());
    opengraph.extend("site_name", "s".to_string());
    opengraph.extend("", "empty".to_string());
    assert_eq!(opengraph.properties.len(), 3);
    assert_eq!(opengraph.properties.get("title"), Some(&"two".to_string()));
    assert_eq!(opengraph.properties.get(""), Some(&"empty".to_string()));
}

#[test]
fn grouping_counts_characters() {
    let mut opengraph = Opengraph::empty();
    opengraph.extend("image", "i".to_string());
    opengraph.extend("image\u{e9}", "dropped".to_string());
    assert!(opengraph.images[0].properties.is_empty());
    opengraph.extend("image:\u{e9}t\u{e9}", "kept".to_string());
    assert_eq!(
        opengraph.images[0].properties.get("\u{e9}t\u{e9}"),
        Some(&"kept".to_string())
    );
}

#[test]
fn new_object_has_no_properties() {
    let object = webpage::OpengraphObject::new("http://x/".to_string());
    assert_eq!(object.url, "http://x/");
    assert_eq!(object.properties.len(), 0);
}

#[test]
fn parse_object_takes_any_kind() {
    let mut list = Vec::new();
    webpage::opengraph::parse_object("book", "book", "b".to_string(), &mut list);
    webpage::opengraph::parse_object("book", "book:author", "a".to_string(), &mut list);
    assert_eq!(list.len(), 1);
    assert_eq!(list[0].url, "b");
    assert_eq!(list[0].properties.get("author"), Some(&"a".to_string()));
}
