use url::Url;
use webpage::resolver::{pick_joined, resolve};

#[test]
fn resolve_without_base_gives_the_link_back() {
    assert_eq!(resolve("/a".to_string(), None), "/a");
    assert_eq!(resolve("".to_string(), None), "");
}

#[test]
fn resolve_joins_the_link_to_the_base() {
    let base = Url::parse("https://example.net/a/b.html").unwrap();
    assert_eq!(
        resolve("c.png".to_string(), Some(&base)),
        "https://example.net/a/c.png"
    );
    assert_eq!(
        resolve("/v1/meta".to_string(), Some(&base)),
        "https://example.net/v1/meta"
    );
    assert_eq!(
        resolve("//eve.com/b".to_string(), Some(&base)),
        "https://eve.com/b"
    );
    assert_eq!(
        resolve("http://eve.com/b".to_string(), Some(&base)),
        "http://eve.com/b"
    );
    assert_eq!(
        resolve("".to_string(), Some(&base)),
        "https://example.net/a/b.html"
    );
    assert_eq!(
        resolve("HTTP://EXAMPLE.org".to_string(), Some(&base)),
        "http://example.org/"
    );
}

#[test]
fn resolve_gives_the_link_back_where_the_join_fails() {
    let base = Url::parse("https://example.net/a/b.html").unwrap();
    assert_eq!(resolve("http://[bad".to_string(), Some(&base)), "http://[bad");
    let opaque = Url::parse("mailto:someone@example.net").unwrap();
    assert_eq!(resolve("c.png".to_string(), Some(&opaque)), "c.png");
}

#[test]
fn pick_joined_prefers_the_joined_url() {
    assert_eq!(
        pick_joined("/a".to_string(), Some("https://x/a".to_string())),
        "https://x/a"
    );
    assert_eq!(pick_joined("/a".to_string(), None), "/a");
}
