use webpage::dom::{Attribute, DomNode, NodeData};
use webpage::parser::{get_attribute, process_element, process_text, text_content, Parser, Segment};
use webpage::HTML;

fn attrs(pairs: Vec<(&str, &str)>) -> Vec<Attribute> {
    pairs
        .into_iter()
        .map(|(name, value)| Attribute::new(name.to_string(), value.to_string()))
        .collect()
}

fn leaf(contents: &str) -> DomNode {
    DomNode::new(NodeData::Text {
        contents: contents.to_string(),
    })
}

#[test]
fn segment_follows_head_and_body() {
    assert_eq!(Segment::Outside.enter("head"), Segment::Head);
    assert_eq!(Segment::Outside.enter("body"), Segment::Body);
    assert_eq!(Segment::Outside.enter("html"), Segment::Outside);
    assert_eq!(Segment::Head.enter("title"), Segment::Head);
    assert_eq!(Segment::Head.enter("body"), Segment::Body);
    assert_eq!(Segment::Body.enter("div"), Segment::Body);
    assert_eq!(Segment::Body.enter("head"), Segment::Head);
    assert_eq!(Segment::Body.enter("HEAD"), Segment::Body);
}

#[test]
fn first_attribute_of_a_name_wins_and_is_trimmed() {
    let list = attrs(vec![("href", "  /a  "), ("href", "/b"), ("Lang", "en"), ("rel", "")]);
    assert_eq!(get_attribute(&list, "href"), Some("/a".to_string()));
    assert_eq!(get_attribute(&list, "lang"), None);
    assert_eq!(get_attribute(&list, "Lang"), Some("en".to_string()));
    assert_eq!(get_attribute(&list, "rel"), Some("".to_string()));
    assert_eq!(get_attribute(&[], "href"), None);
}

#[test]
fn text_content_is_the_first_direct_text() {
    let node = DomNode::with_children(
        NodeData::Element {
            name: "p".to_string(),
            attrs: vec![],
        },
        vec![
            DomNode::with_children(
                NodeData::Element {
                    name: "b".to_string(),
                    attrs: vec![],
                },
                vec![leaf("nested")],
            ),
            leaf("\n direct \t"),
            leaf("later"),
        ],
    );
    assert_eq!(text_content(&node), Some("direct".to_string()));
    assert_eq!(text_content(&leaf("x")), None);
}

#[test]
fn text_is_joined_by_single_spaces() {
    let mut html = HTML::empty(None);
    process_text(Segment::Body, "p", "one", &mut html);
    assert_eq!(html.text_content, "one");
    process_text(Segment::Body, "p", "two ", &mut html);
    assert_eq!(html.text_content, "one two ");
    process_text(Segment::Body, "p", " three", &mut html);
    assert_eq!(html.text_content, "one two   three");
    process_text(Segment::Body, "style", "s", &mut html);
    process_text(Segment::Body, "script", "s", &mut html);
    process_text(Segment::Body, "noscript", "s", &mut html);
    process_text(Segment::Head, "p", "h", &mut html);
    process_text(Segment::Outside, "p", "o", &mut html);
    assert_eq!(html.text_content, "one two   three");
    process_text(Segment::Body, "Script", "kept", &mut html);
    assert_eq!(html.text_content, "one two   three kept");
}

#[test]
fn empty_first_piece_takes_no_space() {
    let mut html = HTML::empty(None);
    process_text(Segment::Body, "p", "", &mut html);
    assert_eq!(html.text_content, "");
    process_text(Segment::Body, "p", "x", &mut html);
    assert_eq!(html.text_content, "x");
}

#[test]
fn element_in_head_sets_the_title() {
    let mut html = HTML::empty(None);
    let node = DomNode::with_children(
        NodeData::Element {
            name: "title".to_string(),
            attrs: vec![],
        },
        vec![leaf(" T ")],
    );
    process_element(Segment::Body, "title", &node, &[], &mut html);
    assert_eq!(html.title, None);
    process_element(Segment::Head, "title", &node, &[], &mut html);
    assert_eq!(html.title, Some("T".to_string()));
    let bare = DomNode::new(NodeData::Element {
        name: "title".to_string(),
        attrs: vec![],
    });
    process_element(Segment::Head, "title", &bare, &[], &mut html);
    assert_eq!(html.title, None);
}

#[test]
fn meta_key_prefers_property_then_name_then_http_equiv() {
    let node = DomNode::new(NodeData::Comment);
    let mut html = HTML::empty(None);
    let list = attrs(vec![
        ("http-equiv", "c"),
        ("name", "b"),
        ("property", "a"),
        ("content", " v "),
    ]);
    process_element(Segment::Head, "meta", &node, &list, &mut html);
    assert_eq!(html.meta.len(), 1);
    assert_eq!(html.meta.get("a"), Some(&"v".to_string()));

    let list = attrs(vec![("http-equiv", "c"), ("name", "b"), ("content", "w")]);
    process_element(Segment::Head, "meta", &node, &list, &mut html);
    assert_eq!(html.meta.get("b"), Some(&"w".to_string()));

    let list = attrs(vec![("http-equiv", "c"), ("content", "x"), ("charset", "latin1")]);
    process_element(Segment::Head, "meta", &node, &list, &mut html);
    assert_eq!(html.meta.get("c"), Some(&"x".to_string()));
    assert_eq!(html.meta.get("charset"), Some(&"latin1".to_string()));
    assert_eq!(html.meta.len(), 4);
}

#[test]
fn walk_starts_outside() {
    let tree = DomNode::with_children(
        NodeData::Element {
            name: "p".to_string(),
            attrs: vec![],
        },
        vec![leaf("x")],
    );
    let mut html = HTML::empty(None);
    Parser::start(&tree).traverse(&mut html);
    assert_eq!(html.text_content, "");

    let tree = DomNode::with_children(
        NodeData::Element {
            name: "body".to_string(),
            attrs: attrs(vec![("lang", "nl")]),
        },
        vec![leaf("x")],
    );
    Parser::start(&tree).traverse(&mut html);
    assert_eq!(html.text_content, "x");
    assert_eq!(html.language, Some("nl".to_string()));
}
