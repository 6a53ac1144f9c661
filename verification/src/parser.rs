//! The walk over the document that fills the record of a page.

use vstd::prelude::*;

use crate::dom::{Attribute, AttributeView, DomNode, NodeData, NodeDataView, NodeView, attribute_views};
use crate::html::{HTML, HtmlView, Link, LinkView, base_of, link_views};
use crate::opengraph::extended;
use crate::resolver::{resolve, resolved};
use crate::schema_org::{SchemaOrg, decoded_text, record_views};
use crate::text::{option_text, starts_with, str_eq, trim, trimmed};

verus! {

/// The part of the document that a node lies in.
#[derive(Clone, Copy, Debug, PartialEq, Eq, Structural)]
pub enum Segment {
    /// Under neither `<head>` nor `<body>`
    Outside,
    /// Under `<head>`
    Head,
    /// Under `<body>`
    Body,
}

impl Segment {
    /// The segment of an element with the tag `tag` that is met in the
    /// segment `self`, and of what lies under it.
    pub open spec fn entered(self, tag: Seq<char>) -> Segment {
        if tag == "head"@ {
            Segment::Head
        } else if tag == "body"@ {
            Segment::Body
        } else {
            self
        }
    }

    /// The segment of an element with the tag `tag` that is met in the
    /// segment `self`: `<head>` opens the head, `<body>` the body, and any
    /// other element stays where it is.
    pub fn enter(self, tag: &str) -> (r: Segment)
        ensures
            r == self.entered(tag@),
    {
        if str_eq(tag, "head") {
            Segment::Head
        } else if str_eq(tag, "body") {
            Segment::Body
        } else {
            self
        }
    }
}

/// The trimmed value of the first attribute called `name`.
pub open spec fn attribute(attrs: Seq<AttributeView>, name: Seq<char>) -> Option<Seq<char>>
    decreases attrs.len(),
{
    if attrs.len() == 0 {
        None
    } else if attrs[0].name == name {
        Some(trimmed(attrs[0].value))
    } else {
        attribute(attrs.drop_first(), name)
    }
}

/// The trimmed contents of the first text node among `children`.
pub open spec fn first_text(children: Seq<NodeView>) -> Option<Seq<char>>
    decreases children.len(),
{
    if children.len() == 0 {
        None
    } else {
        match children[0].data {
            NodeDataView::Text { contents } => Some(trimmed(contents)),
            _ => first_text(children.drop_first()),
        }
    }
}

/// Whether the text directly under an element with this tag is kept out of
/// the text of the page.
pub open spec fn is_hidden_tag(tag: Seq<char>) -> bool {
    tag == "style"@ || tag == "script"@ || tag == "noscript"@
}

/// The text of the page after one more piece: pieces are joined by one space.
pub open spec fn appended_text(text: Seq<char>, piece: Seq<char>) -> Seq<char> {
    if text.len() == 0 {
        piece
    } else {
        text + " "@ + piece
    }
}

/// The record after a text node with the contents `contents` was met in the
/// segment `segment`, directly under an element with the tag `tag`.
pub open spec fn with_text(h: HtmlView, segment: Segment, tag: Seq<char>, contents: Seq<char>)
    -> HtmlView {
    if segment == Segment::Body && !is_hidden_tag(tag) {
        HtmlView { text_content: appended_text(h.text_content, contents), ..h }
    } else {
        h
    }
}

/// The record after the `lang` attribute of an `<html>` or `<body>` element
/// was read.
pub open spec fn with_language(h: HtmlView, tag: Seq<char>, attrs: Seq<AttributeView>)
    -> HtmlView {
    if tag == "html"@ || tag == "body"@ {
        match attribute(attrs, "lang"@) {
            Some(language) => HtmlView { language: Some(language), ..h },
            None => h,
        }
    } else {
        h
    }
}

/// The name under which a `<meta>` element is kept: its `property`, else its
/// `name`, else its `http-equiv`.
pub open spec fn meta_key(attrs: Seq<AttributeView>) -> Option<Seq<char>> {
    match attribute(attrs, "property"@) {
        Some(property) => Some(property),
        None => match attribute(attrs, "name"@) {
            Some(name) => Some(name),
            None => attribute(attrs, "http-equiv"@),
        },
    }
}

/// The record after a `<meta>` element called `key` with the content
/// `content` was read: it enters the meta table; with a name after `og:` it
/// goes to the Opengraph information, and as `description` it is the
/// description.
pub open spec fn with_meta_content(h: HtmlView, key: Seq<char>, content: Seq<char>) -> HtmlView {
    let h = HtmlView { meta: h.meta.insert(key, content), ..h };
    if "og:"@.is_prefix_of(key) && key.len() > 3 {
        HtmlView { opengraph: extended(h.opengraph, key.skip(3), content), ..h }
    } else if key == "description"@ {
        HtmlView { description: Some(content), ..h }
    } else {
        h
    }
}

/// The record after a `<meta>` element in the head was read.
pub open spec fn with_meta(h: HtmlView, attrs: Seq<AttributeView>) -> HtmlView {
    let h = match (attribute(attrs, "content"@), meta_key(attrs)) {
        (Some(content), Some(key)) => with_meta_content(h, key, content),
        _ => h,
    };
    match attribute(attrs, "charset"@) {
        Some(charset) => HtmlView { meta: h.meta.insert("charset"@, charset), ..h },
        None => h,
    }
}

/// Whether `link_type` is the media type of a feed.
pub open spec fn is_feed_type(link_type: Seq<char>) -> bool {
    ||| link_type == "application/atom+xml"@
    ||| link_type == "application/json"@
    ||| link_type == "application/rdf+xml"@
    ||| link_type == "application/rss+xml"@
    ||| link_type == "application/xml"@
    ||| link_type == "text/xml"@
}

/// The value of an attribute, or the empty string where it is absent.
pub open spec fn attribute_or_empty(attrs: Seq<AttributeView>, name: Seq<char>) -> Seq<char> {
    match attribute(attrs, name) {
        Some(value) => value,
        None => Seq::empty(),
    }
}

/// The record after a `<link>` element in the head was read: a canonical
/// link sets the URL of the page, an alternate link of a feed type the feed,
/// each to the `href` of the element, present or not.
pub open spec fn with_link(h: HtmlView, attrs: Seq<AttributeView>) -> HtmlView {
    let rel = attribute_or_empty(attrs, "rel"@);
    if rel == "canonical"@ {
        HtmlView { url: attribute(attrs, "href"@), ..h }
    } else if rel == "alternate"@ && is_feed_type(attribute_or_empty(attrs, "type"@)) {
        HtmlView { feed: attribute(attrs, "href"@), ..h }
    } else {
        h
    }
}

/// The record after an element in the head was read. A `<title>` sets the
/// title to the trimmed contents of the first text node directly under it,
/// and to none where it has no such node.
pub open spec fn with_head_tag(
    h: HtmlView,
    tag: Seq<char>,
    attrs: Seq<AttributeView>,
    children: Seq<NodeView>,
) -> HtmlView {
    let h = if tag == "title"@ {
        HtmlView { title: first_text(children), ..h }
    } else {
        h
    };
    let h = if tag == "meta"@ {
        with_meta(h, attrs)
    } else {
        h
    };
    if tag == "link"@ {
        with_link(h, attrs)
    } else {
        h
    }
}

/// Whether an element holds a JSON-LD block.
pub open spec fn is_json_ld(tag: Seq<char>, attrs: Seq<AttributeView>) -> bool {
    tag == "script"@ && attribute(attrs, "type"@) == Some("application/ld+json"@)
}

/// The record after the JSON-LD block of a `<script>` element, if it is one,
/// was decoded.
pub open spec fn with_json_ld(
    h: HtmlView,
    tag: Seq<char>,
    attrs: Seq<AttributeView>,
    children: Seq<NodeView>,
) -> HtmlView {
    if is_json_ld(tag, attrs) {
        match first_text(children) {
            Some(content) => HtmlView { schema_org: h.schema_org + decoded_text(content), ..h },
            None => h,
        }
    } else {
        h
    }
}

/// The record after the link of an `<a>` element, if it has an `href`, was
/// taken in: the `href` resolved against the URL of the page as it stands at
/// that point, with the trimmed contents of the first text node directly
/// under the element as its text, or no text where there is none.
pub open spec fn with_anchor(
    h: HtmlView,
    tag: Seq<char>,
    attrs: Seq<AttributeView>,
    children: Seq<NodeView>,
) -> HtmlView {
    if tag == "a"@ {
        match attribute(attrs, "href"@) {
            Some(href) => HtmlView {
                links: h.links.push(
                    LinkView {
                        url: resolved(href, base_of(h.url)),
                        text: match first_text(children) {
                            Some(text) => text,
                            None => Seq::empty(),
                        },
                    },
                ),
                ..h
            },
            None => h,
        }
    } else {
        h
    }
}

/// The record after an element was read that lies in `segment`, the segment
/// that the element itself opens where it is `<head>` or `<body>`.
pub open spec fn with_element(
    h: HtmlView,
    segment: Segment,
    tag: Seq<char>,
    attrs: Seq<AttributeView>,
    children: Seq<NodeView>,
) -> HtmlView {
    let h = with_language(h, tag, attrs);
    let h = if segment == Segment::Head {
        with_head_tag(h, tag, attrs, children)
    } else {
        h
    };
    let h = with_json_ld(h, tag, attrs, children);
    with_anchor(h, tag, attrs, children)
}

/// The segment of what lies under `node`, which is met in `segment`.
pub open spec fn segment_below(node: NodeView, segment: Segment) -> Segment {
    match node.data {
        NodeDataView::Element { name, attrs } => segment.entered(name),
        _ => segment,
    }
}

/// The record after `node` itself was read, without what lies under it.
pub open spec fn visited(
    node: NodeView,
    segment: Segment,
    parent: Option<NodeDataView>,
    h: HtmlView,
) -> HtmlView {
    match node.data {
        NodeDataView::Text { contents } => match parent {
            Some(NodeDataView::Element { name, attrs }) => with_text(h, segment, name, contents),
            _ => h,
        },
        NodeDataView::Element { name, attrs } => with_element(
            h,
            segment.entered(name),
            name,
            attrs,
            node.children,
        ),
        _ => h,
    }
}

/// The record after `node` and all that lies under it were read, depth first
/// and in document order.
pub open spec fn traversed(
    node: NodeView,
    segment: Segment,
    parent: Option<NodeDataView>,
    h: HtmlView,
) -> HtmlView
    decreases node, node.children.len() + 1,
{
    traversed_children(
        node,
        node.children.len(),
        segment_below(node, segment),
        visited(node, segment, parent, h),
    )
}

/// The record after the first `count` children of `node`, which lie in
/// `segment`, were read with all that lies under them.
pub open spec fn traversed_children(node: NodeView, count: nat, segment: Segment, h: HtmlView)
    -> HtmlView
    decreases node, count,
{
    if count == 0 || count > node.children.len() {
        h
    } else {
        traversed(
            node.children[count - 1],
            segment,
            Some(node.data),
            traversed_children(node, (count - 1) as nat, segment, h),
        )
    }
}

/// What the parent of a node is known as during the walk.
pub open spec fn parent_view(parent: Option<&NodeData>) -> Option<NodeDataView> {
    match parent {
        Some(data) => Some(data@),
        None => None,
    }
}

/// The state of the walk at one node: the segment in which the node is met,
/// its parent, and the node itself.
pub struct Parser<'a> {
    segment: Segment,
    parent: Option<&'a NodeData>,
    handle: &'a DomNode,
}

impl<'a> Parser<'a> {
    /// The node at which the walk stands.
    pub closed spec fn node(&self) -> NodeView {
        self.handle@
    }

    /// The segment in which that node is met.
    pub closed spec fn segment(&self) -> Segment {
        self.segment
    }

    /// The parent of that node, where it has one.
    pub closed spec fn parent(&self) -> Option<NodeDataView> {
        parent_view(self.parent)
    }

    /// The walk at its start: at the document node, outside head and body.
    pub fn start(handle: &'a DomNode) -> (r: Self)
        ensures
            r.node() == handle@,
            r.segment() == Segment::Outside,
            r.parent() is None,
    {
        Parser { handle, segment: Segment::Outside, parent: None }
    }

    /// Reads the node and all that lies under it into `html`, depth first and
    /// in document order.
    pub fn traverse(self, html: &mut HTML)
        requires
            old(html).wf(),
        ensures
            final(html).wf(),
            final(html)@ == traversed(self.node(), self.segment(), self.parent(), old(html)@),
        decreases self.node(),
    {
        let mut segment = self.segment;
        let handle = self.handle;
        proof {
            handle.lemma_view();
        }

        match &handle.data {
            NodeData::Document => (),
            NodeData::Doctype => (),
            NodeData::Comment => (),
            NodeData::Text { contents } => {
                if let Some(NodeData::Element { name, attrs }) = self.parent {
                    process_text(self.segment, name.as_str(), contents.as_str(), html)
                }
            },
            NodeData::Element { name, attrs } => {
                segment = segment.enter(name.as_str());
                process_element(segment, name.as_str(), handle, attrs.as_slice(), html)
            },
            NodeData::ProcessingInstruction => (),
        }

        let count = handle.children.len();
        let mut i: usize = 0;
        while i < count
            invariant
                i <= count,
                count == handle.children@.len(),
                handle@.children.len() == count,
                html.wf(),
                html@ == traversed_children(handle@, i as nat, segment, visited(
                    handle@,
                    self.segment,
                    parent_view(self.parent),
                    old(html)@,
                )),
                self.handle == handle,
            decreases count - i,
        {
            proof {
                handle.lemma_view();
                assert(handle.children@[i as int]@ == handle@.children[i as int]);
            }
            let new_parser = Parser { segment, parent: Some(&handle.data), handle: &handle.children[i] };
            new_parser.traverse(html);
            i += 1;
        }
    }
}

/// Takes the contents of a text node that lies directly under an element
/// with the tag `tag_name` into the text of the page: in the body, and not
/// under `<style>`, `<script>` or `<noscript>`.
pub fn process_text(segment: Segment, tag_name: &str, contents: &str, html: &mut HTML)
    requires
        old(html).wf(),
    ensures
        final(html).wf(),
        final(html)@ == with_text(old(html)@, segment, tag_name@, contents@),
{
    if let Segment::Body = segment {
        if !str_eq(tag_name, "style") && !str_eq(tag_name, "script") && !str_eq(
            tag_name,
            "noscript",
        ) {
            if html.text_content.as_str().unicode_len() != 0 {
                html.text_content.append(" ");
            }
            html.text_content.append(contents);
            assert(html@.text_content == appended_text(old(html)@.text_content, contents@));
        }
    }
}

/// Reads the `lang` attribute of an `<html>` or `<body>` element.
fn process_language(tag_name: &str, attrs: &[Attribute], html: &mut HTML)
    requires
        old(html).wf(),
    ensures
        final(html).wf(),
        final(html)@ == with_language(old(html)@, tag_name@, attribute_views(attrs@)),
{
    if str_eq(tag_name, "html") || str_eq(tag_name, "body") {
        let language = get_attribute(attrs, "lang");
        if language.is_some() {
            html.language = language;
        }
    }
}

/// Reads a `<meta>` element of the head.
fn process_meta(attrs: &[Attribute], html: &mut HTML)
    requires
        old(html).wf(),
    ensures
        final(html).wf(),
        final(html)@ == with_meta(old(html)@, attribute_views(attrs@)),
{
    let content = get_attribute(attrs, "content");
    if let Some(content) = content {
        let property_opt = match get_attribute(attrs, "property") {
            Some(property) => Some(property),
            None => match get_attribute(attrs, "name") {
                Some(name) => Some(name),
                None => get_attribute(attrs, "http-equiv"),
            },
        };

        if let Some(property) = property_opt {
            html.meta.insert(property.clone(), content.clone());

            let length = property.as_str().unicode_len();
            if starts_with(property.as_str(), "og:") && length > 3 {
                html.opengraph.extend(property.as_str().substring_char(3, length), content);
            } else if str_eq(property.as_str(), "description") {
                html.description = Some(content);
            }
        }
    }

    if let Some(charset) = get_attribute(attrs, "charset") {
        html.meta.insert("charset".to_string(), charset);
    }
}

/// Whether `link_type` is the media type of a feed.
fn feed_type(link_type: &str) -> (r: bool)
    ensures
        r == is_feed_type(link_type@),
{
    str_eq(link_type, "application/atom+xml") || str_eq(link_type, "application/json") || str_eq(
        link_type,
        "application/rdf+xml",
    ) || str_eq(link_type, "application/rss+xml") || str_eq(link_type, "application/xml")
        || str_eq(link_type, "text/xml")
}

/// Reads a `<link>` element of the head.
fn process_link(attrs: &[Attribute], html: &mut HTML)
    requires
        old(html).wf(),
    ensures
        final(html).wf(),
        final(html)@ == with_link(old(html)@, attribute_views(attrs@)),
{
    let rel = match get_attribute(attrs, "rel") {
        Some(rel) => rel,
        None => String::new(),
    };
    if str_eq(rel.as_str(), "canonical") {
        html.set_url(get_attribute(attrs, "href"));
    } else if str_eq(rel.as_str(), "alternate") {
        let link_type = match get_attribute(attrs, "type") {
            Some(link_type) => link_type,
            None => String::new(),
        };
        if feed_type(link_type.as_str()) {
            html.feed = get_attribute(attrs, "href");
        }
    }
}

/// Decodes the JSON-LD block of a `<script>` element, if it is one.
fn process_json_ld(tag_name: &str, handle: &DomNode, attrs: &[Attribute], html: &mut HTML)
    requires
        old(html).wf(),
    ensures
        final(html).wf(),
        final(html)@ == with_json_ld(
            old(html)@,
            tag_name@,
            attribute_views(attrs@),
            handle@.children,
        ),
{
    if str_eq(tag_name, "script") {
        if let Some(script_type) = get_attribute(attrs, "type") {
            if str_eq(script_type.as_str(), "application/ld+json") {
                if let Some(content) = text_content(handle) {
                    let ghost before = record_views(html.schema_org@);
                    let mut records = SchemaOrg::from(content);
                    let ghost added = record_views(records@);
                    html.schema_org.append(&mut records);
                    assert(record_views(html.schema_org@) == before + added);
                }
            }
        }
    }
}

/// Takes in the link of an `<a>` element, if it has an `href`.
fn process_anchor(tag_name: &str, handle: &DomNode, attrs: &[Attribute], html: &mut HTML)
    requires
        old(html).wf(),
    ensures
        final(html).wf(),
        final(html)@ == with_anchor(
            old(html)@,
            tag_name@,
            attribute_views(attrs@),
            handle@.children,
        ),
{
    if str_eq(tag_name, "a") {
        if let Some(href) = get_attribute(attrs, "href") {
            let text = match text_content(handle) {
                Some(text) => text,
                None => String::new(),
            };
            let href = resolve(href, html.url_parsed.as_ref());
            let ghost before = link_views(html.links@);
            let link = Link { url: href, text };
            html.links.push(link);
            assert(link_views(html.links@) == before.push(link@));
        }
    }
}

/// Reads an element into the record: its language, what it says in the head,
/// its JSON-LD block and its link. `segment` is the segment that the element
/// lies in, which it opens itself where it is `<head>` or `<body>`.
pub fn process_element(
    segment: Segment,
    tag_name: &str,
    handle: &DomNode,
    attrs: &[Attribute],
    html: &mut HTML,
)
    requires
        old(html).wf(),
    ensures
        final(html).wf(),
        final(html)@ == with_element(
            old(html)@,
            segment,
            tag_name@,
            attribute_views(attrs@),
            handle@.children,
        ),
{
    process_language(tag_name, attrs, html);

    if let Segment::Head = segment {
        if str_eq(tag_name, "title") {
            html.title = text_content(handle);
        }
        if str_eq(tag_name, "meta") {
            process_meta(attrs, html);
        }
        if str_eq(tag_name, "link") {
            process_link(attrs, html);
        }
    }

    process_json_ld(tag_name, handle, attrs, html);
    process_anchor(tag_name, handle, attrs, html);
}

/// The trimmed value of the first attribute called `name`.
pub fn get_attribute(attrs: &[Attribute], name: &str) -> (r: Option<String>)
    ensures
        option_text(r) == attribute(attribute_views(attrs@), name@),
{
    let ghost all = attribute_views(attrs@);
    assert(all.skip(0) == all);
    let mut i: usize = 0;
    while i < attrs.len()
        invariant
            i <= attrs@.len(),
            all == attribute_views(attrs@),
            attribute(all, name@) == attribute(all.skip(i as int), name@),
        decreases attrs@.len() - i,
    {
        proof {
            assert(all.skip(i as int).drop_first() == all.skip(i as int + 1));
        }
        if str_eq(attrs[i].name.as_str(), name) {
            return Some(trim(attrs[i].value.as_str()).to_string());
        }
        i += 1;
    }
    None
}

/// The trimmed contents of the first text node directly under `handle`.
pub fn text_content(handle: &DomNode) -> (r: Option<String>)
    ensures
        option_text(r) == first_text(handle@.children),
{
    let ghost all = handle@.children;
    proof {
        handle.lemma_view();
        assert(all.skip(0) == all);
    }
    let mut i: usize = 0;
    while i < handle.children.len()
        invariant
            i <= handle.children@.len(),
            all == handle@.children,
            all.len() == handle.children@.len(),
            forall|j: int| 0 <= j < handle.children@.len() ==> all[j] == handle.children@[j]@,
            first_text(all) == first_text(all.skip(i as int)),
        decreases handle.children@.len() - i,
    {
        proof {
            assert(all.skip(i as int).drop_first() == all.skip(i as int + 1));
            handle.children@[i as int].lemma_view();
        }
        if let NodeData::Text { contents } = &handle.children[i].data {
            return Some(trim(contents.as_str()).to_string());
        }
        i += 1;
    }
    None
}

} // verus!
