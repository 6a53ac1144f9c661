//! Info from the parsed HTML document.

use vstd::prelude::*;

use crate::dom::{DomNode, NodeView, parsed_document};
use crate::opengraph::{Opengraph, OpengraphView};
use crate::parser::{Parser, Segment, traversed};
use crate::resolver::{parse_url, parsed_url, url_text};
use crate::schema_org::{SchemaOrg, SchemaOrgView, record_views};
use crate::string_map::StringMap;
use crate::text::option_text;

verus! {

/// What a [`Link`] holds.
pub struct LinkView {
    pub url: Seq<char>,
    pub text: Seq<char>,
}

/// What an [`HTML`] holds. The parsed form of the URL is not part of it: it
/// follows from the URL.
pub struct HtmlView {
    pub title: Option<Seq<char>>,
    pub description: Option<Seq<char>>,
    pub url: Option<Seq<char>>,
    pub feed: Option<Seq<char>>,
    pub language: Option<Seq<char>>,
    pub text_content: Seq<char>,
    pub meta: Map<Seq<char>, Seq<char>>,
    pub opengraph: OpengraphView,
    pub schema_org: Seq<SchemaOrgView>,
    pub links: Seq<LinkView>,
}

/// Information for an `<a>` anchor
#[derive(Debug, Clone, Eq, PartialEq, Hash)]
pub struct Link {
    /// The target, absolute where the page has a URL to resolve it against
    pub url: String,
    /// The text of the anchor
    pub text: String,
}

/// Information regarding the HTML content
#[derive(Debug, Clone)]
pub struct HTML {
    /// \<title\>
    pub title: Option<String>,
    /// meta description
    pub description: Option<String>,
    /// Canonical URL
    pub url: Option<String>,
    /// The canonical URL in parsed form, where it is a valid URL
    pub url_parsed: Option<url::Url>,
    /// Feed URL (atom, rss, ..)
    pub feed: Option<String>,
    /// Language as specified in the document
    pub language: Option<String>,
    /// Text content inside \<body\>, all tags stripped
    pub text_content: String,
    /// Flattened down list of meta properties
    pub meta: StringMap,
    /// Opengraph tags
    pub opengraph: Opengraph,
    /// Schema.org data
    pub schema_org: Vec<SchemaOrg>,
    /// All links in the document
    pub links: Vec<Link>,
}

impl View for Link {
    type V = LinkView;

    open spec fn view(&self) -> LinkView {
        LinkView { url: self.url@, text: self.text@ }
    }
}

/// The views of a list of links.
pub open spec fn link_views(links: Seq<Link>) -> Seq<LinkView> {
    links.map_values(|l: Link| l@)
}

impl View for HTML {
    type V = HtmlView;

    open spec fn view(&self) -> HtmlView {
        HtmlView {
            title: option_text(self.title),
            description: option_text(self.description),
            url: option_text(self.url),
            feed: option_text(self.feed),
            language: option_text(self.language),
            text_content: self.text_content@,
            meta: self.meta@,
            opengraph: self.opengraph@,
            schema_org: record_views(self.schema_org@),
            links: link_views(self.links@),
        }
    }
}

/// The record of a page with the URL `url` of which nothing is known yet.
pub open spec fn empty_view(url: Option<Seq<char>>) -> HtmlView {
    HtmlView {
        title: None,
        description: None,
        url,
        feed: None,
        language: None,
        text_content: Seq::empty(),
        meta: Map::empty(),
        opengraph: OpengraphView {
            og_type: "website"@,
            properties: Map::empty(),
            images: Seq::empty(),
            videos: Seq::empty(),
            audios: Seq::empty(),
        },
        schema_org: Seq::empty(),
        links: Seq::empty(),
    }
}

/// The base against which the links of a page are resolved: its URL, parsed
/// and serialized, where it has one that is valid.
pub open spec fn base_of(url: Option<Seq<char>>) -> Option<Seq<char>> {
    match url {
        Some(text) => parsed_url(text),
        None => None,
    }
}

/// The record of the document `document`, read for a page with the URL `url`:
/// one walk from the document node, outside head and body, over an empty
/// record.
pub open spec fn extracted(document: NodeView, url: Option<Seq<char>>) -> HtmlView {
    traversed(document, Segment::Outside, None, empty_view(url))
}

/// The record that the bytes of a page give for the URL `url`, or `None`
/// where reading the bytes fails.
pub open spec fn extracted_from(bytes: Seq<u8>, url: Option<Seq<char>>) -> Option<HtmlView> {
    match parsed_document(bytes) {
        Some(document) => Some(extracted(document, url)),
        None => None,
    }
}

/// Two records read from the same bytes for the same URL hold the same in
/// every field, and resolve links against the same base.
pub proof fn lemma_extraction_repeats(
    bytes: Seq<u8>,
    url: Option<Seq<char>>,
    first: HTML,
    second: HTML,
)
    requires
        first.wf(),
        second.wf(),
        extracted_from(bytes, url) == Some(first@),
        extracted_from(bytes, url) == Some(second@),
    ensures
        first@ == second@,
        first.base() == second.base(),
{
}

impl HTML {
    /// The maps are well formed, and the parsed URL is the URL, parsed: there
    /// is one exactly where the URL is valid.
    pub open spec fn wf(&self) -> bool {
        &&& self.meta.wf()
        &&& self.opengraph.wf()
        &&& self.base() == base_of(option_text(self.url))
    }

    /// The serialization of the parsed URL, where there is one.
    pub open spec fn base(&self) -> Option<Seq<char>> {
        match self.url_parsed {
            Some(url) => Some(url_text(url)),
            None => None,
        }
    }

    /// The record of a page with the URL `url` of which nothing is known yet.
    pub fn empty(url: Option<String>) -> (r: Self)
        ensures
            r.wf(),
            r@ == empty_view(option_text(url)),
    {
        let url_parsed = match &url {
            Some(text) => parse_url(text.as_str()),
            None => None,
        };
        let r = Self {
            title: None,
            description: None,
            url,
            url_parsed,
            feed: None,
            language: None,
            text_content: String::new(),
            meta: StringMap::new(),
            opengraph: Opengraph::empty(),
            schema_org: Vec::new(),
            links: Vec::new(),
        };
        assert(r@.schema_org == Seq::<SchemaOrgView>::empty());
        assert(r@.links == Seq::<LinkView>::empty());
        r
    }

    /// Construct HTML from a parsed document, optionally with a URL set
    pub fn from_dom(dom: DomNode, url: Option<String>) -> (r: Self)
        ensures
            r.wf(),
            r@ == extracted(dom@, option_text(url)),
    {
        let mut html = Self::empty(url);
        let parser = Parser::start(&dom);
        parser.traverse(&mut html);
        html
    }

    /// Construct HTML from the bytes of a page, taken as UTF-8, optionally
    /// with a URL set. It fails exactly where reading the bytes does.
    pub fn from_bytes(bytes: &[u8], url: Option<String>) -> (r: Result<Self, std::io::Error>)
        ensures
            match r {
                Ok(html) => html.wf() && extracted_from(bytes@, option_text(url)) == Some(html@),
                Err(_) => extracted_from(bytes@, option_text(url)) is None,
            },
    {
        match DomNode::parse(bytes) {
            Ok(dom) => Ok(Self::from_dom(dom, url)),
            Err(e) => Err(e),
        }
    }

    /// Construct HTML from String, optionally with a URL set. The page is
    /// read from the UTF-8 bytes of the string, and it fails exactly where
    /// reading them does.
    pub fn from_string(html: String, url: Option<String>) -> (r: Result<Self, std::io::Error>)
        ensures
            match r {
                Ok(record) => record.wf() && extracted_from(
                    vstd::utf8::encode_utf8(html@),
                    option_text(url),
                ) == Some(record@),
                Err(_) => extracted_from(vstd::utf8::encode_utf8(html@), option_text(url)) is None,
            },
    {
        Self::from_bytes(html.as_str().as_bytes(), url)
    }

    /// Sets the URL of the page, and its parsed form with it.
    pub fn set_url(&mut self, url: Option<String>)
        requires
            old(self).wf(),
        ensures
            final(self).wf(),
            final(self)@ == (HtmlView { url: option_text(url), ..old(self)@ }),
    {
        self.url_parsed = match &url {
            Some(text) => parse_url(text.as_str()),
            None => None,
        };
        self.url = url;
    }
}

} // verus!
