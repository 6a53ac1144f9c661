//! The parsed document: a tree of nodes, each with its kind, and for an
//! element its tag name and attributes.

use vstd::prelude::*;

verus! {

/// What an [`Attribute`] holds.
pub struct AttributeView {
    pub name: Seq<char>,
    pub value: Seq<char>,
}

/// What a [`NodeData`] holds.
pub enum NodeDataView {
    Document,
    Doctype,
    Text { contents: Seq<char> },
    Comment,
    Element { name: Seq<char>, attrs: Seq<AttributeView> },
    ProcessingInstruction,
}

/// What a [`DomNode`] holds.
pub struct NodeView {
    pub data: NodeDataView,
    pub children: Seq<NodeView>,
}

/// An attribute of an element: its local name and its value.
#[derive(Debug, Clone, PartialEq, Eq)]
pub struct Attribute {
    pub name: String,
    pub value: String,
}

/// The kind of a node, with the text of a text node and the local name and
/// attributes of an element.
#[derive(Debug, Clone, PartialEq, Eq)]
pub enum NodeData {
    Document,
    Doctype,
    Text { contents: String },
    Comment,
    Element { name: String, attrs: Vec<Attribute> },
    ProcessingInstruction,
}

/// A node of the document and the nodes under it, in document order.
#[derive(Debug)]
pub struct DomNode {
    pub data: NodeData,
    pub children: Vec<DomNode>,
}

impl View for Attribute {
    type V = AttributeView;

    open spec fn view(&self) -> AttributeView {
        AttributeView { name: self.name@, value: self.value@ }
    }
}

/// The views of a list of attributes.
pub open spec fn attribute_views(attrs: Seq<Attribute>) -> Seq<AttributeView> {
    attrs.map_values(|a: Attribute| a@)
}

impl View for NodeData {
    type V = NodeDataView;

    open spec fn view(&self) -> NodeDataView {
        match self {
            NodeData::Document => NodeDataView::Document,
            NodeData::Doctype => NodeDataView::Doctype,
            NodeData::Text { contents } => NodeDataView::Text { contents: contents@ },
            NodeData::Comment => NodeDataView::Comment,
            NodeData::Element { name, attrs } => NodeDataView::Element {
                name: name@,
                attrs: attribute_views(attrs@),
            },
            NodeData::ProcessingInstruction => NodeDataView::ProcessingInstruction,
        }
    }
}

impl View for DomNode {
    type V = NodeView;

    open spec fn view(&self) -> NodeView
        decreases self,
    {
        NodeView {
            data: self.data@,
            children: Seq::new(
                self.children@.len(),
                |i: int|
                    if 0 <= i < self.children@.len() {
                        self.children@[i]@
                    } else {
                        NodeView { data: NodeDataView::Document, children: Seq::empty() }
                    },
            ),
        }
    }
}

impl Attribute {
    /// The attribute `name` with the value `value`.
    pub fn new(name: String, value: String) -> (r: Self)
        ensures
            r.name == name,
            r.value == value,
    {
        Attribute { name, value }
    }
}

impl DomNode {
    /// A node without children.
    pub fn new(data: NodeData) -> (r: Self)
        ensures
            r.data == data,
            r.children@.len() == 0,
            r@ == (NodeView { data: data@, children: Seq::empty() }),
    {
        let r = DomNode { data, children: Vec::new() };
        assert(r@.children == Seq::<NodeView>::empty());
        r
    }

    /// A node with the given children.
    pub fn with_children(data: NodeData, children: Vec<DomNode>) -> (r: Self)
        ensures
            r.data == data,
            r.children == children,
    {
        DomNode { data, children }
    }

    /// The view of a node unfolds to the views of its children.
    pub proof fn lemma_view(&self)
        ensures
            self@.data == self.data@,
            self@.children.len() == self.children@.len(),
            forall|i: int|
                0 <= i < self.children@.len() ==> (#[trigger] self@.children[i])
                    == self.children@[i]@,
    {
    }
}

/// What a node of `markup5ever_rcdom` and the nodes under it hold: for each
/// its kind, for a text node its contents, for an element its local name and
/// the local names and values of its attributes, and its children in order.
pub uninterp spec fn dom_view(node: markup5ever_rcdom::Node) -> NodeView;

/// What parsing the bytes of a page gives: the document that `html5ever`
/// builds from them, or `None` where reading them fails.
pub uninterp spec fn parsed_document(bytes: Seq<u8>) -> Option<NodeView>;

/// A node of `markup5ever_rcdom`, carried as it comes from the parser.
#[verifier::external_type_specification]
#[verifier::external_body]
pub struct ExRcDomNode(markup5ever_rcdom::Node);

/// `std::io::Error`, handed on to the caller as it comes.
#[verifier::external_type_specification]
#[verifier::external_body]
pub struct ExIoError(std::io::Error);

/// `html5ever::parse_document` into an `RcDom`, fed through `from_utf8` and
/// `read_from` with the bytes as the reader: the document node of the tree
/// that the parser builds, or the error of the reader. The reader is the
/// slice itself, so which of the two comes, and the tree, follow from the
/// bytes alone.
#[verifier::external_body]
fn read_document(bytes: &[u8]) -> (r: Result<std::rc::Rc<markup5ever_rcdom::Node>, std::io::Error>)
    ensures
        match r {
            Ok(document) => parsed_document(bytes@) == Some(dom_view(*document)),
            Err(_) => parsed_document(bytes@) is None,
        },
{
    let mut reader = bytes;
    let sink = markup5ever_rcdom::RcDom::default();
    let parser = html5ever::parse_document(sink, html5ever::driver::ParseOpts::default());
    html5ever::tendril::TendrilSink::read_from(parser.from_utf8(), &mut reader).map(
        |dom| dom.document,
    )
}

/// Copies a node of `markup5ever_rcdom` and the nodes under it into a
/// [`DomNode`], kind by kind, names and text as strings.
#[verifier::external_body]
fn tree_of(node: &std::rc::Rc<markup5ever_rcdom::Node>) -> (r: DomNode)
    ensures
        r@ == dom_view(**node),
{
    let data = match &node.data {
        markup5ever_rcdom::NodeData::Document => NodeData::Document,
        markup5ever_rcdom::NodeData::Doctype { .. } => NodeData::Doctype,
        markup5ever_rcdom::NodeData::Text { contents } => NodeData::Text { contents: contents.borrow().to_string() },
        markup5ever_rcdom::NodeData::Comment { .. } => NodeData::Comment,
        markup5ever_rcdom::NodeData::Element { name, attrs, .. } => NodeData::Element {
            name: name.local.to_string(),
            attrs: attrs.borrow().iter().map(|a| Attribute::new(a.name.local.to_string(), a.value.to_string())).collect(),
        },
        markup5ever_rcdom::NodeData::ProcessingInstruction { .. } => NodeData::ProcessingInstruction,
    };
    DomNode { data, children: node.children.borrow().iter().map(tree_of).collect() }
}

impl DomNode {
    /// Parses the bytes of a page, taken as UTF-8, into its document. It
    /// fails exactly where reading the bytes does.
    pub fn parse(bytes: &[u8]) -> (r: Result<DomNode, std::io::Error>)
        ensures
            match r {
                Ok(document) => parsed_document(bytes@) == Some(document@),
                Err(_) => parsed_document(bytes@) is None,
            },
    {
        match read_document(bytes) {
            Ok(document) => Ok(tree_of(&document)),
            Err(e) => Err(e),
        }
    }
}

} // verus!
