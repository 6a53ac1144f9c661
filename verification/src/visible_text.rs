//! What the walk over a document takes into the text of the page.

use vstd::prelude::*;

use crate::dom::{AttributeView, NodeDataView, NodeView};
use crate::html::HtmlView;
use crate::parser::{
    Segment, appended_text, is_hidden_tag, segment_below, traversed, traversed_children, visited,
    with_element,
};

verus! {

/// The piece of text that `node` itself gives: its contents, where it is a
/// text node in the body whose parent is an element other than `<style>`,
/// `<script>` and `<noscript>`.
pub open spec fn own_text(node: NodeView, segment: Segment, parent: Option<NodeDataView>) -> Seq<
    Seq<char>,
> {
    match (node.data, parent) {
        (NodeDataView::Text { contents }, Some(NodeDataView::Element { name, attrs })) => {
            if segment == Segment::Body && !is_hidden_tag(name) {
                seq![contents]
            } else {
                Seq::empty()
            }
        },
        _ => Seq::empty(),
    }
}

/// The pieces of text that `node` and all that lies under it give, in
/// document order.
pub open spec fn shown_texts(node: NodeView, segment: Segment, parent: Option<NodeDataView>)
    -> Seq<Seq<char>>
    decreases node, node.children.len() + 1,
{
    own_text(node, segment, parent) + shown_in_children(
        node,
        node.children.len(),
        segment_below(node, segment),
    )
}

/// The pieces of text that the first `count` children of `node` give with
/// all that lies under them.
pub open spec fn shown_in_children(node: NodeView, count: nat, segment: Segment) -> Seq<Seq<char>>
    decreases node, count,
{
    if count == 0 || count > node.children.len() {
        Seq::empty()
    } else {
        shown_in_children(node, (count - 1) as nat, segment) + shown_texts(
            node.children[count - 1],
            segment,
            Some(node.data),
        )
    }
}

/// The text `text` after the pieces were appended in order.
pub open spec fn joined(text: Seq<char>, pieces: Seq<Seq<char>>) -> Seq<char>
    decreases pieces.len(),
{
    if pieces.len() == 0 {
        text
    } else {
        appended_text(joined(text, pieces.drop_last()), pieces.last())
    }
}

/// Whether `node` is a text node or a comment with nothing under it.
pub open spec fn is_leaf_text(node: NodeView) -> bool {
    (node.data is Text || node.data is Comment) && node.children.len() == 0
}

/// Appending two lists of pieces in turn is appending them as one.
pub proof fn lemma_joined_concat(text: Seq<char>, first: Seq<Seq<char>>, second: Seq<Seq<char>>)
    ensures
        joined(text, first + second) == joined(joined(text, first), second),
    decreases second.len(),
{
    if second.len() == 0 {
        assert(first + second == first);
    } else {
        lemma_joined_concat(text, first, second.drop_last());
        assert((first + second).drop_last() == first + second.drop_last());
        assert((first + second).last() == second.last());
    }
}

/// Reading an element leaves the text of the page as it is.
pub proof fn lemma_element_keeps_text(
    h: HtmlView,
    segment: Segment,
    tag: Seq<char>,
    attrs: Seq<AttributeView>,
    children: Seq<NodeView>,
)
    ensures
        with_element(h, segment, tag, attrs, children).text_content == h.text_content,
{
}

/// The text of the page after a walk is the text before it with the pieces
/// of [`shown_texts`] appended: the walk takes in the text nodes that lie in
/// the body directly under an element other than `<style>`, `<script>` and
/// `<noscript>`, and nothing else.
pub proof fn lemma_walk_appends_shown_texts(
    node: NodeView,
    segment: Segment,
    parent: Option<NodeDataView>,
    h: HtmlView,
)
    ensures
        traversed(node, segment, parent, h).text_content == joined(
            h.text_content,
            shown_texts(node, segment, parent),
        ),
    decreases node, node.children.len() + 1,
{
    let after = visited(node, segment, parent, h);
    let own = own_text(node, segment, parent);
    assert(after.text_content == joined(h.text_content, own)) by {
        match node.data {
            NodeDataView::Element { name, attrs } => {
                lemma_element_keeps_text(h, segment.entered(name), name, attrs, node.children);
            },
            _ => {},
        }
        if own.len() > 0 {
            assert(own.len() == 1);
            assert(own.drop_last().len() == 0);
            assert(joined(h.text_content, own.drop_last()) == h.text_content);
            assert(joined(h.text_content, own) == appended_text(h.text_content, own.last()));
        } else {
            assert(joined(h.text_content, own) == h.text_content);
        }
    }
    let below = segment_below(node, segment);
    lemma_children_append_shown_texts(node, node.children.len(), below, after);
    lemma_joined_concat(h.text_content, own, shown_in_children(node, node.children.len(), below));
}

/// The same for the first `count` children of a node.
pub proof fn lemma_children_append_shown_texts(
    node: NodeView,
    count: nat,
    segment: Segment,
    h: HtmlView,
)
    ensures
        traversed_children(node, count, segment, h).text_content == joined(
            h.text_content,
            shown_in_children(node, count, segment),
        ),
    decreases node, count,
{
    if count == 0 || count > node.children.len() {
    } else {
        let before = traversed_children(node, (count - 1) as nat, segment, h);
        lemma_children_append_shown_texts(node, (count - 1) as nat, segment, h);
        lemma_walk_appends_shown_texts(node.children[count - 1], segment, Some(node.data), before);
        lemma_joined_concat(
            h.text_content,
            shown_in_children(node, (count - 1) as nat, segment),
            shown_texts(node.children[count - 1], segment, Some(node.data)),
        );
    }
}

/// A text node directly under `<style>`, `<script>` or `<noscript>` gives no
/// piece of text, in whatever segment it lies.
pub proof fn lemma_text_under_hidden_tag_is_dropped(
    node: NodeView,
    segment: Segment,
    parent: Option<NodeDataView>,
)
    requires
        is_leaf_text(node),
        parent matches Some(NodeDataView::Element { name, attrs }) && is_hidden_tag(name),
    ensures
        shown_texts(node, segment, parent) == Seq::<Seq<char>>::empty(),
{
    assert(shown_in_children(node, 0, segment_below(node, segment)) == Seq::<Seq<char>>::empty());
}

/// A `<style>`, `<script>` or `<noscript>` element that holds text and
/// comments only leaves the text of the page as it is, wherever in the
/// document it stands.
pub proof fn lemma_hidden_element_keeps_text(
    node: NodeView,
    segment: Segment,
    parent: Option<NodeDataView>,
    h: HtmlView,
)
    requires
        node.data matches NodeDataView::Element { name, attrs } && is_hidden_tag(name),
        forall|i: int| 0 <= i < node.children.len() ==> is_leaf_text(#[trigger] node.children[i]),
    ensures
        shown_texts(node, segment, parent) == Seq::<Seq<char>>::empty(),
        traversed(node, segment, parent, h).text_content == h.text_content,
{
    let below = segment_below(node, segment);
    lemma_hidden_children_show_nothing(node, node.children.len(), below);
    lemma_walk_appends_shown_texts(node, segment, parent, h);
}

proof fn lemma_hidden_children_show_nothing(node: NodeView, count: nat, segment: Segment)
    requires
        node.data matches NodeDataView::Element { name, attrs } && is_hidden_tag(name),
        forall|i: int| 0 <= i < node.children.len() ==> is_leaf_text(#[trigger] node.children[i]),
        count <= node.children.len(),
    ensures
        shown_in_children(node, count, segment) == Seq::<Seq<char>>::empty(),
    decreases count,
{
    if count > 0 {
        lemma_hidden_children_show_nothing(node, (count - 1) as nat, segment);
        lemma_text_under_hidden_tag_is_dropped(node.children[count - 1], segment, Some(node.data));
    }
}

} // verus!
