//! Schema.org information, read from JSON-LD blocks.

use vstd::prelude::*;

use crate::json::{Json, JsonView, parsed_json};

verus! {

/// What a [`SchemaOrg`] holds.
pub struct SchemaOrgView {
    pub schema_type: Seq<char>,
    pub value: JsonView,
}

/// One Schema.org record.
#[derive(Debug, Clone)]
pub struct SchemaOrg {
    /// Schema.org type (article, image, event)
    pub schema_type: String,
    /// Schema.org info
    pub value: Json,
}

impl View for SchemaOrg {
    type V = SchemaOrgView;

    open spec fn view(&self) -> SchemaOrgView {
        SchemaOrgView { schema_type: self.schema_type@, value: self.value@ }
    }
}

/// The views of a list of records.
pub open spec fn record_views(records: Seq<SchemaOrg>) -> Seq<SchemaOrgView> {
    records.map_values(|r: SchemaOrg| r@)
}

/// The views of a list of JSON values.
pub open spec fn json_views(values: Seq<Json>) -> Seq<JsonView> {
    values.map_values(|v: Json| v@)
}

/// The values that a block offers: the items of an array, or the one value.
pub open spec fn candidates(root: JsonView) -> Seq<JsonView> {
    match root {
        JsonView::Array(items) => items,
        _ => seq![root],
    }
}

/// The items under `@graph` of the first candidate, where that is an object
/// whose `@graph` is an array.
pub open spec fn graph_of(values: Seq<JsonView>) -> Option<Seq<JsonView>> {
    if values.len() > 0 {
        match values[0].member("@graph"@) {
            Some(JsonView::Array(items)) => Some(items),
            _ => None,
        }
    } else {
        None
    }
}

/// The candidates after the `@graph` of the first has taken their place,
/// where it has one.
pub open spec fn unwrapped(values: Seq<JsonView>) -> Seq<JsonView> {
    match graph_of(values) {
        Some(items) => items,
        None => values,
    }
}

/// The record that a candidate gives: one for an object whose `@type` is a
/// string, with the whole object as its value.
pub open spec fn record_of(value: JsonView) -> Option<SchemaOrgView> {
    match value.member("@type"@) {
        Some(JsonView::Str(name)) => Some(SchemaOrgView { schema_type: name, value }),
        _ => None,
    }
}

/// The records of a list of candidates, in their order.
pub open spec fn records_of(values: Seq<JsonView>) -> Seq<SchemaOrgView>
    decreases values.len(),
{
    if values.len() == 0 {
        Seq::empty()
    } else {
        match record_of(values.last()) {
            Some(record) => records_of(values.drop_last()).push(record),
            None => records_of(values.drop_last()),
        }
    }
}

/// The records that a JSON value gives.
pub open spec fn decoded(root: JsonView) -> Seq<SchemaOrgView> {
    records_of(unwrapped(candidates(root)))
}

/// The records that the text of a JSON-LD block gives. Text that is not JSON
/// counts as `null`.
pub open spec fn decoded_text(text: Seq<char>) -> Seq<SchemaOrgView> {
    decoded(
        match parsed_json(text) {
            Some(root) => root,
            None => JsonView::Null,
        },
    )
}

/// Text that is not JSON gives no record.
pub proof fn lemma_malformed_gives_nothing(text: Seq<char>)
    requires
        parsed_json(text) is None,
    ensures
        decoded_text(text) == Seq::<SchemaOrgView>::empty(),
{
    let values = seq![JsonView::Null];
    assert(unwrapped(values) == values);
    assert(values.drop_last().len() == 0);
    assert(records_of(values) == records_of(values.drop_last()));
}

/// An object with an array under `@graph` gives the records of that array's
/// items, and none of its own.
pub proof fn lemma_graph_unwraps(root: JsonView, items: Seq<JsonView>)
    requires
        root.member("@graph"@) == Some(JsonView::Array(items)),
    ensures
        decoded(root) == records_of(items),
{
    assert(root is Object);
    assert(candidates(root)[0] == root);
}

/// Each record comes from a candidate, in order: it holds that candidate and
/// the string under its `@type`, and no candidate gives two.
pub proof fn lemma_records_come_from_candidates(values: Seq<JsonView>)
    ensures
        records_of(values).len() <= values.len(),
        forall|i: int|
            0 <= i < records_of(values).len() ==> (#[trigger] records_of(values)[i]).value.member(
                "@type"@,
            ) == Some(JsonView::Str(records_of(values)[i].schema_type)),
        forall|i: int|
            0 <= i < records_of(values).len() ==> values.contains(
                (#[trigger] records_of(values)[i]).value,
            ),
    decreases values.len(),
{
    if values.len() > 0 {
        let rest = values.drop_last();
        lemma_records_come_from_candidates(rest);
        assert forall|i: int| 0 <= i < records_of(values).len() implies values.contains(
            (#[trigger] records_of(values)[i]).value,
        ) by {
            if i < records_of(rest).len() {
                let v = records_of(rest)[i].value;
                assert(rest.contains(v));
                let j = choose|j: int| 0 <= j < rest.len() && rest[j] == v;
                assert(values[j] == v);
            } else {
                assert(values[values.len() - 1] == values.last());
            }
        }
    }
}

impl SchemaOrg {
    /// The records of a JSON-LD block, given as its text. Text that is not
    /// JSON gives none.
    pub fn from(content: String) -> (r: Vec<Self>)
        ensures
            record_views(r@) == decoded_text(content@),
    {
        let node = match Json::parse(content.as_str()) {
            Some(node) => node,
            None => Json::Null,
        };
        Self::from_json(node)
    }

    /// The records of a JSON-LD block, given as its value.
    ///
    /// The candidates are the items of an array, or the value itself. Where
    /// the first candidate is an object with an array under `@graph`, the
    /// items of that array are the candidates instead. Each candidate that is
    /// an object with a string under `@type` gives one record.
    pub fn from_json(node: Json) -> (r: Vec<Self>)
        ensures
            record_views(r@) == decoded(node@),
    {
        let ghost root = node@;
        let vals: Vec<Json> = match node {
            Json::Array(items) => {
                assert(json_views(items@) == root->Array_0);
                items
            },
            other => {
                let mut one: Vec<Json> = Vec::new();
                one.push(other);
                assert(json_views(one@) == seq![root]);
                one
            },
        };
        assert(json_views(vals@) == candidates(root));
        let vals: Vec<Json> = match graph_items(&vals) {
            Some(items) => items,
            None => vals,
        };
        assert(json_views(vals@) == unwrapped(candidates(root)));

        let ghost all = json_views(vals@);
        let mut records: Vec<SchemaOrg> = Vec::new();
        let mut i: usize = 0;
        while i < vals.len()
            invariant
                i <= vals@.len(),
                all == json_views(vals@),
                record_views(records@) == records_of(all.take(i as int)),
            decreases vals@.len() - i,
        {
            proof {
                assert(all.take(i as int + 1).drop_last() == all.take(i as int));
                assert(all.take(i as int + 1).last() == vals@[i as int]@);
            }
            let ghost before = record_views(records@);
            if let Some(Json::Str(name)) = vals[i].get("@type") {
                let record = SchemaOrg { schema_type: name.clone(), value: vals[i].clone() };
                records.push(record);
                assert(record_views(records@) == before.push(record@));
            }
            i += 1;
        }
        assert(all.take(vals@.len() as int) == all);
        records
    }
}

/// The items under `@graph` of the first value: see [`graph_of`].
fn graph_items(vals: &Vec<Json>) -> (r: Option<Vec<Json>>)
    ensures
        match r {
            Some(items) => graph_of(json_views(vals@)) == Some(json_views(items@)),
            None => graph_of(json_views(vals@)) is None,
        },
{
    if vals.len() == 0 {
        return None;
    }
    match vals[0].get("@graph") {
        Some(Json::Array(items)) => {
            let mut copy: Vec<Json> = Vec::new();
            let mut i: usize = 0;
            while i < items.len()
                invariant
                    i <= items@.len(),
                    copy@.len() == i,
                    forall|j: int| 0 <= j < i ==> copy@[j]@ == items@[j]@,
                decreases items@.len() - i,
            {
                copy.push(items[i].clone());
                i += 1;
            }
            assert(json_views(copy@) == Json::Array(*items)@->Array_0);
            Some(copy)
        },
        _ => None,
    }
}

} // verus!
