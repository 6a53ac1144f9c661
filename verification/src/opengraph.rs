//! Opengraph information: the flat properties of a page and its grouped
//! image, video and audio objects.

use vstd::prelude::*;

use crate::string_map::StringMap;
use crate::text::{starts_with, str_eq};

verus! {

/// What an [`OpengraphObject`] holds.
pub struct OpengraphObjectView {
    pub url: Seq<char>,
    pub properties: Map<Seq<char>, Seq<char>>,
}

/// What an [`Opengraph`] holds.
pub struct OpengraphView {
    pub og_type: Seq<char>,
    pub properties: Map<Seq<char>, Seq<char>>,
    pub images: Seq<OpengraphObjectView>,
    pub videos: Seq<OpengraphObjectView>,
    pub audios: Seq<OpengraphObjectView>,
}

/// Info about an Opengraph media object.
#[derive(Debug, Clone)]
pub struct OpengraphObject {
    /// URL describing this object
    pub url: String,
    /// Properties of the referred object
    pub properties: StringMap,
}

/// Opengraph information of a page.
#[derive(Debug, Clone)]
pub struct Opengraph {
    /// Opengraph type (article, image, event, ..)
    pub og_type: String,
    /// Opengraph properties of this object
    pub properties: StringMap,
    /// Images relevant to this object
    pub images: Vec<OpengraphObject>,
    /// Videos relevant to this object
    pub videos: Vec<OpengraphObject>,
    /// Audio relevant to this object
    pub audios: Vec<OpengraphObject>,
}

impl View for OpengraphObject {
    type V = OpengraphObjectView;

    open spec fn view(&self) -> OpengraphObjectView {
        OpengraphObjectView { url: self.url@, properties: self.properties@ }
    }
}

impl View for Opengraph {
    type V = OpengraphView;

    open spec fn view(&self) -> OpengraphView {
        OpengraphView {
            og_type: self.og_type@,
            properties: self.properties@,
            images: object_views(self.images@),
            videos: object_views(self.videos@),
            audios: object_views(self.audios@),
        }
    }
}

/// The views of a list of objects.
pub open spec fn object_views(objects: Seq<OpengraphObject>) -> Seq<OpengraphObjectView> {
    objects.map_values(|o: OpengraphObject| o@)
}

/// Every object of the list is well formed.
pub open spec fn objects_wf(objects: Seq<OpengraphObject>) -> bool {
    forall|i: int| 0 <= i < objects.len() ==> (#[trigger] objects[i]).wf()
}

/// Whether `property` opens a new object of the media kind `kind`: it is the
/// kind itself, or the kind followed by `:url`.
pub open spec fn opens_object(kind: Seq<char>, property: Seq<char>) -> bool {
    property == kind || property.skip(kind.len() as int) == ":url"@
}

/// The list of objects of one media kind after `property`, which begins with
/// `kind`, was met with `content`.
///
/// An opening property appends an object with `content` as its URL. Another
/// property that is longer than the kind and one more character goes to the
/// object opened last, under the name that follows that character; where no
/// object is open, or nothing follows, it is dropped.
pub open spec fn grouped(
    kind: Seq<char>,
    property: Seq<char>,
    content: Seq<char>,
    objects: Seq<OpengraphObjectView>,
) -> Seq<OpengraphObjectView> {
    if opens_object(kind, property) {
        objects.push(OpengraphObjectView { url: content, properties: Map::empty() })
    } else if objects.len() > 0 && property.len() > kind.len() + 1 {
        objects.update(
            objects.len() - 1,
            OpengraphObjectView {
                url: objects.last().url,
                properties: objects.last().properties.insert(
                    property.skip(kind.len() as int + 1),
                    content,
                ),
            },
        )
    } else {
        objects
    }
}

/// The Opengraph information after the property `property`, written without
/// its `og:` prefix, was met with `content`.
pub open spec fn extended(og: OpengraphView, property: Seq<char>, content: Seq<char>)
    -> OpengraphView {
    if property == "type"@ {
        OpengraphView { og_type: content, ..og }
    } else if "image"@.is_prefix_of(property) {
        OpengraphView { images: grouped("image"@, property, content, og.images), ..og }
    } else if "video"@.is_prefix_of(property) {
        OpengraphView { videos: grouped("video"@, property, content, og.videos), ..og }
    } else if "audio"@.is_prefix_of(property) {
        OpengraphView { audios: grouped("audio"@, property, content, og.audios), ..og }
    } else {
        OpengraphView { properties: og.properties.insert(property, content), ..og }
    }
}

/// The Opengraph information after a list of properties was met in order.
pub open spec fn extended_all(og: OpengraphView, pairs: Seq<(Seq<char>, Seq<char>)>)
    -> OpengraphView
    decreases pairs.len(),
{
    if pairs.len() == 0 {
        og
    } else {
        extended(extended_all(og, pairs.drop_last()), pairs.last().0, pairs.last().1)
    }
}

/// The content of the last `type` property of the list, if it has one.
pub open spec fn declared_type(pairs: Seq<(Seq<char>, Seq<char>)>) -> Option<Seq<char>>
    decreases pairs.len(),
{
    if pairs.len() == 0 {
        None
    } else if pairs.last().0 == "type"@ {
        Some(pairs.last().1)
    } else {
        declared_type(pairs.drop_last())
    }
}

/// The type of a page is what its last `type` property says; without such a
/// property it stays what it was, which for [`Opengraph::empty`] is `website`.
pub proof fn lemma_type_is_last_declared(og: OpengraphView, pairs: Seq<(Seq<char>, Seq<char>)>)
    ensures
        extended_all(og, pairs).og_type == match declared_type(pairs) {
            Some(content) => content,
            None => og.og_type,
        },
    decreases pairs.len(),
{
    if pairs.len() > 0 {
        lemma_type_is_last_declared(og, pairs.drop_last());
    }
}

/// A property touches only the part of the record that its name selects: the
/// type, one of the three lists, or the flat properties.
pub proof fn lemma_extended_frame(og: OpengraphView, property: Seq<char>, content: Seq<char>)
    ensures
        property != "type"@ ==> extended(og, property, content).og_type == og.og_type,
        !"image"@.is_prefix_of(property) ==> extended(og, property, content).images == og.images,
        !"video"@.is_prefix_of(property) ==> extended(og, property, content).videos == og.videos,
        !"audio"@.is_prefix_of(property) ==> extended(og, property, content).audios == og.audios,
        property == "type"@ || "image"@.is_prefix_of(property) || "video"@.is_prefix_of(property)
            || "audio"@.is_prefix_of(property) ==> extended(og, property, content).properties
            == og.properties,
{
}

/// Grouping never removes an object nor changes the URL of one.
pub proof fn lemma_grouped_keeps_objects(
    kind: Seq<char>,
    property: Seq<char>,
    content: Seq<char>,
    objects: Seq<OpengraphObjectView>,
)
    ensures
        grouped(kind, property, content, objects).len() == objects.len() + (if opens_object(
            kind,
            property,
        ) {
            1int
        } else {
            0int
        }),
        forall|i: int|
            0 <= i < objects.len() ==> (#[trigger] grouped(kind, property, content, objects)[i]).url
                == objects[i].url,
        opens_object(kind, property) ==> grouped(kind, property, content, objects).last()
            == (OpengraphObjectView { url: content, properties: Map::empty() }),
{
}

impl OpengraphObject {
    /// The properties are a well-formed map.
    pub open spec fn wf(&self) -> bool {
        self.properties.wf()
    }

    /// An object with the given URL and no properties.
    pub fn new(url: String) -> (r: Self)
        ensures
            r.wf(),
            r.url == url,
            r@ == (OpengraphObjectView { url: url@, properties: Map::empty() }),
    {
        Self { url, properties: StringMap::new() }
    }
}

impl Opengraph {
    /// The flat properties and those of every object are well-formed maps.
    pub open spec fn wf(&self) -> bool {
        &&& self.properties.wf()
        &&& objects_wf(self.images@)
        &&& objects_wf(self.videos@)
        &&& objects_wf(self.audios@)
    }

    /// The information of a page that declares nothing: of type `website`,
    /// without properties or objects.
    pub fn empty() -> (r: Self)
        ensures
            r.wf(),
            r@ == (OpengraphView {
                og_type: "website"@,
                properties: Map::empty(),
                images: Seq::empty(),
                videos: Seq::empty(),
                audios: Seq::empty(),
            }),
    {
        let r = Self {
            og_type: "website".to_string(),
            properties: StringMap::new(),
            images: Vec::new(),
            videos: Vec::new(),
            audios: Vec::new(),
        };
        assert(r@.images == Seq::<OpengraphObjectView>::empty());
        assert(r@.videos == Seq::<OpengraphObjectView>::empty());
        assert(r@.audios == Seq::<OpengraphObjectView>::empty());
        r
    }

    /// Takes in one property, written without its `og:` prefix.
    ///
    /// `type` sets the type. A property that begins with `image`, `video` or
    /// `audio` goes to the objects of that kind. Any other becomes a flat
    /// property, in place of an earlier one of the same name.
    pub fn extend(&mut self, property: &str, content: String)
        requires
            old(self).wf(),
        ensures
            final(self).wf(),
            final(self)@ == extended(old(self)@, property@, content@),
    {
        if str_eq(property, "type") {
            self.og_type = content;
        } else if starts_with(property, "image") {
            parse_object("image", property, content, &mut self.images);
        } else if starts_with(property, "video") {
            parse_object("video", property, content, &mut self.videos);
        } else if starts_with(property, "audio") {
            parse_object("audio", property, content, &mut self.audios);
        } else {
            self.properties.insert(property.to_string(), content);
        }
    }
}

/// Takes a property of the media kind `og_type` into the objects of that
/// kind: see [`grouped`].
pub fn parse_object(
    og_type: &str,
    property: &str,
    content: String,
    collection: &mut Vec<OpengraphObject>,
)
    requires
        og_type@.is_prefix_of(property@),
        objects_wf(old(collection)@),
    ensures
        objects_wf(final(collection)@),
        object_views(final(collection)@) == grouped(
            og_type@,
            property@,
            content@,
            object_views(old(collection)@),
        ),
{
    let num_objects = collection.len();
    let kind_len = og_type.unicode_len();
    let property_len = property.unicode_len();
    let ghost before = object_views(collection@);

    if str_eq(property, og_type) || str_eq(property.substring_char(kind_len, property_len), ":url") {
        collection.push(OpengraphObject::new(content));
        assert(object_views(collection@) == before.push(
            OpengraphObjectView { url: content@, properties: Map::empty() },
        ));
    } else if num_objects > 0 && property_len - kind_len > 1 {
        let name = property.substring_char(kind_len + 1, property_len);
        collection[num_objects - 1].properties.insert(name.to_string(), content);
        assert(object_views(collection@) == grouped(og_type@, property@, content@, before));
    }
}

} // verus!
