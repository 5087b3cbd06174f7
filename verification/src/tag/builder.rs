//! Building a list of tags, and laying a list out as the flat,
//! sentinel-terminated array that every native call takes.

use crate::error::Error;
use crate::sys::sentinel;
use crate::sys::wire_views;
use crate::sys::WireTag;
use crate::sys::WireTagView;
use crate::tag::tag::item_of_tag;
use crate::tag::tag::item_to_wire;
use crate::tag::tag::tag_with;
use crate::tag::tag::Kind;
use crate::tag::tag::Tag;
use crate::tag::tag::TagItem;
use crate::tag::tag::TagItemView;
use crate::tag::tag::TagView;
use crate::text::lemma_until_nul;
use crate::text::nul_free;
use vstd::prelude::*;
use vstd::string::*;
use vstd::utf8::*;

verus! {

/// A list of tags, tag by tag.
pub open spec fn tag_views(tags: Seq<Tag>) -> Seq<TagView> {
    tags.map_values(|t: Tag| t@)
}

/// A list of native tags, tag by tag.
pub open spec fn item_views(items: Seq<TagItem>) -> Seq<TagItemView> {
    items.map_values(|i: TagItem| i@)
}

/// The parameter array for a list of native tags: one entry for each tag,
/// in order, and the sentinel behind them.
pub open spec fn wire_list(items: Seq<TagItemView>) -> Seq<WireTagView> {
    items.map_values(|i: TagItemView| item_to_wire(i)).push(sentinel())
}

/// The parameter array for a list of tags.
pub open spec fn wire_of_tags(tags: Seq<TagView>) -> Seq<WireTagView> {
    wire_list(tags.map_values(|t: TagView| item_of_tag(t)))
}

/// Whatever the list, its parameter array is one entry longer, holds the
/// tags' entries in order, and ends with the sentinel.
pub proof fn lemma_wire_ends_with_sentinel(tags: Seq<TagView>)
    ensures
        wire_of_tags(tags).len() == tags.len() + 1,
        wire_of_tags(tags).last() == sentinel(),
        forall|i: int|
            0 <= i < tags.len() ==> wire_of_tags(tags)[i] == item_to_wire(item_of_tag(tags[i])),
{
}

/// The value of an entry, where it has one, holds no terminator.
pub open spec fn value_terminates(entry: WireTagView) -> bool {
    entry.t_value matches Some(bytes) ==> nul_free(bytes)
}

/// Whatever text the tags were written with, no value in their parameter
/// array holds a terminator: the engine reads every value in full.
pub proof fn lemma_wire_values_terminate(tags: Seq<TagView>)
    ensures
        forall|i: int|
            0 <= i < wire_of_tags(tags).len() ==> value_terminates(#[trigger] wire_of_tags(tags)[i]),
{
    assert forall|i: int| 0 <= i < wire_of_tags(tags).len() implies value_terminates(
        #[trigger] wire_of_tags(tags)[i],
    ) by {
        if i < tags.len() {
            lemma_until_nul(encode_utf8(tags[i].text));
        }
    }
}

/// Lays native tags out as a parameter array.
pub fn convert_tags(tags: &[TagItem]) -> (sys_tags: Vec<WireTag>)
    ensures
        wire_views(sys_tags@) == wire_list(item_views(tags@)),
        sys_tags@.len() == tags@.len() + 1,
        sys_tags@.last()@ == sentinel(),
{
    let mut sys_tags: Vec<WireTag> = Vec::new();
    let mut i: usize = 0;
    while i < tags.len()
        invariant
            i <= tags.len(),
            wire_views(sys_tags@) == item_views(tags@).subrange(0, i as int).map_values(
                |t: TagItemView| item_to_wire(t),
            ),
        decreases tags.len() - i,
    {
        let ghost before = wire_views(sys_tags@);
        sys_tags.push(tags[i].item());
        assert(wire_views(sys_tags@) =~= before.push(item_to_wire(tags@[i as int]@)));
        assert(item_views(tags@).subrange(0, i + 1).map_values(|t: TagItemView| item_to_wire(t))
            =~= before.push(item_to_wire(tags@[i as int]@)));
        i += 1;
    }
    /* the last entry must be the sentinel */
    let tag_null = TagItem::Null;
    let ghost before = wire_views(sys_tags@);
    sys_tags.push(tag_null.item());
    assert(item_views(tags@).subrange(0, tags@.len() as int) =~= item_views(tags@));
    assert(wire_views(sys_tags@) =~= before.push(sentinel()));
    sys_tags
}

/// The native forms of a list of tags, in order.
pub fn convert_items(tags: &[Tag]) -> (items: Vec<TagItem>)
    ensures
        item_views(items@) == tag_views(tags@).map_values(|t: TagView| item_of_tag(t)),
        forall|i: int| 0 <= i < items@.len() ==> items@[i].wf(),
{
    let mut items: Vec<TagItem> = Vec::new();
    let mut i: usize = 0;
    while i < tags.len()
        invariant
            i <= tags.len(),
            item_views(items@) == tag_views(tags@).subrange(0, i as int).map_values(
                |t: TagView| item_of_tag(t),
            ),
            forall|k: int| 0 <= k < items@.len() ==> items@[k].wf(),
        decreases tags.len() - i,
    {
        let ghost before = item_views(items@);
        let item = TagItem::from(&tags[i]);
        items.push(item);
        assert(item_views(items@) =~= before.push(item_of_tag(tags@[i as int]@)));
        assert(tag_views(tags@).subrange(0, i + 1).map_values(|t: TagView| item_of_tag(t))
            =~= before.push(item_of_tag(tags@[i as int]@)));
        i += 1;
    }
    assert(tag_views(tags@).subrange(0, tags@.len() as int) =~= tag_views(tags@));
    items
}

/// Lays a list of tags out as a parameter array.
pub fn wire_tags(tags: &[Tag]) -> (sys_tags: Vec<WireTag>)
    ensures
        wire_views(sys_tags@) == wire_of_tags(tag_views(tags@)),
        sys_tags@.len() == tags@.len() + 1,
        sys_tags@.last()@ == sentinel(),
{
    let items = convert_items(tags);
    convert_tags(items.as_slice())
}

/// The parameter array that goes with a call: the one given, or the
/// sentinel alone where none is given.
pub fn array_or_sentinel(tags: Option<Vec<WireTag>>) -> (array: Vec<WireTag>)
    requires
        tags matches Some(given) ==> given@.len() > 0 && given@.last()@ == sentinel(),
    ensures
        array@.len() > 0,
        array@.last()@ == sentinel(),
        match tags {
            Some(given) => array == given,
            None => array@.len() == 1,
        },
{
    match tags {
        Some(given) => given,
        None => {
            let mut array: Vec<WireTag> = Vec::new();
            array.push(TagItem::Null.item());
            array
        },
    }
}

/// Collects tags in the order in which they are given.
#[derive(Debug, Clone)]
pub struct Builder {
    tags: Vec<Tag>,
}

impl View for Builder {
    type V = Seq<TagView>;

    closed spec fn view(&self) -> Seq<TagView> {
        tag_views(self.tags@)
    }
}

/// What adding a tag of `kind` with `text` owes: the list with the tag
/// behind it, if and only if the text holds no terminator byte.
pub open spec fn adds(
    before: Seq<TagView>,
    kind: Kind,
    text: Seq<char>,
    res: Result<Builder, Error>,
) -> bool {
    if nul_free(encode_utf8(text)) {
        res matches Ok(builder) && builder@ == before.push(tag_with(kind, text))
    } else {
        res matches Err(e) && e == Error::ConvertToCStringError
    }
}

impl Builder {
    /// A builder that holds no tag.
    pub fn default() -> (builder: Builder)
        ensures
            builder@ == Seq::<TagView>::empty(),
    {
        let builder = Builder { tags: Vec::<Tag>::new() };
        assert(builder@ =~= Seq::<TagView>::empty());
        builder
    }

    /// The address that the agent binds to.
    pub fn nutag_url(self, url: &str) -> (res: Result<Builder, Error>)
        ensures
            adds(self@, Kind::NuUrl, url@, res),
    {
        match Tag::NuUrl(url.to_string()) {
            Ok(tag) => Ok(self.tag(tag)),
            Err(e) => Err(e),
        }
    }

    /// The user name of the agent's contact.
    pub fn nutag_m_username(self, s: &str) -> (res: Result<Builder, Error>)
        ensures
            adds(self@, Kind::NuMUsername, s@, res),
    {
        match Tag::NuMUsername(s.to_string()) {
            Ok(tag) => Ok(self.tag(tag)),
            Err(e) => Err(e),
        }
    }

    /// The display name of the agent's contact.
    pub fn nutag_m_display(self, s: &str) -> (res: Result<Builder, Error>)
        ensures
            adds(self@, Kind::NuMDisplay, s@, res),
    {
        match Tag::NuMDisplay(s.to_string()) {
            Ok(tag) => Ok(self.tag(tag)),
            Err(e) => Err(e),
        }
    }

    /// The session description that the user offers.
    pub fn soatag_user_sdp_str(self, s: &str) -> (res: Result<Builder, Error>)
        ensures
            adds(self@, Kind::SoaUserSdpStr, s@, res),
    {
        match Tag::SoaUserSdp(s.to_string()) {
            Ok(tag) => Ok(self.tag(tag)),
            Err(e) => Err(e),
        }
    }

    /// The subject of a message.
    pub fn siptag_subject_str(self, s: &str) -> (res: Result<Builder, Error>)
        ensures
            adds(self@, Kind::SipSubjectStr, s@, res),
    {
        match Tag::SipSubject(s.to_string()) {
            Ok(tag) => Ok(self.tag(tag)),
            Err(e) => Err(e),
        }
    }

    /// The content type of a message.
    pub fn siptag_content_type_str(self, s: &str) -> (res: Result<Builder, Error>)
        ensures
            adds(self@, Kind::SipContentTypeStr, s@, res),
    {
        match Tag::SipContentType(s.to_string()) {
            Ok(tag) => Ok(self.tag(tag)),
            Err(e) => Err(e),
        }
    }

    /// The body of a message.
    pub fn siptag_payload_str(self, s: &str) -> (res: Result<Builder, Error>)
        ensures
            adds(self@, Kind::SipPayloadStr, s@, res),
    {
        match Tag::SipPayload(s.to_string()) {
            Ok(tag) => Ok(self.tag(tag)),
            Err(e) => Err(e),
        }
    }

    /// The address that a message goes to.
    pub fn siptag_to_str(self, s: &str) -> (res: Result<Builder, Error>)
        ensures
            adds(self@, Kind::SipToStr, s@, res),
    {
        match Tag::SipTo(s.to_string()) {
            Ok(tag) => Ok(self.tag(tag)),
            Err(e) => Err(e),
        }
    }

    /// Adds a tag behind those already given.
    pub fn tag(self, tag: Tag) -> (builder: Builder)
        ensures
            builder@ == self@.push(tag@),
    {
        let mut tags = self.tags;
        tags.push(tag);
        let builder = Builder { tags };
        assert(builder@ =~= self@.push(tag@));
        builder
    }

    /// The tags, in the order in which they were given.
    pub fn collect(self) -> (tags: Vec<Tag>)
        ensures
            tag_views(tags@) == self@,
    {
        self.tags
    }
}

} // verus!
