//! One parameter tag, in the form that callers write and in the form that
//! the native engine reads, and the conversions between the two.

use crate::error::Error;
use crate::sys::opt_bytes;
use crate::sys::pointee;
use crate::sys::raw_tag_type_view;
use crate::sys::wire_view;
use crate::sys::RawTagType;
use crate::sys::RawTagTypeView;
use crate::sys::Symbol;
use crate::sys::WireTag;
use crate::sys::WireTagView;
use crate::text::c_string_at;
use crate::text::copy_first;
use crate::text::copy_until_nul;
use crate::text::decoded;
use crate::text::find_nul;
use crate::text::first_bytes;
use crate::text::lemma_c_len;
use crate::text::lemma_c_len_unique;
use crate::text::lemma_decoded_of_encoded;
use crate::text::lemma_until_nul;
use crate::text::nul_free;
use crate::text::to_string_lossy;
use crate::text::until_nul;
use vstd::prelude::*;
use vstd::slice::*;
use vstd::string::*;
use vstd::utf8::*;

verus! {

/// The class of a tag symbol: how the engine reads and prints the values
/// of the tags under it.  The library holds nothing about it.
#[derive(Debug, Clone, Default)]
pub struct TagTypeClass {}

/// The name of a native tag symbol: a namespace and a name within it.
#[derive(Debug, Clone, Default, PartialEq)]
pub struct TagType {
    namespace: Vec<u8>,
    name: Vec<u8>,
}

/// A [`TagType`] as two byte strings.
pub struct TagTypeView {
    pub namespace: Seq<u8>,
    pub name: Seq<u8>,
}

impl View for TagType {
    type V = TagTypeView;

    closed spec fn view(&self) -> TagTypeView {
        TagTypeView { namespace: self.namespace@, name: self.name@ }
    }
}

/// The name that stands where the engine gave none.
pub open spec fn no_tag_type() -> TagTypeView {
    TagTypeView { namespace: Seq::empty(), name: Seq::empty() }
}

/// The name read out of an engine record, or the empty name for none.
pub open spec fn tag_type_from_sys(tt: Option<RawTagTypeView>) -> TagTypeView {
    match tt {
        Some(raw) => TagTypeView {
            namespace: c_string_at(raw.tt_ns),
            name: c_string_at(raw.tt_name),
        },
        None => no_tag_type(),
    }
}

impl TagType {
    /// Neither part holds a terminator.
    pub open spec fn wf(&self) -> bool {
        nul_free(self@.namespace) && nul_free(self@.name)
    }

    /// Reads the name of a symbol out of the engine's record of it.
    pub fn _from_sys(tt: Option<&RawTagType>) -> (tag_type: TagType)
        ensures
            tag_type.wf(),
            tag_type@ == tag_type_from_sys(raw_tag_type_view(pointee(tt))),
    {
        let mut tag_type = TagType { namespace: Vec::new(), name: Vec::new() };
        let raw = match tt {
            Some(raw) => raw,
            None => {
                return tag_type;
            },
        };
        if let Some(ns) = &raw.tt_ns {
            tag_type.namespace = copy_until_nul(ns.as_slice());
        }
        if let Some(name) = &raw.tt_name {
            tag_type.name = copy_until_nul(name.as_slice());
        }
        proof {
            if raw.tt_ns is Some {
                lemma_until_nul(raw.tt_ns->0@);
            }
            if raw.tt_name is Some {
                lemma_until_nul(raw.tt_name->0@);
            }
        }
        tag_type
    }

    /// The namespace, as bytes.
    pub fn namespace(&self) -> (bytes: &Vec<u8>)
        ensures
            bytes@ == self@.namespace,
    {
        &self.namespace
    }

    /// The name, as bytes.
    pub fn name(&self) -> (bytes: &Vec<u8>)
        ensures
            bytes@ == self@.name,
    {
        &self.name
    }

    /// A copy with the same namespace and name.
    pub fn duplicate(&self) -> (copy: TagType)
        ensures
            copy@ == self@,
    {
        TagType {
            namespace: slice_to_vec(self.namespace.as_slice()),
            name: slice_to_vec(self.name.as_slice()),
        }
    }
}

/// Which parameter a tag stands for.
#[derive(Debug, Clone, Copy, PartialEq, Eq, Structural)]
pub enum Kind {
    PlaceHolder,
    NuUrl,
    NuMUsername,
    NuMDisplay,
    SoaUserSdpStr,
    SipSubjectStr,
    SipContentTypeStr,
    SipPayloadStr,
    SipToStr,
    NotImplemented,
    Null,
    End,
}

impl Kind {
    /// Tags of this kind carry a string.
    pub open spec fn carries_text(self) -> bool {
        !(self is NotImplemented || self is Null || self is End)
    }

    /// Tags of this kind name a parameter of the engine.
    pub open spec fn is_named(self) -> bool {
        self.carries_text() && !(self is PlaceHolder)
    }

    /// The native symbol that tags of this kind are sent under.
    pub open spec fn symbol(self) -> Symbol {
        match self {
            Kind::NuUrl => Symbol::NuUrl,
            Kind::NuMUsername => Symbol::NuMUsername,
            Kind::NuMDisplay => Symbol::NuMDisplay,
            Kind::SoaUserSdpStr => Symbol::SoaUserSdpStr,
            Kind::SipSubjectStr => Symbol::SipSubjectStr,
            Kind::SipContentTypeStr => Symbol::SipContentTypeStr,
            Kind::SipPayloadStr => Symbol::SipPayloadStr,
            Kind::SipToStr => Symbol::SipToStr,
            Kind::PlaceHolder | Kind::NotImplemented | Kind::Null | Kind::End => Symbol::Null,
        }
    }

    /// The kind of tag that an entry under `symbol` is read as.
    pub open spec fn of_symbol(symbol: Symbol) -> Kind {
        match symbol {
            Symbol::Null | Symbol::TagNull => Kind::Null,
            Symbol::NuUrl => Kind::NuUrl,
            Symbol::NuMUsername => Kind::NuMUsername,
            Symbol::NuMDisplay => Kind::NuMDisplay,
            Symbol::SoaUserSdpStr => Kind::SoaUserSdpStr,
            Symbol::SipSubjectStr => Kind::SipSubjectStr,
            Symbol::SipContentTypeStr => Kind::SipContentTypeStr,
            Symbol::SipPayloadStr => Kind::SipPayloadStr,
            Symbol::SipToStr => Kind::SipToStr,
            Symbol::Other => Kind::NotImplemented,
        }
    }

    /// Tags of this kind carry a string.
    pub fn has_text(self) -> (b: bool)
        ensures
            b == self.carries_text(),
    {
        match self {
            Kind::NotImplemented | Kind::Null | Kind::End => false,
            _ => true,
        }
    }

    /// The kind of tag that an entry under `symbol` is read as.
    pub fn from_symbol(symbol: Symbol) -> (kind: Kind)
        ensures
            kind == Kind::of_symbol(symbol),
    {
        match symbol {
            Symbol::Null | Symbol::TagNull => Kind::Null,
            Symbol::NuUrl => Kind::NuUrl,
            Symbol::NuMUsername => Kind::NuMUsername,
            Symbol::NuMDisplay => Kind::NuMDisplay,
            Symbol::SoaUserSdpStr => Kind::SoaUserSdpStr,
            Symbol::SipSubjectStr => Kind::SipSubjectStr,
            Symbol::SipContentTypeStr => Kind::SipContentTypeStr,
            Symbol::SipPayloadStr => Kind::SipPayloadStr,
            Symbol::SipToStr => Kind::SipToStr,
            Symbol::Other => Kind::NotImplemented,
        }
    }
}

/// A tag in its native form: a kind, the bytes of its string and, for a
/// parameter that the library does not know, the parameter's name.
pub struct TagItemView {
    pub kind: Kind,
    pub bytes: Seq<u8>,
    pub tag_type: TagTypeView,
}

/// A tag as callers write it: a kind, its text and, for a parameter that
/// the library does not know, the parameter's name.
pub struct TagView {
    pub kind: Kind,
    pub text: Seq<char>,
    pub tag_type: TagTypeView,
}

/// The native form of a tag that carries `bytes`.
pub open spec fn item_with(kind: Kind, bytes: Seq<u8>) -> TagItemView {
    TagItemView { kind, bytes, tag_type: no_tag_type() }
}

/// The native form of a tag that carries nothing.
pub open spec fn item_without(kind: Kind) -> TagItemView {
    TagItemView { kind, bytes: Seq::empty(), tag_type: no_tag_type() }
}

/// The tag that carries `text`.
pub open spec fn tag_with(kind: Kind, text: Seq<char>) -> TagView {
    TagView { kind, text, tag_type: no_tag_type() }
}

/// The tag that carries nothing.
pub open spec fn tag_without(kind: Kind) -> TagView {
    TagView { kind, text: Seq::empty(), tag_type: no_tag_type() }
}

/// The entry of the parameter array that a tag becomes: its symbol, and a
/// pointer to its bytes where it carries any.
pub open spec fn item_to_wire(item: TagItemView) -> WireTagView {
    WireTagView {
        t_tag: item.kind.symbol(),
        t_type: None,
        t_value: if item.kind.carries_text() {
            Some(item.bytes)
        } else {
            None
        },
    }
}

/// The tag that an entry of a parameter array is read as.  No entry, no
/// symbol and the engine's null tag all read as the null tag; a symbol
/// without a variant reads as a tag that keeps the symbol's name.
pub open spec fn item_from_wire(entry: Option<WireTagView>) -> TagItemView {
    match entry {
        None => item_without(Kind::Null),
        Some(tagi) => {
            let kind = Kind::of_symbol(tagi.t_tag);
            if kind.carries_text() {
                item_with(kind, c_string_at(tagi.t_value))
            } else if kind is NotImplemented {
                TagItemView {
                    kind,
                    bytes: Seq::empty(),
                    tag_type: tag_type_from_sys(tagi.t_type),
                }
            } else {
                item_without(kind)
            }
        },
    }
}

/// The native form of a tag: its text as UTF-8, cut at the first
/// terminator.
pub open spec fn item_of_tag(tag: TagView) -> TagItemView {
    TagItemView {
        kind: tag.kind,
        bytes: if tag.kind.carries_text() {
            until_nul(encode_utf8(tag.text))
        } else {
            Seq::empty()
        },
        tag_type: tag.tag_type,
    }
}

/// The tag that a native form is shown as: its bytes decoded as text.
pub open spec fn tag_of_item(item: TagItemView) -> TagView {
    TagView {
        kind: item.kind,
        text: if item.kind.carries_text() {
            decoded(item.bytes)
        } else {
            Seq::empty()
        },
        tag_type: item.tag_type,
    }
}

/// A tag in the form that the native engine reads.
#[derive(Debug, Clone, PartialEq)]
pub enum TagItem {
    _PlaceHolder(Vec<u8>),
    NuUrl(Vec<u8>),
    NuMUsername(Vec<u8>),
    NuMDisplay(Vec<u8>),
    SoaUserSdpStr(Vec<u8>),
    SipSubjectStr(Vec<u8>),
    SipContentTypeStr(Vec<u8>),
    SipPayloadStr(Vec<u8>),
    SipToStr(Vec<u8>),
    NotImplemented(TagType),
    Null,
    End,
}

impl View for TagItem {
    type V = TagItemView;

    open spec fn view(&self) -> TagItemView {
        match *self {
            TagItem::_PlaceHolder(v) => item_with(Kind::PlaceHolder, v@),
            TagItem::NuUrl(v) => item_with(Kind::NuUrl, v@),
            TagItem::NuMUsername(v) => item_with(Kind::NuMUsername, v@),
            TagItem::NuMDisplay(v) => item_with(Kind::NuMDisplay, v@),
            TagItem::SoaUserSdpStr(v) => item_with(Kind::SoaUserSdpStr, v@),
            TagItem::SipSubjectStr(v) => item_with(Kind::SipSubjectStr, v@),
            TagItem::SipContentTypeStr(v) => item_with(Kind::SipContentTypeStr, v@),
            TagItem::SipPayloadStr(v) => item_with(Kind::SipPayloadStr, v@),
            TagItem::SipToStr(v) => item_with(Kind::SipToStr, v@),
            TagItem::NotImplemented(tt) => TagItemView {
                kind: Kind::NotImplemented,
                bytes: Seq::empty(),
                tag_type: tt@,
            },
            TagItem::Null => item_without(Kind::Null),
            TagItem::End => item_without(Kind::End),
        }
    }
}

impl TagItem {
    /// The bytes hold no terminator, so the engine reads all of them.
    pub open spec fn wf(&self) -> bool {
        nul_free(self@.bytes)
    }

    /// The native symbol that the tag is sent under.
    pub fn symbol(&self) -> (symbol: Symbol)
        ensures
            symbol == self@.kind.symbol(),
    {
        match self {
            TagItem::NotImplemented(_) => Symbol::Null,
            TagItem::_PlaceHolder(_) => Symbol::Null,
            TagItem::NuUrl(_) => Symbol::NuUrl,
            TagItem::NuMUsername(_) => Symbol::NuMUsername,
            TagItem::NuMDisplay(_) => Symbol::NuMDisplay,
            TagItem::SoaUserSdpStr(_) => Symbol::SoaUserSdpStr,
            TagItem::SipSubjectStr(_) => Symbol::SipSubjectStr,
            TagItem::SipContentTypeStr(_) => Symbol::SipContentTypeStr,
            TagItem::SipPayloadStr(_) => Symbol::SipPayloadStr,
            TagItem::SipToStr(_) => Symbol::SipToStr,
            TagItem::Null | TagItem::End => Symbol::Null,
        }
    }

    /// The bytes that the tag's value points to, or `None` for the value
    /// `0`.
    pub fn value(&self) -> (value: Option<Vec<u8>>)
        ensures
            opt_bytes(value) == item_to_wire(self@).t_value,
    {
        match self {
            TagItem::_PlaceHolder(bytes)
            | TagItem::NuUrl(bytes)
            | TagItem::NuMUsername(bytes)
            | TagItem::NuMDisplay(bytes)
            | TagItem::SoaUserSdpStr(bytes)
            | TagItem::SipSubjectStr(bytes)
            | TagItem::SipContentTypeStr(bytes)
            | TagItem::SipPayloadStr(bytes)
            | TagItem::SipToStr(bytes) => Some(slice_to_vec(bytes.as_slice())),
            TagItem::NotImplemented(_) | TagItem::Null | TagItem::End => None,
        }
    }

    /// The tag as an entry of a parameter array.
    pub fn item(&self) -> (entry: WireTag)
        ensures
            entry@ == item_to_wire(self@),
    {
        WireTag { t_value: self.value(), t_type: None, t_tag: self.symbol() }
    }

    /// The text that the engine wrote into `buf` when it was asked to
    /// print a tag, and reported to be `len` bytes long.
    pub fn _tagi_t_to_string(buf: &[u8], len: usize) -> (text: String)
        ensures
            text@ == decoded(first_bytes(buf@, len as int)),
    {
        let bytes = copy_first(buf, len);
        to_string_lossy(bytes.as_slice())
    }

    /// Reads the string behind a tag's value.
    pub fn _convert_t_value_to_cstring(t_value: &Option<Vec<u8>>) -> (bytes: Vec<u8>)
        ensures
            bytes@ == c_string_at(opt_bytes(*t_value)),
            nul_free(bytes@),
    {
        match t_value {
            None => Vec::new(),
            Some(value) => {
                proof {
                    lemma_until_nul(value@);
                }
                copy_until_nul(value.as_slice())
            },
        }
    }

    /// Reads a tag out of an entry of a parameter array.
    pub fn _from_sys(tagi: Option<&WireTag>) -> (item: TagItem)
        ensures
            item.wf(),
            item@ == item_from_wire(wire_view(pointee(tagi))),
    {
        let tagi = match tagi {
            Some(entry) => entry,
            None => {
                return TagItem::Null;
            },
        };
        match tagi.t_tag {
            Symbol::Null => TagItem::Null,
            Symbol::TagNull => TagItem::Null,
            Symbol::NuUrl => {
                let url = Self::_convert_t_value_to_cstring(&tagi.t_value);
                TagItem::NuUrl(url)
            },
            Symbol::NuMUsername => {
                let v = Self::_convert_t_value_to_cstring(&tagi.t_value);
                TagItem::NuMUsername(v)
            },
            Symbol::NuMDisplay => {
                let v = Self::_convert_t_value_to_cstring(&tagi.t_value);
                TagItem::NuMDisplay(v)
            },
            Symbol::SoaUserSdpStr => {
                let v = Self::_convert_t_value_to_cstring(&tagi.t_value);
                TagItem::SoaUserSdpStr(v)
            },
            Symbol::SipSubjectStr => {
                let v = Self::_convert_t_value_to_cstring(&tagi.t_value);
                TagItem::SipSubjectStr(v)
            },
            Symbol::SipContentTypeStr => {
                let v = Self::_convert_t_value_to_cstring(&tagi.t_value);
                TagItem::SipContentTypeStr(v)
            },
            Symbol::SipPayloadStr => {
                let v = Self::_convert_t_value_to_cstring(&tagi.t_value);
                TagItem::SipPayloadStr(v)
            },
            Symbol::SipToStr => {
                let v = Self::_convert_t_value_to_cstring(&tagi.t_value);
                TagItem::SipToStr(v)
            },
            Symbol::Other => {
                let tag_type = TagType::_from_sys(tagi.t_type.as_ref());
                TagItem::NotImplemented(tag_type)
            },
        }
    }
}

/// The bytes of `s` up to its first terminator: what the engine would read
/// of them.
pub fn string_to_cstring_lossy(s: &str) -> (bytes: Vec<u8>)
    ensures
        bytes@ == until_nul(encode_utf8(s@)),
        nul_free(bytes@),
{
    proof {
        lemma_until_nul(encode_utf8(s@));
    }
    copy_until_nul(s.as_bytes())
}

/// The bytes of `s`, or the error where one of them is a terminator.
pub fn string_to_cstring(s: &str) -> (res: Result<Vec<u8>, Error>)
    ensures
        nul_free(encode_utf8(s@)) <==> res is Ok,
        res matches Ok(bytes) ==> bytes@ == encode_utf8(s@),
        res matches Err(e) ==> e == Error::ConvertToCStringError,
{
    let bytes = s.as_bytes();
    let n = find_nul(bytes);
    proof {
        lemma_c_len(bytes@);
        if nul_free(bytes@) {
            lemma_c_len_unique(bytes@, bytes@.len() as int);
        }
    }
    if n < bytes.len() {
        Err(Error::ConvertToCStringError)
    } else {
        Ok(slice_to_vec(bytes))
    }
}

/// A tag as callers write it.  The variants hold the text as it was
/// given; the functions named after the parameters build them and refuse
/// text that the engine could not read in full.
#[derive(Debug, Clone, PartialEq)]
pub enum Tag {
    _PlaceHolder(String),
    _NuUrl(String),
    _NuMUsername(String),
    _NuMDisplay(String),
    _SoaUserSdpStr(String),
    _SipSubjectStr(String),
    _SipContentTypeStr(String),
    _SipPayloadStr(String),
    _SipToStr(String),
    NotImplemented(TagType),
    Null,
    End,
}

impl View for Tag {
    type V = TagView;

    open spec fn view(&self) -> TagView {
        match *self {
            Tag::_PlaceHolder(v) => tag_with(Kind::PlaceHolder, v@),
            Tag::_NuUrl(v) => tag_with(Kind::NuUrl, v@),
            Tag::_NuMUsername(v) => tag_with(Kind::NuMUsername, v@),
            Tag::_NuMDisplay(v) => tag_with(Kind::NuMDisplay, v@),
            Tag::_SoaUserSdpStr(v) => tag_with(Kind::SoaUserSdpStr, v@),
            Tag::_SipSubjectStr(v) => tag_with(Kind::SipSubjectStr, v@),
            Tag::_SipContentTypeStr(v) => tag_with(Kind::SipContentTypeStr, v@),
            Tag::_SipPayloadStr(v) => tag_with(Kind::SipPayloadStr, v@),
            Tag::_SipToStr(v) => tag_with(Kind::SipToStr, v@),
            Tag::NotImplemented(tt) => TagView {
                kind: Kind::NotImplemented,
                text: Seq::empty(),
                tag_type: tt@,
            },
            Tag::Null => tag_without(Kind::Null),
            Tag::End => tag_without(Kind::End),
        }
    }
}

/// The text as it is if it can be handed to the engine whole, else the
/// error.
fn checked_text(text: String) -> (res: Result<String, Error>)
    ensures
        nul_free(encode_utf8(text@)) <==> res is Ok,
        res matches Ok(same) ==> same@ == text@,
        res matches Err(e) ==> e == Error::ConvertToCStringError,
{
    let bytes = text.as_str().as_bytes();
    let n = find_nul(bytes);
    proof {
        lemma_c_len(bytes@);
        if nul_free(bytes@) {
            lemma_c_len_unique(bytes@, bytes@.len() as int);
        }
    }
    if n < bytes.len() {
        Err(Error::ConvertToCStringError)
    } else {
        Ok(text)
    }
}

/// What a constructor of tags of `kind` owes for `text`: the tag that
/// carries it, if and only if its bytes hold no terminator.
pub open spec fn built(kind: Kind, text: Seq<char>, res: Result<Tag, Error>) -> bool {
    if nul_free(encode_utf8(text)) {
        res matches Ok(tag) && tag@ == tag_with(kind, text)
    } else {
        res == Err::<Tag, Error>(Error::ConvertToCStringError)
    }
}

impl Tag {
    /// The text holds no terminator byte.
    pub open spec fn wf(&self) -> bool {
        nul_free(encode_utf8(self@.text))
    }

    /// Which parameter the tag stands for.
    pub fn kind(&self) -> (kind: Kind)
        ensures
            kind == self@.kind,
    {
        match self {
            Tag::_PlaceHolder(_) => Kind::PlaceHolder,
            Tag::_NuUrl(_) => Kind::NuUrl,
            Tag::_NuMUsername(_) => Kind::NuMUsername,
            Tag::_NuMDisplay(_) => Kind::NuMDisplay,
            Tag::_SoaUserSdpStr(_) => Kind::SoaUserSdpStr,
            Tag::_SipSubjectStr(_) => Kind::SipSubjectStr,
            Tag::_SipContentTypeStr(_) => Kind::SipContentTypeStr,
            Tag::_SipPayloadStr(_) => Kind::SipPayloadStr,
            Tag::_SipToStr(_) => Kind::SipToStr,
            Tag::NotImplemented(_) => Kind::NotImplemented,
            Tag::Null => Kind::Null,
            Tag::End => Kind::End,
        }
    }

    /// The address that the agent binds to.
    #[allow(non_snake_case)]
    pub fn NuUrl(url: String) -> (res: Result<Tag, Error>)
        ensures
            built(Kind::NuUrl, url@, res),
    {
        match checked_text(url) {
            Ok(text) => Ok(Tag::_NuUrl(text)),
            Err(e) => Err(e),
        }
    }

    /// The user name of the agent's contact.
    #[allow(non_snake_case)]
    pub fn NuMUsername(s: String) -> (res: Result<Tag, Error>)
        ensures
            built(Kind::NuMUsername, s@, res),
    {
        match checked_text(s) {
            Ok(text) => Ok(Tag::_NuMUsername(text)),
            Err(e) => Err(e),
        }
    }

    /// The display name of the agent's contact.
    #[allow(non_snake_case)]
    pub fn NuMDisplay(s: String) -> (res: Result<Tag, Error>)
        ensures
            built(Kind::NuMDisplay, s@, res),
    {
        match checked_text(s) {
            Ok(text) => Ok(Tag::_NuMDisplay(text)),
            Err(e) => Err(e),
        }
    }

    /// The session description that the user offers.
    #[allow(non_snake_case)]
    pub fn SoaUserSdp(s: String) -> (res: Result<Tag, Error>)
        ensures
            built(Kind::SoaUserSdpStr, s@, res),
    {
        match checked_text(s) {
            Ok(text) => Ok(Tag::_SoaUserSdpStr(text)),
            Err(e) => Err(e),
        }
    }

    /// The subject of a message.
    #[allow(non_snake_case)]
    pub fn SipSubject(s: String) -> (res: Result<Tag, Error>)
        ensures
            built(Kind::SipSubjectStr, s@, res),
    {
        match checked_text(s) {
            Ok(text) => Ok(Tag::_SipSubjectStr(text)),
            Err(e) => Err(e),
        }
    }

    /// The content type of a message.
    #[allow(non_snake_case)]
    pub fn SipContentType(s: String) -> (res: Result<Tag, Error>)
        ensures
            built(Kind::SipContentTypeStr, s@, res),
    {
        match checked_text(s) {
            Ok(text) => Ok(Tag::_SipContentTypeStr(text)),
            Err(e) => Err(e),
        }
    }

    /// The body of a message.
    #[allow(non_snake_case)]
    pub fn SipPayload(s: String) -> (res: Result<Tag, Error>)
        ensures
            built(Kind::SipPayloadStr, s@, res),
    {
        match checked_text(s) {
            Ok(text) => Ok(Tag::_SipPayloadStr(text)),
            Err(e) => Err(e),
        }
    }

    /// The address that a message goes to.
    #[allow(non_snake_case)]
    pub fn SipTo(s: String) -> (res: Result<Tag, Error>)
        ensures
            built(Kind::SipToStr, s@, res),
    {
        match checked_text(s) {
            Ok(text) => Ok(Tag::_SipToStr(text)),
            Err(e) => Err(e),
        }
    }
}

impl From<&Tag> for TagItem {
    /// The native form of a tag.  Text that holds a terminator is cut
    /// there, as the engine would read it.
    fn from(tag: &Tag) -> (item: TagItem)
        ensures
            item@ == item_of_tag(tag@),
            item.wf(),
    {
        match tag {
            Tag::_PlaceHolder(v) => TagItem::_PlaceHolder(string_to_cstring_lossy(v.as_str())),
            Tag::_NuUrl(v) => TagItem::NuUrl(string_to_cstring_lossy(v.as_str())),
            Tag::_NuMUsername(v) => TagItem::NuMUsername(string_to_cstring_lossy(v.as_str())),
            Tag::_NuMDisplay(v) => TagItem::NuMDisplay(string_to_cstring_lossy(v.as_str())),
            Tag::_SoaUserSdpStr(v) => TagItem::SoaUserSdpStr(string_to_cstring_lossy(v.as_str())),
            Tag::_SipSubjectStr(v) => TagItem::SipSubjectStr(string_to_cstring_lossy(v.as_str())),
            Tag::_SipContentTypeStr(v) => TagItem::SipContentTypeStr(
                string_to_cstring_lossy(v.as_str()),
            ),
            Tag::_SipPayloadStr(v) => TagItem::SipPayloadStr(string_to_cstring_lossy(v.as_str())),
            Tag::_SipToStr(v) => TagItem::SipToStr(string_to_cstring_lossy(v.as_str())),
            Tag::NotImplemented(v) => TagItem::NotImplemented(v.duplicate()),
            Tag::Null => TagItem::Null,
            Tag::End => TagItem::End,
        }
    }
}

impl vstd::std_specs::convert::FromSpecImpl<&Tag> for TagItem {
    open spec fn obeys_from_spec() -> bool {
        false
    }

    open spec fn from_spec(tag: &Tag) -> TagItem {
        arbitrary()
    }
}

impl From<&TagItem> for Tag {
    /// The tag that a native form is shown as.
    fn from(item: &TagItem) -> (tag: Tag)
        ensures
            tag@ == tag_of_item(item@),
    {
        match item {
            TagItem::_PlaceHolder(v) => Tag::_PlaceHolder(to_string_lossy(v.as_slice())),
            TagItem::NuUrl(v) => Tag::_NuUrl(to_string_lossy(v.as_slice())),
            TagItem::NuMUsername(v) => Tag::_NuMUsername(to_string_lossy(v.as_slice())),
            TagItem::NuMDisplay(v) => Tag::_NuMDisplay(to_string_lossy(v.as_slice())),
            TagItem::SoaUserSdpStr(v) => Tag::_SoaUserSdpStr(to_string_lossy(v.as_slice())),
            TagItem::SipSubjectStr(v) => Tag::_SipSubjectStr(to_string_lossy(v.as_slice())),
            TagItem::SipContentTypeStr(v) => Tag::_SipContentTypeStr(
                to_string_lossy(v.as_slice()),
            ),
            TagItem::SipPayloadStr(v) => Tag::_SipPayloadStr(to_string_lossy(v.as_slice())),
            TagItem::SipToStr(v) => Tag::_SipToStr(to_string_lossy(v.as_slice())),
            TagItem::NotImplemented(v) => Tag::NotImplemented(v.duplicate()),
            TagItem::Null => Tag::Null,
            TagItem::End => Tag::End,
        }
    }
}

impl vstd::std_specs::convert::FromSpecImpl<&TagItem> for Tag {
    open spec fn obeys_from_spec() -> bool {
        false
    }

    open spec fn from_spec(item: &TagItem) -> Tag {
        arbitrary()
    }
}

/// A tag whose text holds no terminator comes back unchanged from its
/// native form: the same kind, the same text, the same name.
pub proof fn lemma_tag_round_trip(tag: Tag)
    requires
        tag.wf(),
    ensures
        tag_of_item(item_of_tag(tag@)) == tag@,
{
    let text = tag@.text;
    lemma_until_nul(encode_utf8(text));
    lemma_decoded_of_encoded(text);
}

/// A native tag that names a parameter of the engine, or the null tag,
/// comes back unchanged from the parameter array: the same kind and the
/// same bytes.
pub proof fn lemma_wire_round_trip(item: TagItem)
    requires
        item.wf(),
        item@.kind.is_named() || item@.kind is Null,
    ensures
        item_from_wire(Some(item_to_wire(item@))) == item@,
{
    lemma_until_nul(item@.bytes);
}

/// From the caller's tag to the parameter array and back: a tag that one
/// of the named constructors built is read back as it was written.
pub proof fn lemma_tag_survives_engine(tag: Tag)
    requires
        tag.wf(),
        tag@.kind.is_named(),
    ensures
        tag_of_item(item_from_wire(Some(item_to_wire(item_of_tag(tag@))))) == tag@,
{
    let text = tag@.text;
    lemma_until_nul(encode_utf8(text));
    lemma_decoded_of_encoded(text);
}

} // verus!
