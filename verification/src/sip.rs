//! The message that comes with an event, copied out of the engine's memory
//! and decoded.  Every part may be missing: what the engine did not give
//! reads as empty.

use crate::error::Error;
use crate::sys::pointee;
use crate::sys::RawAddr;
use crate::sys::RawContentType;
use crate::sys::RawGeneric;
use crate::sys::RawPayload;
use crate::sys::RawSip;
use crate::text::copy_first;
use crate::text::decoded;
use crate::text::first_bytes;
use crate::text::read_text;
use crate::text::text_at;
use crate::text::terminated_len;
use crate::text::to_string_lossy;
use vstd::prelude::*;
use vstd::string::*;

verus! {

/// A header that holds free text.
#[derive(Debug)]
pub struct MsgGeneric {
    exists: bool,
    string: String,
}

/// A [`MsgGeneric`] as plain values.
pub struct MsgGenericView {
    pub exists: bool,
    pub string: Seq<char>,
}

impl View for MsgGeneric {
    type V = MsgGenericView;

    closed spec fn view(&self) -> MsgGenericView {
        MsgGenericView { exists: self.exists, string: self.string@ }
    }
}

/// The header that the engine did not give.
pub open spec fn no_generic() -> MsgGenericView {
    MsgGenericView { exists: false, string: Seq::empty() }
}

/// The header read from the engine's record of it.
pub open spec fn generic_from_sys(raw: Option<RawGeneric>) -> MsgGenericView {
    match raw {
        Some(msg) => MsgGenericView { exists: true, string: text_at(msg.g_string) },
        None => no_generic(),
    }
}

impl Default for MsgGeneric {
    fn default() -> (msg: MsgGeneric)
        ensures
            msg@ == no_generic(),
    {
        MsgGeneric { exists: false, string: String::new() }
    }
}

impl MsgGeneric {
    /// Reads a header out of the engine's record of it.
    pub fn _from_sys(sys_msg: Option<&RawGeneric>) -> (msg: MsgGeneric)
        ensures
            msg@ == generic_from_sys(pointee(sys_msg)),
    {
        let mut msg = MsgGeneric::default();
        let raw = match sys_msg {
            Some(raw) => raw,
            None => {
                return msg;
            },
        };
        msg.string = read_text(&raw.g_string);
        msg.exists = true;
        msg
    }

    /// The engine gave the header.
    pub fn is_present(&self) -> (present: bool)
        ensures
            present == self@.exists,
    {
        self.exists
    }

    /// The header's text.
    pub fn to_string(&self) -> (text: String)
        ensures
            text@ == self@.string,
    {
        self.string.clone()
    }
}

/// An address: a display name and a URL.
#[derive(Debug)]
pub struct SipAddr {
    exists: bool,
    display: String,
    url: String,
}

/// A [`SipAddr`] as plain values.
pub struct SipAddrView {
    pub exists: bool,
    pub display: Seq<char>,
    pub url: Seq<char>,
}

impl View for SipAddr {
    type V = SipAddrView;

    closed spec fn view(&self) -> SipAddrView {
        SipAddrView { exists: self.exists, display: self.display@, url: self.url@ }
    }
}

/// The address that the engine did not give.
pub open spec fn no_addr() -> SipAddrView {
    SipAddrView { exists: false, display: Seq::empty(), url: Seq::empty() }
}

/// The text of a URL that the engine wrote into `buf` and reported to be
/// `len` bytes long.
pub open spec fn url_text(buf: Seq<u8>, len: int) -> Seq<char> {
    decoded(first_bytes(buf, len))
}

/// The address read from the engine's record of it.
pub open spec fn addr_from_sys(raw: Option<RawAddr>) -> SipAddrView {
    match raw {
        Some(addr) => SipAddrView {
            exists: true,
            display: text_at(addr.a_display),
            url: url_text(addr.a_url@, addr.a_url_len as int),
        },
        None => no_addr(),
    }
}

/// How an address is shown: the display name, a space and the URL, or the
/// URL alone where there is no display name.
pub open spec fn addr_text(addr: SipAddrView) -> Seq<char> {
    if addr.display.len() > 0 {
        addr.display + seq![' '] + addr.url
    } else {
        addr.url
    }
}

/// The size of the buffer that takes a URL of `len` bytes: the URL and
/// its terminator, not a byte more.  A length that leaves no room for the
/// terminator is not the length of a URL.
pub fn url_buffer_len(len: usize) -> (size: Result<usize, Error>)
    ensures
        size == (if len < usize::MAX {
            Ok::<usize, Error>((len + 1) as usize)
        } else {
            Err::<usize, Error>(Error::UrlError)
        }),
{
    match terminated_len(len) {
        Some(size) => Ok(size),
        None => Err(Error::UrlError),
    }
}

/// Converts a URL to text: the first `len` bytes of the buffer that the
/// engine filled.
pub fn url_as_string(buf: &[u8], len: usize) -> (text: String)
    ensures
        text@ == url_text(buf@, len as int),
{
    let bytes = copy_first(buf, len);
    to_string_lossy(bytes.as_slice())
}

impl Default for SipAddr {
    fn default() -> (addr: SipAddr)
        ensures
            addr@ == no_addr(),
    {
        SipAddr { exists: false, display: String::new(), url: String::new() }
    }
}

impl SipAddr {
    /// Reads an address out of the engine's record of it.
    pub fn _from_sys(sys_addr: Option<&RawAddr>) -> (addr: SipAddr)
        ensures
            addr@ == addr_from_sys(pointee(sys_addr)),
    {
        let mut addr = SipAddr::default();
        let raw = match sys_addr {
            Some(raw) => raw,
            None => {
                return addr;
            },
        };
        if raw.a_display.is_some() {
            addr.display = read_text(&raw.a_display);
        }
        addr.url = url_as_string(raw.a_url.as_slice(), raw.a_url_len);
        addr.exists = true;
        addr
    }

    /// The engine gave the address.
    pub fn is_present(&self) -> (present: bool)
        ensures
            present == self@.exists,
    {
        self.exists
    }

    pub fn display(&self) -> (display: &String)
        ensures
            display@ == self@.display,
    {
        &self.display
    }

    pub fn url(&self) -> (url: &String)
        ensures
            url@ == self@.url,
    {
        &self.url
    }

    /// The address as it is shown.
    pub fn to_string(&self) -> (text: String)
        ensures
            text@ == addr_text(self@),
    {
        if self.display.as_str().is_empty() {
            self.url.clone()
        } else {
            let mut text = self.display.clone();
            proof {
                reveal_strlit(" ");
                assert(" "@ =~= seq![' ']);
            }
            text.append(" ");
            text.append(self.url.as_str());
            text
        }
    }
}

/// The content type of a message.
#[derive(Debug)]
pub struct ContentType {
    exists: bool,
    c_type: String,
}

impl View for ContentType {
    type V = MsgGenericView;

    closed spec fn view(&self) -> MsgGenericView {
        MsgGenericView { exists: self.exists, string: self.c_type@ }
    }
}

/// The content type read from the engine's record of it.
pub open spec fn content_type_from_sys(raw: Option<RawContentType>) -> MsgGenericView {
    match raw {
        Some(ct) => MsgGenericView { exists: true, string: text_at(ct.c_type) },
        None => no_generic(),
    }
}

impl Default for ContentType {
    fn default() -> (ct: ContentType)
        ensures
            ct@ == no_generic(),
    {
        ContentType { exists: false, c_type: String::new() }
    }
}

impl ContentType {
    /// Reads a content type out of the engine's record of it.
    pub fn _from_sys(sys_ct: Option<&RawContentType>) -> (ct: ContentType)
        ensures
            ct@ == content_type_from_sys(pointee(sys_ct)),
    {
        let mut ct = ContentType::default();
        let raw = match sys_ct {
            Some(raw) => raw,
            None => {
                return ct;
            },
        };
        ct.c_type = read_text(&raw.c_type);
        ct.exists = true;
        ct
    }

    /// The engine gave the content type.
    pub fn is_present(&self) -> (present: bool)
        ensures
            present == self@.exists,
    {
        self.exists
    }

    /// The content type's text.
    pub fn to_string(&self) -> (text: String)
        ensures
            text@ == self@.string,
    {
        self.c_type.clone()
    }
}

/// The body of a message: bytes, which need not be text.
#[derive(Debug)]
pub struct Payload {
    exists: bool,
    data: Vec<u8>,
}

/// A [`Payload`] as plain values.
pub struct PayloadView {
    pub exists: bool,
    pub data: Seq<u8>,
}

impl View for Payload {
    type V = PayloadView;

    closed spec fn view(&self) -> PayloadView {
        PayloadView { exists: self.exists, data: self.data@ }
    }
}

/// The body that the engine did not give.
pub open spec fn no_payload() -> PayloadView {
    PayloadView { exists: false, data: Seq::empty() }
}

/// The body read from the engine's record of it: as many bytes as the
/// engine reports, all of them, terminators included.
pub open spec fn payload_from_sys(raw: Option<RawPayload>) -> PayloadView {
    match raw {
        Some(pl) => PayloadView {
            exists: true,
            data: match pl.pl_data {
                Some(bytes) => first_bytes(bytes@, pl.pl_len as int),
                None => Seq::empty(),
            },
        },
        None => no_payload(),
    }
}

impl Default for Payload {
    fn default() -> (pl: Payload)
        ensures
            pl@ == no_payload(),
    {
        Payload { exists: false, data: Vec::new() }
    }
}

impl Payload {
    /// Reads a body out of the engine's record of it.
    pub fn _from_sys(sys_pl: Option<&RawPayload>) -> (pl: Payload)
        ensures
            pl@ == payload_from_sys(pointee(sys_pl)),
    {
        let mut pl = Payload::default();
        let raw = match sys_pl {
            Some(raw) => raw,
            None => {
                return pl;
            },
        };
        if let Some(bytes) = &raw.pl_data {
            pl.data = copy_first(bytes.as_slice(), raw.pl_len);
        }
        pl.exists = true;
        pl
    }

    /// The engine gave the body.
    pub fn is_present(&self) -> (present: bool)
        ensures
            present == self@.exists,
    {
        self.exists
    }

    /// The bytes of the body.
    pub fn data(&self) -> (data: &Vec<u8>)
        ensures
            data@ == self@.data,
    {
        &self.data
    }

    /// The body as text, for display.
    pub fn as_utf8_lossy(&self) -> (text: String)
        ensures
            text@ == decoded(self@.data),
    {
        to_string_lossy(self.data.as_slice())
    }
}

/// A protocol message, decoded.
#[derive(Debug)]
pub struct Sip {
    exists: bool,
    from: SipAddr,
    to: SipAddr,
    subject: MsgGeneric,
    content_type: ContentType,
    payload: Payload,
}

/// A [`Sip`] as plain values.
pub struct SipView {
    pub exists: bool,
    pub from: SipAddrView,
    pub to: SipAddrView,
    pub subject: MsgGenericView,
    pub content_type: MsgGenericView,
    pub payload: PayloadView,
}

impl View for Sip {
    type V = SipView;

    closed spec fn view(&self) -> SipView {
        SipView {
            exists: self.exists,
            from: self.from@,
            to: self.to@,
            subject: self.subject@,
            content_type: self.content_type@,
            payload: self.payload@,
        }
    }
}

/// The message of an event that carries none.
pub open spec fn no_sip() -> SipView {
    SipView {
        exists: false,
        from: no_addr(),
        to: no_addr(),
        subject: no_generic(),
        content_type: no_generic(),
        payload: no_payload(),
    }
}

/// The message read from the engine's record of it, part by part.
pub open spec fn sip_from_sys(raw: Option<RawSip>) -> SipView {
    match raw {
        Some(sip) => SipView {
            exists: true,
            from: addr_from_sys(sip.sip_from),
            to: addr_from_sys(sip.sip_to),
            subject: generic_from_sys(sip.sip_subject),
            content_type: content_type_from_sys(sip.sip_content_type),
            payload: payload_from_sys(sip.sip_payload),
        },
        None => no_sip(),
    }
}

impl Default for Sip {
    fn default() -> (sip: Sip)
        ensures
            sip@ == no_sip(),
    {
        Sip {
            exists: false,
            from: SipAddr::default(),
            to: SipAddr::default(),
            subject: MsgGeneric::default(),
            content_type: ContentType::default(),
            payload: Payload::default(),
        }
    }
}

impl Sip {
    /// Reads a message out of the engine's record of it.
    pub fn _from_sys(sys_sip: Option<&RawSip>) -> (sip: Sip)
        ensures
            sip@ == sip_from_sys(pointee(sys_sip)),
    {
        let mut sip = Sip::default();
        let raw = match sys_sip {
            Some(raw) => raw,
            None => {
                return sip;
            },
        };
        sip.from = SipAddr::_from_sys(raw.sip_from.as_ref());
        sip.to = SipAddr::_from_sys(raw.sip_to.as_ref());
        sip.subject = MsgGeneric::_from_sys(raw.sip_subject.as_ref());
        sip.content_type = ContentType::_from_sys(raw.sip_content_type.as_ref());
        sip.payload = Payload::_from_sys(raw.sip_payload.as_ref());
        sip.exists = true;
        sip
    }

    /// The event carried a message.
    pub fn is_present(&self) -> (present: bool)
        ensures
            present == self@.exists,
    {
        self.exists
    }

    pub fn from(&self) -> (from: &SipAddr)
        ensures
            from@ == self@.from,
    {
        &self.from
    }

    pub fn to(&self) -> (to: &SipAddr)
        ensures
            to@ == self@.to,
    {
        &self.to
    }

    pub fn subject(&self) -> (subject: &MsgGeneric)
        ensures
            subject@ == self@.subject,
    {
        &self.subject
    }

    pub fn content_type(&self) -> (content_type: &ContentType)
        ensures
            content_type@ == self@.content_type,
    {
        &self.content_type
    }

    pub fn payload(&self) -> (payload: &Payload)
        ensures
            payload@ == self@.payload,
    {
        &self.payload
    }
}

} // verus!
