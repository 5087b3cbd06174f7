//! The boundary to the native engine, as plain values.
//!
//! A [`Call`] names one native entry point together with its arguments, a
//! [`Reply`] is what the engine answered, and the `Raw*` records hold what
//! was copied out of the engine's memory while a callback ran.  Native
//! addresses are carried as `usize`, with `0` for the null pointer.

use vstd::prelude::*;

verus! {

/// The native symbol that a tag entry names.
#[derive(Debug, Clone, Copy, PartialEq, Eq, Structural)]
pub enum Symbol {
    /// No symbol at all: the null pointer.
    Null,
    /// The engine's own "null tag" symbol.
    TagNull,
    NuUrl,
    NuMUsername,
    NuMDisplay,
    SoaUserSdpStr,
    SipSubjectStr,
    SipContentTypeStr,
    SipPayloadStr,
    SipToStr,
    /// A symbol of the engine that this library gives no variant to.
    Other,
}

/// The value behind an optional reference.
pub open spec fn pointee<T>(pointer: Option<&T>) -> Option<T> {
    match pointer {
        Some(value) => Some(*value),
        None => None,
    }
}

/// The value behind an optional reference through which it may be
/// changed, as it is before any change.
pub open spec fn pointee_mut<T>(pointer: Option<&mut T>) -> Option<T> {
    match pointer {
        Some(value) => Some(*value),
        None => None,
    }
}

/// The bytes behind an optional pointer.
pub open spec fn opt_bytes(bytes: Option<Vec<u8>>) -> Option<Seq<u8>> {
    match bytes {
        Some(b) => Some(b@),
        None => None,
    }
}

/// What the engine records about a tag symbol.
#[derive(Debug, Clone, PartialEq, Eq)]
pub struct RawTagType {
    /// The namespace, when the engine gives one.
    pub tt_ns: Option<Vec<u8>>,
    /// The name, when the engine gives one.
    pub tt_name: Option<Vec<u8>>,
}

/// A [`RawTagType`] as byte sequences.
pub struct RawTagTypeView {
    pub tt_ns: Option<Seq<u8>>,
    pub tt_name: Option<Seq<u8>>,
}

impl View for RawTagType {
    type V = RawTagTypeView;

    open spec fn view(&self) -> RawTagTypeView {
        RawTagTypeView { tt_ns: opt_bytes(self.tt_ns), tt_name: opt_bytes(self.tt_name) }
    }
}

/// One entry of the flat parameter array that every native call takes.
#[derive(Debug, Clone, PartialEq, Eq)]
pub struct WireTag {
    /// The symbol that the entry names.
    pub t_tag: Symbol,
    /// The record behind the symbol, where it was read from the engine.
    pub t_type: Option<RawTagType>,
    /// The bytes that the entry's value points to, without their
    /// terminator; `None` for the value `0`.
    pub t_value: Option<Vec<u8>>,
}

/// The record behind an optional pointer, as byte sequences.
pub open spec fn raw_tag_type_view(raw: Option<RawTagType>) -> Option<RawTagTypeView> {
    match raw {
        Some(tt) => Some(tt@),
        None => None,
    }
}

/// A [`WireTag`] as byte sequences.
pub struct WireTagView {
    pub t_tag: Symbol,
    pub t_type: Option<RawTagTypeView>,
    pub t_value: Option<Seq<u8>>,
}

impl View for WireTag {
    type V = WireTagView;

    open spec fn view(&self) -> WireTagView {
        WireTagView {
            t_tag: self.t_tag,
            t_type: raw_tag_type_view(self.t_type),
            t_value: opt_bytes(self.t_value),
        }
    }
}

/// The entry behind an optional pointer, as byte sequences.
pub open spec fn wire_view(entry: Option<WireTag>) -> Option<WireTagView> {
    match entry {
        Some(tagi) => Some(tagi@),
        None => None,
    }
}

/// The entry that ends every parameter array: no symbol and the value `0`.
pub open spec fn sentinel() -> WireTagView {
    WireTagView { t_tag: Symbol::Null, t_type: None, t_value: None }
}

/// A parameter array, entry by entry.
pub open spec fn wire_views(tags: Seq<WireTag>) -> Seq<WireTagView> {
    tags.map_values(|t: WireTag| t@)
}

/// A request to the native engine.
#[derive(Debug, Clone, PartialEq, Eq)]
pub enum Call {
    /// Initialise the native library for this process.
    SuInit,
    /// Tear the native library down.
    SuDeinit,
    /// Create a polling object.
    RootCreate,
    /// Switch the polling object's internal threads on or off.
    RootThreading { root: usize, enable: bool },
    /// Release a polling object.
    RootDestroy { root: usize },
    /// Process at most one unit of work, waiting up to `timeout`.
    RootStep { root: usize, timeout: i64 },
    /// Process work for up to `timeout`.
    RootSleep { root: usize, timeout: i64 },
    /// Enter the dispatch loop.
    RootRun { root: usize },
    /// Leave the dispatch loop.
    RootBreak { root: usize },
    /// Create an engine instance on `root` that reports to the callback
    /// with `magic` as its context.
    NuaCreate { root: usize, magic: usize, tags: Vec<WireTag> },
    /// Ask an engine instance to shut down.
    NuaShutdown { nua: usize },
    /// Release an engine instance.
    NuaDestroy { nua: usize },
    /// Create a dialog handle under `nua` with `magic` as its context.
    HandleCreate { nua: usize, magic: usize, tags: Vec<WireTag> },
    /// Release a dialog handle.
    HandleDestroy { handle: usize },
    /// Send a message through a dialog handle.
    Message { handle: usize, tags: Vec<WireTag> },
    /// Send an invitation through a dialog handle.
    Invite { handle: usize, tags: Vec<WireTag> },
}

impl Call {
    /// `reply` is of the kind that the engine gives to this call: an
    /// address to a creation, the time that remains to a step or a sleep,
    /// and nothing to any other call.
    pub open spec fn answered_by(self, reply: Reply) -> bool {
        match self {
            Call::RootCreate => reply is Root,
            Call::NuaCreate { .. } => reply is Nua,
            Call::HandleCreate { .. } => reply is Handle,
            Call::RootStep { .. } | Call::RootSleep { .. } => reply is Remaining,
            _ => reply is Done,
        }
    }
}

/// What the engine answered to the call made last.
#[derive(Debug, Clone, Copy, PartialEq, Eq, Structural)]
pub enum Reply {
    /// No call has been made yet: the operation starts.
    Start,
    /// A call without a result has returned.
    Done,
    /// The address of the polling object created, or null.
    Root(usize),
    /// The address of the engine instance created, or null.
    Nua(usize),
    /// The address of the dialog handle created, or null.
    Handle(usize),
    /// What a step or a sleep returned.
    Remaining(i64),
}

impl Reply {
    /// The reply says that the reactor has nothing more to do: a step
    /// returned a negative value.
    pub open spec fn is_drained(self) -> bool {
        self matches Reply::Remaining(remaining) && remaining < 0
    }
}

/// The engine answers every call of `calls` that it answers at all with
/// a reply of the call's kind.
pub open spec fn well_answered(calls: Seq<Call>, replies: Seq<Reply>) -> bool {
    forall|i: int|
        0 <= i < calls.len() && i < replies.len() ==> (#[trigger] calls[i]).answered_by(replies[i])
}

/// How far an operation has come.
#[derive(Debug, PartialEq, Eq)]
pub enum Progress<T> {
    /// Make the call and resume the operation with its reply.
    Perform(Call),
    /// Make the call; the operation is then over with this result.
    Finish(Call, T),
    /// The operation is over with this result and asks for nothing.
    Done(T),
}

impl<T> Progress<T> {
    /// The operation is over.
    pub open spec fn is_over(&self) -> bool {
        !(self is Perform)
    }

    /// The call that the operation asks for, if any.
    pub open spec fn asks(&self) -> Option<Call> {
        match *self {
            Progress::Perform(call) => Some(call),
            Progress::Finish(call, _) => Some(call),
            Progress::Done(_) => None,
        }
    }
}

/// An address read out of the engine's memory.
#[derive(Debug, Clone)]
pub struct RawAddr {
    /// The display name, when there is one.
    pub a_display: Option<Vec<u8>>,
    /// The buffer into which the engine wrote the URL.
    pub a_url: Vec<u8>,
    /// The length in bytes that the engine reports for the URL.
    pub a_url_len: usize,
}

/// A free-text header read out of the engine's memory.
#[derive(Debug, Clone)]
pub struct RawGeneric {
    pub g_string: Option<Vec<u8>>,
}

/// A content type read out of the engine's memory.
#[derive(Debug, Clone)]
pub struct RawContentType {
    pub c_type: Option<Vec<u8>>,
}

/// A message body read out of the engine's memory.
#[derive(Debug, Clone)]
pub struct RawPayload {
    /// The bytes of the body, when their pointer was not null.
    pub pl_data: Option<Vec<u8>>,
    /// The length that the engine reports for the body.
    pub pl_len: usize,
}

/// A protocol message read out of the engine's memory.
#[derive(Debug, Clone)]
pub struct RawSip {
    pub sip_from: Option<RawAddr>,
    pub sip_to: Option<RawAddr>,
    pub sip_subject: Option<RawGeneric>,
    pub sip_content_type: Option<RawContentType>,
    pub sip_payload: Option<RawPayload>,
}

/// The arguments of one invocation of the engine's callback.
#[derive(Debug, Clone)]
pub struct RawEvent {
    /// The event's code.
    pub event: i32,
    /// The status code that comes with it.
    pub status: i32,
    /// The status phrase, when its pointer was not null.
    pub phrase: Option<Vec<u8>>,
    /// The engine instance that reports.
    pub nua: usize,
    /// The dialog handle that the event belongs to, or null.
    pub nh: usize,
    /// The message that the event carries, when there is one.
    pub sip: Option<RawSip>,
    /// The parameters that come with the event, without the sentinel.
    pub tags: Vec<WireTag>,
}

/// An operation run against an engine that answers call by call.  The
/// operation starts with `reply` and is resumed with `replies` in turn,
/// until it is over or the engine has no more answers.  The run gives the
/// state at the end, the calls that were asked for, and the result where
/// the operation came to its end.
pub open spec fn run<S, T>(
    step: spec_fn(S, Reply) -> (S, Progress<T>),
    state: S,
    reply: Reply,
    replies: Seq<Reply>,
) -> (S, Seq<Call>, Option<T>)
    decreases replies.len(),
{
    let (after, next) = step(state, reply);
    match next {
        Progress::Done(result) => (after, Seq::empty(), Some(result)),
        Progress::Finish(call, result) => (after, seq![call], Some(result)),
        Progress::Perform(call) => if replies.len() == 0 {
            (after, seq![call], None)
        } else {
            let (end, calls, result) = run(step, after, replies[0], replies.drop_first());
            (end, seq![call] + calls, result)
        },
    }
}

} // verus!
