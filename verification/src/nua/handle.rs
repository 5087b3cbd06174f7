//! The dialog handle: one operation context under an agent.

use crate::error::Error;
use crate::nua::nua::Nua;
use crate::sys::sentinel;
use crate::sys::wire_views;
use crate::sys::Call;
use crate::sys::Progress;
use crate::sys::Reply;
use crate::sys::WireTag;
use crate::tag::builder::array_or_sentinel;
use crate::tag::builder::tag_views;
use crate::tag::builder::wire_of_tags;
use crate::tag::builder::wire_tags;
use crate::tag::tag::Tag;
use crate::tag::tag::TagView;
use vstd::prelude::*;

verus! {

/// A dialog handle under an agent.
#[derive(Debug)]
pub struct Handle {
    nua: usize,
    c_ptr: usize,
}

/// A [`Handle`] as plain values.
pub struct HandleView {
    /// The address of the engine instance that the handle lives under.
    pub nua: usize,
    /// The address of the native handle, or null.
    pub c_ptr: usize,
}

impl View for Handle {
    type V = HandleView;

    closed spec fn view(&self) -> HandleView {
        HandleView { nua: self.nua, c_ptr: self.c_ptr }
    }
}

/// What holds of every handle: a native handle lives under an engine
/// instance.
pub open spec fn handle_wf(handle: HandleView) -> bool {
    handle.c_ptr != 0 ==> handle.nua != 0
}

/// The handle before its native handle is made.
pub open spec fn unbound() -> HandleView {
    HandleView { nua: 0, c_ptr: 0 }
}

/// The engine can be asked for a handle: there is an engine instance and
/// a context to register.
pub open spec fn handle_call_ok(nua: usize, magic: usize) -> bool {
    nua != 0 && magic != 0
}

/// The step of a creation that needs no call: `None` where the engine has
/// to be asked, else the handle afterwards and the result.
pub open spec fn create_next(handle: HandleView, nua: usize, magic: usize, reply: Reply) -> (
    HandleView,
    Option<Result<(), Error>>,
) {
    if handle.c_ptr != 0 || !handle_call_ok(nua, magic) {
        (handle, Some(Err(Error::CreateNuaHandleError)))
    } else {
        match reply {
            Reply::Handle(c_ptr) => if c_ptr == 0 {
                (handle, Some(Err(Error::CreateNuaHandleError)))
            } else {
                (HandleView { nua, c_ptr }, Some(Ok(())))
            },
            _ => (handle, None),
        }
    }
}

/// `next` is what a creation owes: the result where there is one, else
/// the request for a handle under `nua`, with `magic` as context and the
/// parameter array of `tags`.
pub open spec fn creates(
    next: Progress<Result<(), Error>>,
    outcome: Option<Result<(), Error>>,
    nua: usize,
    magic: usize,
    tags: Seq<TagView>,
) -> bool {
    match outcome {
        Some(result) => next == Progress::Done(result),
        None => next matches Progress::Perform(Call::HandleCreate { nua: n, magic: m, tags: t })
            && n == nua && m == magic && wire_views(t@) == wire_of_tags(tags),
    }
}

/// Releasing a handle: once, and the address is forgotten with it.
pub open spec fn destroy_next(handle: HandleView) -> (HandleView, Progress<()>) {
    if handle.c_ptr == 0 {
        (handle, Progress::Done(()))
    } else {
        (
            HandleView { c_ptr: 0, ..handle },
            Progress::Finish(Call::HandleDestroy { handle: handle.c_ptr }, ()),
        )
    }
}

impl Handle {
    #[verifier::type_invariant]
    spec fn inv(&self) -> bool {
        handle_wf(self@)
    }

    /// A handle without a native handle.
    pub fn _new() -> (handle: Handle)
        ensures
            handle@ == unbound(),
    {
        Handle { nua: 0, c_ptr: 0 }
    }

    /// The address of the native handle, or null.
    pub fn c_ptr(&self) -> (c_ptr: usize)
        ensures
            c_ptr == self@.c_ptr,
            handle_wf(self@),
    {
        proof {
            use_type_invariant(self);
        }
        self.c_ptr
    }

    /// The address of the engine instance that the handle lives under.
    pub fn nua(&self) -> (nua: usize)
        ensures
            nua == self@.nua,
    {
        self.nua
    }

    /// Creates a handle under `nua`, to be reported with `magic` as its
    /// context.
    pub fn create(&mut self, nua: &Nua, magic: usize, tags: &[Tag], reply: Reply) -> (next:
        Progress<Result<(), Error>>)
        ensures
            final(self)@ == create_next(old(self)@, nua@.c_ptr, magic, reply).0,
            creates(
                next,
                create_next(old(self)@, nua@.c_ptr, magic, reply).1,
                nua@.c_ptr,
                magic,
                tag_views(tags@),
            ),
    {
        proof {
            use_type_invariant(&*self);
        }
        if self.c_ptr != 0 {
            return Progress::Done(Err(Error::CreateNuaHandleError));
        }
        let c_nua = nua.c_ptr();
        if let Reply::Handle(c_ptr) = reply {
            if c_nua == 0 || magic == 0 || c_ptr == 0 {
                /* failed to create */
                return Progress::Done(Err(Error::CreateNuaHandleError));
            }
            *self = Handle { nua: c_nua, c_ptr };
            return Progress::Done(Ok(()));
        }
        match Handle::_create(c_nua, magic, Some(wire_tags(tags))) {
            Ok(call) => Progress::Perform(call),
            Err(e) => Progress::Done(Err(e)),
        }
    }

    /// Builds the call that asks the engine for a handle.
    pub fn _create(nua: usize, magic: usize, tags: Option<Vec<WireTag>>) -> (res: Result<
        Call,
        Error,
    >)
        requires
            tags matches Some(array) ==> array@.len() > 0 && array@.last()@ == sentinel(),
        ensures
            res is Ok <==> handle_call_ok(nua, magic),
            res matches Err(e) ==> e == Error::CreateNuaHandleError,
            res matches Ok(call) ==> call matches Call::HandleCreate { nua: n, magic: m, tags: t }
                && n == nua && m == magic && t@.len() > 0 && t@.last()@ == sentinel() && (
            match tags {
                Some(array) => t == array,
                None => t@.len() == 1,
            }),
    {
        if nua == 0 {
            return Err(Error::CreateNuaHandleError);
        }
        if magic == 0 {
            return Err(Error::CreateNuaHandleError);
        }
        Ok(Call::HandleCreate { nua, magic, tags: array_or_sentinel(tags) })
    }

    /// Builds the call that sends a message through the native handle
    /// `nh`.
    pub fn _message(nh: usize, tags: Option<Vec<WireTag>>) -> (call: Call)
        requires
            nh != 0,
            tags matches Some(array) ==> array@.len() > 0 && array@.last()@ == sentinel(),
        ensures
            call matches Call::Message { handle: h, tags: t } && h == nh && t@.len() > 0
                && t@.last()@ == sentinel() && (match tags {
                Some(array) => t == array,
                None => t@.len() == 1,
            }),
    {
        Call::Message { handle: nh, tags: array_or_sentinel(tags) }
    }

    /// Sends a message with the given parameters.
    pub fn message(&self, tags: &[Tag]) -> (next: Progress<()>)
        requires
            self@.c_ptr != 0,
        ensures
            next matches Progress::Finish(Call::Message { handle, tags: t }, _) && handle
                == self@.c_ptr && wire_views(t@) == wire_of_tags(tag_views(tags@)),
    {
        let sys_tags = wire_tags(tags);
        let nh = self.c_ptr;
        Progress::Finish(Self::_message(nh, Some(sys_tags)), ())
    }

    /// Builds the call that sends an invitation through the native handle
    /// `nh`.
    pub fn _invite(nh: usize, tags: Option<Vec<WireTag>>) -> (call: Call)
        requires
            nh != 0,
            tags matches Some(array) ==> array@.len() > 0 && array@.last()@ == sentinel(),
        ensures
            call matches Call::Invite { handle: h, tags: t } && h == nh && t@.len() > 0
                && t@.last()@ == sentinel() && (match tags {
                Some(array) => t == array,
                None => t@.len() == 1,
            }),
    {
        Call::Invite { handle: nh, tags: array_or_sentinel(tags) }
    }

    /// Sends an invitation with the given parameters.
    pub fn invite(&self, tags: &[Tag]) -> (next: Progress<()>)
        requires
            self@.c_ptr != 0,
        ensures
            next matches Progress::Finish(Call::Invite { handle, tags: t }, _) && handle
                == self@.c_ptr && wire_views(t@) == wire_of_tags(tag_views(tags@)),
    {
        let sys_tags = wire_tags(tags);
        let nh = self.c_ptr;
        Progress::Finish(Self::_invite(nh, Some(sys_tags)), ())
    }

    /// The call that releases the native handle `nh`.
    pub fn _destroy(nh: usize) -> (next: Progress<()>)
        requires
            nh != 0,
        ensures
            next == Progress::Finish(Call::HandleDestroy { handle: nh }, ()),
    {
        Progress::Finish(Call::HandleDestroy { handle: nh }, ())
    }

    /// Releases the native handle where one is held.
    pub fn destroy(&mut self) -> (next: Progress<()>)
        ensures
            (final(self)@, next) == destroy_next(old(self)@),
    {
        proof {
            use_type_invariant(&*self);
        }
        if self.c_ptr == 0 {
            return Progress::Done(());
        }
        let nh = self.c_ptr;
        self.c_ptr = 0;
        Self::_destroy(nh)
    }
}

/// A handle is released at most once: the first destruction releases the
/// native handle and forgets it, and a destruction after that asks for
/// nothing.
pub proof fn lemma_handle_destroyed_once(handle: HandleView)
    requires
        handle_wf(handle),
    ensures
        handle_wf(destroy_next(handle).0),
        destroy_next(handle).0.c_ptr == 0,
        handle.c_ptr != 0 ==> destroy_next(handle).1 == Progress::Finish(
            Call::HandleDestroy { handle: handle.c_ptr },
            (),
        ),
        destroy_next(destroy_next(handle).0) == (destroy_next(handle).0, Progress::Done(())),
{
}

} // verus!
