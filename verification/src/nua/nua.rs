//! The agent: one instance of the engine, from its creation to its
//! release.
//!
//! An agent is *created* without an engine instance, becomes *active* when
//! the engine hands one out, is *shutting down* from the moment a shutdown
//! has been asked for, and is *destroyed* once the instance is released.
//! The instance is released only after the engine has confirmed the
//! shutdown, or after the reactor has reported that nothing more will
//! happen.

use crate::error::Error;
use crate::nua::event::Event;
use crate::nua::handle::Handle;
use crate::nua::handle::HandleView;
use crate::sip::sip_from_sys;
use crate::sip::Sip;
use crate::su::get_default_root;
use crate::su::get_default_root_next;
use crate::su::Root;
use crate::su::Su;
use crate::sys::pointee;
use crate::sys::pointee_mut;
use crate::sys::sentinel;
use crate::sys::wire_views;
use crate::sys::Call;
use crate::sys::Progress;
use crate::sys::RawEvent;
use crate::sys::Reply;
use crate::sys::WireTag;
use crate::sys::WireTagView;
use crate::tag::builder::array_or_sentinel;
use crate::tag::builder::tag_views;
use crate::tag::builder::wire_of_tags;
use crate::tag::builder::wire_tags;
use crate::tag::tag::item_from_wire;
use crate::tag::tag::tag_of_item;
use crate::tag::tag::Tag;
use crate::tag::tag::TagItem;
use crate::tag::tag::TagView;
use crate::text::read_text;
use crate::text::text_at;
use vstd::prelude::*;

verus! {

/// The status from which the reply to a shutdown is final.
pub const SHUTDOWN_FINAL_STATUS: u32 = 200;

/// The timeout of the steps that wait for a shutdown.
pub const WAIT_TIMEOUT: i64 = 1;

/// Where an agent stands in its life.
#[derive(Debug, Clone, Copy, PartialEq, Eq, Structural)]
pub enum NuaState {
    /// No engine instance yet.
    Created,
    /// The engine instance is up and reports to the callback.
    Active,
    /// A shutdown has been asked for.
    ShuttingDown,
    /// The engine instance is released.
    Destroyed,
}

/// NUA agent.
#[derive(Debug)]
pub struct Nua {
    state: NuaState,
    root: usize,
    c_ptr: usize,
    shutdown_completed: bool,
}

/// A [`Nua`] as plain values.
pub struct NuaView {
    pub state: NuaState,
    /// The address of the reactor that drives the agent.
    pub root: usize,
    /// The address of the engine instance, or null.
    pub c_ptr: usize,
    /// The engine has confirmed the shutdown.
    pub shutdown_completed: bool,
}

impl View for Nua {
    type V = NuaView;

    closed spec fn view(&self) -> NuaView {
        NuaView {
            state: self.state,
            root: self.root,
            c_ptr: self.c_ptr,
            shutdown_completed: self.shutdown_completed,
        }
    }
}

/// What holds of every agent: it has an engine instance exactly while it
/// is active or shutting down, and then it has a reactor too.
pub open spec fn nua_wf(nua: NuaView) -> bool {
    &&& (nua.state is Created || nua.state is Destroyed) <==> nua.c_ptr == 0
    &&& nua.c_ptr != 0 ==> nua.root != 0
}

/// The agent before its engine instance is made.
pub open spec fn unborn() -> NuaView {
    NuaView { state: NuaState::Created, root: 0, c_ptr: 0, shutdown_completed: false }
}

/// The agent after its engine instance is released.
pub open spec fn released(nua: NuaView) -> NuaView {
    NuaView { state: NuaState::Destroyed, c_ptr: 0, ..nua }
}

/// The event is the engine's final word on a shutdown.
pub open spec fn is_shutdown_reply(event: Event, status: u32) -> bool {
    event is ReplyShutdown && status >= SHUTDOWN_FINAL_STATUS
}

/// What an event does to an agent: the final reply to a shutdown marks
/// the shutdown as completed, and nothing else changes anything.
pub open spec fn on_event(nua: NuaView, event: Event, status: u32) -> NuaView {
    if is_shutdown_reply(event, status) {
        NuaView { shutdown_completed: true, ..nua }
    } else {
        nua
    }
}

/// The engine can be asked for an instance: there is a reactor to run it
/// on and a context to register.
pub open spec fn create_call_ok(root: usize, magic: usize) -> bool {
    root != 0 && magic != 0
}

/// The step of a creation that needs no call: `None` where the engine has
/// to be asked, else the agent afterwards and the result.
pub open spec fn create_next(nua: NuaView, root: usize, magic: usize, reply: Reply) -> (
    NuaView,
    Option<Result<(), Error>>,
) {
    if !(nua.state is Created) || !create_call_ok(root, magic) {
        (nua, Some(Err(Error::CreateNuaError)))
    } else {
        match reply {
            Reply::Nua(c_ptr) => if c_ptr == 0 {
                (nua, Some(Err(Error::CreateNuaError)))
            } else {
                (NuaView { state: NuaState::Active, root, c_ptr, ..nua }, Some(Ok(())))
            },
            _ => (nua, None),
        }
    }
}

/// `next` is what a creation owes: the result where there is one, else
/// the request for an engine instance on `root`, with `magic` as context
/// and the parameter array of `tags`.
pub open spec fn creates(
    next: Progress<Result<(), Error>>,
    outcome: Option<Result<(), Error>>,
    root: usize,
    magic: usize,
    tags: Seq<TagView>,
) -> bool {
    match outcome {
        Some(result) => next == Progress::Done(result),
        None => next matches Progress::Perform(Call::NuaCreate { root: r, magic: m, tags: t })
            && r == root && m == magic && wire_views(t@) == wire_of_tags(tags),
    }
}

/// `after` and `next` are what a creation on the default reactor owes
/// when the search for that reactor has come to `found`: while the reactor
/// is being made the agent waits and the reactor's calls are passed on; a
/// reactor that cannot be made fails the creation; and on the reactor
/// found the agent is created as on any other.
pub open spec fn creates_on_default_root(
    nua: NuaView,
    found: Progress<Result<usize, Error>>,
    magic: usize,
    tags: Seq<TagView>,
    reply: Reply,
    after: NuaView,
    next: Progress<Result<(), Error>>,
) -> bool {
    match found {
        Progress::Perform(call) => next == Progress::<Result<(), Error>>::Perform(call) && after
            == nua,
        Progress::Finish(call, Ok(_)) => next == Progress::<Result<(), Error>>::Perform(call)
            && after == nua,
        Progress::Finish(call, Err(e)) => next == Progress::Finish(call, Err::<(), Error>(e))
            && after == nua,
        Progress::Done(Err(e)) => next == Progress::Done(Err::<(), Error>(e)) && after == nua,
        Progress::Done(Ok(root)) => {
            &&& after == create_next(nua, root, magic, reply).0
            &&& creates(next, create_next(nua, root, magic, reply).1, root, magic, tags)
        },
    }
}

/// Asking for a shutdown: once, from an active agent whose shutdown the
/// engine has not confirmed already.
pub open spec fn shutdown_next(nua: NuaView) -> (NuaView, Progress<()>) {
    if !nua.shutdown_completed && nua.state is Active {
        (
            NuaView { state: NuaState::ShuttingDown, ..nua },
            Progress::Finish(Call::NuaShutdown { nua: nua.c_ptr }, ()),
        )
    } else {
        (nua, Progress::Done(()))
    }
}

/// Shutting down and waiting: ask for the shutdown where that has not
/// been done, then step the reactor until the engine has confirmed the
/// shutdown or the reactor is drained.
pub open spec fn shutdown_and_wait_next(nua: NuaView, reply: Reply) -> (NuaView, Progress<()>) {
    if nua.shutdown_completed {
        (nua, Progress::Done(()))
    } else if nua.state is Active {
        (
            NuaView { state: NuaState::ShuttingDown, ..nua },
            Progress::Perform(Call::NuaShutdown { nua: nua.c_ptr }),
        )
    } else if nua.state is ShuttingDown && !reply.is_drained() {
        (nua, Progress::Perform(Call::RootStep { root: nua.root, timeout: WAIT_TIMEOUT }))
    } else {
        (nua, Progress::Done(()))
    }
}

/// Destroying: nothing where no instance is held; else shut down and
/// wait, and release the instance when that is over.
pub open spec fn destroy_next(nua: NuaView, reply: Reply) -> (NuaView, Progress<()>) {
    if nua.c_ptr == 0 {
        (nua, Progress::Done(()))
    } else {
        let (waiting, next) = shutdown_and_wait_next(nua, reply);
        match next {
            Progress::Done(_) => (
                released(waiting),
                Progress::Finish(Call::NuaDestroy { nua: nua.c_ptr }, ()),
            ),
            _ => (waiting, next),
        }
    }
}

impl Nua {
    #[verifier::type_invariant]
    spec fn inv(&self) -> bool {
        nua_wf(self@)
    }

    /// An agent without an engine instance.
    pub fn _new() -> (nua: Nua)
        ensures
            nua@ == unborn(),
    {
        Nua { state: NuaState::Created, root: 0, c_ptr: 0, shutdown_completed: false }
    }

    /// Where the agent stands in its life.
    pub fn state(&self) -> (state: NuaState)
        ensures
            state == self@.state,
    {
        self.state
    }

    /// The engine has confirmed the shutdown.
    pub fn is_shutdown_completed(&self) -> (completed: bool)
        ensures
            completed == self@.shutdown_completed,
    {
        self.shutdown_completed
    }

    /// The address of the engine instance, or null.
    pub fn c_ptr(&self) -> (c_ptr: usize)
        ensures
            c_ptr == self@.c_ptr,
            nua_wf(self@),
    {
        proof {
            use_type_invariant(self);
        }
        self.c_ptr
    }

    /// Root reactor object: the address of the reactor that drives the
    /// agent, or null before the agent has one.
    pub fn root(&self) -> (root: usize)
        ensures
            root == self@.root,
    {
        self.root
    }

    /// Builds the call that asks the engine for an instance.
    pub fn _create(root: usize, magic: usize, tags: Option<Vec<WireTag>>) -> (res: Result<
        Call,
        Error,
    >)
        requires
            tags matches Some(array) ==> array@.len() > 0 && array@.last()@ == sentinel(),
        ensures
            res is Ok <==> create_call_ok(root, magic),
            res matches Err(e) ==> e == Error::CreateNuaError,
            res matches Ok(call) ==> call matches Call::NuaCreate { root: r, magic: m, tags: t }
                && r == root && m == magic && t@.len() > 0 && t@.last()@ == sentinel() && (
            match tags {
                Some(array) => t == array,
                None => t@.len() == 1,
            }),
    {
        if root == 0 {
            return Err(Error::CreateNuaError);
        }
        if magic == 0 {
            return Err(Error::CreateNuaError);
        }
        Ok(Call::NuaCreate { root, magic, tags: array_or_sentinel(tags) })
    }

    /// Create a NUA agent on the default reactor, which is made first
    /// where the process has none.
    pub fn create(&mut self, su: &mut Su, magic: usize, tags: &[Tag], reply: Reply) -> (next:
        Progress<Result<(), Error>>)
        ensures
            final(su)@ == get_default_root_next(old(su)@, reply).0,
            creates_on_default_root(
                old(self)@,
                get_default_root_next(old(su)@, reply).1,
                magic,
                tag_views(tags@),
                reply,
                final(self)@,
                next,
            ),
    {
        match get_default_root(su, reply) {
            Progress::Perform(call) => Progress::Perform(call),
            Progress::Finish(call, Ok(_)) => Progress::Perform(call),
            Progress::Finish(call, Err(e)) => Progress::Finish(call, Err(e)),
            Progress::Done(Err(e)) => Progress::Done(Err(e)),
            Progress::Done(Ok(root)) => self.create_with_root(root, magic, tags, reply),
        }
    }

    /// Create a NUA agent on `root`, to report to the callback with
    /// `magic` as its context.
    pub fn create_with_root(&mut self, root: &Root, magic: usize, tags: &[Tag], reply: Reply) -> (next:
        Progress<Result<(), Error>>)
        ensures
            final(self)@ == create_next(old(self)@, root@, magic, reply).0,
            creates(
                next,
                create_next(old(self)@, root@, magic, reply).1,
                root@,
                magic,
                tag_views(tags@),
            ),
    {
        proof {
            use_type_invariant(&*self);
        }
        if self.state != NuaState::Created {
            return Progress::Done(Err(Error::CreateNuaError));
        }
        let c_root = root.address();
        if let Reply::Nua(c_ptr) = reply {
            if c_root == 0 || magic == 0 || c_ptr == 0 {
                /* failed to create */
                return Progress::Done(Err(Error::CreateNuaError));
            }
            *self = Nua {
                state: NuaState::Active,
                root: c_root,
                c_ptr,
                shutdown_completed: self.shutdown_completed,
            };
            return Progress::Done(Ok(()));
        }
        match Self::_create(c_root, magic, Some(wire_tags(tags))) {
            Ok(call) => Progress::Perform(call),
            Err(e) => Progress::Done(Err(e)),
        }
    }

    /// Takes note of an event that the engine reports for this agent.
    pub fn _on_sys_nua_event(&mut self, event: Event, status: u32)
        ensures
            final(self)@ == on_event(old(self)@, event, status),
    {
        proof {
            use_type_invariant(&*self);
        }
        match event {
            Event::ReplyShutdown => {
                if status >= SHUTDOWN_FINAL_STATUS {
                    self.shutdown_completed = true;
                }
            },
            _ => {},
        }
    }

    /// Shutdown NUA stack.
    pub fn shutdown_and_wait(&mut self, reply: Reply) -> (next: Progress<()>)
        requires
            old(self)@.shutdown_completed || old(self)@.c_ptr != 0,
        ensures
            (final(self)@, next) == shutdown_and_wait_next(old(self)@, reply),
    {
        proof {
            use_type_invariant(&*self);
        }
        if self.shutdown_completed {
            return Progress::Done(());
        }
        match self.state {
            NuaState::Active => {
                self.state = NuaState::ShuttingDown;
                Progress::Perform(Call::NuaShutdown { nua: self.c_ptr })
            },
            NuaState::ShuttingDown => {
                if let Reply::Remaining(remaining) = reply {
                    if remaining < 0 {
                        return Progress::Done(());
                    }
                }
                Progress::Perform(Call::RootStep { root: self.root, timeout: WAIT_TIMEOUT })
            },
            _ => Progress::Done(()),
        }
    }

    /// Shutdown NUA stack.
    pub fn shutdown(&mut self) -> (next: Progress<()>)
        requires
            old(self)@.shutdown_completed || old(self)@.c_ptr != 0,
        ensures
            (final(self)@, next) == shutdown_next(old(self)@),
    {
        proof {
            use_type_invariant(&*self);
        }
        if self.shutdown_completed {
            return Progress::Done(());
        }
        match self.state {
            NuaState::Active => {
                self.state = NuaState::ShuttingDown;
                Self::_shutdown(self.c_ptr)
            },
            _ => Progress::Done(()),
        }
    }

    /// The call that asks an engine instance to shut down.
    pub fn _shutdown(nua: usize) -> (next: Progress<()>)
        requires
            nua != 0,
        ensures
            next == Progress::Finish(Call::NuaShutdown { nua }, ()),
    {
        Progress::Finish(Call::NuaShutdown { nua }, ())
    }

    /// Destroy the NUA stack.
    pub fn destroy(&mut self, reply: Reply) -> (next: Progress<()>)
        ensures
            (final(self)@, next) == destroy_next(old(self)@, reply),
    {
        proof {
            use_type_invariant(&*self);
        }
        if self.c_ptr == 0 {
            return Progress::Done(());
        }
        /* before destroy we need to shutdown and wait for that shutdown */
        match self.shutdown_and_wait(reply) {
            Progress::Done(_) => {
                let nua = self.c_ptr;
                *self = Nua {
                    state: NuaState::Destroyed,
                    root: self.root,
                    c_ptr: 0,
                    shutdown_completed: self.shutdown_completed,
                };
                Self::_destroy(nua)
            },
            next => next,
        }
    }

    /// The call that releases an engine instance, or nothing for none.
    pub fn _destroy(nua: usize) -> (next: Progress<()>)
        ensures
            next == (if nua == 0 {
                Progress::Done(())
            } else {
                Progress::Finish(Call::NuaDestroy { nua }, ())
            }),
    {
        if nua == 0 {
            return Progress::Done(());
        }
        Progress::Finish(Call::NuaDestroy { nua }, ())
    }

    /// Run event and message loop.
    pub fn run(&self) -> (next: Progress<()>)
        requires
            self@.root != 0,
        ensures
            next == Progress::Finish(Call::RootRun { root: self@.root }, ()),
    {
        Progress::Finish(Call::RootRun { root: self.root }, ())
    }

    /// Terminate event loop.
    pub fn break_(&self) -> (next: Progress<()>)
        requires
            self@.root != 0,
        ensures
            next == Progress::Finish(Call::RootBreak { root: self@.root }, ()),
    {
        Progress::Finish(Call::RootBreak { root: self.root }, ())
    }

    /// Terminate event loop.
    pub fn quit(&self) -> (next: Progress<()>)
        requires
            self@.root != 0,
        ensures
            next == Progress::Finish(Call::RootBreak { root: self@.root }, ()),
    {
        self.break_()
    }
}

/// No operation and no event breaks what holds of every agent.
pub proof fn lemma_nua_wf_kept(
    nua: NuaView,
    root: usize,
    magic: usize,
    reply: Reply,
    event: Event,
    status: u32,
)
    requires
        nua_wf(nua),
    ensures
        nua_wf(unborn()),
        nua_wf(create_next(nua, root, magic, reply).0),
        nua_wf(shutdown_next(nua).0),
        nua_wf(shutdown_and_wait_next(nua, reply).0),
        nua_wf(destroy_next(nua, reply).0),
        nua_wf(on_event(nua, event, status)),
{
}

/// Whenever a destruction is over, the agent holds no engine instance.
/// Where it held one, that instance is released by the same step, the
/// agent is destroyed, and the shutdown has been confirmed, unless the
/// reactor reported that it had nothing more to do before the engine's
/// confirmation came.
pub proof fn lemma_destroy_releases(nua: NuaView, reply: Reply)
    requires
        nua_wf(nua),
    ensures
        ({
            let (after, next) = destroy_next(nua, reply);
            &&& next.is_over() ==> after.c_ptr == 0
            &&& next.is_over() && nua.c_ptr != 0 ==> {
                &&& after.state is Destroyed
                &&& next == Progress::Finish(Call::NuaDestroy { nua: nua.c_ptr }, ())
                &&& after.shutdown_completed || reply.is_drained()
            }
            &&& next.asks() matches Some(Call::NuaDestroy { .. }) ==> next.is_over()
            &&& after.shutdown_completed == nua.shutdown_completed
        }),
{
}

/// Destroying twice is safe: on a destroyed agent a destruction asks for
/// nothing and changes nothing.
pub proof fn lemma_destroy_twice(nua: NuaView, first: Reply, second: Reply)
    requires
        nua_wf(nua),
        destroy_next(nua, first).1.is_over(),
    ensures
        destroy_next(destroy_next(nua, first).0, second) == (
            destroy_next(nua, first).0,
            Progress::Done(()),
        ),
{
}

/// One round of work with the engine: the events that it reports to the
/// agent while a call runs, and what the call returns.
pub struct Round {
    pub events: Seq<(Event, u32)>,
    pub reply: Reply,
}

/// The agent after a run of events.
pub open spec fn after_events(nua: NuaView, events: Seq<(Event, u32)>) -> NuaView
    decreases events.len(),
{
    if events.len() == 0 {
        nua
    } else {
        after_events(on_event(nua, events[0].0, events[0].1), events.drop_first())
    }
}

/// A destruction run against an engine that answers round by round: the
/// agent at the end, the calls that were asked for, and whether the
/// destruction is over.  A run ends when the destruction is over or when
/// the engine has no more rounds to give.
pub open spec fn destroy_run(nua: NuaView, reply: Reply, rounds: Seq<Round>) -> (
    NuaView,
    Seq<Call>,
    bool,
)
    decreases rounds.len(),
{
    let (after, next) = destroy_next(nua, reply);
    match next {
        Progress::Done(_) => (after, Seq::empty(), true),
        Progress::Finish(call, _) => (after, seq![call], true),
        Progress::Perform(call) => if rounds.len() == 0 {
            (after, seq![call], false)
        } else {
            let seen = after_events(after, rounds[0].events);
            let (end, calls, over) = destroy_run(seen, rounds[0].reply, rounds.drop_first());
            (end, seq![call] + calls, over)
        },
    }
}

/// Events touch nothing but the confirmation of the shutdown, which they
/// never take back.
pub proof fn lemma_after_events(nua: NuaView, events: Seq<(Event, u32)>)
    ensures
        after_events(nua, events).state == nua.state,
        after_events(nua, events).root == nua.root,
        after_events(nua, events).c_ptr == nua.c_ptr,
        nua.shutdown_completed ==> after_events(nua, events).shutdown_completed,
        after_events(nua, events).shutdown_completed <==> nua.shutdown_completed || exists|i: int|
            0 <= i < events.len() && is_shutdown_reply(events[i].0, events[i].1),
    decreases events.len(),
{
    if events.len() > 0 {
        let first = on_event(nua, events[0].0, events[0].1);
        let rest = events.drop_first();
        lemma_after_events(first, rest);
        if after_events(nua, events).shutdown_completed && !nua.shutdown_completed {
            if !is_shutdown_reply(events[0].0, events[0].1) {
                let i = choose|i: int|
                    0 <= i < rest.len() && is_shutdown_reply(rest[i].0, rest[i].1);
                assert(is_shutdown_reply(events[i + 1].0, events[i + 1].1));
            }
        }
        if exists|i: int| 0 <= i < events.len() && is_shutdown_reply(events[i].0, events[i].1) {
            let i = choose|i: int|
                0 <= i < events.len() && is_shutdown_reply(events[i].0, events[i].1);
            if i > 0 {
                assert(is_shutdown_reply(rest[i - 1].0, rest[i - 1].1));
            }
        }
    }
}

/// Whatever the engine reports and returns while an agent is destroyed:
/// the engine instance is released at most once, as the very last call
/// and only when the destruction is over; before that the engine is asked
/// to shut down, once and first, unless that was asked or confirmed
/// before; every other call is a step of the agent's reactor.  When the
/// destruction is over the agent holds no engine instance, and the
/// shutdown has been confirmed unless a step reported that the reactor
/// had nothing more to do.
pub proof fn lemma_destroy_run(nua: NuaView, reply: Reply, rounds: Seq<Round>)
    requires
        nua_wf(nua),
    ensures
        ({
            let (end, calls, over) = destroy_run(nua, reply, rounds);
            &&& nua_wf(end)
            &&& end.root == nua.root
            &&& over ==> end.c_ptr == 0
            &&& nua.c_ptr == 0 ==> over && calls.len() == 0 && end == nua
            &&& nua.c_ptr != 0 && over ==> {
                &&& end.state is Destroyed
                &&& calls.len() > 0
                &&& calls.last() == Call::NuaDestroy { nua: nua.c_ptr }
                &&& end.shutdown_completed || reply.is_drained() || exists|k: int|
                    0 <= k < rounds.len() && (#[trigger] rounds[k]).reply.is_drained()
            }
            &&& nua.c_ptr != 0 && nua.state is Active && !nua.shutdown_completed ==> calls.len()
                > 0 && calls[0] == Call::NuaShutdown { nua: nua.c_ptr }
            &&& forall|i: int|
                0 <= i < calls.len() ==> {
                    ||| i == 0 && nua.state is Active && !nua.shutdown_completed && calls[i]
                        == Call::NuaShutdown { nua: nua.c_ptr }
                    ||| #[trigger] calls[i] == Call::RootStep {
                        root: nua.root,
                        timeout: WAIT_TIMEOUT,
                    }
                    ||| i == calls.len() - 1 && over && calls[i] == Call::NuaDestroy {
                        nua: nua.c_ptr,
                    }
                }
        }),
    decreases rounds.len(),
{
    let (after, next) = destroy_next(nua, reply);
    if next is Perform && rounds.len() > 0 {
        let seen = after_events(after, rounds[0].events);
        let rest = rounds.drop_first();
        lemma_after_events(after, rounds[0].events);
        lemma_destroy_run(seen, rounds[0].reply, rest);
        let (end, later, over) = destroy_run(seen, rounds[0].reply, rest);
        let calls = seq![next->Perform_0] + later;
        assert(destroy_run(nua, reply, rounds) == (end, calls, over));
        assert forall|i: int| 0 < i < calls.len() implies calls[i] == later[i - 1] by {}
        if over {
            assert(calls.last() == later.last());
            if !end.shutdown_completed && !rounds[0].reply.is_drained() {
                let k = choose|k: int| 0 <= k < rest.len() && (#[trigger] rest[k]).reply.is_drained();
                assert(rounds[k + 1].reply.is_drained());
            }
        }
    }
}

/// Something that happens to an agent after its creation: an operation
/// is started or resumed with the engine's reply, or the engine reports an
/// event.
pub enum Happening {
    Shutdown,
    ShutdownAndWait(Reply),
    Destroy(Reply),
    Event(Event, u32),
}

/// The agent after one happening, and the call that it asks for.
pub open spec fn happen(nua: NuaView, what: Happening) -> (NuaView, Option<Call>) {
    match what {
        Happening::Shutdown => (shutdown_next(nua).0, shutdown_next(nua).1.asks()),
        Happening::ShutdownAndWait(reply) => (
            shutdown_and_wait_next(nua, reply).0,
            shutdown_and_wait_next(nua, reply).1.asks(),
        ),
        Happening::Destroy(reply) => (destroy_next(nua, reply).0, destroy_next(nua, reply).1.asks()),
        Happening::Event(event, status) => (on_event(nua, event, status), None),
    }
}

/// The agent after a history of happenings, and the calls that were asked
/// for on the way, in order.
pub open spec fn history(nua: NuaView, past: Seq<Happening>) -> (NuaView, Seq<Call>)
    decreases past.len(),
{
    if past.len() == 0 {
        (nua, Seq::empty())
    } else {
        let (before, calls) = history(nua, past.drop_last());
        let (after, asked) = happen(before, past.last());
        match asked {
            Some(call) => (after, calls.push(call)),
            None => (after, calls),
        }
    }
}

/// The engine was asked to shut the agent down somewhere in `calls`.
pub open spec fn asked_to_shut_down(calls: Seq<Call>, nua: usize) -> bool {
    exists|i: int| 0 <= i < calls.len() && #[trigger] calls[i] == (Call::NuaShutdown { nua })
}

/// In whatever order operations are started, resumed and re-entered, and
/// whatever the engine reports and returns: the engine is asked to shut an
/// agent down at most once and to release it at most once; the release is
/// the last call that is ever made for the agent; it is made only after
/// the shutdown was asked for or confirmed; and every other call is a step
/// of the agent's reactor.
pub proof fn lemma_history(nua: NuaView, past: Seq<Happening>)
    requires
        nua_wf(nua),
    ensures
        ({
            let (end, calls) = history(nua, past);
            let shutdown = Call::NuaShutdown { nua: nua.c_ptr };
            let release = Call::NuaDestroy { nua: nua.c_ptr };
            let step = Call::RootStep { root: nua.root, timeout: WAIT_TIMEOUT };
            &&& nua_wf(end)
            &&& end.root == nua.root
            &&& end.c_ptr == nua.c_ptr || end.c_ptr == 0
            &&& forall|i: int|
                0 <= i < calls.len() ==> #[trigger] calls[i] == shutdown || calls[i] == step
                    || calls[i] == release
            &&& forall|i: int, j: int|
                0 <= i < j < calls.len() ==> !(#[trigger] calls[i] == shutdown && #[trigger] calls[j]
                    == shutdown)
            &&& forall|i: int|
                0 <= i < calls.len() && #[trigger] calls[i] == release ==> i == calls.len() - 1
            &&& end.c_ptr == 0 && nua.c_ptr != 0 <==> calls.len() > 0 && calls.last() == release
            &&& asked_to_shut_down(calls, nua.c_ptr) ==> nua.state is Active
            &&& nua.state is Active ==> {
                &&& end.state is Active ==> calls.len() == 0
                &&& end.state is ShuttingDown ==> asked_to_shut_down(calls, nua.c_ptr)
                &&& end.state is Destroyed ==> end.shutdown_completed || asked_to_shut_down(
                    calls,
                    nua.c_ptr,
                )
                &&& !(end.state is Created)
            }
            &&& !(nua.state is Active) ==> !(end.state is Active)
        }),
    decreases past.len(),
{
    if past.len() > 0 {
        let earlier = past.drop_last();
        lemma_history(nua, earlier);
        let (before, calls) = history(nua, earlier);
        let (after, asked) = happen(before, past.last());
        let shutdown = Call::NuaShutdown { nua: nua.c_ptr };
        if asked is Some {
            let all = calls.push(asked->0);
            assert forall|i: int| 0 <= i < calls.len() implies #[trigger] all[i] == calls[i] by {}
            if asked_to_shut_down(calls, nua.c_ptr) {
                let i = choose|i: int| 0 <= i < calls.len() && #[trigger] calls[i] == shutdown;
                assert(all[i] == shutdown);
            }
            if asked->0 == shutdown {
                assert(all[calls.len() as int] == shutdown);
            }
            if asked_to_shut_down(all, nua.c_ptr) && !asked_to_shut_down(calls, nua.c_ptr) {
                let i = choose|i: int| 0 <= i < all.len() && #[trigger] all[i] == shutdown;
                if i < calls.len() {
                    assert(calls[i] == shutdown);
                }
            }
        }
    }
}

/// Why an invocation of the callback cannot be served.  None of these
/// can be recovered from: the caller must stop the process.
#[derive(Debug, Clone, Copy, PartialEq, Eq, Structural)]
pub enum Trap {
    /// The engine reported an event that has no code known here.
    UnknownEvent,
    /// The engine handed back no context for the agent.
    NullAgent,
    /// The engine instance that reports is not the agent's own.
    AgentMismatch,
    /// The native handle that is reported is not the dialog handle's own.
    HandleMismatch,
}

/// What the callback hands to the user's event sink.
#[derive(Debug)]
pub struct Delivery {
    pub event: Event,
    pub status: u32,
    pub phrase: String,
    /// The event belongs to a dialog handle of the user's.
    pub has_handle: bool,
    pub sip: Sip,
    pub tags: Vec<Tag>,
}

/// An agent behind an optional reference, as plain values.
pub open spec fn agent_view(nua: Option<Nua>) -> Option<NuaView> {
    match nua {
        Some(agent) => Some(agent@),
        None => None,
    }
}

/// A handle behind an optional reference, as plain values.
pub open spec fn handle_view(handle: Option<Handle>) -> Option<HandleView> {
    match handle {
        Some(h) => Some(h@),
        None => None,
    }
}

/// The status that the event sink sees: the engine's, as an unsigned
/// number.
pub open spec fn status_of(status: i32) -> u32 {
    #[verifier::truncate]
    (status as u32)
}

/// The reason for which an invocation of the callback is refused, if it
/// is: checked in this order, the event's code is unknown, there is no
/// agent, the agent's engine instance is another, the dialog handle's
/// native handle is another.
pub open spec fn trap_of(
    raw: RawEvent,
    nua: Option<NuaView>,
    handle: Option<HandleView>,
) -> Option<Trap> {
    if Event::of_code(raw.event as int) is None {
        Some(Trap::UnknownEvent)
    } else if nua is None {
        Some(Trap::NullAgent)
    } else if raw.nua != nua->0.c_ptr {
        Some(Trap::AgentMismatch)
    } else if handle is Some && raw.nh != handle->0.c_ptr {
        Some(Trap::HandleMismatch)
    } else {
        None
    }
}

/// The tags that come with an event, read entry by entry.
pub open spec fn tags_from_wire(entries: Seq<WireTagView>) -> Seq<TagView> {
    entries.map_values(|entry: WireTagView| tag_of_item(item_from_wire(Some(entry))))
}

/// Reads the tags that come with an event.
pub fn decode_tags(entries: &[WireTag]) -> (tags: Vec<Tag>)
    ensures
        tag_views(tags@) == tags_from_wire(wire_views(entries@)),
{
    let mut tags: Vec<Tag> = Vec::new();
    let mut i: usize = 0;
    while i < entries.len()
        invariant
            i <= entries.len(),
            tag_views(tags@) == tags_from_wire(wire_views(entries@).subrange(0, i as int)),
        decreases entries.len() - i,
    {
        let ghost before = tag_views(tags@);
        let item = TagItem::_from_sys(Some(&entries[i]));
        let tag = Tag::from(&item);
        tags.push(tag);
        assert(tag_views(tags@) =~= before.push(tag@));
        assert(tags_from_wire(wire_views(entries@).subrange(0, i + 1)) =~= before.push(tag@));
        i += 1;
    }
    assert(wire_views(entries@).subrange(0, entries@.len() as int) =~= wire_views(entries@));
    tags
}

/// Serves one invocation of the engine's callback: decodes what the
/// engine handed over, checks that it is meant for this agent and this
/// handle, takes note of a confirmed shutdown, and returns what the
/// user's event sink is to be called with.
pub fn nua_callback_glue(raw: &RawEvent, nua: Option<&mut Nua>, handle: Option<&Handle>) -> (res:
    Result<Delivery, Trap>)
    ensures
        match trap_of(*raw, agent_view(pointee_mut(nua)), handle_view(pointee(handle))) {
            Some(trap) => {
                &&& res matches Err(t) && t == trap
                &&& nua matches Some(agent) ==> final(agent)@ == agent@
            },
            None => {
                &&& res matches Ok(delivery)
                &&& nua matches Some(agent)
                &&& Event::of_code(raw.event as int) == Some(delivery.event)
                &&& delivery.status == status_of(raw.status)
                &&& delivery.phrase@ == text_at(raw.phrase)
                &&& delivery.has_handle == handle is Some
                &&& delivery.sip@ == sip_from_sys(raw.sip)
                &&& tag_views(delivery.tags@) == tags_from_wire(wire_views(raw.tags@))
                &&& final(agent)@ == on_event(agent@, delivery.event, delivery.status)
            },
        },
{
    let event = match Event::try_from(raw.event) {
        Ok(event) => event,
        Err(_) => {
            return Err(Trap::UnknownEvent);
        },
    };
    let status = #[verifier::truncate]
    (raw.status as u32);
    let phrase = read_text(&raw.phrase);
    /* sanity check for Nua */
    let agent = match nua {
        Some(agent) => agent,
        None => {
            return Err(Trap::NullAgent);
        },
    };
    if raw.nua != agent.c_ptr {
        return Err(Trap::AgentMismatch);
    }
    /* sanity check for Handle */
    let has_handle = match handle {
        Some(handle) => {
            /* reply to an owned handle function (outgoing sip message) */
            if raw.nh != handle.c_ptr() {
                return Err(Trap::HandleMismatch);
            }
            true
        },
        None => false,
    };
    let tags = decode_tags(raw.tags.as_slice());
    let sip = Sip::_from_sys(raw.sip.as_ref());
    agent._on_sys_nua_event(event, status);
    Ok(Delivery { event, status, phrase, has_handle, sip, tags })
}

} // verus!
