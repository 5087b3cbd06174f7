//! The reactor and the process-wide state of the native library.
//!
//! Nothing here calls the engine.  An operation takes the engine's last
//! reply and answers with the next native call to make; the caller makes it
//! and resumes the operation with what came back.  An operation starts with
//! [`Reply::Start`].

use crate::error::Error;
use crate::sys::run;
use crate::sys::well_answered;
use crate::sys::Call;
use crate::sys::Progress;
use crate::sys::Reply;
use vstd::prelude::*;

verus! {

/// The timeout of a step whose caller gave none, or one out of bounds.
pub const STEP_TIMEOUT_DEFAULT: i64 = 100;

/// The bound below which the timeout of a step is taken as given.
pub const STEP_TIMEOUT_BOUND: i64 = 1000;

/// The timeout of the steps that drain a reactor.
pub const RUSH_TIMEOUT: i64 = 1;

/// The timeout that a step runs with: the one given where it is not
/// negative and below [`STEP_TIMEOUT_BOUND`], else the default.
pub open spec fn step_timeout(timeout: Option<i64>) -> i64 {
    match timeout {
        Some(x) if 0 <= x && x < STEP_TIMEOUT_BOUND => x,
        _ => STEP_TIMEOUT_DEFAULT,
    }
}

/// A reactor: one polling object of the engine, known by its address.
#[derive(Debug)]
pub struct Root {
    c_ptr: usize,
}

impl View for Root {
    type V = usize;

    /// The address of the polling object, or null once it is released.
    closed spec fn view(&self) -> usize {
        self.c_ptr
    }
}

/// The result of an operation that makes a reactor, with the reactor
/// replaced by its address.
pub open spec fn root_address(made: Progress<Result<Root, Error>>) -> Progress<
    Result<usize, Error>,
> {
    match made {
        Progress::Perform(call) => Progress::Perform(call),
        Progress::Finish(call, Ok(root)) => Progress::Finish(call, Ok(root@)),
        Progress::Finish(call, Err(e)) => Progress::Finish(call, Err(e)),
        Progress::Done(Ok(root)) => Progress::Done(Ok(root@)),
        Progress::Done(Err(e)) => Progress::Done(Err(e)),
    }
}

/// Creating a polling object: ask for one; a null address is the failure
/// to make one; any other address is the reactor, whose internal threads
/// are switched off as the last step.
pub open spec fn create_next(reply: Reply) -> Progress<Result<usize, Error>> {
    match reply {
        Reply::Root(root) => if root == 0 {
            Progress::Done(Err(Error::InitError))
        } else {
            Progress::Finish(Call::RootThreading { root, enable: false }, Ok(root))
        },
        _ => Progress::Perform(Call::RootCreate),
    }
}

/// One step: ask for it with the timeout clamped, and hand back what the
/// engine returned, as it is.
pub open spec fn step_next(root: usize, timeout: Option<i64>, reply: Reply) -> Progress<i64> {
    match reply {
        Reply::Remaining(remaining) => Progress::Done(remaining),
        _ => Progress::Perform(Call::RootStep { root, timeout: step_timeout(timeout) }),
    }
}

/// One sleep: ask for it, and hand back what the engine returned.
pub open spec fn sleep_next(root: usize, timeout: i64, reply: Reply) -> Progress<i64> {
    match reply {
        Reply::Remaining(remaining) => Progress::Done(remaining),
        _ => Progress::Perform(Call::RootSleep { root, timeout }),
    }
}

/// Rushing: step until the engine reports that nothing is left to wait
/// for.
pub open spec fn rush_next(root: usize, reply: Reply) -> Progress<()> {
    match reply {
        Reply::Remaining(remaining) if remaining <= 0 => Progress::Done(()),
        _ => Progress::Perform(Call::RootStep { root, timeout: RUSH_TIMEOUT }),
    }
}

/// Releasing a reactor: nothing for one that is released already; else
/// step until the engine returns a negative value, then release it and
/// forget its address.
pub open spec fn destroy_next(root: usize, reply: Reply) -> (usize, Progress<()>) {
    if root == 0 {
        (root, Progress::Done(()))
    } else {
        match reply {
            Reply::Remaining(remaining) if remaining < 0 => (
                0,
                Progress::Finish(Call::RootDestroy { root }, ()),
            ),
            _ => (root, Progress::Perform(Call::RootStep { root, timeout: RUSH_TIMEOUT })),
        }
    }
}

/// The timeout of a step is the one given, if it lies within bounds, and
/// the default otherwise; either way it lies within bounds.
pub proof fn lemma_step_timeout(timeout: Option<i64>)
    ensures
        0 <= step_timeout(timeout) < STEP_TIMEOUT_BOUND,
        timeout matches Some(x) ==> (0 <= x < STEP_TIMEOUT_BOUND ==> step_timeout(timeout) == x),
        timeout matches Some(x) ==> (!(0 <= x < STEP_TIMEOUT_BOUND) ==> step_timeout(timeout)
            == STEP_TIMEOUT_DEFAULT),
        timeout is None ==> step_timeout(timeout) == STEP_TIMEOUT_DEFAULT,
{
}

impl Root {
    /// Creates a reactor, bringing the native library up first where that
    /// has not been done.
    pub fn new(su: &mut Su, reply: Reply) -> (made: Progress<Result<Root, Error>>)
        ensures
            (final(su)@, root_address(made)) == new_next(old(su)@, reply),
    {
        if !su.initialized {
            proof {
                use_type_invariant(&*su);
            }
            su.initialized = true;
            return Progress::Perform(Call::SuInit);
        }
        Root::_create(reply)
    }

    /// Creates a reactor.
    pub fn _create(reply: Reply) -> (made: Progress<Result<Root, Error>>)
        ensures
            root_address(made) == create_next(reply),
    {
        match reply {
            Reply::Root(root) => {
                if root == 0 {
                    return Progress::Done(Err(Error::InitError));
                }
                /* this library drives the polling itself */
                Progress::Finish(
                    Call::RootThreading { root, enable: false },
                    Ok(Root { c_ptr: root }),
                )
            },
            _ => Progress::Perform(Call::RootCreate),
        }
    }

    /// The address of the polling object, or null once it is released.
    pub fn address(&self) -> (address: usize)
        ensures
            address == self@,
    {
        self.c_ptr
    }

    /// The reactor still holds its polling object.
    pub fn is_alive(&self) -> (alive: bool)
        ensures
            alive == (self@ != 0),
    {
        self.c_ptr != 0
    }

    /// Releases the reactor after draining the work that is pending on it.
    pub fn destroy(&mut self, reply: Reply) -> (next: Progress<()>)
        ensures
            (final(self)@, next) == destroy_next(old(self)@, reply),
    {
        if self.c_ptr == 0 {
            return Progress::Done(());
        }
        let root = self.c_ptr;
        if let Reply::Remaining(remaining) = reply {
            if remaining < 0 {
                self.c_ptr = 0;
                return Progress::Finish(Call::RootDestroy { root }, ());
            }
        }
        Progress::Perform(Call::RootStep { root, timeout: RUSH_TIMEOUT })
    }

    /// Advances the engine by at most one unit of work and returns what
    /// the engine returned: the time that remains, or a negative value
    /// when nothing is pending.
    pub fn step(&self, timeout: Option<i64>, reply: Reply) -> (next: Progress<i64>)
        requires
            self@ != 0,
        ensures
            next == step_next(self@, timeout, reply),
    {
        if let Reply::Remaining(remaining) = reply {
            return Progress::Done(remaining);
        }
        let timeout = match timeout {
            Some(x) if x >= 0 && x < STEP_TIMEOUT_BOUND => x,
            _ => STEP_TIMEOUT_DEFAULT,
        };
        Progress::Perform(Call::RootStep { root: self.c_ptr, timeout })
    }

    /// Lets the engine work for up to `timeout`.
    pub fn sleep(&self, timeout: i64, reply: Reply) -> (next: Progress<i64>)
        requires
            self@ != 0,
        ensures
            next == sleep_next(self@, timeout, reply),
    {
        if let Reply::Remaining(remaining) = reply {
            return Progress::Done(remaining);
        }
        Progress::Perform(Call::RootSleep { root: self.c_ptr, timeout })
    }

    /// Enters the dispatch loop.
    pub fn run(&self) -> (next: Progress<()>)
        requires
            self@ != 0,
        ensures
            next == Progress::Finish(Call::RootRun { root: self@ }, ()),
    {
        Progress::Finish(Call::RootRun { root: self.c_ptr }, ())
    }

    /// Leaves the dispatch loop.
    pub fn break_(&self) -> (next: Progress<()>)
        requires
            self@ != 0,
        ensures
            next == Progress::Finish(Call::RootBreak { root: self@ }, ()),
    {
        Progress::Finish(Call::RootBreak { root: self.c_ptr }, ())
    }

    /// Steps until the engine reports that no time remains before its
    /// next timer.
    pub fn rush_until_next_timer(&self, reply: Reply) -> (next: Progress<()>)
        requires
            self@ != 0,
        ensures
            next == rush_next(self@, reply),
    {
        match reply {
            Reply::Remaining(remaining) if remaining <= 0 => Progress::Done(()),
            _ => Progress::Perform(Call::RootStep { root: self.c_ptr, timeout: RUSH_TIMEOUT }),
        }
    }
}

/// What the process knows of the native library: whether it is up, and
/// the reactor that serves whoever names none.
#[derive(Debug)]
pub struct Su {
    initialized: bool,
    default_root: Option<Root>,
}

/// A [`Su`] as plain values.
pub struct SuView {
    pub initialized: bool,
    /// The address of the default reactor, where one was made.
    pub default_root: Option<usize>,
}

impl View for Su {
    type V = SuView;

    closed spec fn view(&self) -> SuView {
        SuView {
            initialized: self.initialized,
            default_root: match self.default_root {
                Some(root) => Some(root@),
                None => None,
            },
        }
    }
}

/// The state of a process that has not touched the native library.
pub open spec fn fresh() -> SuView {
    SuView { initialized: false, default_root: None }
}

/// Bringing the library up: once, and never again while it is up.
pub open spec fn init_next(su: SuView) -> (SuView, Progress<Result<(), Error>>) {
    if su.initialized {
        (su, Progress::Done(Ok(())))
    } else {
        (SuView { initialized: true, ..su }, Progress::Finish(Call::SuInit, Ok(())))
    }
}

/// Tearing the library down: only where it is up.
pub open spec fn deinit_next(su: SuView) -> (SuView, Progress<()>) {
    if su.initialized {
        (SuView { initialized: false, ..su }, Progress::Finish(Call::SuDeinit, ()))
    } else {
        (su, Progress::Done(()))
    }
}

/// Making a reactor: the library is brought up first.
pub open spec fn new_next(su: SuView, reply: Reply) -> (SuView, Progress<Result<usize, Error>>) {
    if !su.initialized {
        (SuView { initialized: true, ..su }, Progress::Perform(Call::SuInit))
    } else {
        (su, create_next(reply))
    }
}

/// Making the default reactor: the library is brought up first; where the
/// reactor exists nothing is left to do; else one is created and kept.
pub open spec fn init_default_root_next(su: SuView, reply: Reply) -> (
    SuView,
    Progress<Result<(), Error>>,
) {
    if !su.initialized {
        (SuView { initialized: true, ..su }, Progress::Perform(Call::SuInit))
    } else if su.default_root is Some {
        (su, Progress::Done(Ok(())))
    } else {
        match create_next(reply) {
            Progress::Perform(call) => (su, Progress::Perform(call)),
            Progress::Finish(call, Ok(root)) => (
                SuView { default_root: Some(root), ..su },
                Progress::Finish(call, Ok(())),
            ),
            Progress::Finish(call, Err(e)) => (su, Progress::Finish(call, Err(e))),
            Progress::Done(Ok(root)) => (
                SuView { default_root: Some(root), ..su },
                Progress::Done(Ok(())),
            ),
            Progress::Done(Err(e)) => (su, Progress::Done(Err(e))),
        }
    }
}

/// Releasing the default reactor: drained and released like any other,
/// and forgotten with its release.
pub open spec fn deinit_default_root_next(su: SuView, reply: Reply) -> (SuView, Progress<()>) {
    match su.default_root {
        None => (su, Progress::Done(())),
        Some(root) => {
            let (left, next) = destroy_next(root, reply);
            if left == 0 {
                (SuView { default_root: None, ..su }, next)
            } else {
                (su, next)
            }
        },
    }
}

/// An operation on the default reactor: the reactor is made first where
/// it is missing, and `last` is the call that remains to be made on it.
pub open spec fn with_default_root(
    su: SuView,
    reply: Reply,
    last: spec_fn(usize) -> Call,
) -> (SuView, Progress<Result<(), Error>>) {
    let (after, made) = init_default_root_next(su, reply);
    match made {
        Progress::Perform(call) => (after, Progress::Perform(call)),
        Progress::Finish(call, Ok(())) => (after, Progress::Perform(call)),
        Progress::Finish(call, Err(e)) => (after, Progress::Finish(call, Err(e))),
        Progress::Done(Err(e)) => (after, Progress::Done(Err(e))),
        Progress::Done(Ok(())) => (after, Progress::Finish(last(after.default_root->0), Ok(()))),
    }
}

/// Running the dispatch loop of the default reactor.
pub open spec fn main_loop_run_next(su: SuView, reply: Reply) -> (
    SuView,
    Progress<Result<(), Error>>,
) {
    with_default_root(su, reply, |root: usize| Call::RootRun { root })
}

/// Leaving the dispatch loop of the default reactor.  A reactor that
/// cannot be made has no loop to leave, and the failure is dropped.
pub open spec fn main_loop_quit_next(su: SuView, reply: Reply) -> (SuView, Progress<()>) {
    let (after, next) = with_default_root(su, reply, |root: usize| Call::RootBreak { root });
    match next {
        Progress::Perform(call) => (after, Progress::Perform(call)),
        Progress::Finish(call, _) => (after, Progress::Finish(call, ())),
        Progress::Done(_) => (after, Progress::Done(())),
    }
}

/// Asking for the default reactor: it is made first where it is missing.
pub open spec fn get_default_root_next(su: SuView, reply: Reply) -> (
    SuView,
    Progress<Result<usize, Error>>,
) {
    let (after, made) = init_default_root_next(su, reply);
    match made {
        Progress::Perform(call) => (after, Progress::Perform(call)),
        Progress::Finish(call, Ok(())) => (
            after,
            Progress::Finish(call, Ok(after.default_root->0)),
        ),
        Progress::Finish(call, Err(e)) => (after, Progress::Finish(call, Err(e))),
        Progress::Done(Ok(())) => (after, Progress::Done(Ok(after.default_root->0))),
        Progress::Done(Err(e)) => (after, Progress::Done(Err(e))),
    }
}

/// The result of an operation that hands out a reactor, with the reactor
/// replaced by its address.
pub open spec fn root_ref_address(found: Progress<Result<&Root, Error>>) -> Progress<
    Result<usize, Error>,
> {
    match found {
        Progress::Perform(call) => Progress::Perform(call),
        Progress::Finish(call, Ok(root)) => Progress::Finish(call, Ok(root@)),
        Progress::Finish(call, Err(e)) => Progress::Finish(call, Err(e)),
        Progress::Done(Ok(root)) => Progress::Done(Ok(root@)),
        Progress::Done(Err(e)) => Progress::Done(Err(e)),
    }
}

impl Su {
    /// The default reactor, where there is one, holds a polling object.
    #[verifier::type_invariant]
    spec fn inv(&self) -> bool {
        self.default_root matches Some(root) ==> root@ != 0
    }

    /// The state of a process that has not touched the native library.
    pub fn new() -> (su: Su)
        ensures
            su@ == fresh(),
    {
        Su { initialized: false, default_root: None }
    }
}

/// Brings the native library up for this process, once.
pub fn init(su: &mut Su) -> (next: Progress<Result<(), Error>>)
    ensures
        (final(su)@, next) == init_next(old(su)@),
{
    if su.initialized {
        Progress::Done(Ok(()))
    } else {
        proof {
            use_type_invariant(&*su);
        }
        su.initialized = true;
        Progress::Finish(Call::SuInit, Ok(()))
    }
}

/// Returns `true` if the native library has been brought up.
pub fn is_initialized(su: &Su) -> (up: bool)
    ensures
        up == su@.initialized,
{
    su.initialized
}

/// Tears the native library down where it is up.
pub fn deinit(su: &mut Su) -> (next: Progress<()>)
    ensures
        (final(su)@, next) == deinit_next(old(su)@),
{
    if !su.initialized {
        return Progress::Done(());
    }
    proof {
        use_type_invariant(&*su);
    }
    su.initialized = false;
    Progress::Finish(Call::SuDeinit, ())
}

/// Makes the default reactor where the process has none.
pub fn init_default_root(su: &mut Su, reply: Reply) -> (next: Progress<Result<(), Error>>)
    ensures
        (final(su)@, next) == init_default_root_next(old(su)@, reply),
{
    proof {
        use_type_invariant(&*su);
    }
    if !su.initialized {
        su.initialized = true;
        return Progress::Perform(Call::SuInit);
    }
    if su.default_root.is_some() {
        return Progress::Done(Ok(()));
    }
    match Root::_create(reply) {
        Progress::Perform(call) => Progress::Perform(call),
        Progress::Finish(call, Ok(root)) => {
            su.default_root = Some(root);
            Progress::Finish(call, Ok(()))
        },
        Progress::Finish(call, Err(e)) => Progress::Finish(call, Err(e)),
        Progress::Done(Ok(root)) => {
            su.default_root = Some(root);
            Progress::Done(Ok(()))
        },
        Progress::Done(Err(e)) => Progress::Done(Err(e)),
    }
}

/// Returns `true` if the default reactor has been made.
pub fn is_default_root_initialized(su: &Su) -> (made: bool)
    ensures
        made == su@.default_root is Some,
{
    su.default_root.is_some()
}

/// Hands out the default reactor, making it first where it is missing.
pub fn get_default_root(su: &mut Su, reply: Reply) -> (next: Progress<Result<&Root, Error>>)
    ensures
        (final(su)@, root_ref_address(next)) == get_default_root_next(old(su)@, reply),
{
    match init_default_root(su, reply) {
        Progress::Perform(call) => Progress::Perform(call),
        Progress::Finish(call, Ok(())) => match &su.default_root {
            Some(root) => Progress::Finish(call, Ok(root)),
            None => Progress::Finish(call, Err(Error::InitError)),
        },
        Progress::Finish(call, Err(e)) => Progress::Finish(call, Err(e)),
        Progress::Done(Ok(())) => match &su.default_root {
            Some(root) => Progress::Done(Ok(root)),
            None => Progress::Done(Err(Error::InitError)),
        },
        Progress::Done(Err(e)) => Progress::Done(Err(e)),
    }
}

/// Releases the default reactor where the process has one.
pub fn deinit_default_root(su: &mut Su, reply: Reply) -> (next: Progress<()>)
    ensures
        (final(su)@, next) == deinit_default_root_next(old(su)@, reply),
{
    proof {
        use_type_invariant(&*su);
    }
    let root = match &su.default_root {
        None => {
            return Progress::Done(());
        },
        Some(root) => root.c_ptr,
    };
    if let Reply::Remaining(remaining) = reply {
        if remaining < 0 {
            su.default_root = None;
            return Progress::Finish(Call::RootDestroy { root }, ());
        }
    }
    Progress::Perform(Call::RootStep { root, timeout: RUSH_TIMEOUT })
}

/// Runs the dispatch loop of the default reactor.
pub fn main_loop_run(su: &mut Su, reply: Reply) -> (next: Progress<Result<(), Error>>)
    ensures
        (final(su)@, next) == main_loop_run_next(old(su)@, reply),
{
    match get_default_root(su, reply) {
        Progress::Perform(call) => Progress::Perform(call),
        Progress::Finish(call, Ok(_)) => Progress::Perform(call),
        Progress::Finish(call, Err(e)) => Progress::Finish(call, Err(e)),
        Progress::Done(Err(e)) => Progress::Done(Err(e)),
        Progress::Done(Ok(root)) => Progress::Finish(Call::RootRun { root: root.c_ptr }, Ok(())),
    }
}

/// Leaves the dispatch loop of the default reactor.
pub fn main_loop_quit(su: &mut Su, reply: Reply) -> (next: Progress<()>)
    ensures
        (final(su)@, next) == main_loop_quit_next(old(su)@, reply),
{
    match get_default_root(su, reply) {
        Progress::Perform(call) => Progress::Perform(call),
        Progress::Finish(call, Ok(_)) => Progress::Perform(call),
        Progress::Finish(call, Err(_)) => Progress::Finish(call, ()),
        Progress::Done(Err(_)) => Progress::Done(()),
        Progress::Done(Ok(root)) => Progress::Finish(Call::RootBreak { root: root.c_ptr }, ()),
    }
}

/// Bringing the library up and tearing it down is each done once: a
/// second request in a row asks for nothing.
pub proof fn lemma_init_once(su: SuView)
    ensures
        init_next(su).0.initialized,
        !deinit_next(su).0.initialized,
        init_next(init_next(su).0) == (init_next(su).0, Progress::Done(Ok::<(), Error>(()))),
        deinit_next(deinit_next(su).0) == (deinit_next(su).0, Progress::Done(())),
        init_next(su).1.asks() == Some(Call::SuInit) <==> !su.initialized,
        deinit_next(su).1.asks() == Some(Call::SuDeinit) <==> su.initialized,
        init_next(su).0.default_root == su.default_root,
        deinit_next(su).0.default_root == su.default_root,
{
}

/// The calls that make a reactor whose polling object the engine puts at
/// `root`: the initialisation where the library is not up, the creation,
/// and the switching off of the threads where the creation succeeded.
pub open spec fn new_calls(su: SuView, root: usize) -> Seq<Call> {
    let init = if su.initialized {
        Seq::<Call>::empty()
    } else {
        seq![Call::SuInit]
    };
    let create = init.push(Call::RootCreate);
    if root == 0 {
        create
    } else {
        create.push(Call::RootThreading { root, enable: false })
    }
}

/// The number of answers that the making of a reactor needs.
pub open spec fn new_answers(su: SuView) -> int {
    if su.initialized {
        1
    } else {
        2
    }
}

/// The result of making a reactor when the engine puts its polling object
/// at `root`.
pub open spec fn made_at(root: usize) -> Result<usize, Error> {
    if root == 0 {
        Err(Error::InitError)
    } else {
        Ok(root)
    }
}

/// Against an engine that answers each call in kind, the making of a
/// reactor needs two answers at most.  It asks for the initialisation
/// first where the library is not up, then for the polling object, and
/// ends with the reactor at the address that the engine gave, its threads
/// switched off, or with the error where the engine gave none.
pub proof fn lemma_new_run(su: SuView, replies: Seq<Reply>)
    requires
        well_answered(
            run(|s: SuView, r: Reply| new_next(s, r), su, Reply::Start, replies).1,
            replies,
        ),
    ensures
        ({
            let (end, calls, result) = run(
                |s: SuView, r: Reply| new_next(s, r),
                su,
                Reply::Start,
                replies,
            );
            let needed = new_answers(su);
            &&& end == SuView { initialized: true, ..su }
            &&& replies.len() >= needed <==> result is Some
            &&& result is Some ==> {
                &&& replies[needed - 1] is Root
                &&& calls == new_calls(su, replies[needed - 1]->Root_0)
                &&& result == Some(made_at(replies[needed - 1]->Root_0))
            }
        }),
{
    let step = |s: SuView, r: Reply| new_next(s, r);
    reveal_with_fuel(run, 3);
    let (end, calls, result) = run(step, su, Reply::Start, replies);
    if !su.initialized {
        let up = SuView { initialized: true, ..su };
        if replies.len() > 0 {
            assert(calls[0] == Call::SuInit);
            assert(calls[0].answered_by(replies[0]));
            let after_init = run(step, up, replies[0], replies.drop_first());
            if replies.len() > 1 {
                assert(after_init.1[0] == Call::RootCreate);
                assert(calls[1] == after_init.1[0]);
                assert(calls[1].answered_by(replies[1]));
                assert(replies.drop_first()[0] == replies[1]);
                assert(calls =~= new_calls(su, replies[1]->Root_0));
            }
        }
    } else {
        if replies.len() > 0 {
            assert(calls[0] == Call::RootCreate);
            assert(calls[0].answered_by(replies[0]));
            assert(calls =~= new_calls(su, replies[0]->Root_0));
        }
    }
}

/// Against an engine that answers each call in kind, running the loop of
/// the default reactor makes that reactor first where the process has
/// none, exactly as any reactor is made, and enters the loop of the very
/// reactor that it made or found.  Where the reactor cannot be made the
/// loop is not entered.
pub proof fn lemma_main_loop_run(su: SuView, replies: Seq<Reply>)
    requires
        well_answered(
            run(|s: SuView, r: Reply| main_loop_run_next(s, r), su, Reply::Start, replies).1,
            replies,
        ),
        su.default_root matches Some(root) ==> root != 0,
    ensures
        ({
            let (end, calls, result) = run(
                |s: SuView, r: Reply| main_loop_run_next(s, r),
                su,
                Reply::Start,
                replies,
            );
            let needed = new_answers(su);
            &&& end.initialized
            &&& su.initialized && su.default_root is Some ==> {
                &&& end == su
                &&& calls == seq![Call::RootRun { root: su.default_root->0 }]
                &&& result == Some(Ok::<(), Error>(()))
            }
            &&& !su.initialized && su.default_root is Some && replies.len() >= 1 ==> {
                &&& end == SuView { initialized: true, ..su }
                &&& calls == seq![Call::SuInit, Call::RootRun { root: su.default_root->0 }]
                &&& result == Some(Ok::<(), Error>(()))
            }
            &&& su.default_root is None && replies.len() >= needed && replies[needed - 1]
                == Reply::Root(0) ==> {
                &&& end == SuView { initialized: true, ..su }
                &&& calls == new_calls(su, 0)
                &&& result == Some(Err::<(), Error>(Error::InitError))
            }
            &&& su.default_root is None && replies.len() > needed && replies[needed - 1]
                != Reply::Root(0) ==> {
                let root = replies[needed - 1]->Root_0;
                &&& replies[needed - 1] is Root
                &&& end == SuView { initialized: true, default_root: Some(root) }
                &&& calls == new_calls(su, root).push(Call::RootRun { root })
                &&& result == Some(Ok::<(), Error>(()))
            }
        }),
{
    let step = |s: SuView, r: Reply| main_loop_run_next(s, r);
    reveal_with_fuel(run, 4);
    let (end, calls, result) = run(step, su, Reply::Start, replies);
    let up = SuView { initialized: true, ..su };
    if su.default_root is Some {
        let root = su.default_root->0;
        if su.initialized {
            assert(calls =~= seq![Call::RootRun { root }]);
        } else if replies.len() >= 1 {
            assert(calls =~= seq![Call::SuInit, Call::RootRun { root }]);
        }
    } else {
        let needed = new_answers(su);
        if replies.len() >= needed {
            let skip: int = needed - 1;
            let rest = replies.subrange(skip, replies.len() as int);
            if !su.initialized {
                assert(calls[0] == Call::SuInit);
                assert(replies.drop_first() =~= rest);
            } else {
                assert(replies =~= rest);
            }
            let from_create = run(step, up, rest[0], rest.drop_first());
            assert(rest[0] == replies[skip]);
            assert(calls[skip] == Call::RootCreate);
            assert(calls[skip].answered_by(replies[skip]));
            let root = replies[skip]->Root_0;
            if root == 0 {
                assert(calls =~= new_calls(su, 0));
            } else if replies.len() > needed {
                let made = SuView { initialized: true, default_root: Some(root) };
                assert(calls[skip + 1] == Call::RootThreading { root, enable: false });
                assert(calls =~= new_calls(su, root).push(Call::RootRun { root }));
            }
        }
    }
}

/// Whatever the engine returns while a reactor is released: the polling
/// object is released at most once, as the very last call, right after
/// the first step that returned a negative value; every call before that
/// is a step.  The release is over exactly when a step has returned a
/// negative value, and then the reactor has forgotten its address.
pub proof fn lemma_destroy_run(root: usize, reply: Reply, replies: Seq<Reply>)
    requires
        root != 0,
    ensures
        ({
            let (end, calls, over) = run(
                |at: usize, r: Reply| destroy_next(at, r),
                root,
                reply,
                replies,
            );
            &&& over is Some <==> reply.is_drained() || exists|k: int|
                0 <= k < replies.len() && (#[trigger] replies[k]).is_drained()
            &&& over is Some ==> end == 0 && calls.len() > 0 && calls.last() == Call::RootDestroy {
                root,
            }
            &&& over is None ==> end == root && calls.len() == replies.len() + 1
            &&& forall|i: int|
                0 <= i < calls.len() ==> {
                    ||| #[trigger] calls[i] == Call::RootStep { root, timeout: RUSH_TIMEOUT }
                    ||| i == calls.len() - 1 && over is Some && calls[i] == Call::RootDestroy {
                        root,
                    }
                }
        }),
    decreases replies.len(),
{
    let step = |at: usize, r: Reply| destroy_next(at, r);
    let (after, next) = destroy_next(root, reply);
    if next is Perform && replies.len() > 0 {
        let rest = replies.drop_first();
        lemma_destroy_run(after, replies[0], rest);
        let (end, later, over) = run(step, after, replies[0], rest);
        let calls = seq![next->Perform_0] + later;
        assert forall|i: int| 0 < i < calls.len() implies calls[i] == later[i - 1] by {}
        if over is Some {
            assert(calls.last() == later.last());
            if !replies[0].is_drained() {
                let k = choose|k: int| 0 <= k < rest.len() && (#[trigger] rest[k]).is_drained();
                assert(replies[k + 1].is_drained());
            }
        } else {
            assert forall|k: int| 0 <= k < replies.len() implies !(#[trigger] replies[k]).is_drained() by {
                if k > 0 {
                    assert(rest[k - 1] == replies[k]);
                }
            }
        }
    }
}

/// Something that happens to the state of the process: an operation on it
/// is started or resumed with the engine's reply.
pub enum Happening {
    Init,
    Deinit,
    NewRoot(Reply),
    InitDefaultRoot(Reply),
    DeinitDefaultRoot(Reply),
    MainLoopRun(Reply),
    MainLoopQuit(Reply),
}

/// The state after one happening, and the call that it asks for.
pub open spec fn happen(su: SuView, what: Happening) -> (SuView, Option<Call>) {
    match what {
        Happening::Init => (init_next(su).0, init_next(su).1.asks()),
        Happening::Deinit => (deinit_next(su).0, deinit_next(su).1.asks()),
        Happening::NewRoot(reply) => (new_next(su, reply).0, new_next(su, reply).1.asks()),
        Happening::InitDefaultRoot(reply) => (
            init_default_root_next(su, reply).0,
            init_default_root_next(su, reply).1.asks(),
        ),
        Happening::DeinitDefaultRoot(reply) => (
            deinit_default_root_next(su, reply).0,
            deinit_default_root_next(su, reply).1.asks(),
        ),
        Happening::MainLoopRun(reply) => (
            main_loop_run_next(su, reply).0,
            main_loop_run_next(su, reply).1.asks(),
        ),
        Happening::MainLoopQuit(reply) => (
            main_loop_quit_next(su, reply).0,
            main_loop_quit_next(su, reply).1.asks(),
        ),
    }
}

/// The state after a history of happenings, and the calls that were asked
/// for on the way, in order.
pub open spec fn history(su: SuView, past: Seq<Happening>) -> (SuView, Seq<Call>)
    decreases past.len(),
{
    if past.len() == 0 {
        (su, Seq::empty())
    } else {
        let (before, calls) = history(su, past.drop_last());
        let (after, asked) = happen(before, past.last());
        match asked {
            Some(call) => (after, calls.push(call)),
            None => (after, calls),
        }
    }
}

/// Whether the library is up after `calls`, given whether it was up
/// before; `None` where the calls are out of order: an initialisation of
/// a library that is up, a teardown of one that is down, or the making,
/// running or leaving of a reactor while the library is down.
pub open spec fn library_after(calls: Seq<Call>, up: bool) -> Option<bool>
    decreases calls.len(),
{
    if calls.len() == 0 {
        Some(up)
    } else {
        match library_after(calls.drop_last(), up) {
            None => None,
            Some(before) => match calls.last() {
                Call::SuInit => if before {
                    None
                } else {
                    Some(true)
                },
                Call::SuDeinit => if before {
                    Some(false)
                } else {
                    None
                },
                Call::RootCreate | Call::RootRun { .. } | Call::RootBreak { .. } => if before {
                    Some(before)
                } else {
                    None
                },
                _ => Some(before),
            },
        }
    }
}

/// In whatever order the operations on the state of the process are
/// started and resumed, and whatever the engine returns: the library is
/// never initialised while it is up nor torn down while it is down; no
/// reactor is made, run or left while it is down; and the default reactor,
/// where the process has one, is never null.
pub proof fn lemma_history(su: SuView, past: Seq<Happening>)
    requires
        su.default_root matches Some(root) ==> root != 0,
    ensures
        ({
            let (end, calls) = history(su, past);
            &&& library_after(calls, su.initialized) == Some(end.initialized)
            &&& end.default_root matches Some(root) ==> root != 0
        }),
    decreases past.len(),
{
    if past.len() > 0 {
        let earlier = past.drop_last();
        lemma_history(su, earlier);
        let (before, calls) = history(su, earlier);
        let (after, asked) = happen(before, past.last());
        if asked is Some {
            assert(calls.push(asked->0).drop_last() =~= calls);
        }
    }
}

} // verus!
