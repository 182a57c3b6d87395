//! The terminal device: a pair of pipes and an end-of-input flag that a
//! reader can wait on, and the decisions of the task that copies the user's
//! input into the terminal.
use vstd::prelude::*;
use std::sync::atomic::{AtomicBool, Ordering};
use std::sync::Arc;

verus! {

/// A task's waker slot, shared between the task and whoever wakes it.
#[verifier::external_type_specification]
#[verifier::external_body]
pub struct ExAtomicWaker(futures::task::AtomicWaker);

/// The context a poll runs in.
#[verifier::external_type_specification]
#[verifier::external_body]
pub struct ExContext<'a>(std::task::Context<'a>);

/// One end of an in-memory pipe.
#[verifier::external_type_specification]
#[verifier::external_body]
pub struct ExPipe(virtual_fs::Pipe);

/// `Pipe::clone` (derived): another handle on the same two pipe ends.
/// Nothing is promised of it beyond its type.
pub assume_specification[ <virtual_fs::Pipe as std::clone::Clone>::clone ](p: &virtual_fs::Pipe) -> virtual_fs::Pipe;

/// `AtomicWaker::new`: an empty waker slot.
#[verifier::external_body]
pub(crate) fn atomic_waker_new() -> futures::task::AtomicWaker {
    futures::task::AtomicWaker::new()
}

/// `AtomicWaker::register`: stores the waker of the task polling in `cx`.
#[verifier::external_body]
pub(crate) fn atomic_waker_register(w: &futures::task::AtomicWaker, cx: &std::task::Context<'_>) {
    w.register(cx.waker())
}

/// `AtomicWaker::wake`: wakes the task whose waker is stored, if any.
#[verifier::external_body]
pub(crate) fn atomic_waker_wake(w: &futures::task::AtomicWaker) {
    w.wake()
}

/// `w` is a waker slot as `AtomicWaker::new` made it: empty.
pub open(crate) spec fn waker_made(w: futures::task::AtomicWaker) -> bool {
    call_ensures(atomic_waker_new, (), w)
}

/// The task stored in `w`, if any, was woken.
pub open(crate) spec fn woken(w: futures::task::AtomicWaker) -> bool {
    call_ensures(atomic_waker_wake, (&w,), ())
}

/// The waker of the task polling in `cx` was stored in `w`, in place of any
/// earlier one.
pub open(crate) spec fn registered(w: futures::task::AtomicWaker, cx: std::task::Context<'_>) -> bool {
    call_ensures(atomic_waker_register, (&w, &cx), ())
}

/// An event that can be set, reset, and waited for by a polling task.
/// The flag is shared between tasks, so what a read of it returns is up to
/// whoever set or reset it last: the contracts below say which atomic
/// operation each method performs on it, with which value and ordering,
/// and what each read answered.
#[derive(Debug)]
pub struct AsyncEvent {
    waker: futures::task::AtomicWaker,
    set: AtomicBool,
}

impl AsyncEvent {
    /// The flag that says whether the event is set.
    pub closed spec fn flag(&self) -> AtomicBool {
        self.set
    }

    /// The slot of the task waiting for the event.
    pub closed spec fn waker(&self) -> futures::task::AtomicWaker {
        self.waker
    }

    /// An event that is not set: its flag is a new atomic holding `false`,
    /// and no task waits for it.
    pub fn new() -> (e: AsyncEvent)
        ensures
            call_ensures(AtomicBool::new, (false,), e.flag()),
            waker_made(e.waker()),
    {
        AsyncEvent { waker: atomic_waker_new(), set: AtomicBool::new(false) }
    }

    /// Whether the event is set: the answer of an acquiring load of the flag.
    pub fn is_set(&self) -> (b: bool)
        ensures
            call_ensures(AtomicBool::load, (&self.flag(), Ordering::Acquire), b),
    {
        self.set.load(Ordering::Acquire)
    }

    /// Sets the event (a releasing store of `true`) and then wakes the task
    /// waiting for it.
    pub fn set(&self)
        ensures
            call_ensures(AtomicBool::store, (&self.flag(), true, Ordering::Release), ()),
            woken(self.waker()),
    {
        self.set.store(true, Ordering::Release);
        atomic_waker_wake(&self.waker);
    }

    /// Clears the event: a releasing store of `false`.
    pub fn reset(&self)
        ensures
            call_ensures(AtomicBool::store, (&self.flag(), false, Ordering::Release), ()),
    {
        self.set.store(false, Ordering::Release);
    }

    /// Answers what `is_set` answers; when that is `false`, the polling
    /// task has first been registered to be woken by the next `set`.
    pub fn poll(&self, cx: &mut std::task::Context<'_>) -> (r: bool)
        ensures
            exists|s: bool| #[trigger] call_ensures(AsyncEvent::is_set, (self,), s) && r == s,
            !r ==> registered(self.waker(), *old(cx)),
    {
        if self.is_set() {
            true
        } else {
            atomic_waker_register(&self.waker, cx);
            false
        }
    }
}

/// A terminal: input is read from `rx`, output written to `tx`, and reads
/// end while `eof` is set.
#[derive(Debug, Clone)]
pub struct TtyDevice {
    pub rx: virtual_fs::Pipe,
    pub tx: virtual_fs::Pipe,
    pub eof: Arc<AsyncEvent>,
}

impl TtyDevice {
    /// A terminal on the two pipes, with end of input not reached.
    pub fn new(rx: virtual_fs::Pipe, tx: virtual_fs::Pipe) -> (t: TtyDevice)
        ensures
            t.rx == rx,
            t.tx == tx,
            call_ensures(AsyncEvent::new, (), *t.eof),
    {
        TtyDevice { rx, tx, eof: Arc::new(AsyncEvent::new()) }
    }
}

/// What one read of the user's input gave.
#[derive(Debug, Clone, Copy, PartialEq, Eq, Structural)]
pub enum StdinRead {
    /// That many bytes were read (zero: the user closed the input).
    Bytes(usize),
    /// The read failed.
    Failed,
}

/// What the copying task does next.
#[derive(Debug, Clone, Copy, PartialEq, Eq, Structural)]
pub enum StdinAction {
    /// Hand the bytes read to the terminal and read again.
    Forward,
    /// Stop copying and close the terminal's input.
    Close,
    /// Report the failure, then stop copying and close the terminal's input.
    CloseWithWarning,
}

/// The copying task's decision after one read: bytes are forwarded, the
/// end of input or a failure ends the copy.
pub fn stdin_step(read: StdinRead) -> (a: StdinAction)
    ensures
        a == match read {
            StdinRead::Bytes(n) => if n == 0 { StdinAction::Close } else { StdinAction::Forward },
            StdinRead::Failed => StdinAction::CloseWithWarning,
        },
{
    match read {
        StdinRead::Bytes(n) => if n == 0 {
            StdinAction::Close
        } else {
            StdinAction::Forward
        },
        StdinRead::Failed => StdinAction::CloseWithWarning,
    }
}

} // verus!
