use std::sync::atomic::{AtomicUsize, Ordering};
use std::sync::Arc;
use std::task::{Context, Wake, Waker};
use wasmer_js::tty::{stdin_step, AsyncEvent, StdinAction, StdinRead, TtyDevice};

#[test]
fn stdin_step_forwards_bytes() {
    assert_eq!(stdin_step(StdinRead::Bytes(5)), StdinAction::Forward);
}

#[test]
fn stdin_step_closes_on_end_of_input() {
    assert_eq!(stdin_step(StdinRead::Bytes(0)), StdinAction::Close);
}

#[test]
fn stdin_step_closes_with_warning_on_failure() {
    assert_eq!(stdin_step(StdinRead::Failed), StdinAction::CloseWithWarning);
}

#[test]
fn async_event_set_and_reset() {
    let ev = AsyncEvent::new();
    assert!(!ev.is_set());
    ev.set();
    assert!(ev.is_set());
    ev.reset();
    assert!(!ev.is_set());
}

#[test]
fn async_event_poll_follows_flag() {
    let ev = AsyncEvent::new();
    let mut cx = Context::from_waker(futures::task::noop_waker_ref());
    assert!(!ev.poll(&mut cx));
    ev.set();
    assert!(ev.poll(&mut cx));
}

#[test]
fn new_tty_has_no_end_of_input() {
    let (a, b) = virtual_fs::Pipe::channel();
    let t = TtyDevice::new(a, b);
    assert!(!t.eof.is_set());
}

struct CountingWaker(AtomicUsize);

impl Wake for CountingWaker {
    fn wake(self: Arc<Self>) {
        self.0.fetch_add(1, Ordering::SeqCst);
    }

    fn wake_by_ref(self: &Arc<Self>) {
        self.0.fetch_add(1, Ordering::SeqCst);
    }
}

#[test]
fn async_event_set_wakes_pending_poll() {
    let counter = Arc::new(CountingWaker(AtomicUsize::new(0)));
    let waker = Waker::from(counter.clone());
    let mut cx = Context::from_waker(&waker);
    let ev = AsyncEvent::new();
    assert!(!ev.poll(&mut cx));
    assert_eq!(counter.0.load(Ordering::SeqCst), 0);
    ev.set();
    assert_eq!(counter.0.load(Ordering::SeqCst), 1);
}

#[test]
fn async_event_poll_when_set_registers_nothing() {
    let counter = Arc::new(CountingWaker(AtomicUsize::new(0)));
    let waker = Waker::from(counter.clone());
    let mut cx = Context::from_waker(&waker);
    let ev = AsyncEvent::new();
    ev.set();
    assert!(ev.poll(&mut cx));
    ev.reset();
    ev.set();
    assert_eq!(counter.0.load(Ordering::SeqCst), 0);
}
