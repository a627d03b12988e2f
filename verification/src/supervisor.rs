//! The supervisor of the backend process: a single slot for the handle of
//! the process, filled at startup and emptied when the main window closes.
//!
//! The handle type `H` is the caller's. The supervisor never looks inside
//! it: it keeps it, and hands it back when the process is to be killed.

use crate::diagnostics::{launch_failed_text, started_text, terminated_text, Diagnostic, Stream};
use vstd::prelude::*;

verus! {

/// How the attempt to start the backend ended.
pub enum Launch<H> {
    /// The process was created; the operating system gave it `pid`.
    Started { handle: H, pid: u32 },
    /// No process was created. `reason` is the system's error, as text.
    Failed { reason: String },
}

/// What remains of a launch attempt: the handle to keep, if there is one,
/// and the line to write.
pub struct Settled<H> {
    pub handle: Option<H>,
    pub notice: Diagnostic,
}

/// An event of the main window, as far as the supervisor tells them apart.
#[derive(Clone, Copy, Debug, PartialEq, Eq, Structural)]
pub enum WindowEvent {
    /// The user asked to close the window.
    CloseRequested,
    /// Anything else.
    Other,
}

/// The order to end the backend: kill the process behind `handle`, ignore
/// whether that succeeded, then write `notice`.
pub struct Termination<H> {
    pub handle: H,
    pub notice: Diagnostic,
}

/// The handle that a launch attempt leaves to be kept.
pub open spec fn launched_handle<H>(launch: Launch<H>) -> Option<H> {
    match launch {
        Launch::Started { handle, pid } => Some(handle),
        Launch::Failed { reason } => None,
    }
}

/// The stream of the line that reports a launch attempt.
pub open spec fn launch_stream<H>(launch: Launch<H>) -> Stream {
    match launch {
        Launch::Started { handle, pid } => Stream::Output,
        Launch::Failed { reason } => Stream::Error,
    }
}

/// The line that reports a launch attempt.
pub open spec fn launch_text<H>(launch: Launch<H>) -> Seq<char> {
    match launch {
        Launch::Started { handle, pid } => started_text(pid),
        Launch::Failed { reason } => launch_failed_text(reason@),
    }
}

/// The handle held after a window event, given the one held before.
pub open spec fn held_after<H>(held: Option<H>, event: WindowEvent) -> Option<H> {
    match event {
        WindowEvent::CloseRequested => None,
        WindowEvent::Other => held,
    }
}

/// The handle whose process a window event has killed, given the one held
/// before.
pub open spec fn killed_by<H>(held: Option<H>, event: WindowEvent) -> Option<H> {
    match event {
        WindowEvent::CloseRequested => held,
        WindowEvent::Other => None,
    }
}

/// The number of kill signals that go with an optional handle.
pub open spec fn kill_count<H>(killed: Option<H>) -> nat {
    match killed {
        Some(_) => 1,
        None => 0,
    }
}

/// The handle held after a run of window events, taken in order.
pub open spec fn held_after_all<H>(held: Option<H>, events: Seq<WindowEvent>) -> Option<H>
    decreases events.len(),
{
    if events.len() == 0 {
        held
    } else {
        held_after(held_after_all(held, events.drop_last()), events.last())
    }
}

/// The number of kill signals that a run of window events has caused.
pub open spec fn kills_over<H>(held: Option<H>, events: Seq<WindowEvent>) -> nat
    decreases events.len(),
{
    if events.len() == 0 {
        0
    } else {
        kills_over(held, events.drop_last()) + kill_count(
            killed_by(held_after_all(held, events.drop_last()), events.last()),
        )
    }
}

/// Whether `order` is the order to kill exactly `killed`, or no order where
/// there is nothing to kill.
pub open spec fn orders_kill_of<H>(order: Option<Termination<H>>, killed: Option<H>) -> bool {
    match killed {
        Some(handle) => {
            &&& order matches Some(termination)
            &&& termination.handle == handle
            &&& termination.notice.stream == Stream::Output
            &&& termination.notice.text@ == terminated_text()
        },
        None => order is None,
    }
}

/// Settles a launch attempt. A failed launch is not an error of the
/// application: it leaves no handle and a warning, and startup goes on.
pub fn settle_launch<H>(launch: Launch<H>) -> (settled: Settled<H>)
    ensures
        settled.handle == launched_handle(launch),
        settled.notice.stream == launch_stream(launch),
        settled.notice.text@ == launch_text(launch),
        launch is Failed ==> settled.handle is None,
{
    match launch {
        Launch::Started { handle, pid } => Settled {
            handle: Some(handle),
            notice: Diagnostic::started(pid),
        },
        Launch::Failed { reason } => Settled {
            handle: None,
            notice: Diagnostic::launch_failed(reason.as_str()),
        },
    }
}

/// The slot for the backend's process handle. The application keeps one of
/// these behind its lock for as long as it runs.
pub struct BackendProcess<H> {
    slot: Option<H>,
}

impl<H> View for BackendProcess<H> {
    type V = Option<H>;

    closed spec fn view(&self) -> Option<H> {
        self.slot
    }
}

impl<H> BackendProcess<H> {
    /// The handles held, in a sequence: none or one.
    pub open spec fn handles(&self) -> Seq<H> {
        match self@ {
            Some(handle) => seq![handle],
            None => Seq::empty(),
        }
    }

    /// An empty slot.
    pub fn new() -> (state: Self)
        ensures
            state@ is None,
    {
        BackendProcess { slot: None }
    }

    /// Whether a handle is held.
    pub fn is_running(&self) -> (held: bool)
        ensures
            held == (self@ is Some),
    {
        self.slot.is_some()
    }

    /// Replaces what the slot holds by `handle`. A handle held before is
    /// dropped without a kill.
    pub fn store(&mut self, handle: Option<H>)
        ensures
            final(self)@ == handle,
            final(self).handles().len() <= 1,
    {
        self.slot = handle;
    }

    /// Takes the handle out. The slot is empty afterwards.
    pub fn take(&mut self) -> (handle: Option<H>)
        ensures
            handle == old(self)@,
            final(self)@ is None,
    {
        self.slot.take()
    }

    /// Startup: settles the launch attempt, keeps its handle, if any, and
    /// returns the line to write.
    pub fn on_setup(&mut self, launch: Launch<H>) -> (notice: Diagnostic)
        ensures
            final(self)@ == launched_handle(launch),
            notice.stream == launch_stream(launch),
            notice.text@ == launch_text(launch),
            launch is Failed ==> final(self)@ is None,
    {
        let settled = settle_launch(launch);
        self.store(settled.handle);
        settled.notice
    }

    /// The window is closing: empties the slot and, if it held a handle,
    /// orders the kill of that process. With an empty slot nothing is
    /// ordered and nothing is written.
    pub fn terminate_on_close(&mut self) -> (order: Option<Termination<H>>)
        ensures
            final(self)@ is None,
            orders_kill_of(order, old(self)@),
            old(self)@ is None ==> order is None,
    {
        match self.take() {
            Some(handle) => Some(Termination { handle, notice: Diagnostic::terminated() }),
            None => None,
        }
    }

    /// Reacts to an event of the main window. Only a close request has an
    /// effect, which is that of `terminate_on_close`.
    pub fn on_window_event(&mut self, event: WindowEvent) -> (order: Option<Termination<H>>)
        ensures
            final(self)@ == held_after(old(self)@, event),
            orders_kill_of(order, killed_by(old(self)@, event)),
            old(self)@ is None ==> order is None,
    {
        match event {
            WindowEvent::CloseRequested => self.terminate_on_close(),
            WindowEvent::Other => None,
        }
    }
}

/// The slot never holds more than one handle.
pub proof fn lemma_at_most_one_handle<H>(state: BackendProcess<H>)
    ensures
        state.handles().len() <= 1,
        state@ is None <==> state.handles().len() == 0,
{
}

/// Two close requests in a row kill once if a handle was held and never
/// otherwise: the second finds the slot empty.
pub proof fn lemma_close_twice_kills_once<H>(held: Option<H>)
    ensures
        killed_by(held_after(held, WindowEvent::CloseRequested), WindowEvent::CloseRequested)
            is None,
        held_after(held_after(held, WindowEvent::CloseRequested), WindowEvent::CloseRequested)
            is None,
        kill_count(killed_by(held, WindowEvent::CloseRequested)) + kill_count(
            killed_by(held_after(held, WindowEvent::CloseRequested), WindowEvent::CloseRequested),
        ) == kill_count(held),
        kill_count(held) <= 1,
{
}

/// Over any run of window events a handle is killed or still held, never
/// both and never twice: the kills so far and the handles left add up to
/// the handles there were. Once a close request is among the events, the
/// slot is empty and what was held has been killed.
pub proof fn lemma_one_kill_per_handle<H>(held: Option<H>, events: Seq<WindowEvent>)
    ensures
        kills_over(held, events) + kill_count(held_after_all(held, events)) == kill_count(held),
        kills_over(held, events) <= 1,
        events.contains(WindowEvent::CloseRequested) ==> held_after_all(held, events) is None
            && kills_over(held, events) == kill_count(held),
    decreases events.len(),
{
    if events.len() > 0 {
        let earlier = events.drop_last();
        lemma_one_kill_per_handle(held, earlier);
        if events.contains(WindowEvent::CloseRequested) && events.last()
            != WindowEvent::CloseRequested {
            let at = choose|i: int| 0 <= i < events.len() && events[i] == WindowEvent::CloseRequested;
            assert(earlier[at] == WindowEvent::CloseRequested);
        }
    }
}

/// Without a handle no event kills anything.
pub proof fn lemma_empty_slot_kills_nothing<H>(event: WindowEvent)
    ensures
        killed_by(None::<H>, event) is None,
        held_after(None::<H>, event) is None,
{
}

/// A failed launch followed by a close request kills nothing, and a
/// successful one followed by a close request kills the launched process.
pub proof fn lemma_launch_then_close<H>(launch: Launch<H>)
    ensures
        killed_by(launched_handle(launch), WindowEvent::CloseRequested) == launched_handle(launch),
        launch is Failed ==> kill_count(
            killed_by(launched_handle(launch), WindowEvent::CloseRequested),
        ) == 0,
        launch is Started ==> kill_count(
            killed_by(launched_handle(launch), WindowEvent::CloseRequested),
        ) == 1,
{
}

} // verus!
