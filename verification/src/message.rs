//! Window messages: the answer of the window procedure and the message pump.

use vstd::prelude::*;

verus! {

/// Identifier of the message a window receives while it is being destroyed
/// (`WM_DESTROY`).
pub const WM_DESTROY: u32 = 0x0002;

/// Identifier of the message that asks the application to terminate
/// (`WM_QUIT`).
pub const WM_QUIT: u32 = 0x0012;

/// What the window procedure does with a message.
#[derive(Clone, Copy, Debug, PartialEq, Eq, Structural)]
pub enum WindowAction {
    /// Post a quit message carrying `exit_code` to the thread's queue and
    /// hand `result` back to the system.
    PostQuit { exit_code: i32, result: isize },
    /// Pass the message to the system's default window procedure and hand
    /// its result back.
    Default,
}

/// The window procedure's decision for the message `msg`.
///
/// The destruction of the window ends the application: it is answered by
/// posting a quit message with exit code 0, and the message counts as
/// handled (result 0). Every other message is left to the default procedure.
pub fn window_proc(msg: u32) -> (action: WindowAction)
    ensures
        msg == WM_DESTROY ==> action == (WindowAction::PostQuit { exit_code: 0, result: 0 }),
        msg != WM_DESTROY ==> action == WindowAction::Default,
{
    if msg == WM_DESTROY {
        WindowAction::PostQuit { exit_code: 0, result: 0 }
    } else {
        WindowAction::Default
    }
}

/// What the message pump does after one non-blocking look at the queue.
#[derive(Clone, Copy, Debug, PartialEq, Eq, Structural)]
pub enum PumpStep {
    /// A message was removed: translate and dispatch it, then look again.
    Dispatch,
    /// The queue is empty: the pump is done and the application goes on.
    Idle,
    /// The quit message was removed: the pump is done and the application
    /// stops.
    Quit,
}

/// The pump's decision after one look at the queue, where `peeked` is the
/// identifier of the message that was removed, or `None` if the queue was
/// empty.
pub fn pump_step(peeked: Option<u32>) -> (step: PumpStep)
    ensures
        peeked is None ==> step == PumpStep::Idle,
        peeked == Some(WM_QUIT) ==> step == PumpStep::Quit,
        peeked is Some && peeked != Some(WM_QUIT) ==> step == PumpStep::Dispatch,
{
    match peeked {
        None => PumpStep::Idle,
        Some(message) => if message == WM_QUIT {
            PumpStep::Quit
        } else {
            PumpStep::Dispatch
        },
    }
}

/// The outcome of one run of the message pump.
#[derive(Clone, Copy, Debug, PartialEq, Eq, Structural)]
pub struct Drained {
    /// Whether the application goes on: `false` once a quit message was seen.
    pub keep_running: bool,
    /// How many messages were dispatched before the pump returned.
    pub dispatched: usize,
}

/// Runs the message pump over `queue`, the messages that are pending in the
/// order in which they are removed.
///
/// The pump answers `false` exactly if the queue holds a quit message. It
/// dispatches every message in front of the first quit message, or the whole
/// queue if there is none, and nothing behind it.
pub fn drain(queue: &[u32]) -> (out: Drained)
    ensures
        out.keep_running <==> !queue@.contains(WM_QUIT),
        out.dispatched <= queue@.len(),
        forall|k: int| 0 <= k < out.dispatched ==> queue@[k] != WM_QUIT,
        out.keep_running ==> out.dispatched == queue@.len(),
        !out.keep_running ==> queue@[out.dispatched as int] == WM_QUIT,
{
    let mut next: usize = 0;
    loop
        invariant
            next <= queue@.len(),
            forall|k: int| 0 <= k < next ==> queue@[k] != WM_QUIT,
        decreases queue@.len() - next,
    {
        let peeked: Option<u32> = if next < queue.len() {
            Some(queue[next])
        } else {
            None
        };
        match pump_step(peeked) {
            PumpStep::Dispatch => {
                next += 1;
            },
            PumpStep::Idle => {
                return Drained { keep_running: true, dispatched: next };
            },
            PumpStep::Quit => {
                assert(queue@[next as int] == WM_QUIT);
                return Drained { keep_running: false, dispatched: next };
            },
        }
    }
}

} // verus!
