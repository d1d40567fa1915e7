//! The two events by which the hosting loader drives the interceptor.
//!
//! When the module becomes active in its process the interceptor attaches;
//! when it becomes inactive the interceptor detaches. The loader's other
//! notifications do nothing.

use vstd::prelude::*;
use crate::effect::Effect;
use crate::interceptor::{attach, detach, InterceptorState};
use crate::locator::{locate, qualifies, LocateError};
use crate::win32::{dll_process_attach, dll_process_detach, DLL_PROCESS_ATTACH, DLL_PROCESS_DETACH};
use crate::window::{WindowHandle, WindowInfo};

verus! {

/// What a notification of the loader means to the interceptor.
#[derive(Clone, Copy, Debug, PartialEq, Eq, Structural)]
pub enum LifecycleEvent {
    /// The module has become active in the process.
    Attach,
    /// The module is becoming inactive.
    Detach,
    /// Anything else; nothing is done.
    Other,
}

/// What handling one notification came to.
#[derive(Debug)]
pub struct Lifecycle {
    /// The effects to carry out, in order.
    pub effects: Vec<Effect>,
    /// Why the window was not located, where it was not: to be logged.
    pub failure: Option<LocateError>,
    /// What the loader is told: always to go on. A failure is reported in
    /// `failure` and never stops the loader. After a failed attach the
    /// module stays loaded without a hook; after a failed detach nothing is
    /// left to restore and unloading goes on.
    pub status: bool,
}

/// The event that the loader's `call_reason` stands for.
pub open spec fn event_of(call_reason: u32) -> LifecycleEvent {
    if call_reason == DLL_PROCESS_ATTACH {
        LifecycleEvent::Attach
    } else if call_reason == DLL_PROCESS_DETACH {
        LifecycleEvent::Detach
    } else {
        LifecycleEvent::Other
    }
}

/// Why handling `event` did not locate the window, if it had to and did not.
pub open spec fn failure_of(
    event: LifecycleEvent,
    located: Result<WindowHandle, LocateError>,
) -> Option<LocateError> {
    match (event, located) {
        (LifecycleEvent::Attach, Err(error)) => Some(error),
        (LifecycleEvent::Detach, Err(error)) => Some(error),
        _ => None,
    }
}

/// Tells the event that the loader's `call_reason` stands for.
pub fn lifecycle_event(call_reason: u32) -> (event: LifecycleEvent)
    ensures
        event == event_of(call_reason),
{
    if call_reason == dll_process_attach() {
        LifecycleEvent::Attach
    } else if call_reason == dll_process_detach() {
        LifecycleEvent::Detach
    } else {
        LifecycleEvent::Other
    }
}

/// Handles one notification of the loader.
///
/// `pid` is the process that the module is loaded into; `windows` holds its
/// top-level windows as the operating system enumerated them, and `completed`
/// says whether it enumerated to the end. Neither is looked at for an event
/// other than attach and detach.
///
/// An attach event attaches, a detach event detaches, every other does
/// nothing. Each is handled once; nothing is tried again. A window that is
/// not located fails the attach or the detach, not the loader: the failure
/// is handed back to be logged, the state stays as it was, and the loader is
/// told to go on.
pub fn dll_main(
    state: &mut InterceptorState,
    call_reason: u32,
    pid: u32,
    windows: &Vec<WindowInfo>,
    completed: bool,
) -> (handled: Lifecycle)
    ensures
        handled.failure == failure_of(event_of(call_reason), locate(windows@, pid, completed)),
        handled.status,
        handled.failure is Some <==> !(event_of(call_reason) is Other) && forall|i: int|
            0 <= i < windows@.len() ==> !qualifies(#[trigger] windows@[i], pid),
        match (event_of(call_reason), locate(windows@, pid, completed)) {
            (LifecycleEvent::Attach, Ok(window)) => {
                &&& handled.effects@ == old(state)@.attach_effects(window)
                &&& final(state)@ == old(state)@
            },
            (LifecycleEvent::Detach, Ok(window)) => {
                &&& handled.effects@ == old(state)@.detach_effects(window)
                &&& final(state)@ == old(state)@.after_removal()
            },
            _ => {
                &&& handled.effects@ == Seq::<Effect>::empty()
                &&& final(state)@ == old(state)@
            },
        },
{
    match lifecycle_event(call_reason) {
        LifecycleEvent::Attach => match attach(state, pid, windows, completed) {
            Ok(effects) => Lifecycle { effects, failure: None, status: true },
            Err(error) => Lifecycle { effects: Vec::new(), failure: Some(error), status: true },
        },
        LifecycleEvent::Detach => match detach(state, pid, windows, completed) {
            Ok(effects) => Lifecycle { effects, failure: None, status: true },
            Err(error) => Lifecycle { effects: Vec::new(), failure: Some(error), status: true },
        },
        LifecycleEvent::Other => Lifecycle { effects: Vec::new(), failure: None, status: true },
    }
}

} // verus!
