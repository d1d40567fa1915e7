//! The hook's lifecycle and the dispatch function that stands in for the
//! window's own procedure.
//!
//! Nothing here touches a window. `attach`, `detach` and `wnd_proc` return the
//! effects to carry out; `InterceptorState::capture` takes back the one answer
//! that an effect produces, the procedure that an installation displaced.

use vstd::prelude::*;
use crate::effect::{Effect, Reply};
use crate::handlers::{
    classify, kind_of, lock_effects, lock_position, paint, paint_effects, MessageKind,
};
use crate::locator::{find_window_by_pid, locate, qualifies, LocateError};
use crate::window::{ProcedureRef, WindowHandle, WindowInfo};

verus! {

/// Where the hook stands, and, while it is in place, the procedure that it
/// displaced.
#[derive(Clone, Copy, Debug, PartialEq, Eq, Structural)]
pub enum Hook {
    /// No hook was installed yet.
    Unloaded,
    /// The hook is in place; `previous` was the window's procedure before.
    Hooked { previous: ProcedureRef },
    /// The hook was removed. Nothing leads out of this state.
    Unhooked,
}

/// The interceptor's record of its hook. Only the functions of this module
/// change it.
#[derive(Debug)]
pub struct InterceptorState {
    hook: Hook,
}

/// What `wnd_proc` decided for one message.
#[derive(Debug)]
pub struct Dispatch {
    /// The effects to carry out, in order.
    pub effects: Vec<Effect>,
    /// How the result of the dispatch follows from them.
    pub reply: Reply,
}

impl Hook {
    /// The recorded procedure; unset unless the hook is in place.
    pub open spec fn previous(self) -> ProcedureRef {
        match self {
            Hook::Hooked { previous } => previous,
            _ => ProcedureRef::Unset,
        }
    }

    /// The effects of an attach that located `window`: the installation,
    /// unless a hook was installed before.
    pub open spec fn attach_effects(self, window: WindowHandle) -> Seq<Effect> {
        if self is Unloaded {
            seq![Effect::Install { window }]
        } else {
            seq![]
        }
    }

    /// The state after the procedure `prior` was reported as displaced. Only
    /// the first report is recorded.
    pub open spec fn after_capture(self, prior: ProcedureRef) -> Hook {
        if self is Unloaded {
            Hook::Hooked { previous: prior }
        } else {
            self
        }
    }

    /// The effects of a detach that located `window`: the recorded procedure
    /// goes back, if the hook is in place.
    pub open spec fn detach_effects(self, window: WindowHandle) -> Seq<Effect> {
        match self {
            Hook::Hooked { previous } => seq![Effect::Restore { window, procedure: previous }],
            _ => seq![],
        }
    }

    /// The state after the hook was taken out.
    pub open spec fn after_removal(self) -> Hook {
        if self is Hooked {
            Hook::Unhooked
        } else {
            self
        }
    }

    /// The effects of dispatching one message.
    pub open spec fn dispatch_effects(
        self,
        window: WindowHandle,
        message: u32,
        wparam: usize,
        lparam: isize,
    ) -> Seq<Effect> {
        match kind_of(message) {
            MessageKind::Paint => paint_effects(window),
            MessageKind::PositionChanging => lock_effects(),
            MessageKind::Teardown => self.detach_effects(window).push(
                Effect::CallDefault { window, message, wparam, lparam },
            ),
            MessageKind::Other => seq![
                Effect::CallProcedure {
                    procedure: self.previous(),
                    window,
                    message,
                    wparam,
                    lparam,
                },
            ],
        }
    }

    /// How the result of dispatching one message is arrived at.
    pub open spec fn dispatch_reply(message: u32) -> Reply {
        match kind_of(message) {
            MessageKind::Paint => Reply::Value(0),
            MessageKind::PositionChanging => Reply::Value(0),
            MessageKind::Teardown => Reply::OfCall,
            MessageKind::Other => Reply::OfCall,
        }
    }

    /// The state after dispatching one message: only the teardown changes it.
    pub open spec fn after_dispatch(self, message: u32) -> Hook {
        if kind_of(message) is Teardown {
            self.after_removal()
        } else {
            self
        }
    }
}

impl View for InterceptorState {
    type V = Hook;

    closed spec fn view(&self) -> Hook {
        self.hook
    }
}

impl InterceptorState {
    /// The record of a module that was just loaded: no hook, nothing recorded.
    pub fn new() -> (state: InterceptorState)
        ensures
            state@ == Hook::Unloaded,
    {
        InterceptorState { hook: Hook::Unloaded }
    }

    /// Where the hook stands.
    pub fn hook(&self) -> (hook: Hook)
        ensures
            hook == self@,
    {
        self.hook
    }

    /// Whether the hook is in place.
    pub fn is_hooked(&self) -> (hooked: bool)
        ensures
            hooked == (self@ is Hooked),
    {
        match self.hook {
            Hook::Hooked { .. } => true,
            _ => false,
        }
    }

    /// Whether no hook was installed yet.
    pub fn is_unloaded(&self) -> (unloaded: bool)
        ensures
            unloaded == (self@ is Unloaded),
    {
        match self.hook {
            Hook::Unloaded => true,
            _ => false,
        }
    }

    /// The recorded procedure; unset unless the hook is in place.
    pub fn previous(&self) -> (procedure: ProcedureRef)
        ensures
            procedure == self@.previous(),
    {
        match self.hook {
            Hook::Hooked { previous } => previous,
            _ => ProcedureRef::Unset,
        }
    }

    /// Records `prior`, the procedure that carrying out `Effect::Install`
    /// displaced, and so puts the hook in place. A record that was made
    /// once is never overwritten: the call then changes nothing and returns
    /// `false`.
    pub fn capture(&mut self, prior: ProcedureRef) -> (captured: bool)
        ensures
            final(self)@ == old(self)@.after_capture(prior),
            captured == (old(self)@ is Unloaded),
    {
        match self.hook {
            Hook::Unloaded => {
                self.hook = Hook::Hooked { previous: prior };
                true
            },
            _ => false,
        }
    }
}

/// Decides what attaching to the window of process `pid` takes.
///
/// `windows` holds the top-level windows as the operating system enumerated
/// them, and `completed` says whether it enumerated to the end. Where the
/// window is located and no hook was installed before, the answer is the
/// installation; the procedure that it displaces goes to
/// `InterceptorState::capture`. Where a hook was installed before, there is
/// nothing to do. Where no window is located, the attach fails. The state is
/// not changed in any case.
pub fn attach(
    state: &InterceptorState,
    pid: u32,
    windows: &Vec<WindowInfo>,
    completed: bool,
) -> (result: Result<Vec<Effect>, LocateError>)
    ensures
        match locate(windows@, pid, completed) {
            Ok(window) => result matches Ok(effects) && effects@ == state@.attach_effects(window),
            Err(error) => result matches Err(e) && e == error,
        },
        result is Err <==> forall|i: int|
            0 <= i < windows@.len() ==> !qualifies(#[trigger] windows@[i], pid),
{
    match find_window_by_pid(pid, windows, completed) {
        Ok(window) => {
            let mut effects: Vec<Effect> = Vec::new();
            if state.is_unloaded() {
                effects.push(Effect::Install { window });
            }
            Ok(effects)
        },
        Err(error) => Err(error),
    }
}

/// Takes the hook out of the window of process `pid`.
///
/// The window is located again. Where it is found and the hook is in place,
/// the recorded procedure goes back and the record is cleared. Where it is
/// found and no hook is in place, there is nothing to restore. Where it is
/// not found, the detach fails and the state stays as it was.
pub fn detach(
    state: &mut InterceptorState,
    pid: u32,
    windows: &Vec<WindowInfo>,
    completed: bool,
) -> (result: Result<Vec<Effect>, LocateError>)
    ensures
        match locate(windows@, pid, completed) {
            Ok(window) => {
                &&& result matches Ok(effects) && effects@ == old(state)@.detach_effects(window)
                &&& final(state)@ == old(state)@.after_removal()
            },
            Err(error) => {
                &&& result matches Err(e) && e == error
                &&& final(state)@ == old(state)@
            },
        },
        result is Err <==> forall|i: int|
            0 <= i < windows@.len() ==> !qualifies(#[trigger] windows@[i], pid),
{
    match find_window_by_pid(pid, windows, completed) {
        Ok(window) => Ok(unhook(state, window)),
        Err(error) => Err(error),
    }
}

/// The dispatch function that the hook puts in the place of the window's
/// own procedure.
///
/// A paint request and a pending change of position are answered here, with
/// a fixed result, and reach no other procedure. The teardown message takes
/// the hook out and still goes to the system's default handler. Every other
/// message goes to the recorded procedure with the arguments it came with,
/// and the result is what that procedure returns.
pub fn wnd_proc(
    state: &mut InterceptorState,
    window: WindowHandle,
    message: u32,
    wparam: usize,
    lparam: isize,
) -> (dispatch: Dispatch)
    ensures
        dispatch.effects@ == old(state)@.dispatch_effects(window, message, wparam, lparam),
        dispatch.reply == Hook::dispatch_reply(message),
        final(state)@ == old(state)@.after_dispatch(message),
{
    match classify(message) {
        MessageKind::Paint => Dispatch { effects: paint(window), reply: Reply::Value(0) },
        MessageKind::PositionChanging => Dispatch {
            effects: lock_position(),
            reply: Reply::Value(0),
        },
        MessageKind::Teardown => {
            let mut effects = unhook(state, window);
            effects.push(Effect::CallDefault { window, message, wparam, lparam });
            Dispatch { effects, reply: Reply::OfCall }
        },
        MessageKind::Other => {
            let mut effects: Vec<Effect> = Vec::new();
            effects.push(
                Effect::CallProcedure { procedure: state.previous(), window, message, wparam, lparam },
            );
            Dispatch { effects, reply: Reply::OfCall }
        },
    }
}

/// The restoration that `detach` and the teardown message share: the recorded
/// procedure goes back to `window` and the record is cleared.
fn unhook(state: &mut InterceptorState, window: WindowHandle) -> (effects: Vec<Effect>)
    ensures
        effects@ == old(state)@.detach_effects(window),
        final(state)@ == old(state)@.after_removal(),
{
    let mut effects: Vec<Effect> = Vec::new();
    match state.hook {
        Hook::Hooked { previous } => {
            effects.push(Effect::Restore { window, procedure: previous });
            state.hook = Hook::Unhooked;
        },
        _ => {},
    }
    effects
}

} // verus!
