//! A model of the procedures that the operating system calls, and the laws
//! of the hook stated over it.
//!
//! The model is ghost: it says what carrying out an effect does to the one
//! thing the hook changes, the active procedure of a window.

use vstd::prelude::*;
use crate::effect::Effect;
use crate::handlers::{kind_of, MessageKind};
use crate::interceptor::Hook;
use crate::win32::{WM_NCDESTROY, WM_PAINT, WM_WINDOWPOSCHANGING};
use crate::window::{ProcedureRef, WindowHandle};

verus! {

/// The procedure that the operating system calls for a window.
pub enum Active {
    /// The interceptor's dispatch function.
    Interceptor,
    /// A procedure that is not the interceptor's.
    Procedure(ProcedureRef),
}

/// The active procedure of each window after `effect` was carried out.
pub open spec fn perform(
    procedures: Map<WindowHandle, Active>,
    effect: Effect,
) -> Map<WindowHandle, Active> {
    match effect {
        Effect::Install { window } => procedures.insert(window, Active::Interceptor),
        Effect::Restore { window, procedure } => procedures.insert(
            window,
            Active::Procedure(procedure),
        ),
        _ => procedures,
    }
}

/// The active procedure of each window after `effects` were carried out in order.
pub open spec fn perform_all(
    procedures: Map<WindowHandle, Active>,
    effects: Seq<Effect>,
) -> Map<WindowHandle, Active>
    decreases effects.len(),
{
    if effects.len() == 0 {
        procedures
    } else {
        perform(perform_all(procedures, effects.drop_last()), effects.last())
    }
}

/// Carrying out one effect.
pub proof fn lemma_perform_one(procedures: Map<WindowHandle, Active>, effect: Effect)
    ensures
        perform_all(procedures, seq![effect]) == perform(procedures, effect),
{
    reveal_with_fuel(perform_all, 2);
    assert(seq![effect].drop_last() =~= Seq::<Effect>::empty());
}

/// Carrying out two effects.
pub proof fn lemma_perform_two(procedures: Map<WindowHandle, Active>, first: Effect, second: Effect)
    ensures
        perform_all(procedures, seq![first, second]) == perform(
            perform(procedures, first),
            second,
        ),
{
    assert(seq![first, second].drop_last() =~= seq![first]);
    lemma_perform_one(procedures, first);
}

/// An attach while the hook is in place installs nothing, and a procedure
/// reported then is not recorded: the record stays what the first attach
/// made it.
pub proof fn law_second_attach_changes_nothing(
    hook: Hook,
    window: WindowHandle,
    prior: ProcedureRef,
    procedures: Map<WindowHandle, Active>,
)
    requires
        hook is Hooked,
    ensures
        hook.attach_effects(window) == Seq::<Effect>::empty(),
        hook.after_capture(prior) == hook,
        perform_all(procedures, hook.attach_effects(window)) == procedures,
{
}

/// A message that is no paint request, no pending change of position and no
/// teardown goes to the recorded procedure with the arguments it came with,
/// the result is what that procedure returned, and the hook stays as it is.
pub proof fn law_pass_through(
    hook: Hook,
    window: WindowHandle,
    message: u32,
    wparam: usize,
    lparam: isize,
    returned: isize,
)
    requires
        message != WM_PAINT,
        message != WM_WINDOWPOSCHANGING,
        message != WM_NCDESTROY,
    ensures
        hook.dispatch_effects(window, message, wparam, lparam) == seq![
            Effect::CallProcedure { procedure: hook.previous(), window, message, wparam, lparam },
        ],
        Hook::dispatch_reply(message).settled(returned) == returned,
        hook.after_dispatch(message) == hook,
{
}

/// A message that has a handler never reaches the recorded procedure. A
/// paint request and a pending change of position reach no procedure at
/// all: their result is zero and the hook stays as it is.
pub proof fn law_handled_never_delegates(
    hook: Hook,
    window: WindowHandle,
    message: u32,
    wparam: usize,
    lparam: isize,
    returned: isize,
)
    requires
        message == WM_PAINT || message == WM_WINDOWPOSCHANGING || message == WM_NCDESTROY,
    ensures
        forall|i: int|
            0 <= i < hook.dispatch_effects(window, message, wparam, lparam).len()
                ==> !(#[trigger] hook.dispatch_effects(window, message, wparam, lparam)[i])
                .delegates(),
        message != WM_NCDESTROY ==> {
            &&& forall|i: int|
                0 <= i < hook.dispatch_effects(window, message, wparam, lparam).len()
                    ==> !(#[trigger] hook.dispatch_effects(window, message, wparam, lparam)[i])
                    .is_call()
            &&& Hook::dispatch_reply(message).settled(returned) == 0
            &&& hook.after_dispatch(message) == hook
        },
{
}

/// An attach that locates a window whose procedure is `prior` puts the
/// interceptor in its place, and the record then holds `prior`.
pub proof fn law_attach_installs(
    procedures: Map<WindowHandle, Active>,
    window: WindowHandle,
    prior: ProcedureRef,
)
    requires
        procedures.contains_key(window),
        procedures[window] == Active::Procedure(prior),
    ensures
        perform_all(procedures, Hook::Unloaded.attach_effects(window))[window]
            == Active::Interceptor,
        Hook::Unloaded.after_capture(prior) == (Hook::Hooked { previous: prior }),
        Hook::Unloaded.after_capture(prior).previous() == prior,
{
    lemma_perform_one(procedures, Effect::Install { window });
}

/// After a detach that locates the hooked window, the window's procedure is
/// the one recorded when the hook was put in place, and the record is
/// cleared for good.
pub proof fn law_detach_restores(
    procedures: Map<WindowHandle, Active>,
    hook: Hook,
    window: WindowHandle,
)
    requires
        hook is Hooked,
    ensures
        perform_all(procedures, hook.detach_effects(window))[window] == Active::Procedure(
            hook.previous(),
        ),
        hook.after_removal() == Hook::Unhooked,
        hook.after_removal().previous() == ProcedureRef::Unset,
{
    lemma_perform_one(
        procedures,
        Effect::Restore { window, procedure: hook.previous() },
    );
}

/// After the teardown message was dispatched for the hooked window, the
/// window's procedure is the one recorded when the hook was put in place,
/// the record is cleared for good, and the message has still gone to the
/// system's default handler, whose result is the result of the dispatch.
pub proof fn law_teardown_restores(
    procedures: Map<WindowHandle, Active>,
    hook: Hook,
    window: WindowHandle,
    wparam: usize,
    lparam: isize,
    returned: isize,
)
    requires
        hook is Hooked,
    ensures
        hook.dispatch_effects(window, WM_NCDESTROY, wparam, lparam) == seq![
            Effect::Restore { window, procedure: hook.previous() },
            Effect::CallDefault { window, message: WM_NCDESTROY, wparam, lparam },
        ],
        perform_all(
            procedures,
            hook.dispatch_effects(window, WM_NCDESTROY, wparam, lparam),
        )[window] == Active::Procedure(hook.previous()),
        hook.after_dispatch(WM_NCDESTROY) == Hook::Unhooked,
        Hook::dispatch_reply(WM_NCDESTROY).settled(returned) == returned,
{
    let restore = Effect::Restore { window, procedure: hook.previous() };
    let default = Effect::CallDefault { window, message: WM_NCDESTROY, wparam, lparam };
    assert(hook.dispatch_effects(window, WM_NCDESTROY, wparam, lparam) =~= seq![restore, default]);
    lemma_perform_two(procedures, restore, default);
}

/// Attach and detach undo each other: where the window that the detach
/// locates is the one that the attach hooked, every window has the
/// procedure again that it had before the attach.
pub proof fn law_attach_then_detach_is_identity(
    procedures: Map<WindowHandle, Active>,
    window: WindowHandle,
    prior: ProcedureRef,
)
    requires
        procedures.contains_key(window),
        procedures[window] == Active::Procedure(prior),
    ensures
        ({
            let hooked = Hook::Unloaded.after_capture(prior);
            let installed = perform_all(procedures, Hook::Unloaded.attach_effects(window));
            perform_all(installed, hooked.detach_effects(window)) == procedures
        }),
{
    let hooked = Hook::Unloaded.after_capture(prior);
    let installed = perform_all(procedures, Hook::Unloaded.attach_effects(window));
    lemma_perform_one(procedures, Effect::Install { window });
    lemma_perform_one(installed, Effect::Restore { window, procedure: prior });
    assert(perform_all(installed, hooked.detach_effects(window)) =~= procedures);
}

/// Once the hook was taken out it stays out: no later attach installs it
/// again, no later report is recorded, and no later message or detach
/// changes the procedure of any window.
pub proof fn law_unhooked_is_terminal(
    procedures: Map<WindowHandle, Active>,
    window: WindowHandle,
    prior: ProcedureRef,
    message: u32,
    wparam: usize,
    lparam: isize,
)
    ensures
        Hook::Unhooked.attach_effects(window) == Seq::<Effect>::empty(),
        Hook::Unhooked.after_capture(prior) == Hook::Unhooked,
        Hook::Unhooked.detach_effects(window) == Seq::<Effect>::empty(),
        Hook::Unhooked.after_removal() == Hook::Unhooked,
        Hook::Unhooked.after_dispatch(message) == Hook::Unhooked,
        perform_all(procedures, Hook::Unhooked.dispatch_effects(window, message, wparam, lparam))
            == procedures,
{
    lemma_dispatch_without_hook_changes_nothing(
        procedures,
        Hook::Unhooked,
        window,
        message,
        wparam,
        lparam,
    );
}

/// Only the teardown of a hook that is in place changes a procedure: every
/// other dispatch leaves the procedure of every window as it is.
pub proof fn lemma_dispatch_without_hook_changes_nothing(
    procedures: Map<WindowHandle, Active>,
    hook: Hook,
    window: WindowHandle,
    message: u32,
    wparam: usize,
    lparam: isize,
)
    requires
        !(hook is Hooked) || message != WM_NCDESTROY,
    ensures
        perform_all(procedures, hook.dispatch_effects(window, message, wparam, lparam))
            == procedures,
{
    let effects = hook.dispatch_effects(window, message, wparam, lparam);
    match kind_of(message) {
        MessageKind::Paint => {
            reveal_with_fuel(perform_all, 5);
            assert(effects.drop_last() =~= seq![effects[0], effects[1], effects[2]]);
            assert(effects.drop_last().drop_last() =~= seq![effects[0], effects[1]]);
            lemma_perform_two(procedures, effects[0], effects[1]);
        },
        MessageKind::PositionChanging => {
            lemma_perform_one(procedures, effects[0]);
        },
        MessageKind::Teardown => {
            assert(effects =~= seq![
                Effect::CallDefault { window, message, wparam, lparam },
            ]);
            lemma_perform_one(procedures, effects[0]);
        },
        MessageKind::Other => {
            lemma_perform_one(procedures, effects[0]);
        },
    }
}

} // verus!
