use hello::effect::{Effect, Reply};
use hello::interceptor::{wnd_proc, Hook, InterceptorState};
use hello::lifecycle::{dll_main, lifecycle_event, LifecycleEvent};
use hello::locator::LocateError;
use hello::window::{ProcedureRef, WindowHandle, WindowInfo};
use std::collections::HashMap;

#[derive(Clone, Copy, Debug, PartialEq, Eq)]
enum Active {
    Interceptor,
    Procedure(ProcedureRef),
}

struct Desktop {
    procedures: HashMap<WindowHandle, Active>,
    default_calls: Vec<(WindowHandle, u32, usize, isize)>,
    forwarded_calls: Vec<(ProcedureRef, WindowHandle, u32, usize, isize)>,
}

impl Desktop {
    fn with_window(window: WindowHandle, procedure: ProcedureRef) -> Desktop {
        let mut procedures = HashMap::new();
        procedures.insert(window, Active::Procedure(procedure));
        Desktop { procedures, default_calls: Vec::new(), forwarded_calls: Vec::new() }
    }

    fn perform(&mut self, effects: &[Effect], state: &mut InterceptorState) {
        for effect in effects.iter().copied() {
            match effect {
                Effect::Install { window } => {
                    let displaced = self.procedures.insert(window, Active::Interceptor);
                    match displaced {
                        Some(Active::Procedure(procedure)) => {
                            state.capture(procedure);
                        }
                        _ => panic!(),
                    }
                }
                Effect::Restore { window, procedure } => {
                    self.procedures.insert(window, Active::Procedure(procedure));
                }
                Effect::CallDefault { window, message, wparam, lparam } => {
                    self.default_calls.push((window, message, wparam, lparam));
                }
                Effect::CallProcedure { procedure, window, message, wparam, lparam } => {
                    self.forwarded_calls.push((procedure, window, message, wparam, lparam));
                }
                _ => {}
            }
        }
    }
}

const PID: u32 = 4242;
const W: WindowHandle = WindowHandle(0x00A1);
const PRIOR: ProcedureRef = ProcedureRef::Valid(0x7FF0_1000);

fn windows_of_4242() -> Vec<WindowInfo> {
    vec![
        WindowInfo { handle: WindowHandle(0x0090), process_id: 17, owner: WindowHandle(0), visible: true },
        WindowInfo { handle: WindowHandle(0x00A0), process_id: PID, owner: W, visible: true },
        WindowInfo { handle: W, process_id: PID, owner: WindowHandle(0), visible: true },
        WindowInfo { handle: WindowHandle(0x00A2), process_id: PID, owner: WindowHandle(0), visible: false },
    ]
}

#[test]
fn loader_reasons_map_to_events() {
    assert_eq!(lifecycle_event(1), LifecycleEvent::Attach);
    assert_eq!(lifecycle_event(0), LifecycleEvent::Detach);
    assert_eq!(lifecycle_event(2), LifecycleEvent::Other);
    assert_eq!(lifecycle_event(3), LifecycleEvent::Other);
    assert_eq!(lifecycle_event(u32::MAX), LifecycleEvent::Other);
}

#[test]
fn attach_event_attaches() {
    let mut state = InterceptorState::new();
    let handled = dll_main(&mut state, 1, PID, &windows_of_4242(), true);
    assert_eq!(handled.effects, vec![Effect::Install { window: W }]);
    assert_eq!(handled.failure, None);
    assert!(handled.status);
}

#[test]
fn failed_attach_is_reported_and_fails_open() {
    let mut state = InterceptorState::new();
    let handled = dll_main(&mut state, 1, 4243, &windows_of_4242(), true);
    assert!(handled.effects.is_empty());
    assert_eq!(handled.failure, Some(LocateError::NotFound));
    assert!(handled.status);
    assert_eq!(state.hook(), Hook::Unloaded);
    let handled = dll_main(&mut state, 1, 4243, &windows_of_4242(), false);
    assert!(handled.effects.is_empty());
    assert_eq!(handled.failure, Some(LocateError::EnumerationFailed));
    assert!(handled.status);
    assert_eq!(state.hook(), Hook::Unloaded);
}

#[test]
fn module_goes_on_unhooked_after_a_failed_attach() {
    let mut state = InterceptorState::new();
    let mut desktop = Desktop::with_window(W, PRIOR);
    let failed = dll_main(&mut state, 1, 4243, &windows_of_4242(), true);
    assert!(failed.status);
    desktop.perform(&failed.effects, &mut state);
    assert_eq!(desktop.procedures[&W], Active::Procedure(PRIOR));
    assert_eq!(state.hook(), Hook::Unloaded);
    let later = dll_main(&mut state, 1, PID, &windows_of_4242(), true);
    assert_eq!(later.effects, vec![Effect::Install { window: W }]);
    desktop.perform(&later.effects, &mut state);
    assert_eq!(state.hook(), Hook::Hooked { previous: PRIOR });
}

#[test]
fn detach_event_detaches() {
    let mut state = InterceptorState::new();
    state.capture(PRIOR);
    let handled = dll_main(&mut state, 0, PID, &windows_of_4242(), true);
    assert_eq!(handled.effects, vec![Effect::Restore { window: W, procedure: PRIOR }]);
    assert_eq!(handled.failure, None);
    assert!(handled.status);
    assert_eq!(state.hook(), Hook::Unhooked);
}

#[test]
fn failed_detach_is_swallowed() {
    let mut state = InterceptorState::new();
    state.capture(PRIOR);
    let handled = dll_main(&mut state, 0, 4243, &windows_of_4242(), true);
    assert!(handled.effects.is_empty());
    assert_eq!(handled.failure, Some(LocateError::NotFound));
    assert!(handled.status);
    assert_eq!(state.hook(), Hook::Hooked { previous: PRIOR });
}

#[test]
fn other_events_do_nothing() {
    for reason in [2u32, 3, 4, 1000] {
        let mut state = InterceptorState::new();
        state.capture(PRIOR);
        let handled = dll_main(&mut state, reason, PID, &windows_of_4242(), true);
        assert!(handled.effects.is_empty());
        assert_eq!(handled.failure, None);
        assert!(handled.status);
        assert_eq!(state.hook(), Hook::Hooked { previous: PRIOR });
        let handled = dll_main(&mut state, reason, 4243, &Vec::new(), false);
        assert!(handled.effects.is_empty());
        assert_eq!(handled.failure, None);
        assert!(handled.status);
    }
}

#[test]
fn second_attach_event_captures_nothing() {
    let mut state = InterceptorState::new();
    let mut desktop = Desktop::with_window(W, PRIOR);
    let first = dll_main(&mut state, 1, PID, &windows_of_4242(), true);
    desktop.perform(&first.effects, &mut state);
    let after_first = state.hook();
    let second = dll_main(&mut state, 1, PID, &windows_of_4242(), true);
    assert!(second.effects.is_empty());
    assert!(second.status);
    desktop.perform(&second.effects, &mut state);
    assert_eq!(state.hook(), after_first);
    assert_eq!(state.previous(), PRIOR);
    assert_eq!(desktop.procedures[&W], Active::Interceptor);
}

#[test]
fn attach_then_detach_restores_the_window() {
    let mut state = InterceptorState::new();
    let mut desktop = Desktop::with_window(W, PRIOR);
    let attached = dll_main(&mut state, 1, PID, &windows_of_4242(), true);
    desktop.perform(&attached.effects, &mut state);
    assert_eq!(desktop.procedures[&W], Active::Interceptor);
    let detached = dll_main(&mut state, 0, PID, &windows_of_4242(), true);
    desktop.perform(&detached.effects, &mut state);
    assert_eq!(desktop.procedures[&W], Active::Procedure(PRIOR));
    assert_eq!(state.hook(), Hook::Unhooked);
}

#[test]
fn hooked_window_lives_through_attach_and_teardown() {
    let mut state = InterceptorState::new();
    let mut desktop = Desktop::with_window(W, PRIOR);
    assert_eq!(state.hook(), Hook::Unloaded);

    let attached = dll_main(&mut state, 1, PID, &windows_of_4242(), true);
    assert!(attached.status);
    desktop.perform(&attached.effects, &mut state);
    assert_eq!(state.hook(), Hook::Hooked { previous: PRIOR });
    assert_eq!(desktop.procedures[&W], Active::Interceptor);
    assert_eq!(state.previous(), PRIOR);

    let dispatch = wnd_proc(&mut state, W, 0x0082, 0, 0);
    desktop.perform(&dispatch.effects, &mut state);
    assert_eq!(state.hook(), Hook::Unhooked);
    assert_eq!(desktop.procedures[&W], Active::Procedure(PRIOR));
    assert_eq!(desktop.default_calls, vec![(W, 0x0082, 0, 0)]);
    assert!(desktop.forwarded_calls.is_empty());
    assert_eq!(dispatch.reply, Reply::OfCall);
}

#[test]
fn forwarded_message_reaches_the_prior_procedure() {
    let mut state = InterceptorState::new();
    let mut desktop = Desktop::with_window(W, PRIOR);
    let attached = dll_main(&mut state, 1, PID, &windows_of_4242(), true);
    desktop.perform(&attached.effects, &mut state);
    let dispatch = wnd_proc(&mut state, W, 0x0201, 1, 0x0010_0020);
    desktop.perform(&dispatch.effects, &mut state);
    assert_eq!(desktop.forwarded_calls, vec![(PRIOR, W, 0x0201, 1, 0x0010_0020)]);
    assert!(desktop.default_calls.is_empty());
    assert_eq!(desktop.procedures[&W], Active::Interceptor);
}
