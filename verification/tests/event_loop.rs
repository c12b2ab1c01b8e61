use winit::app_delegate::{
    AppAction, ApplicationDelegate, ControlFlow, DelegateCall, Event, HandlePendingUserEvents,
    StartCause,
};
use winit::appkit::NSApplicationActivationPolicy;
use winit::event_handler::{ClearOutcome, EventHandler, HandleOutcome, HandlerState};
use winit::event_loop::{
    map_user_event, native_activation_policy, pump_events_begin, pump_events_end,
    ActivationPolicy, PanicInfo, PlatformSpecificEventLoopAttributes, PumpStatus,
};
use winit::observer::{
    control_flow_begin_step, control_flow_end_step, min_timeout, EventLoopWaker, RunLoopStep,
    TimerAction, K_CF_RUN_LOOP_AFTER_WAITING, K_CF_RUN_LOOP_BEFORE_WAITING, K_CF_RUN_LOOP_EXIT,
};
use winit::platform::{DeviceId, WindowId};

type Delegate = ApplicationDelegate<u8, u16, u32>;
type Action = AppAction<u8, u16, u32>;

fn delegate() -> Delegate {
    ApplicationDelegate::new(
        NSApplicationActivationPolicy::NSApplicationActivationPolicyRegular,
        true,
        true,
        100,
    )
}

fn launched() -> Delegate {
    let mut d = delegate();
    d.set_callback();
    let _ = d.did_finish_launching();
    d
}

#[test]
fn launching_sets_up_and_dispatches_init_events() {
    let mut d = delegate();
    d.set_callback();
    let actions = d.did_finish_launching();
    assert_eq!(
        actions,
        vec![
            Action::SetActivationPolicy(NSApplicationActivationPolicy::NSApplicationActivationPolicyRegular),
            Action::ActivateVisibleWindows,
            Action::ActivateIgnoringOtherApps(true),
            Action::InitializeMenu,
            Action::Timer(TimerAction::Immediately),
            Action::Dispatch(Event::NewEvents(StartCause::Init)),
            Action::Dispatch(Event::Resumed),
        ]
    );
    assert!(d.is_launched());
    assert!(d.is_running());
}

#[test]
fn launching_for_pump_events_stops_the_app() {
    let mut d = delegate();
    d.set_stop_on_launch();
    let actions = d.did_finish_launching();
    assert_eq!(actions.last(), Some(&Action::StopApp));
}

#[test]
fn cleared_delivers_in_order_then_arms_the_timer() {
    let mut d = launched();
    d.queue_window_event(WindowId(1), 5);
    d.queue_device_event(6);
    d.queue_static_scale_factor_changed_event(7);
    let _ = d.queue_redraw(WindowId(2));
    let _ = d.queue_redraw(WindowId(2));
    d.set_control_flow(ControlFlow::WaitUntil(1_000));
    let actions = d.cleared(false, 400);
    assert_eq!(
        actions,
        vec![
            Action::Dispatch(Event::UserEvent(HandlePendingUserEvents)),
            Action::Dispatch(Event::WindowEvent { window_id: WindowId(1), event: 5 }),
            Action::Dispatch(Event::DeviceEvent { device_id: DeviceId, event: 6 }),
            Action::DispatchScaleFactorChanged(7),
            Action::Dispatch(Event::RedrawRequested { window_id: WindowId(2) }),
            Action::Dispatch(Event::AboutToWait),
            Action::Timer(TimerAction::After(600)),
        ]
    );
    assert!(d.pending_events.is_empty());
    assert!(d.pending_redraw.is_empty());
    assert_eq!(d.start_time, Some(400));
}

#[test]
fn cleared_with_exit_stops_the_app() {
    let mut d = launched();
    d.exit();
    d.set_control_flow(ControlFlow::Poll);
    let actions = d.cleared(false, 400);
    assert_eq!(
        actions,
        vec![
            Action::Dispatch(Event::UserEvent(HandlePendingUserEvents)),
            Action::Dispatch(Event::AboutToWait),
            Action::StopApp,
        ]
    );
}

#[test]
fn observers_are_ignored_while_panicking_or_without_handler() {
    let mut d = launched();
    assert!(d.cleared(true, 5).is_empty());
    d.clear_callback();
    assert!(d.cleared(false, 5).is_empty());
    assert!(d.wakeup(false, 5).is_empty());
}

#[test]
fn wakeup_reports_the_cause() {
    let mut d = launched();
    let _ = d.cleared(false, 400);
    d.set_control_flow(ControlFlow::WaitUntil(500));
    assert_eq!(
        d.wakeup(false, 450),
        vec![Action::Dispatch(Event::NewEvents(StartCause::WaitCancelled {
            start: 400,
            requested_resume: Some(500)
        }))]
    );
    assert_eq!(
        d.wakeup(false, 500),
        vec![Action::Dispatch(Event::NewEvents(StartCause::ResumeTimeReached {
            start: 400,
            requested_resume: 500
        }))]
    );
    d.set_control_flow(ControlFlow::Poll);
    d.set_stop_after_wait(true);
    assert_eq!(
        d.wakeup(false, 450),
        vec![Action::StopApp, Action::Dispatch(Event::NewEvents(StartCause::Poll))]
    );
}

#[test]
fn redraw_requests_are_deduplicated() {
    let mut d = launched();
    let _ = d.queue_redraw(WindowId(3));
    let _ = d.queue_redraw(WindowId(4));
    let _ = d.queue_redraw(WindowId(3));
    assert_eq!(d.pending_redraw, vec![WindowId(3), WindowId(4)]);
}

#[test]
fn minimum_timeouts() {
    assert_eq!(min_timeout(None, None), None);
    assert_eq!(min_timeout(Some(3), None), Some(3));
    assert_eq!(min_timeout(None, Some(4)), Some(4));
    assert_eq!(min_timeout(Some(9), Some(4)), Some(4));
    assert_eq!(min_timeout(Some(4), Some(9)), min_timeout(Some(9), Some(4)));
}

#[test]
fn waker_re_arms_only_on_change() {
    let mut waker = EventLoopWaker::new(10);
    assert_eq!(waker.start_at(None, 50), None);
    assert_eq!(waker.start_at(Some(80), 50), Some(TimerAction::After(30)));
    assert_eq!(waker.start_at(Some(80), 60), None);
    assert_eq!(waker.start_at(Some(40), 60), Some(TimerAction::Immediately));
    assert_eq!(waker.next_fire_date, Some(10));
    assert_eq!(waker.stop(), Some(TimerAction::Never));
    assert_eq!(waker.stop(), None);
}

#[test]
fn pump_events_runs_once_launched() {
    let mut d = delegate();
    d.set_callback();
    let (actions, run) = pump_events_begin(&mut d, Some(0), 100);
    assert!(actions.is_empty());
    assert!(run);
    assert!(d.stop_on_launch);
    let _ = d.did_finish_launching();
    d.set_is_running(false);
    let (actions, run) = pump_events_begin(&mut d, Some(0), 100);
    assert!(!run);
    assert_eq!(
        actions,
        vec![Action::Dispatch(Event::NewEvents(StartCause::Init)), Action::Dispatch(Event::Resumed)]
    );
    let (_, status) = pump_events_end(&mut d);
    assert_eq!(status, PumpStatus::Continue);
    d.exit();
    d.set_control_flow(ControlFlow::Poll);
    let (actions, status) = pump_events_end(&mut d);
    assert_eq!(status, PumpStatus::Exit(0));
    assert!(actions.contains(&Action::Dispatch(Event::LoopExiting)));
    assert_eq!(d.control_flow(), ControlFlow::Wait);
    assert!(!d.is_running());
}

#[test]
fn user_events_are_delivered_in_order() {
    let marker: Event<u8, u16, HandlePendingUserEvents> = Event::UserEvent(HandlePendingUserEvents);
    let events = map_user_event(marker, vec![1u64, 2, 3]);
    assert_eq!(events, vec![Event::UserEvent(1), Event::UserEvent(2), Event::UserEvent(3)]);
    let other: Event<u8, u16, HandlePendingUserEvents> = Event::AboutToWait;
    assert_eq!(map_user_event(other, vec![9u64]), vec![Event::AboutToWait]);
}

#[test]
fn first_panic_is_kept() {
    let mut info: PanicInfo<&str> = PanicInfo::new();
    assert!(!info.is_panicking());
    info.set_panic("first");
    info.set_panic("second");
    assert!(info.is_panicking());
    assert_eq!(info.take(), Some("first"));
    assert!(!info.is_panicking());
    assert_eq!(info.take(), None);
}

#[test]
fn event_handler_states() {
    let mut handler = EventHandler::new();
    assert_eq!(handler.handle_event(), HandleOutcome::NoHandler);
    let mut runs = 0;
    let r = handler.set(|| {
        runs += 1;
        42
    });
    assert_eq!(r, 42);
    assert_eq!(runs, 1);
    assert!(!handler.ready());
    assert!(!handler.in_use());
    handler.state = HandlerState::Ready;
    assert!(handler.ready());
    assert_eq!(handler.handle_event(), HandleOutcome::Run);
    assert!(handler.in_use());
    handler.finish_event();
    assert_eq!(handler.clear(), ClearOutcome::Cleared);
    assert_eq!(handler.clear(), ClearOutcome::WasUnset);
}

#[test]
fn activation_policies() {
    let attributes = PlatformSpecificEventLoopAttributes::default();
    assert_eq!(attributes.activation_policy, None);
    assert!(attributes.default_menu);
    assert!(attributes.activate_ignoring_other_apps);
    assert_eq!(native_activation_policy(None), None);
    assert_eq!(
        native_activation_policy(Some(ActivationPolicy::Accessory)),
        Some(NSApplicationActivationPolicy::NSApplicationActivationPolicyAccessory)
    );
}

#[test]
fn run_loop_observer_steps() {
    assert_eq!(control_flow_begin_step(K_CF_RUN_LOOP_AFTER_WAITING), RunLoopStep::Wakeup);
    assert_eq!(control_flow_end_step(K_CF_RUN_LOOP_BEFORE_WAITING), RunLoopStep::Cleared);
    assert_eq!(control_flow_end_step(K_CF_RUN_LOOP_EXIT), RunLoopStep::Nothing);
}

type Call = DelegateCall<u8, u16, u32>;

#[test]
fn calls_keep_the_control_flow_until_it_is_set() {
    let mut d = delegate();
    for call in [Call::SetCallback, Call::Exit, Call::ClearExit, Call::SetIsRunning(true)] {
        let _ = d.apply_call(call);
        assert_eq!(d.control_flow(), ControlFlow::Wait);
    }
    let _ = d.apply_call(Call::SetControlFlow(ControlFlow::Poll));
    assert_eq!(d.control_flow(), ControlFlow::Poll);
    let _ = d.apply_call(Call::QueueRedraw(WindowId(1)));
    assert_eq!(d.control_flow(), ControlFlow::Poll);
    let _ = d.apply_call(Call::InternalExit);
    assert_eq!(d.control_flow(), ControlFlow::Wait);
}

#[test]
fn exiting_follows_the_last_request_and_launch_is_kept() {
    let mut d = delegate();
    assert!(!d.exiting());
    assert!(!d.is_launched());
    let _ = d.apply_call(Call::Exit);
    let _ = d.apply_call(Call::SetControlFlow(ControlFlow::Poll));
    assert!(d.exiting());
    let _ = d.apply_call(Call::ClearExit);
    let _ = d.apply_call(Call::SetIsRunning(false));
    assert!(!d.exiting());
    let _ = d.apply_call(Call::SetCallback);
    let actions = d.apply_call(Call::DidFinishLaunching);
    assert!(actions.contains(&Action::Dispatch(Event::Resumed)));
    assert!(d.is_launched());
    for call in [Call::InternalExit, Call::SetIsRunning(false), Call::Exit, Call::ClearExit] {
        let _ = d.apply_call(call);
        assert!(d.is_launched());
    }
}

#[test]
fn queued_events_are_delivered_once_in_order_and_redraws_once() {
    let mut d = launched();
    let _ = d.apply_call(Call::QueueDeviceEvent(1));
    let _ = d.apply_call(Call::QueueWindowEvent(WindowId(3), 2));
    assert_eq!(d.apply_call(Call::QueueRedraw(WindowId(3))), vec![Action::WakeUp]);
    assert_eq!(d.apply_call(Call::QueueRedraw(WindowId(3))), vec![Action::WakeUp]);
    let _ = d.apply_call(Call::QueueDeviceEvent(4));
    let actions = d.apply_call(Call::Cleared { panicking: false, now: 10 });
    let expected = vec![
            Action::Dispatch(Event::UserEvent(HandlePendingUserEvents)),
            Action::Dispatch(Event::DeviceEvent { device_id: DeviceId, event: 1 }),
            Action::Dispatch(Event::WindowEvent { window_id: WindowId(3), event: 2 }),
            Action::Dispatch(Event::DeviceEvent { device_id: DeviceId, event: 4 }),
            Action::Dispatch(Event::RedrawRequested { window_id: WindowId(3) }),
            Action::Dispatch(Event::AboutToWait),
    ];
    assert!(actions.len() >= expected.len());
    for (i, e) in expected.iter().enumerate() {
        assert_eq!(&actions[i], e);
    }
    let redraws = actions
        .iter()
        .filter(|a| **a == Action::Dispatch(Event::RedrawRequested { window_id: WindowId(3) }))
        .count();
    assert_eq!(redraws, 1);
    let again = d.apply_call(Call::Cleared { panicking: false, now: 20 });
    assert!(!again.iter().any(|a| matches!(a, Action::Dispatch(Event::DeviceEvent { .. }))));
    assert!(d.apply_call(Call::Cleared { panicking: true, now: 30 }).is_empty());
}
