use hello_triangle::lifecycle::{
    dispatch_event, ApplicationLifecycle, LoopState, ResourceKind, ResourceLedger, UiEvent,
};
use hello_triangle::logical_device::LogicalDeviceBuilder;

#[test]
fn scripted_shutdown_with_diagnostics_records_exact_destroy_order() {
    let mut app = ApplicationLifecycle::new(true);
    app.instance_created();
    app.subscription_attached();
    app.device_created();
    app.begin_running();
    assert_eq!(app.loop_state(), LoopState::Running);

    let stopped = app.handle_event(UiEvent::CloseRequested);
    assert!(stopped);
    assert_eq!(app.loop_state(), LoopState::Terminating);

    let order = app.shut_down();
    assert_eq!(
        order,
        vec![
            ResourceKind::DiagnosticSubscription,
            ResourceKind::LogicalDevice,
            ResourceKind::Instance,
        ]
    );
    assert_eq!(app.destroy_log(), &order);
}

#[test]
fn shutdown_without_diagnostics_skips_the_subscription() {
    let mut app = ApplicationLifecycle::new(false);
    app.instance_created();
    app.device_created();
    app.begin_running();
    let order = app.shut_down();
    assert_eq!(order, vec![ResourceKind::LogicalDevice, ResourceKind::Instance]);
}

#[test]
fn teardown_is_idempotent() {
    let mut app = ApplicationLifecycle::new(true);
    app.instance_created();
    app.subscription_attached();
    app.device_created();
    let first = app.shut_down();
    assert_eq!(first.len(), 3);
    let second = app.shut_down();
    assert!(second.is_empty());
    assert_eq!(app.destroy_log().len(), 3);
}

#[test]
fn failed_startup_unwinds_what_was_created() {
    // Instance created, then a later step fails: only the instance is released.
    let mut app = ApplicationLifecycle::new(false);
    app.instance_created();
    let order = app.shut_down();
    assert_eq!(order, vec![ResourceKind::Instance]);

    // Instance and subscription created, then device creation fails.
    let mut app = ApplicationLifecycle::new(true);
    app.instance_created();
    app.subscription_attached();
    let order = app.shut_down();
    assert_eq!(
        order,
        vec![ResourceKind::DiagnosticSubscription, ResourceKind::Instance]
    );

    // Nothing created at all: nothing to release.
    let mut app = ApplicationLifecycle::new(false);
    let order = app.shut_down();
    assert!(order.is_empty());
}

#[test]
fn close_request_terminates_exactly_once() {
    let mut app = ApplicationLifecycle::new(false);
    app.instance_created();
    app.device_created();
    app.begin_running();

    let first = app.handle_event(UiEvent::CloseRequested);
    assert!(first);
    assert_eq!(app.loop_state(), LoopState::Terminating);

    let second = app.handle_event(UiEvent::CloseRequested);
    assert!(!second);
    assert_eq!(app.loop_state(), LoopState::Terminating);
}

#[test]
fn other_events_are_observed_and_discarded() {
    let mut app = ApplicationLifecycle::new(false);
    app.instance_created();
    app.device_created();
    app.begin_running();
    let stopped = app.handle_event(UiEvent::Other);
    assert!(!stopped);
    assert_eq!(app.loop_state(), LoopState::Running);
}

#[test]
fn dispatch_table_is_exhaustive() {
    assert_eq!(
        dispatch_event(LoopState::Running, UiEvent::CloseRequested),
        (LoopState::Terminating, true)
    );
    assert_eq!(
        dispatch_event(LoopState::Running, UiEvent::Other),
        (LoopState::Running, false)
    );
    assert_eq!(
        dispatch_event(LoopState::Terminating, UiEvent::CloseRequested),
        (LoopState::Terminating, false)
    );
    assert_eq!(
        dispatch_event(LoopState::Terminating, UiEvent::Other),
        (LoopState::Terminating, false)
    );
    assert_eq!(
        dispatch_event(LoopState::Initializing, UiEvent::Other),
        (LoopState::Initializing, false)
    );
}

#[test]
fn bare_ledger_tracks_destroy_calls() {
    let mut ledger = ResourceLedger::new();
    assert!(ledger.destroy_log().is_empty());
    ledger.note_instance_created();
    ledger.note_device_created();
    let order = ledger.tear_down();
    assert_eq!(order, vec![ResourceKind::LogicalDevice, ResourceKind::Instance]);
    assert_eq!(ledger.destroy_log(), &order);
    assert!(ledger.tear_down().is_empty());
}

#[test]
fn queue_location_is_selected_family_slot_zero() {
    let location = LogicalDeviceBuilder::queue_location(5);
    assert_eq!(location.family_index, 5);
    assert_eq!(location.slot, 0);
}
