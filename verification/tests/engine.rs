use vibebar::activation::ActivationKind;
use vibebar::activation::ActivationRequest;
use vibebar::activation::fallback_after;
use vibebar::activation::method_name;
use vibebar::activation::plan_activation;
use vibebar::activation::SniMethod;
use vibebar::engine::BusEvent;
use vibebar::engine::EngineAction;
use vibebar::engine::EngineInput;
use vibebar::engine::EngineState;
use vibebar::engine::InitialItem;
use vibebar::engine::OutputEvent;
use vibebar::engine::step;
use vibebar::engine::translate;
use vibebar::engine::UpdatePayload;
use vibebar::engine::BACKOFF_SECONDS;
use vibebar::item::IconDescriptor;

fn named_descriptor(name: &str) -> IconDescriptor {
    IconDescriptor { pixmap: None, icon_name: Some(String::from(name)), icon_theme_path: None }
}

fn item(address: &str, name: &str) -> InitialItem {
    InitialItem { address: String::from(address), icon: named_descriptor(name) }
}

#[test]
fn failed_connect_reenters_disconnected_with_backoff() {
    let outcome = step(EngineState::Disconnected, EngineInput::ConnectFailed);
    assert_eq!(outcome.event, OutputEvent::Tick);
    assert_eq!(outcome.next, EngineState::Disconnected);
    assert_eq!(outcome.action, EngineAction::Backoff);
}

#[test]
fn backoff_is_five_seconds() {
    assert_eq!(BACKOFF_SECONDS, 5);
}

#[test]
fn successful_connect_starts_replay() {
    let snapshot = vec![item(":1.1", "a")];
    let outcome = step(EngineState::Disconnected, EngineInput::ConnectOk { snapshot });
    assert_eq!(outcome.event, OutputEvent::Tick);
    assert_eq!(
        outcome.next,
        EngineState::SendingInitialCatalog { remaining: vec![item(":1.1", "a")] }
    );
    assert_eq!(outcome.action, EngineAction::Idle);
}

#[test]
fn replay_emits_one_add_per_item_then_connects() {
    let snapshot = vec![item(":1.1", "a"), item(":1.2", "b")];
    let mut state = EngineState::SendingInitialCatalog { remaining: snapshot };

    let outcome = step(state, EngineInput::Advance);
    assert_eq!(
        outcome.event,
        OutputEvent::Add { address: String::from(":1.1"), icon: named_descriptor("a") }
    );
    assert_eq!(outcome.action, EngineAction::Idle);
    state = outcome.next;

    let outcome = step(state, EngineInput::Advance);
    assert_eq!(
        outcome.event,
        OutputEvent::Add { address: String::from(":1.2"), icon: named_descriptor("b") }
    );
    state = outcome.next;

    let outcome = step(state, EngineInput::Advance);
    assert_eq!(outcome.event, OutputEvent::Tick);
    assert_eq!(outcome.next, EngineState::Connected);
    assert_eq!(outcome.action, EngineAction::Idle);
}

#[test]
fn connected_forwards_adds_and_removes() {
    let ev = BusEvent::Add { address: String::from(":1.9"), item: named_descriptor("x") };
    let outcome = step(EngineState::Connected, EngineInput::Tray { event: ev });
    assert_eq!(
        outcome.event,
        OutputEvent::Add { address: String::from(":1.9"), icon: named_descriptor("x") }
    );
    assert_eq!(outcome.next, EngineState::Connected);

    let ev = BusEvent::Remove { address: String::from(":1.9") };
    let outcome = step(EngineState::Connected, EngineInput::Tray { event: ev });
    assert_eq!(outcome.event, OutputEvent::Remove { address: String::from(":1.9") });
}

#[test]
fn icon_update_loses_theme_path() {
    let ev = BusEvent::Update {
        address: String::from(":1.9"),
        payload: UpdatePayload::Icon { icon_name: Some(String::from("n")), pixmap: None },
    };
    assert_eq!(
        translate(ev),
        OutputEvent::Update { address: String::from(":1.9"), icon: named_descriptor("n") }
    );
}

#[test]
fn non_icon_update_is_dropped_as_tick() {
    let ev = BusEvent::Update { address: String::from(":1.9"), payload: UpdatePayload::Other };
    let outcome = step(EngineState::Connected, EngineInput::Tray { event: ev });
    assert_eq!(outcome.event, OutputEvent::Tick);
    assert_eq!(outcome.next, EngineState::Connected);
}

#[test]
fn stream_loss_forces_full_reconnect() {
    let outcome = step(EngineState::Connected, EngineInput::StreamClosed);
    assert_eq!(outcome.event, OutputEvent::Tick);
    assert_eq!(outcome.next, EngineState::Disconnected);
    assert_eq!(outcome.action, EngineAction::Idle);
}

#[test]
fn primary_click_on_menu_item_opens_context_menu_only() {
    let request = ActivationRequest {
        address: String::from(":1.5"),
        kind: ActivationKind::Primary,
        x: 10,
        y: 20,
    };
    let outcome = step(
        EngineState::Connected,
        EngineInput::Activation { request, item_is_menu: true },
    );
    assert_eq!(outcome.event, OutputEvent::Tick);
    assert_eq!(outcome.next, EngineState::Connected);
    match outcome.action {
        EngineAction::Invoke { address, plan, x, y } => {
            assert_eq!(address, ":1.5");
            assert_eq!(plan.first, SniMethod::ContextMenu);
            assert_eq!(plan.fallback, None);
            assert_eq!((x, y), (10, 20));
        }
        other => panic!("expected an invocation, got {:?}", other),
    }
}

#[test]
fn primary_click_failure_falls_back_once() {
    let plan = plan_activation(ActivationKind::Primary, false);
    assert_eq!(plan.first, SniMethod::Activate);
    assert_eq!(plan.fallback, Some(SniMethod::ContextMenu));
    // The first call failed: exactly one context-menu call follows, for a
    // total of two attempts.
    assert_eq!(fallback_after(plan, true), Some(SniMethod::ContextMenu));
    // The first call succeeded: nothing follows.
    assert_eq!(fallback_after(plan, false), None);
}

#[test]
fn right_and_middle_clicks_have_no_fallback() {
    let plan = plan_activation(ActivationKind::ContextMenu, false);
    assert_eq!(plan.first, SniMethod::ContextMenu);
    assert_eq!(plan.fallback, None);
    assert_eq!(fallback_after(plan, true), None);

    let plan = plan_activation(ActivationKind::Secondary, true);
    assert_eq!(plan.first, SniMethod::SecondaryActivate);
    assert_eq!(plan.fallback, None);
}

#[test]
fn method_names_match_the_protocol() {
    assert_eq!(method_name(SniMethod::Activate), "Activate");
    assert_eq!(method_name(SniMethod::ContextMenu), "ContextMenu");
    assert_eq!(method_name(SniMethod::SecondaryActivate), "SecondaryActivate");
}

#[test]
fn watcher_names_match_the_protocol() {
    assert_eq!(
        vibebar::activation::watcher_bus_name(),
        "org.kde.StatusNotifierWatcher"
    );
    assert_eq!(
        vibebar::activation::watcher_object_path(),
        "/StatusNotifierWatcher"
    );
    assert_eq!(
        vibebar::activation::item_interface(),
        "org.kde.StatusNotifierItem"
    );
}

#[test]
fn mismatched_input_is_tolerated_as_tick() {
    let outcome = step(EngineState::Disconnected, EngineInput::Advance);
    assert_eq!(outcome.event, OutputEvent::Tick);
    assert_eq!(outcome.next, EngineState::Disconnected);
    assert_eq!(outcome.action, EngineAction::Idle);

    let outcome = step(EngineState::Connected, EngineInput::ConnectFailed);
    assert_eq!(outcome.event, OutputEvent::Tick);
    assert_eq!(outcome.next, EngineState::Connected);
}

#[test]
fn empty_snapshot_connects_after_one_tick() {
    let outcome = step(
        EngineState::Disconnected,
        EngineInput::ConnectOk { snapshot: Vec::new() },
    );
    let outcome = step(outcome.next, EngineInput::Advance);
    assert_eq!(outcome.event, OutputEvent::Tick);
    assert_eq!(outcome.next, EngineState::Connected);
}
