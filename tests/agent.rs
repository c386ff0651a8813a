use relay_agent::{
    after_connect, build_offline_message, build_online_message, classify, connection_config,
    finish_shutdown, parse_door_state, pulse_steps, shutdown_steps, Action, Agent, Debouncer,
    DeviceProfile, DoorState, MessageKind, PinStep, ReconnectEvent, ReconnectOutcome,
    ReconnectPolicy, ReconnectStep, ShutdownEnd, ShutdownStep, Trigger,
};

fn door_profile() -> DeviceProfile {
    DeviceProfile::relay().with_door_topic("garage/door".to_string())
}

fn down() -> ReconnectEvent {
    ReconnectEvent::Check { stopping: false, connected: false }
}

fn is_reset(a: &Action, topic: &str) -> bool {
    match a {
        Action::Publish(m) => m.topic == topic && m.payload == "0" && m.qos == 2 && !m.retained,
        _ => false,
    }
}

#[test]
fn trigger_within_window_is_suppressed() {
    let mut d = Debouncer::new(Some(10_000));
    assert_eq!(d.try_trigger(10_500), Trigger::Suppressed);
    assert_eq!(d.last_accepted_ms, Some(10_000));
    assert_eq!(d.try_trigger(11_000), Trigger::Suppressed);
    assert_eq!(d.last_accepted_ms, Some(10_000));
}

#[test]
fn trigger_after_window_fires_and_records() {
    let mut d = Debouncer::new(Some(10_000));
    assert_eq!(d.try_trigger(11_001), Trigger::Fired);
    assert_eq!(d.last_accepted_ms, Some(11_001));
    assert_eq!(d.try_trigger(11_500), Trigger::Suppressed);
    assert_eq!(d.last_accepted_ms, Some(11_001));
}

#[test]
fn trigger_without_history_fires() {
    let mut d = Debouncer::new(None);
    assert_eq!(d.try_trigger(5), Trigger::Fired);
    assert_eq!(d.last_accepted_ms, Some(5));
}

#[test]
fn trigger_with_clock_gone_back_fires() {
    let mut d = Debouncer::new(Some(50_000));
    assert_eq!(d.try_trigger(49_999), Trigger::Fired);
    assert_eq!(d.last_accepted_ms, Some(49_999));
}

#[test]
fn pulse_is_low_hold_high() {
    let steps = pulse_steps();
    assert_eq!(steps, vec![PinStep::Low, PinStep::Hold(100), PinStep::High]);
}

#[test]
fn accepted_press_pulses_once_then_resets() {
    let mut a = Agent::new(DeviceProfile::relay(), Some(0));
    let r = a.on_message("rasp/button", "1", 2_000);
    assert_eq!(r.len(), 4);
    assert!(matches!(r[0], Action::Pin(PinStep::Low)));
    assert!(matches!(r[1], Action::Pin(PinStep::Hold(100))));
    assert!(matches!(r[2], Action::Pin(PinStep::High)));
    assert!(is_reset(&r[3], "rasp/button"));
    assert_eq!(a.debouncer.last_accepted_ms, Some(2_000));
}

#[test]
fn suppressed_press_still_resets_once() {
    let mut a = Agent::new(DeviceProfile::relay(), Some(0));
    let first = a.on_message("rasp/button", "1", 2_000);
    let second = a.on_message("rasp/button", "1", 2_400);
    assert_eq!(first.iter().filter(|x| matches!(x, Action::Publish(_))).count(), 1);
    assert_eq!(second.len(), 1);
    assert!(is_reset(&second[0], "rasp/button"));
    assert_eq!(a.debouncer.last_accepted_ms, Some(2_000));
}

#[test]
fn idle_payload_is_ignored() {
    let mut a = Agent::new(DeviceProfile::relay(), Some(0));
    let r = a.on_message("rasp/button", "0", 5_000);
    assert!(r.is_empty());
    assert_eq!(a.debouncer.last_accepted_ms, Some(0));
}

#[test]
fn unknown_topic_and_payload_are_reported() {
    let mut a = Agent::new(DeviceProfile::relay(), Some(0));
    let r = a.on_message("other/topic", "1", 5_000);
    assert_eq!(r.len(), 1);
    assert!(matches!(r[0], Action::ReportUnknown));
    let r = a.on_message("rasp/button", "2", 5_000);
    assert_eq!(r.len(), 1);
    assert!(matches!(r[0], Action::ReportUnknown));
    assert_eq!(a.debouncer.last_accepted_ms, Some(0));
}

#[test]
fn classify_sorts_messages() {
    let p = door_profile();
    assert_eq!(classify(&p, "rasp/button", "1"), MessageKind::Press);
    assert_eq!(classify(&p, "rasp/button", "0"), MessageKind::Idle);
    assert_eq!(classify(&p, "garage/door", "Open"), MessageKind::DoorReport);
    assert_eq!(classify(&p, "rasp/status", "1"), MessageKind::Unknown);
    let q = DeviceProfile::relay();
    assert_eq!(classify(&q, "garage/door", "Open"), MessageKind::Unknown);
}

#[test]
fn door_state_moving_at_startup() {
    let mut a = Agent::new(door_profile(), Some(0));
    let r = a.on_message("garage/door", "Moving", 10);
    assert!(r.is_empty());
    assert_eq!(a.door, DoorState::Moving);
}

#[test]
fn door_state_invalid_at_startup_warns() {
    let mut a = Agent::new(door_profile(), Some(0));
    let r = a.on_message("garage/door", "Sideways", 10);
    assert_eq!(r.len(), 1);
    assert!(matches!(r[0], Action::WarnDoorState));
    assert_eq!(a.door, DoorState::Unknown);
}

#[test]
fn door_state_names_parse() {
    assert_eq!(parse_door_state("Open"), Some(DoorState::Open));
    assert_eq!(parse_door_state("Closed"), Some(DoorState::Closed));
    assert_eq!(parse_door_state("Moving"), Some(DoorState::Moving));
    assert_eq!(parse_door_state("Unknown"), Some(DoorState::Unknown));
    assert_eq!(parse_door_state("open"), None);
    assert_eq!(parse_door_state(""), None);
}

#[test]
fn liveness_messages_are_retained_level_one() {
    let p = DeviceProfile::relay();
    let on = build_online_message(&p);
    assert_eq!((on.topic.as_str(), on.payload.as_str(), on.qos, on.retained), ("rasp/status", "1", 1, true));
    let off = build_offline_message(&p);
    assert_eq!((off.topic.as_str(), off.payload.as_str(), off.qos, off.retained), ("rasp/status", "0", 1, true));
}

#[test]
fn connection_config_registers_offline_will() {
    let c = connection_config(&DeviceProfile::relay_debug());
    assert_eq!(c.broker, "tcp://192.168.1.127:1886");
    assert_eq!(c.client_id, "Pi_debug");
    assert_eq!(c.keep_alive_secs, 10);
    assert!(c.clean_session);
    assert_eq!(c.last_will.topic, "rasp_debug/status");
    assert_eq!(c.last_will.payload, "0");
    assert_eq!(c.last_will.qos, 1);
    assert!(c.last_will.retained);
}

#[test]
fn startup_announces_after_connect() {
    let p = DeviceProfile::relay();
    let msgs = after_connect(&p, true).unwrap();
    assert_eq!(msgs.len(), 2);
    assert_eq!((msgs[0].topic.as_str(), msgs[0].payload.as_str()), ("rasp/status", "1"));
    assert_eq!((msgs[1].topic.as_str(), msgs[1].payload.as_str()), ("rasp/button", "0"));
    assert_eq!(after_connect(&p, false).unwrap_err(), 1);
}

#[test]
fn interrupt_while_idle_publishes_offline_then_exits_clean() {
    let p = DeviceProfile::relay();
    let steps = shutdown_steps(&p);
    assert_eq!(steps.len(), 3);
    assert!(matches!(steps[0], ShutdownStep::RaiseStopFlag));
    match &steps[1] {
        ShutdownStep::Publish(m) => {
            assert_eq!((m.topic.as_str(), m.payload.as_str(), m.qos, m.retained), ("rasp/status", "0", 1, true));
        }
        other => panic!("expected the offline publish, got {:?}", other),
    }
    assert!(matches!(steps[2], ShutdownStep::Disconnect(1000)));
    assert_eq!(finish_shutdown(true), ShutdownEnd::Exit(0));
}

#[test]
fn failed_disconnect_aborts() {
    assert_eq!(finish_shutdown(false), ShutdownEnd::Abort);
}

#[test]
fn reconnect_recovers_after_three_failures() {
    let mut p = ReconnectPolicy::new();
    let mut steps = Vec::new();
    for _ in 0..3 {
        steps.push(p.on_event(down()));
        steps.push(p.on_event(ReconnectEvent::AttemptFailed));
    }
    steps.push(p.on_event(down()));
    steps.push(p.on_event(ReconnectEvent::AttemptSucceeded));
    assert_eq!(steps.iter().filter(|s| **s == ReconnectStep::Sleep(10)).count(), 3);
    assert_eq!(steps.iter().filter(|s| **s == ReconnectStep::Announce).count(), 1);
    assert_eq!(*steps.last().unwrap(), ReconnectStep::Announce);
    assert_eq!(p.failures, 3);
}

#[test]
fn reconnect_recovers_without_failures() {
    let mut p = ReconnectPolicy::new();
    assert_eq!(p.on_event(down()), ReconnectStep::Attempt);
    assert_eq!(p.on_event(ReconnectEvent::AttemptSucceeded), ReconnectStep::Announce);
}

#[test]
fn reconnect_gives_up_after_budget() {
    let mut p = ReconnectPolicy::new();
    let mut steps = Vec::new();
    for _ in 0..120 {
        steps.push(p.on_event(down()));
        steps.push(p.on_event(ReconnectEvent::AttemptFailed));
    }
    assert_eq!(steps.iter().filter(|s| **s == ReconnectStep::Sleep(10)).count(), 119);
    assert!(!steps.contains(&ReconnectStep::Announce));
    assert_eq!(*steps.last().unwrap(), ReconnectStep::Exit(2));
}

#[test]
fn reconnect_aborts_when_stopping() {
    let mut p = ReconnectPolicy::new();
    let s = p.on_event(ReconnectEvent::Check { stopping: true, connected: false });
    assert_eq!(s, ReconnectStep::Abort);
}

#[test]
fn reconnect_announces_when_already_connected() {
    let mut p = ReconnectPolicy::new();
    assert_eq!(p.on_event(ReconnectEvent::Check { stopping: false, connected: true }), ReconnectStep::Announce);
}

#[test]
fn stream_end_reconnects_unless_stopping() {
    let a = Agent::new(DeviceProfile::relay(), None);
    assert!(matches!(a.on_stream_end(false), Action::Reconnect));
    assert!(matches!(a.on_stream_end(true), Action::Park));
}

#[test]
fn resubscribes_after_success_parks_after_abort() {
    let a = Agent::new(door_profile(), None);
    let r = a.after_reconnect(ReconnectOutcome::Success);
    assert_eq!(r.len(), 2);
    match (&r[0], &r[1]) {
        (Action::Subscribe(b), Action::Subscribe(d)) => {
            assert_eq!((b.topic.as_str(), b.qos), ("rasp/button", 2));
            assert_eq!((d.topic.as_str(), d.qos), ("garage/door", 1));
        }
        other => panic!("expected two subscriptions, got {:?}", other),
    }
    let r = a.after_reconnect(ReconnectOutcome::Aborted);
    assert_eq!(r.len(), 1);
    assert!(matches!(r[0], Action::Park));
    let r = a.resume(true);
    assert!(matches!(r[0], Action::Park));
    let r = Agent::new(DeviceProfile::relay(), None).resume(false);
    assert_eq!(r.len(), 1);
}
