use button_bridge::bridge::{accept, Action, Bridge, BridgeState, HubEvent, BACKOFF_SECONDS};
use button_bridge::buttons::LightingCall;
use button_bridge::leap::{
    Body, ButtonEventType, ButtonGroup, ButtonStatus, CommuniqueType, Device, Header, Message,
};
use button_bridge::DeviceId;

fn names(list: &[&str]) -> Vec<String> {
    list.iter().map(|name| name.to_string()).collect()
}

fn read_response(url: &str, body: Body) -> Message {
    Message {
        communique_type: CommuniqueType::ReadResponse,
        header: Header { url: url.to_string(), status_code: Some("200 OK".to_string()) },
        body: Some(body),
    }
}

fn read_request(url: &str) -> Action {
    Action::Send(Message::new(CommuniqueType::ReadRequest, url.to_string()))
}

fn subscribe_request(url: &str) -> Action {
    Action::Send(Message::new(CommuniqueType::SubscribeRequest, url.to_string()))
}

fn pico(href: &str) -> Device {
    Device { href: Some(href.to_string()), device_type: Some("Pico3ButtonRaiseLower".to_string()) }
}

fn button_event(href: &str, status: Option<&str>, event_type: ButtonEventType) -> HubEvent {
    HubEvent::Received(Some(Message {
        communique_type: CommuniqueType::UpdateResponse,
        header: Header {
            url: format!("{}/status/event", href),
            status_code: status.map(|text| text.to_string()),
        },
        body: Some(Body::ButtonStatusReport(ButtonStatus { href: href.to_string(), event_type })),
    }))
}

fn release(number: u32) -> HubEvent {
    button_event(&format!("/button/{}", number), Some("200 OK"), ButtonEventType::Release)
}

fn ping() -> HubEvent {
    HubEvent::Received(Some(Message {
        communique_type: CommuniqueType::ReadResponse,
        header: Header {
            url: "/device/status/deviceheard".to_string(),
            status_code: Some("200 OK".to_string()),
        },
        body: Some(Body::Other),
    }))
}

fn light(call: LightingCall) -> Action {
    Action::Light(call)
}

fn set_effect(name: &str) -> Action {
    Action::Light(LightingCall::SetEffect(name.to_string()))
}

/// A bridge that has connected and waits for the device enumeration.
fn subscribing() -> Bridge {
    let mut bridge = Bridge::new();
    assert_eq!(bridge.start(), vec![Action::Connect]);
    assert_eq!(bridge.step(HubEvent::Connected), vec![read_request("/device"), Action::Read]);
    assert_eq!(bridge.state(), BridgeState::Subscribing);
    bridge
}

/// A bridge that handles button events with the given effects.
fn handling(effects: &[&str]) -> Bridge {
    let mut bridge = subscribing();
    let enumeration = read_response("/device", Body::Devices(Vec::new()));
    assert_eq!(bridge.step(HubEvent::Received(Some(enumeration))), vec![Action::FetchEffects]);
    assert_eq!(bridge.step(HubEvent::Effects(names(effects))), vec![Action::Read]);
    assert_eq!(bridge.state(), BridgeState::Handling);
    bridge
}

#[test]
fn new_bridge_is_disconnected() {
    let bridge = Bridge::new();
    assert_eq!(bridge.state(), BridgeState::Disconnected);
    assert_eq!(bridge.effect_index(), 0);
}

#[test]
fn start_connects() {
    let mut bridge = Bridge::new();
    assert_eq!(bridge.start(), vec![Action::Connect]);
    assert_eq!(bridge.state(), BridgeState::Connecting);
}

#[test]
fn backoff_is_thirty_seconds() {
    assert_eq!(BACKOFF_SECONDS, 30);
}

#[test]
fn three_failed_connects_wait_three_times_then_subscribe() {
    let mut bridge = Bridge::new();
    let mut done = bridge.start();
    for _ in 0..3 {
        done.extend(bridge.step(HubEvent::ConnectFailed));
        assert_eq!(bridge.state(), BridgeState::Disconnected);
        done.extend(bridge.step(HubEvent::Elapsed));
        assert_eq!(bridge.state(), BridgeState::Connecting);
    }
    done.extend(bridge.step(HubEvent::Connected));
    assert_eq!(bridge.state(), BridgeState::Subscribing);
    assert_eq!(
        done,
        vec![
            Action::Connect,
            Action::Wait(30),
            Action::Connect,
            Action::Wait(30),
            Action::Connect,
            Action::Wait(30),
            Action::Connect,
            read_request("/device"),
            Action::Read,
        ]
    );
    let waits = done.iter().filter(|action| matches!(action, Action::Wait(_))).count();
    assert_eq!(waits, 3);
}

#[test]
fn connecting_is_retried_without_end() {
    let mut bridge = Bridge::new();
    bridge.start();
    for _ in 0..200 {
        assert_eq!(bridge.step(HubEvent::ConnectFailed), vec![Action::Wait(30)]);
        assert_eq!(bridge.step(HubEvent::Elapsed), vec![Action::Connect]);
    }
    assert_eq!(bridge.state(), BridgeState::Connecting);
}

#[test]
fn subscription_runs_through_the_loop() {
    let mut bridge = subscribing();
    let enumeration = read_response(
        "/device",
        Body::Devices(vec![
            Device { href: Some("/device/1".to_string()), device_type: Some("SmartBridge".to_string()) },
            pico("/device/2"),
            pico("/device/3"),
        ]),
    );
    assert_eq!(
        bridge.step(HubEvent::Received(Some(enumeration))),
        vec![read_request("/device/2/buttongroup"), Action::Read]
    );
    assert_eq!(bridge.step(ping()), vec![Action::Read]);
    assert_eq!(bridge.step(HubEvent::Received(None)), vec![Action::Read]);
    let first = read_response(
        "/device/2/buttongroup",
        Body::ButtonGroups(vec![ButtonGroup {
            buttons: Some(vec![Some("/button/111".to_string()), Some("/button/112".to_string())]),
        }]),
    );
    assert_eq!(
        bridge.step(HubEvent::Received(Some(first))),
        vec![read_request("/device/3/buttongroup"), Action::Read]
    );
    let second = read_response(
        "/device/3/buttongroup",
        Body::ButtonGroups(vec![ButtonGroup { buttons: Some(vec![Some("/button/114".to_string())]) }]),
    );
    assert_eq!(
        bridge.step(HubEvent::Received(Some(second))),
        vec![
            subscribe_request("/button/111/status/event"),
            subscribe_request("/button/112/status/event"),
            subscribe_request("/button/114/status/event"),
            Action::FetchEffects,
        ]
    );
    assert_eq!(bridge.state(), BridgeState::Subscribing);
    assert_eq!(bridge.step(HubEvent::Effects(names(&["A", "B"]))), vec![Action::Read]);
    assert_eq!(bridge.state(), BridgeState::Handling);
    assert_eq!(bridge.effect_index(), 0);
}

#[test]
fn malformed_enumeration_leads_back_to_connecting() {
    let mut bridge = subscribing();
    let enumeration = read_response("/device", Body::Other);
    assert_eq!(bridge.step(HubEvent::Received(Some(enumeration))), vec![Action::Connect]);
    assert_eq!(bridge.state(), BridgeState::Connecting);
}

#[test]
fn malformed_button_groups_lead_back_to_connecting() {
    let mut bridge = subscribing();
    let enumeration = read_response("/device", Body::Devices(vec![pico("/device/2")]));
    bridge.step(HubEvent::Received(Some(enumeration)));
    let answer = read_response("/device/2/buttongroup", Body::ButtonGroups(Vec::new()));
    assert_eq!(bridge.step(HubEvent::Received(Some(answer))), vec![Action::Connect]);
    assert_eq!(bridge.state(), BridgeState::Connecting);
    assert_eq!(bridge.step(HubEvent::Connected), vec![read_request("/device"), Action::Read]);
    let enumeration = read_response("/device", Body::Devices(Vec::new()));
    assert_eq!(bridge.step(HubEvent::Received(Some(enumeration))), vec![Action::FetchEffects]);
}

#[test]
fn failed_read_or_send_while_subscribing_reconnects_at_once() {
    let mut bridge = subscribing();
    assert_eq!(bridge.step(HubEvent::ReadFailed), vec![Action::Connect]);
    assert_eq!(bridge.state(), BridgeState::Connecting);
    let mut bridge = subscribing();
    assert_eq!(bridge.step(HubEvent::SendFailed), vec![Action::Connect]);
    assert_eq!(bridge.state(), BridgeState::Connecting);
}

#[test]
fn failed_effects_back_off() {
    let mut bridge = subscribing();
    let enumeration = read_response("/device", Body::Devices(Vec::new()));
    bridge.step(HubEvent::Received(Some(enumeration)));
    assert_eq!(bridge.step(HubEvent::EffectsFailed), vec![Action::Wait(30)]);
    assert_eq!(bridge.state(), BridgeState::Disconnected);
    assert_eq!(bridge.step(HubEvent::Elapsed), vec![Action::Connect]);
}

#[test]
fn release_of_112_turns_on_and_sets_hot_romance() {
    let mut bridge = handling(&["A", "B", "C"]);
    assert_eq!(
        bridge.step(release(112)),
        vec![light(LightingCall::TurnOn), set_effect("Hot Romance"), Action::Read]
    );
    assert_eq!(bridge.state(), BridgeState::Handling);
    assert_eq!(bridge.effect_index(), 0);
}

#[test]
fn release_of_111_turns_on_and_sets_working() {
    let mut bridge = handling(&["A", "B", "C"]);
    assert_eq!(
        bridge.step(release(111)),
        vec![light(LightingCall::TurnOn), set_effect("Working"), Action::Read]
    );
}

#[test]
fn release_of_113_turns_off() {
    let mut bridge = handling(&["A", "B", "C"]);
    assert_eq!(bridge.step(release(113)), vec![light(LightingCall::TurnOff), Action::Read]);
}

#[test]
fn release_of_114_at_the_last_effect_wraps_to_the_first() {
    let mut bridge = handling(&["A", "B", "C"]);
    assert_eq!(bridge.step(release(114)), vec![set_effect("B"), Action::Read]);
    assert_eq!(bridge.step(release(114)), vec![set_effect("C"), Action::Read]);
    assert_eq!(bridge.effect_index(), 2);
    assert_eq!(bridge.step(release(114)), vec![set_effect("A"), Action::Read]);
    assert_eq!(bridge.effect_index(), 0);
}

#[test]
fn release_of_115_on_a_fresh_cursor_wraps_to_the_last() {
    let mut bridge = handling(&["A", "B", "C"]);
    assert_eq!(bridge.effect_index(), 0);
    assert_eq!(bridge.step(release(115)), vec![set_effect("C"), Action::Read]);
    assert_eq!(bridge.effect_index(), 2);
}

#[test]
fn cycling_without_effects_only_reads_on() {
    let mut bridge = handling(&[]);
    assert_eq!(bridge.step(release(114)), vec![Action::Read]);
    assert_eq!(bridge.step(release(115)), vec![Action::Read]);
    assert_eq!(bridge.effect_index(), 0);
}

#[test]
fn unlisted_button_is_only_noted() {
    let mut bridge = handling(&["A", "B", "C"]);
    bridge.step(release(114));
    for number in [0u32, 110, 116, 999, u32::MAX] {
        assert_eq!(
            bridge.step(release(number)),
            vec![Action::Unhandled(DeviceId::new(number)), Action::Read]
        );
        assert_eq!(bridge.state(), BridgeState::Handling);
        assert_eq!(bridge.effect_index(), 1);
    }
}

#[test]
fn other_status_makes_no_call() {
    let mut bridge = handling(&["A", "B", "C"]);
    for status in [Some("404 Not Found"), Some("500 Internal Server Error"), Some("200"), None] {
        let event = button_event("/button/112", status, ButtonEventType::Release);
        assert_eq!(bridge.step(event), vec![Action::Read]);
    }
    assert_eq!(bridge.state(), BridgeState::Handling);
}

#[test]
fn other_event_type_makes_no_call() {
    let mut bridge = handling(&["A", "B", "C"]);
    for event_type in [ButtonEventType::Press, ButtonEventType::Other] {
        let event = button_event("/button/114", Some("200 OK"), event_type);
        assert_eq!(bridge.step(event), vec![Action::Read]);
    }
    assert_eq!(bridge.effect_index(), 0);
}

#[test]
fn messages_that_report_no_button_are_passed_over() {
    let mut bridge = handling(&["A", "B", "C"]);
    assert_eq!(bridge.step(ping()), vec![Action::Read]);
    assert_eq!(bridge.step(HubEvent::Received(None)), vec![Action::Read]);
    let other = read_response("/device", Body::Devices(Vec::new()));
    assert_eq!(bridge.step(HubEvent::Received(Some(other))), vec![Action::Read]);
    let nameless = button_event("/button/main", Some("200 OK"), ButtonEventType::Release);
    assert_eq!(bridge.step(nameless), vec![Action::Read]);
    assert_eq!(bridge.state(), BridgeState::Handling);
}

#[test]
fn liveness_notice_with_a_release_is_dropped() {
    let mut bridge = handling(&["A", "B", "C"]);
    let event = HubEvent::Received(Some(Message {
        communique_type: CommuniqueType::UpdateResponse,
        header: Header {
            url: "/device/status/deviceheard".to_string(),
            status_code: Some("200 OK".to_string()),
        },
        body: Some(Body::ButtonStatusReport(ButtonStatus {
            href: "/button/113".to_string(),
            event_type: ButtonEventType::Release,
        })),
    }));
    assert_eq!(bridge.step(event), vec![Action::Read]);
}

#[test]
fn failed_read_while_handling_backs_off_and_reconnects() {
    let mut bridge = handling(&["A", "B", "C"]);
    assert_eq!(bridge.step(HubEvent::ReadFailed), vec![Action::Wait(30)]);
    assert_eq!(bridge.state(), BridgeState::Disconnected);
    assert_eq!(bridge.step(HubEvent::Elapsed), vec![Action::Connect]);
    assert_eq!(bridge.state(), BridgeState::Connecting);
}

#[test]
fn failed_call_keeps_the_session() {
    let mut bridge = handling(&["A", "B", "C"]);
    assert_eq!(bridge.step(release(114)), vec![set_effect("B"), Action::Read]);
    assert_eq!(bridge.step(HubEvent::LightingFailed), vec![Action::Read]);
    assert_eq!(bridge.state(), BridgeState::Handling);
    assert_eq!(bridge.effect_index(), 1);
    assert_eq!(bridge.step(release(114)), vec![set_effect("C"), Action::Read]);
}

#[test]
fn failed_call_out_of_turn_counts_as_a_failure() {
    let mut bridge = subscribing();
    assert_eq!(bridge.step(HubEvent::LightingFailed), vec![Action::Wait(30)]);
    assert_eq!(bridge.state(), BridgeState::Disconnected);
}

#[test]
fn cursor_is_reset_with_each_session() {
    let mut bridge = handling(&["A", "B", "C"]);
    bridge.step(release(114));
    bridge.step(release(114));
    assert_eq!(bridge.effect_index(), 2);
    bridge.step(HubEvent::ReadFailed);
    bridge.step(HubEvent::Elapsed);
    bridge.step(HubEvent::Connected);
    bridge.step(HubEvent::Received(Some(read_response("/device", Body::Devices(Vec::new())))));
    assert_eq!(bridge.step(HubEvent::Effects(names(&["X", "Y"]))), vec![Action::Read]);
    assert_eq!(bridge.effect_index(), 0);
    assert_eq!(bridge.step(release(114)), vec![set_effect("Y"), Action::Read]);
}

#[test]
fn events_out_of_turn_count_as_failures() {
    let mut bridge = Bridge::new();
    assert_eq!(bridge.step(HubEvent::Connected), vec![Action::Wait(30)]);
    assert_eq!(bridge.state(), BridgeState::Disconnected);
    let mut bridge = Bridge::new();
    bridge.start();
    assert_eq!(bridge.step(HubEvent::Effects(names(&["A"]))), vec![Action::Wait(30)]);
    assert_eq!(bridge.state(), BridgeState::Disconnected);
    let mut bridge = subscribing();
    assert_eq!(bridge.step(HubEvent::Effects(names(&["A"]))), vec![Action::Wait(30)]);
    let mut bridge = subscribing();
    assert_eq!(bridge.step(HubEvent::Connected), vec![Action::Wait(30)]);
    let mut bridge = handling(&["A"]);
    assert_eq!(bridge.step(HubEvent::Connected), vec![Action::Wait(30)]);
    assert_eq!(bridge.state(), BridgeState::Disconnected);
}

#[test]
fn every_step_ends_in_an_action_with_an_outcome() {
    let events = || {
        vec![
            HubEvent::Elapsed,
            HubEvent::Connected,
            HubEvent::ConnectFailed,
            HubEvent::Received(None),
            ping(),
            release(111),
            release(114),
            release(7),
            HubEvent::Received(Some(read_response("/device", Body::Devices(vec![pico("/device/2")])))),
            HubEvent::ReadFailed,
            HubEvent::SendFailed,
            HubEvent::Effects(names(&["A", "B"])),
            HubEvent::EffectsFailed,
            HubEvent::LightingFailed,
        ]
    };
    let count = events().len();
    for first in 0..count {
        for second in 0..count {
            for third in 0..count {
                let mut bridge = Bridge::new();
                bridge.start();
                for index in [first, second, third] {
                    let event = events().remove(index);
                    let actions = bridge.step(event);
                    assert!(matches!(
                        actions.last(),
                        Some(Action::Connect | Action::Wait(_) | Action::Read | Action::FetchEffects)
                    ));
                }
            }
        }
    }
}

#[test]
fn accept_drops_liveness_notices_and_undecoded_messages() {
    assert_eq!(accept(None), None);
    let notice = match ping() {
        HubEvent::Received(message) => message,
        _ => None,
    };
    assert_eq!(accept(notice), None);
    let kept = read_response("/device", Body::Other);
    assert_eq!(accept(Some(read_response("/device", Body::Other))), Some(kept));
}
