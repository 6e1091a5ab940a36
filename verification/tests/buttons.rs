use button_bridge::buttons::{
    button_action, dispatch, released_button, ButtonAction, Direction, EffectCursor,
    LightingCall, Reaction,
};
use button_bridge::leap::{Body, ButtonEventType, ButtonStatus, CommuniqueType, Header, Message};
use button_bridge::DeviceId;

fn names(list: &[&str]) -> Vec<String> {
    list.iter().map(|name| name.to_string()).collect()
}

fn button_message(
    kind: CommuniqueType,
    status: Option<&str>,
    href: &str,
    event_type: ButtonEventType,
) -> Message {
    Message {
        communique_type: kind,
        header: Header {
            url: format!("{}/status/event", href),
            status_code: status.map(|text| text.to_string()),
        },
        body: Some(Body::ButtonStatusReport(ButtonStatus { href: href.to_string(), event_type })),
    }
}

#[test]
fn table_lists_the_five_buttons() {
    assert_eq!(button_action(DeviceId::new(111)), ButtonAction::Scene("Working".to_string()));
    assert_eq!(button_action(DeviceId::new(112)), ButtonAction::Scene("Hot Romance".to_string()));
    assert_eq!(button_action(DeviceId::new(113)), ButtonAction::Off);
    assert_eq!(button_action(DeviceId::new(114)), ButtonAction::Cycle(Direction::Forward));
    assert_eq!(button_action(DeviceId::new(115)), ButtonAction::Cycle(Direction::Backward));
}

#[test]
fn table_lists_no_other_button() {
    for number in [0u32, 1, 110, 116, 1110, 1111, u32::MAX] {
        assert_eq!(button_action(DeviceId::new(number)), ButtonAction::Unhandled);
    }
    for number in 111u32..=115 {
        assert_ne!(button_action(DeviceId::new(number)), ButtonAction::Unhandled);
    }
}

#[test]
fn fresh_cursor_stands_at_zero() {
    let cursor = EffectCursor::new(names(&["A", "B", "C"]));
    assert_eq!(cursor.index(), 0);
    assert_eq!(cursor.len(), 3);
}

#[test]
fn forward_moves_to_the_next_effect() {
    let mut cursor = EffectCursor::new(names(&["A", "B", "C"]));
    assert_eq!(cursor.advance(Direction::Forward), Some("B".to_string()));
    assert_eq!(cursor.index(), 1);
    assert_eq!(cursor.advance(Direction::Forward), Some("C".to_string()));
    assert_eq!(cursor.index(), 2);
}

#[test]
fn forward_from_the_last_index_wraps_to_zero() {
    let mut cursor = EffectCursor::new(names(&["A", "B", "C"]));
    cursor.advance(Direction::Forward);
    cursor.advance(Direction::Forward);
    assert_eq!(cursor.index(), 2);
    assert_eq!(cursor.advance(Direction::Forward), Some("A".to_string()));
    assert_eq!(cursor.index(), 0);
}

#[test]
fn backward_from_zero_wraps_to_the_last_index() {
    let mut cursor = EffectCursor::new(names(&["A", "B", "C"]));
    assert_eq!(cursor.advance(Direction::Backward), Some("C".to_string()));
    assert_eq!(cursor.index(), 2);
    assert_eq!(cursor.advance(Direction::Backward), Some("B".to_string()));
    assert_eq!(cursor.index(), 1);
}

#[test]
fn single_effect_wraps_to_itself() {
    let mut cursor = EffectCursor::new(names(&["Only"]));
    assert_eq!(cursor.advance(Direction::Forward), Some("Only".to_string()));
    assert_eq!(cursor.index(), 0);
    assert_eq!(cursor.advance(Direction::Backward), Some("Only".to_string()));
    assert_eq!(cursor.index(), 0);
}

#[test]
fn two_effects_alternate() {
    let mut cursor = EffectCursor::new(names(&["A", "B"]));
    assert_eq!(cursor.advance(Direction::Forward), Some("B".to_string()));
    assert_eq!(cursor.advance(Direction::Forward), Some("A".to_string()));
    assert_eq!(cursor.advance(Direction::Backward), Some("B".to_string()));
    assert_eq!(cursor.advance(Direction::Backward), Some("A".to_string()));
}

#[test]
fn cursor_over_no_effects_selects_nothing() {
    let mut cursor = EffectCursor::new(Vec::new());
    assert_eq!(cursor.len(), 0);
    assert_eq!(cursor.advance(Direction::Forward), None);
    assert_eq!(cursor.index(), 0);
    assert_eq!(cursor.advance(Direction::Backward), None);
    assert_eq!(cursor.index(), 0);
}

#[test]
fn full_round_returns_to_the_start() {
    for len in 1usize..7 {
        let list: Vec<String> = (0..len).map(|i| format!("effect {}", i)).collect();
        for start in 0..len {
            for direction in [Direction::Forward, Direction::Backward] {
                let mut cursor = EffectCursor::new(list.clone());
                for _ in 0..start {
                    cursor.advance(Direction::Forward);
                }
                assert_eq!(cursor.index(), start);
                let mut seen = Vec::new();
                for _ in 0..len {
                    cursor.advance(direction);
                    seen.push(cursor.index());
                }
                assert_eq!(cursor.index(), start);
                seen.sort();
                assert_eq!(seen, (0..len).collect::<Vec<usize>>());
            }
        }
    }
}

#[test]
fn step_back_undoes_step_forward() {
    let mut cursor = EffectCursor::new(names(&["A", "B", "C", "D"]));
    for _ in 0..9 {
        let before = cursor.index();
        cursor.advance(Direction::Forward);
        cursor.advance(Direction::Backward);
        assert_eq!(cursor.index(), before);
        cursor.advance(Direction::Backward);
        cursor.advance(Direction::Forward);
        assert_eq!(cursor.index(), before);
        cursor.advance(Direction::Forward);
    }
}

#[test]
fn scene_buttons_turn_on_and_set_the_effect() {
    let mut cursor = EffectCursor::new(names(&["A", "B", "C"]));
    assert_eq!(
        dispatch(DeviceId::new(111), &mut cursor),
        Reaction::Calls(vec![LightingCall::TurnOn, LightingCall::SetEffect("Working".to_string())])
    );
    assert_eq!(
        dispatch(DeviceId::new(112), &mut cursor),
        Reaction::Calls(vec![
            LightingCall::TurnOn,
            LightingCall::SetEffect("Hot Romance".to_string()),
        ])
    );
    assert_eq!(cursor.index(), 0);
}

#[test]
fn off_button_turns_off() {
    let mut cursor = EffectCursor::new(names(&["A", "B", "C"]));
    assert_eq!(
        dispatch(DeviceId::new(113), &mut cursor),
        Reaction::Calls(vec![LightingCall::TurnOff])
    );
    assert_eq!(cursor.index(), 0);
}

#[test]
fn cycle_forward_from_last_sets_first_effect() {
    let mut cursor = EffectCursor::new(names(&["A", "B", "C"]));
    cursor.advance(Direction::Forward);
    cursor.advance(Direction::Forward);
    assert_eq!(cursor.index(), 2);
    assert_eq!(
        dispatch(DeviceId::new(114), &mut cursor),
        Reaction::Calls(vec![LightingCall::SetEffect("A".to_string())])
    );
    assert_eq!(cursor.index(), 0);
}

#[test]
fn cycle_backward_from_fresh_cursor_sets_last_effect() {
    let mut cursor = EffectCursor::new(names(&["A", "B", "C"]));
    assert_eq!(
        dispatch(DeviceId::new(115), &mut cursor),
        Reaction::Calls(vec![LightingCall::SetEffect("C".to_string())])
    );
    assert_eq!(cursor.index(), 2);
}

#[test]
fn cycling_without_effects_makes_no_call() {
    let mut cursor = EffectCursor::new(Vec::new());
    assert_eq!(dispatch(DeviceId::new(114), &mut cursor), Reaction::Calls(vec![]));
    assert_eq!(dispatch(DeviceId::new(115), &mut cursor), Reaction::Calls(vec![]));
    assert_eq!(cursor.index(), 0);
}

#[test]
fn unlisted_button_is_only_noted_by_dispatch() {
    let mut cursor = EffectCursor::new(names(&["A", "B", "C"]));
    cursor.advance(Direction::Forward);
    for number in [0u32, 110, 116, 999, u32::MAX] {
        assert_eq!(dispatch(DeviceId::new(number), &mut cursor), Reaction::Unhandled);
        assert_eq!(cursor.index(), 1);
    }
}

#[test]
fn release_with_ok_status_names_the_button() {
    let message = button_message(
        CommuniqueType::UpdateResponse,
        Some("200 OK"),
        "/button/112",
        ButtonEventType::Release,
    );
    assert_eq!(released_button(&message), Some(DeviceId::new(112)));
}

#[test]
fn other_status_names_no_button() {
    for status in [Some("404 Not Found"), Some("200"), Some("200 ok"), Some(""), Some("200 OK "), None] {
        let message = button_message(
            CommuniqueType::UpdateResponse,
            status,
            "/button/112",
            ButtonEventType::Release,
        );
        assert_eq!(released_button(&message), None);
    }
}

#[test]
fn other_event_names_no_button() {
    for event_type in [ButtonEventType::Press, ButtonEventType::Other] {
        let message = button_message(
            CommuniqueType::UpdateResponse,
            Some("200 OK"),
            "/button/112",
            event_type,
        );
        assert_eq!(released_button(&message), None);
    }
}

#[test]
fn other_kind_of_message_names_no_button() {
    for kind in [
        CommuniqueType::ReadRequest,
        CommuniqueType::ReadResponse,
        CommuniqueType::SubscribeRequest,
        CommuniqueType::Other,
    ] {
        let message = button_message(kind, Some("200 OK"), "/button/112", ButtonEventType::Release);
        assert_eq!(released_button(&message), None);
    }
}

#[test]
fn other_body_names_no_button() {
    let mut message = button_message(
        CommuniqueType::UpdateResponse,
        Some("200 OK"),
        "/button/112",
        ButtonEventType::Release,
    );
    message.body = None;
    assert_eq!(released_button(&message), None);
    message.body = Some(Body::Other);
    assert_eq!(released_button(&message), None);
    message.body = Some(Body::Devices(Vec::new()));
    assert_eq!(released_button(&message), None);
}

#[test]
fn release_without_number_names_no_button() {
    let message = button_message(
        CommuniqueType::UpdateResponse,
        Some("200 OK"),
        "/button/main",
        ButtonEventType::Release,
    );
    assert_eq!(released_button(&message), None);
}
