//! What a button does to the lights: the action table, the effect cursor and
//! the calls a release leads to.

use vstd::prelude::*;
use crate::DeviceId;
use crate::href::{device_id_of, trailing_number};
use crate::leap::{
    same_text, Body, BodyView, ButtonEventType, CommuniqueType, Message, MessageView,
};

verus! {

/// The way an effect cursor moves.
#[derive(Clone, Copy, Debug, PartialEq, Eq, Structural)]
pub enum Direction {
    Forward,
    Backward,
}

/// One call on the lighting controller.
#[derive(Debug, PartialEq, Eq)]
pub enum LightingCall {
    TurnOn,
    TurnOff,
    SetEffect(String),
}

/// A `LightingCall` with its effect name as text.
pub enum LightingCallView {
    TurnOn,
    TurnOff,
    SetEffect(Seq<char>),
}

impl View for LightingCall {
    type V = LightingCallView;

    open spec fn view(&self) -> LightingCallView {
        match self {
            LightingCall::TurnOn => LightingCallView::TurnOn,
            LightingCall::TurnOff => LightingCallView::TurnOff,
            LightingCall::SetEffect(name) => LightingCallView::SetEffect(name@),
        }
    }
}

impl DeepView for LightingCall {
    type V = LightingCallView;

    open spec fn deep_view(&self) -> LightingCallView {
        self@
    }
}

/// What the table lets a button do.
#[derive(Debug, PartialEq, Eq)]
pub enum ButtonAction {
    /// Turn the lights on and show the named effect.
    Scene(String),
    /// Turn the lights off.
    Off,
    /// Move the effect cursor one step and show the effect it lands on.
    Cycle(Direction),
    /// The table has no entry for the button.
    Unhandled,
}

/// A `ButtonAction` with its effect name as text.
pub enum ButtonActionView {
    Scene(Seq<char>),
    Off,
    Cycle(Direction),
    Unhandled,
}

impl View for ButtonAction {
    type V = ButtonActionView;

    open spec fn view(&self) -> ButtonActionView {
        match self {
            ButtonAction::Scene(name) => ButtonActionView::Scene(name@),
            ButtonAction::Off => ButtonActionView::Off,
            ButtonAction::Cycle(direction) => ButtonActionView::Cycle(*direction),
            ButtonAction::Unhandled => ButtonActionView::Unhandled,
        }
    }
}

/// The action table, by the number of the button.
pub open spec fn action_for(button: u32) -> ButtonActionView {
    if button == 111 {
        ButtonActionView::Scene("Working"@)
    } else if button == 112 {
        ButtonActionView::Scene("Hot Romance"@)
    } else if button == 113 {
        ButtonActionView::Off
    } else if button == 114 {
        ButtonActionView::Cycle(Direction::Forward)
    } else if button == 115 {
        ButtonActionView::Cycle(Direction::Backward)
    } else {
        ButtonActionView::Unhandled
    }
}

/// Looks a button up in the action table.
pub fn button_action(id: DeviceId) -> (action: ButtonAction)
    ensures
        action@ == action_for(id@),
{
    let button = id.value();
    if button == 111 {
        ButtonAction::Scene("Working".to_owned())
    } else if button == 112 {
        ButtonAction::Scene("Hot Romance".to_owned())
    } else if button == 113 {
        ButtonAction::Off
    } else if button == 114 {
        ButtonAction::Cycle(Direction::Forward)
    } else if button == 115 {
        ButtonAction::Cycle(Direction::Backward)
    } else {
        ButtonAction::Unhandled
    }
}

/// The index one step from `index` in a list of `len` effects, going round at
/// either end. A list without effects has the one position 0.
pub open spec fn step_index(direction: Direction, len: nat, index: nat) -> nat {
    if len == 0 {
        0
    } else {
        match direction {
            Direction::Forward => ((index as int + 1) % (len as int)) as nat,
            Direction::Backward => ((index as int + len as int - 1) % (len as int)) as nat,
        }
    }
}

/// The effect list of one connected session and the index of the effect last
/// selected from it by cycling.
pub struct EffectCursor {
    effects: Vec<String>,
    index: usize,
}

impl EffectCursor {
    #[verifier::type_invariant]
    spec fn in_range(&self) -> bool {
        self.index < self.effects.len() || self.index == 0
    }

    /// The names of the effects, in the controller's order.
    pub closed spec fn effects(&self) -> Seq<Seq<char>> {
        self.effects.deep_view()
    }

    /// The index the cursor stands at.
    pub closed spec fn position(&self) -> nat {
        self.index as nat
    }

    /// A cursor at the start of a freshly fetched effect list.
    pub fn new(effects: Vec<String>) -> (cursor: EffectCursor)
        ensures
            cursor.effects() == effects.deep_view(),
            cursor.position() == 0,
    {
        EffectCursor { effects, index: 0 }
    }

    pub fn len(&self) -> (len: usize)
        ensures
            len == self.effects().len(),
    {
        self.effects.len()
    }

    /// The index the cursor stands at: inside the list, or 0 where the list
    /// is empty.
    pub fn index(&self) -> (index: usize)
        ensures
            index == self.position(),
            index < self.effects().len() || index == 0,
    {
        proof {
            use_type_invariant(self);
        }
        self.index
    }

    /// Moves the cursor one step and gives the name of the effect it lands on;
    /// a cursor over no effects stays where it is and selects nothing.
    pub fn advance(&mut self, direction: Direction) -> (selected: Option<String>)
        ensures
            final(self).effects() == old(self).effects(),
            final(self).position() == step_index(
                direction,
                old(self).effects().len(),
                old(self).position(),
            ),
            selected.deep_view() == selected_effect(
                direction,
                old(self).effects(),
                old(self).position(),
            ),
    {
        proof {
            use_type_invariant(&*self);
        }
        let len = self.effects.len();
        if len == 0 {
            return None;
        }
        let next: usize = match direction {
            Direction::Forward => if self.index == len - 1 {
                0
            } else {
                self.index + 1
            },
            Direction::Backward => if self.index == 0 {
                len - 1
            } else {
                self.index - 1
            },
        };
        proof {
            lemma_step_goes_round(direction, len as nat, self.index as nat);
        }
        self.index = next;
        Some(self.effects[next].clone())
    }
}

/// The effect a step from `index` selects, if the list holds any.
pub open spec fn selected_effect(direction: Direction, effects: Seq<Seq<char>>, index: nat) -> Option<
    Seq<char>,
> {
    if effects.len() == 0 {
        None
    } else {
        Some(effects[step_index(direction, effects.len(), index) as int])
    }
}

/// A step moves to the neighbour and goes round at the ends: forward from the
/// last index to 0, backward from 0 to the last index.
pub proof fn lemma_step_goes_round(direction: Direction, len: nat, index: nat)
    requires
        index < len,
    ensures
        step_index(direction, len, index) < len,
        direction == Direction::Forward && index == len - 1 ==> step_index(direction, len, index)
            == 0,
        direction == Direction::Forward && index < len - 1 ==> step_index(direction, len, index)
            == index + 1,
        direction == Direction::Backward && index == 0 ==> step_index(direction, len, index) == len
            - 1,
        direction == Direction::Backward && index > 0 ==> step_index(direction, len, index) == index
            - 1,
{
    let n = len as int;
    let i = index as int;
    if i == n - 1 {
        assert((i + 1) % n == 0) by (nonlinear_arith)
            requires
                i + 1 == n,
                n > 0,
        ;
    } else {
        assert((i + 1) % n == i + 1) by (nonlinear_arith)
            requires
                0 <= i + 1 < n,
        ;
    }
    if i == 0 {
        assert((i + n - 1) % n == n - 1) by (nonlinear_arith)
            requires
                i == 0,
                n > 0,
        ;
    } else {
        assert((i + n - 1) % n == i - 1) by (nonlinear_arith)
            requires
                0 <= i - 1 < n,
        ;
    }
}

/// Where `times` steps from `index` lead.
pub open spec fn step_index_times(direction: Direction, len: nat, index: nat, times: nat) -> nat
    decreases times,
{
    if times == 0 {
        index
    } else {
        step_index(direction, len, step_index_times(direction, len, index, (times - 1) as nat))
    }
}

/// Where `times` steps lead, counted round the list.
pub proof fn lemma_step_index_times(direction: Direction, len: nat, index: nat, times: nat)
    requires
        index < len,
    ensures
        direction == Direction::Forward ==> step_index_times(direction, len, index, times) == (
        index as int + times as int) % (len as int),
        direction == Direction::Backward ==> step_index_times(direction, len, index, times) == (
        index as int - times as int) % (len as int),
    decreases times,
{
    let n = len as int;
    let i = index as int;
    if times == 0 {
        vstd::arithmetic::div_mod::lemma_small_mod(index, len);
    } else {
        let before = times as int - 1;
        lemma_step_index_times(direction, len, index, before as nat);
        match direction {
            Direction::Forward => {
                vstd::arithmetic::div_mod::lemma_add_mod_noop_right(1, i + before, n);
                assert(1 + (i + before) == i + times);
                assert(1 + (i + before) % n == (i + before) % n + 1);
            },
            Direction::Backward => {
                vstd::arithmetic::div_mod::lemma_add_mod_noop_right(n - 1, i - before, n);
                vstd::arithmetic::div_mod::lemma_mod_add_multiples_vanish(i - times, n);
                assert((n - 1) + (i - before) == n + (i - times));
                assert((n - 1) + (i - before) % n == (i - before) % n + n - 1);
            },
        }
    }
}

/// Cycling is one-to-one and onto the indices of the list: a step stays
/// inside the list, and a step back undoes a step forward, and the other way
/// round.
pub proof fn lemma_step_index_is_bijection(len: nat, index: nat)
    requires
        index < len,
    ensures
        step_index(Direction::Forward, len, index) < len,
        step_index(Direction::Backward, len, index) < len,
        step_index(Direction::Backward, len, step_index(Direction::Forward, len, index)) == index,
        step_index(Direction::Forward, len, step_index(Direction::Backward, len, index)) == index,
{
    lemma_step_goes_round(Direction::Forward, len, index);
    lemma_step_goes_round(Direction::Backward, len, index);
    lemma_step_goes_round(
        Direction::Backward,
        len,
        step_index(Direction::Forward, len, index),
    );
    lemma_step_goes_round(
        Direction::Forward,
        len,
        step_index(Direction::Backward, len, index),
    );
}

/// As many steps as the list has effects, all in one direction, lead back to
/// where they began.
pub proof fn lemma_full_round_returns(direction: Direction, len: nat, index: nat)
    requires
        index < len,
    ensures
        step_index_times(direction, len, index, len) == index,
{
    let n = len as int;
    lemma_step_index_times(direction, len, index, len);
    vstd::arithmetic::div_mod::lemma_small_mod(index, len);
    match direction {
        Direction::Forward => {
            vstd::arithmetic::div_mod::lemma_mod_add_multiples_vanish(index as int, n);
            assert(index as int + len as int == n + index as int);
        },
        Direction::Backward => {
            vstd::arithmetic::div_mod::lemma_mod_sub_multiples_vanish(index as int, n);
            assert(index as int - len as int == -n + index as int);
        },
    }
}

/// The button whose release `message` reports: an update response with the
/// status `200 OK` whose body is the report of a release, for a button whose
/// resource path ends in a number.
pub open spec fn release_of(message: MessageView) -> Option<u32> {
    if message.communique_type == CommuniqueType::UpdateResponse && message.header.status_code
        == Some("200 OK"@) {
        match message.body {
            Some(BodyView::ButtonStatusReport(status)) => if status.event_type
                == ButtonEventType::Release {
                trailing_number(status.href)
            } else {
                None
            },
            _ => None,
        }
    } else {
        None
    }
}

/// The button that `message` reports as released, if it reports one.
pub fn released_button(message: &Message) -> (button: Option<DeviceId>)
    ensures
        match button {
            Some(id) => release_of(message@) == Some(id@),
            None => release_of(message@) is None,
        },
{
    match message.communique_type {
        CommuniqueType::UpdateResponse => {},
        _ => {
            return None;
        },
    }
    match &message.header.status_code {
        Some(status) => {
            if !same_text(status, "200 OK") {
                return None;
            }
        },
        None => {
            return None;
        },
    }
    match &message.body {
        Some(Body::ButtonStatusReport(status)) => match status.event_type {
            ButtonEventType::Release => device_id_of(status.href.as_str()),
            _ => None,
        },
        _ => None,
    }
}

/// What the release of a button leads to.
#[derive(Debug, PartialEq, Eq)]
pub enum Reaction {
    /// Calls on the lighting controller, to make in order.
    Calls(Vec<LightingCall>),
    /// Nothing but a note that the action table has no entry for the button.
    Unhandled,
}

pub enum ReactionView {
    Calls(Seq<LightingCallView>),
    Unhandled,
}

impl View for Reaction {
    type V = ReactionView;

    open spec fn view(&self) -> ReactionView {
        match self {
            Reaction::Calls(calls) => ReactionView::Calls(calls.deep_view()),
            Reaction::Unhandled => ReactionView::Unhandled,
        }
    }
}

/// What the release of `button` leads to, with the cursor at `position` in
/// `effects`: the calls of its entry in the action table, or the note that it
/// has none. Cycling over no effects makes no call.
pub open spec fn reaction_to(button: u32, effects: Seq<Seq<char>>, position: nat) -> ReactionView {
    match action_for(button) {
        ButtonActionView::Scene(name) => ReactionView::Calls(
            seq![LightingCallView::TurnOn, LightingCallView::SetEffect(name)],
        ),
        ButtonActionView::Off => ReactionView::Calls(seq![LightingCallView::TurnOff]),
        ButtonActionView::Cycle(direction) => ReactionView::Calls(
            match selected_effect(direction, effects, position) {
                Some(name) => seq![LightingCallView::SetEffect(name)],
                None => Seq::empty(),
            },
        ),
        ButtonActionView::Unhandled => ReactionView::Unhandled,
    }
}

/// Where the release of `button` leaves a cursor that stood at `position` in a
/// list of `len` effects.
pub open spec fn position_after(button: u32, len: nat, position: nat) -> nat {
    match action_for(button) {
        ButtonActionView::Cycle(direction) => step_index(direction, len, position),
        _ => position,
    }
}

/// Acts on the release of button `id`: moves the cursor where the table says
/// so, and gives the calls to make on the lighting controller, or the note
/// that the table has no entry for the button.
pub fn dispatch(id: DeviceId, cursor: &mut EffectCursor) -> (reaction: Reaction)
    ensures
        reaction@ == reaction_to(id@, old(cursor).effects(), old(cursor).position()),
        final(cursor).effects() == old(cursor).effects(),
        final(cursor).position() == position_after(
            id@,
            old(cursor).effects().len(),
            old(cursor).position(),
        ),
{
    let mut calls: Vec<LightingCall> = Vec::new();
    match button_action(id) {
        ButtonAction::Scene(name) => {
            calls.push(LightingCall::TurnOn);
            calls.push(LightingCall::SetEffect(name));
            assert(calls.deep_view() =~= seq![
                LightingCallView::TurnOn,
                LightingCallView::SetEffect(name@),
            ]);
        },
        ButtonAction::Off => {
            calls.push(LightingCall::TurnOff);
            assert(calls.deep_view() =~= seq![LightingCallView::TurnOff]);
        },
        ButtonAction::Cycle(direction) => {
            match cursor.advance(direction) {
                Some(name) => {
                    calls.push(LightingCall::SetEffect(name));
                    assert(calls.deep_view() =~= seq![LightingCallView::SetEffect(name@)]);
                },
                None => {
                    assert(calls.deep_view() =~= Seq::empty());
                },
            }
        },
        ButtonAction::Unhandled => {
            return Reaction::Unhandled;
        },
    }
    Reaction::Calls(calls)
}

/// The release of a button outside the action table leads to no call on the
/// lighting controller, only to a note, and leaves the cursor where it was.
pub proof fn lemma_unlisted_button_is_only_noted(
    button: u32,
    effects: Seq<Seq<char>>,
    position: nat,
)
    requires
        button != 111,
        button != 112,
        button != 113,
        button != 114,
        button != 115,
    ensures
        reaction_to(button, effects, position) == ReactionView::Unhandled,
        position_after(button, effects.len(), position) == position,
{
}

/// A message that is no release with the status `200 OK` reports no button,
/// whatever else it holds.
pub proof fn lemma_only_ok_releases_count(message: MessageView)
    requires
        message.header.status_code != Some("200 OK"@) || !(message.body matches Some(
            BodyView::ButtonStatusReport(status),
        ) && status.event_type == ButtonEventType::Release),
    ensures
        release_of(message) is None,
{
}

} // verus!
