//! The control loop of the bridge as a state machine: connect, subscribe,
//! handle button events, and start over on any failure.
//!
//! The machine performs nothing itself. Each step takes what happened and
//! gives the actions to perform, in order; the last of them is the one whose
//! outcome is the next event.

use vstd::prelude::*;
use crate::buttons::{
    dispatch, position_after, reaction_to, release_of, released_button, EffectCursor,
    LightingCall, LightingCallView, Reaction, ReactionView,
};
use crate::leap::{is_liveness_notice, Message, MessageView};
use crate::subscription::{
    devices_request, subscription_step, Subscription, SubscriptionPhase, SubscriptionView,
};
use crate::DeviceId;

verus! {

/// How long the loop waits before it connects again after a failure, in
/// seconds.
pub const BACKOFF_SECONDS: u64 = 30;

/// Where the control loop stands.
#[derive(Clone, Copy, Debug, PartialEq, Eq, Structural)]
pub enum BridgeState {
    /// No connection to the hub, and none being opened.
    Disconnected,
    /// A connection to the hub is being opened.
    Connecting,
    /// Connected; finding the buttons and subscribing to them, then fetching
    /// the effect list.
    Subscribing,
    /// Subscribed; reading button events.
    Handling,
}

/// One thing for the surroundings of the loop to do.
#[derive(Debug, PartialEq, Eq)]
pub enum Action {
    /// Open the connection to the hub. Its outcome is `Connected` or
    /// `ConnectFailed`.
    Connect,
    /// Wait for so many seconds. Its outcome is `Elapsed`.
    Wait(u64),
    /// Send a request to the hub. It has an outcome only where it fails:
    /// `SendFailed`, in place of the actions behind it.
    Send(Message),
    /// Read the next message from the hub. Its outcome is `Received` or
    /// `ReadFailed`.
    Read,
    /// Ask the lighting controller for its effects. Its outcome is `Effects`
    /// or `EffectsFailed`.
    FetchEffects,
    /// Call the lighting controller. It has an outcome only where it fails:
    /// `LightingFailed`, in place of the actions behind it.
    Light(LightingCall),
    /// Note that a button without an entry in the action table was released.
    Unhandled(DeviceId),
}

pub enum ActionView {
    Connect,
    Wait(u64),
    Send(MessageView),
    Read,
    FetchEffects,
    Light(LightingCallView),
    Unhandled(u32),
}

impl View for Action {
    type V = ActionView;

    open spec fn view(&self) -> ActionView {
        match self {
            Action::Connect => ActionView::Connect,
            Action::Wait(seconds) => ActionView::Wait(*seconds),
            Action::Send(message) => ActionView::Send(message@),
            Action::Read => ActionView::Read,
            Action::FetchEffects => ActionView::FetchEffects,
            Action::Light(call) => ActionView::Light(call@),
            Action::Unhandled(id) => ActionView::Unhandled(id@),
        }
    }
}

impl DeepView for Action {
    type V = ActionView;

    open spec fn deep_view(&self) -> ActionView {
        self@
    }
}

/// What happened since the last step.
#[derive(Debug, PartialEq, Eq)]
pub enum HubEvent {
    /// A wait is over.
    Elapsed,
    Connected,
    ConnectFailed,
    /// The hub sent a message; `None` where it did not decode.
    Received(Option<Message>),
    ReadFailed,
    SendFailed,
    /// The lighting controller gave its effects, in its order.
    Effects(Vec<String>),
    EffectsFailed,
    LightingFailed,
}

pub enum HubEventView {
    Elapsed,
    Connected,
    ConnectFailed,
    Received(Option<MessageView>),
    ReadFailed,
    SendFailed,
    Effects(Seq<Seq<char>>),
    EffectsFailed,
    LightingFailed,
}

impl View for HubEvent {
    type V = HubEventView;

    open spec fn view(&self) -> HubEventView {
        match self {
            HubEvent::Elapsed => HubEventView::Elapsed,
            HubEvent::Connected => HubEventView::Connected,
            HubEvent::ConnectFailed => HubEventView::ConnectFailed,
            HubEvent::Received(message) => HubEventView::Received(message.deep_view()),
            HubEvent::ReadFailed => HubEventView::ReadFailed,
            HubEvent::SendFailed => HubEventView::SendFailed,
            HubEvent::Effects(effects) => HubEventView::Effects(effects.deep_view()),
            HubEvent::EffectsFailed => HubEventView::EffectsFailed,
            HubEvent::LightingFailed => HubEventView::LightingFailed,
        }
    }
}

/// What the control loop knows.
pub struct BridgeView {
    pub state: BridgeState,
    /// How far the subscription of this session has come.
    pub subscription: SubscriptionView,
    /// The effects of the lighting controller, as fetched for this session.
    pub effects: Seq<Seq<char>>,
    /// The index in `effects` that cycling last selected.
    pub position: nat,
}

/// The message to act on, if any: one that decoded and is no notice that a
/// device was heard.
pub open spec fn accepted(received: Option<MessageView>) -> Option<MessageView> {
    match received {
        Some(message) => if is_liveness_notice(message) {
            None
        } else {
            received
        },
        None => None,
    }
}

/// Passes on a message to act on, and drops one that did not decode or that
/// only says that a device was heard.
pub fn accept(received: Option<Message>) -> (kept: Option<Message>)
    ensures
        kept.deep_view() == accepted(received.deep_view()),
{
    match received {
        Some(message) => if message.is_liveness_notice() {
            None
        } else {
            Some(message)
        },
        None => None,
    }
}

/// One `Send` for each of `requests`, in their order.
pub open spec fn sends(requests: Seq<MessageView>) -> Seq<ActionView> {
    Seq::new(requests.len(), |i: int| ActionView::Send(requests[i]))
}

/// One `Light` for each of `calls`, in their order.
pub open spec fn lights(calls: Seq<LightingCallView>) -> Seq<ActionView> {
    Seq::new(calls.len(), |i: int| ActionView::Light(calls[i]))
}

/// The session is lost: wait, then connect again.
pub open spec fn back_off(bridge: BridgeView) -> (BridgeView, Seq<ActionView>) {
    (
        BridgeView { state: BridgeState::Disconnected, ..bridge },
        seq![ActionView::Wait(BACKOFF_SECONDS)],
    )
}

/// Connect now.
pub open spec fn connect(bridge: BridgeView) -> (BridgeView, Seq<ActionView>) {
    (BridgeView { state: BridgeState::Connecting, ..bridge }, seq![ActionView::Connect])
}

/// A step of the loop while it subscribes.
///
/// A message moves the subscription on; its requests are sent and the next
/// message is read, or, once the subscription is complete, the effects are
/// fetched. A failed read or send, or an answer the subscription cannot use,
/// leads straight back to connecting. The effects, once given, start the
/// handling of button events with the cursor at 0.
pub open spec fn subscribing_step(bridge: BridgeView, event: HubEventView) -> (
    BridgeView,
    Seq<ActionView>,
) {
    let complete = bridge.subscription.phase == SubscriptionPhase::Complete;
    match event {
        HubEventView::Received(received) => if complete {
            back_off(bridge)
        } else {
            match accepted(received) {
                None => (bridge, seq![ActionView::Read]),
                Some(message) => match subscription_step(bridge.subscription, message) {
                    Err(_) => connect(bridge),
                    Ok((next, requests)) => (
                        BridgeView { subscription: next, ..bridge },
                        sends(requests).push(
                            if next.phase == SubscriptionPhase::Complete {
                                ActionView::FetchEffects
                            } else {
                                ActionView::Read
                            },
                        ),
                    ),
                },
            }
        },
        HubEventView::ReadFailed => connect(bridge),
        HubEventView::SendFailed => connect(bridge),
        HubEventView::Effects(effects) => if complete {
            (
                BridgeView { state: BridgeState::Handling, effects, position: 0, ..bridge },
                seq![ActionView::Read],
            )
        } else {
            back_off(bridge)
        },
        _ => back_off(bridge),
    }
}

/// A step of the loop while it handles button events.
///
/// The release of a button leads to the calls of the action table, or to a
/// note where the table has no entry for it; any other message leads to
/// nothing. Then the next message is read. A call that failed is not made
/// again, and what was to follow it for that release is left out: the loop
/// reads on. A failed read ends the session.
pub open spec fn handling_step(bridge: BridgeView, event: HubEventView) -> (
    BridgeView,
    Seq<ActionView>,
) {
    match event {
        HubEventView::Received(received) => match accepted(received) {
            None => (bridge, seq![ActionView::Read]),
            Some(message) => match release_of(message) {
                None => (bridge, seq![ActionView::Read]),
                Some(button) => (
                    BridgeView {
                        position: position_after(button, bridge.effects.len(), bridge.position),
                        ..bridge
                    },
                    match reaction_to(button, bridge.effects, bridge.position) {
                        ReactionView::Calls(calls) => lights(calls).push(ActionView::Read),
                        ReactionView::Unhandled => seq![
                            ActionView::Unhandled(button),
                            ActionView::Read,
                        ],
                    },
                ),
            },
        },
        HubEventView::LightingFailed => (bridge, seq![ActionView::Read]),
        _ => back_off(bridge),
    }
}

/// What an event does to the control loop: the state it leads to and the
/// actions to perform, in order.
///
/// An event that the state does not wait for counts as a failure of the
/// session.
pub open spec fn bridge_step(bridge: BridgeView, event: HubEventView) -> (
    BridgeView,
    Seq<ActionView>,
) {
    match bridge.state {
        BridgeState::Disconnected => match event {
            HubEventView::Elapsed => connect(bridge),
            _ => back_off(bridge),
        },
        BridgeState::Connecting => match event {
            HubEventView::Connected => (
                BridgeView {
                    state: BridgeState::Subscribing,
                    subscription: SubscriptionView::initial(),
                    ..bridge
                },
                seq![ActionView::Send(devices_request()), ActionView::Read],
            ),
            _ => back_off(bridge),
        },
        BridgeState::Subscribing => subscribing_step(bridge, event),
        BridgeState::Handling => handling_step(bridge, event),
    }
}

/// Whether an action has an outcome that the loop waits for.
pub open spec fn awaits_outcome(action: ActionView) -> bool {
    action is Connect || action is Wait || action is Read || action is FetchEffects
}

/// Whether an action list has a call on the lighting controller in it.
pub open spec fn calls_lights(actions: Seq<ActionView>) -> bool {
    exists|i: int| 0 <= i < actions.len() && (#[trigger] actions[i]) is Light
}

/// The loop has no last step: whatever the state and the event, a step gives
/// at least one action, and the last one is an action whose outcome the loop
/// waits for.
pub proof fn lemma_loop_never_ends(bridge: BridgeView, event: HubEventView)
    ensures
        bridge_step(bridge, event).1.len() > 0,
        awaits_outcome(bridge_step(bridge, event).1.last()),
{
}

/// A failed attempt to connect leads to one wait of the fixed length and to
/// nothing else, and the end of the wait to the next attempt.
pub proof fn lemma_failed_connect_is_retried(bridge: BridgeView)
    requires
        bridge.state == BridgeState::Connecting,
    ensures
        ({
            let (waiting, waits) = bridge_step(bridge, HubEventView::ConnectFailed);
            let (trying, tries) = bridge_step(waiting, HubEventView::Elapsed);
            &&& waits == seq![ActionView::Wait(BACKOFF_SECONDS)]
            &&& tries == seq![ActionView::Connect]
            &&& trying == bridge
        }),
{
}

/// Where the loop stands after `events`, and the actions it gave for them,
/// in order.
pub open spec fn bridge_run(bridge: BridgeView, events: Seq<HubEventView>) -> (
    BridgeView,
    Seq<ActionView>,
)
    decreases events.len(),
{
    if events.len() == 0 {
        (bridge, Seq::empty())
    } else {
        let (middle, done) = bridge_run(bridge, events.drop_last());
        let (next, more) = bridge_step(middle, events.last());
        (next, done + more)
    }
}

/// `count` failed attempts to connect, each with the wait behind it.
pub open spec fn failed_attempts(count: nat) -> Seq<HubEventView>
    decreases count,
{
    if count == 0 {
        Seq::empty()
    } else {
        failed_attempts((count - 1) as nat) + seq![
            HubEventView::ConnectFailed,
            HubEventView::Elapsed,
        ]
    }
}

/// `count` times a wait of the fixed length and a new attempt to connect.
pub open spec fn retries(count: nat) -> Seq<ActionView>
    decreases count,
{
    if count == 0 {
        Seq::empty()
    } else {
        retries((count - 1) as nat) + seq![ActionView::Wait(BACKOFF_SECONDS), ActionView::Connect]
    }
}

/// However often the connection fails, the loop goes on: `count` failures
/// lead to exactly `count` waits, each followed by a new attempt, and leave
/// the loop connecting; a success behind them starts the subscription.
pub proof fn lemma_connecting_retries_without_end(bridge: BridgeView, count: nat)
    requires
        bridge.state == BridgeState::Connecting,
    ensures
        bridge_run(bridge, failed_attempts(count)) == (bridge, retries(count)),
        bridge_run(bridge, failed_attempts(count).push(HubEventView::Connected)) == (
            BridgeView {
                state: BridgeState::Subscribing,
                subscription: SubscriptionView::initial(),
                ..bridge
            },
            retries(count) + seq![ActionView::Send(devices_request()), ActionView::Read],
        ),
    decreases count,
{
    if count > 0 {
        let before = (count - 1) as nat;
        lemma_connecting_retries_without_end(bridge, before);
        let events = failed_attempts(count);
        let first = failed_attempts(before).push(HubEventView::ConnectFailed);
        assert(events.drop_last() =~= first);
        assert(first.drop_last() =~= failed_attempts(before));
        assert(bridge_run(bridge, first) == (
            BridgeView { state: BridgeState::Disconnected, ..bridge },
            retries(before) + seq![ActionView::Wait(BACKOFF_SECONDS)],
        ));
        assert(retries(before) + seq![ActionView::Wait(BACKOFF_SECONDS)] + seq![
            ActionView::Connect,
        ] =~= retries(count));
    }
    assert(bridge_run(bridge, failed_attempts(count)) == (bridge, retries(count)));
    let last = failed_attempts(count).push(HubEventView::Connected);
    assert(last.drop_last() =~= failed_attempts(count));
    assert(last.last() == HubEventView::Connected);
    assert(bridge_step(bridge, HubEventView::Connected).1 == seq![
        ActionView::Send(devices_request()),
        ActionView::Read,
    ]);
}

/// While button events are handled, the release of a button that the action
/// table does not list leads to a note and to no call on the lighting
/// controller, and leaves the loop as it was.
pub proof fn lemma_unlisted_release_is_only_noted(
    bridge: BridgeView,
    message: MessageView,
    button: u32,
)
    requires
        bridge.state == BridgeState::Handling,
        !is_liveness_notice(message),
        release_of(message) == Some(button),
        !(111 <= button <= 115),
    ensures
        bridge_step(bridge, HubEventView::Received(Some(message))) == (
            bridge,
            seq![ActionView::Unhandled(button), ActionView::Read],
        ),
        !calls_lights(bridge_step(bridge, HubEventView::Received(Some(message))).1),
{
}

/// While button events are handled, a message with another status than
/// `200 OK`, or that reports anything but a release, leads to no call on the
/// lighting controller: the loop stays as it was and reads on.
pub proof fn lemma_other_messages_make_no_call(bridge: BridgeView, message: MessageView)
    requires
        bridge.state == BridgeState::Handling,
        message.header.status_code != Some("200 OK"@) || !(message.body matches Some(
            crate::leap::BodyView::ButtonStatusReport(status),
        ) && status.event_type == crate::leap::ButtonEventType::Release),
    ensures
        bridge_step(bridge, HubEventView::Received(Some(message))) == (
            bridge,
            seq![ActionView::Read],
        ),
        !calls_lights(bridge_step(bridge, HubEventView::Received(Some(message))).1),
{
}

/// A call on the lighting controller that failed does not end the session:
/// the loop stays as it was and reads on.
pub proof fn lemma_failed_call_keeps_session(bridge: BridgeView)
    requires
        bridge.state == BridgeState::Handling,
    ensures
        bridge_step(bridge, HubEventView::LightingFailed) == (bridge, seq![ActionView::Read]),
{
}

/// The lighting controller is called only while button events are handled.
pub proof fn lemma_calls_only_while_handling(bridge: BridgeView, event: HubEventView)
    requires
        bridge.state != BridgeState::Handling,
    ensures
        !calls_lights(bridge_step(bridge, event).1),
{
}

/// The control loop of the bridge.
pub struct Bridge {
    state: BridgeState,
    subscription: Subscription,
    cursor: EffectCursor,
}

impl View for Bridge {
    type V = BridgeView;

    closed spec fn view(&self) -> BridgeView {
        BridgeView {
            state: self.state,
            subscription: self.subscription@,
            effects: self.cursor.effects(),
            position: self.cursor.position(),
        }
    }
}

impl Bridge {
    /// A loop that has not connected yet.
    pub fn new() -> (bridge: Bridge)
        ensures
            bridge@.state == BridgeState::Disconnected,
            bridge@.subscription == SubscriptionView::initial(),
            bridge@.effects == Seq::<Seq<char>>::empty(),
            bridge@.position == 0,
    {
        let (subscription, _) = Subscription::begin();
        let effects: Vec<String> = Vec::new();
        assert(effects.deep_view() =~= Seq::<Seq<char>>::empty());
        Bridge { state: BridgeState::Disconnected, subscription, cursor: EffectCursor::new(effects) }
    }

    pub fn state(&self) -> (state: BridgeState)
        ensures
            state == self@.state,
    {
        self.state
    }

    /// The index of the effect that cycling last selected.
    pub fn effect_index(&self) -> (index: usize)
        ensures
            index == self@.position,
    {
        self.cursor.index()
    }

    /// Starts the loop, or starts it over after a wait: the step for
    /// `Elapsed`.
    pub fn start(&mut self) -> (actions: Vec<Action>)
        ensures
            (final(self)@, actions.deep_view()) == bridge_step(old(self)@, HubEventView::Elapsed),
    {
        self.step(HubEvent::Elapsed)
    }

    /// Takes an event and gives the actions to perform, in order.
    pub fn step(&mut self, event: HubEvent) -> (actions: Vec<Action>)
        ensures
            (final(self)@, actions.deep_view()) == bridge_step(old(self)@, event@),
    {
        let mut actions: Vec<Action> = Vec::new();
        match self.state {
            BridgeState::Disconnected => match event {
                HubEvent::Elapsed => {
                    self.connect(&mut actions);
                },
                _ => {
                    self.back_off(&mut actions);
                },
            },
            BridgeState::Connecting => match event {
                HubEvent::Connected => {
                    let (subscription, request) = Subscription::begin();
                    self.subscription = subscription;
                    self.state = BridgeState::Subscribing;
                    actions.push(Action::Send(request));
                    actions.push(Action::Read);
                    assert(actions.deep_view() =~= seq![
                        ActionView::Send(devices_request()),
                        ActionView::Read,
                    ]);
                },
                _ => {
                    self.back_off(&mut actions);
                },
            },
            BridgeState::Subscribing => {
                self.step_subscribing(event, &mut actions);
            },
            BridgeState::Handling => {
                self.step_handling(event, &mut actions);
            },
        }
        actions
    }

    fn back_off(&mut self, actions: &mut Vec<Action>)
        requires
            old(actions)@.len() == 0,
        ensures
            (final(self)@, final(actions).deep_view()) == back_off(old(self)@),
    {
        self.state = BridgeState::Disconnected;
        actions.push(Action::Wait(BACKOFF_SECONDS));
        assert(actions.deep_view() =~= seq![ActionView::Wait(BACKOFF_SECONDS)]);
    }

    fn connect(&mut self, actions: &mut Vec<Action>)
        requires
            old(actions)@.len() == 0,
        ensures
            (final(self)@, final(actions).deep_view()) == connect(old(self)@),
    {
        self.state = BridgeState::Connecting;
        actions.push(Action::Connect);
        assert(actions.deep_view() =~= seq![ActionView::Connect]);
    }

    fn step_subscribing(&mut self, event: HubEvent, actions: &mut Vec<Action>)
        requires
            old(actions)@.len() == 0,
            old(self)@.state == BridgeState::Subscribing,
        ensures
            (final(self)@, final(actions).deep_view()) == subscribing_step(old(self)@, event@),
    {
        let complete = self.subscription.is_complete();
        match event {
            HubEvent::Received(received) => {
                if complete {
                    self.back_off(actions);
                    return ;
                }
                let message = match accept(received) {
                    Some(message) => message,
                    None => {
                        actions.push(Action::Read);
                        assert(actions.deep_view() =~= seq![ActionView::Read]);
                        return ;
                    },
                };
                let requests = match self.subscription.on_message(&message) {
                    Ok(requests) => requests,
                    Err(_) => {
                        self.connect(actions);
                        return ;
                    },
                };
                let ghost sent = requests.deep_view();
                for request in it: requests
                    invariant
                        it.seq().len() == sent.len(),
                        forall|k: int| 0 <= k < sent.len() ==> (#[trigger] it.seq()[k])@ == sent[k],
                        actions.len() == it.index(),
                        forall|k: int|
                            0 <= k < it.index() ==> (#[trigger] actions.deep_view()[k])
                                == ActionView::Send(sent[k]),
                {
                    let ghost before = actions.deep_view();
                    let ghost pushed = request@;
                    actions.push(Action::Send(request));
                    assert(actions.deep_view() =~= before.push(ActionView::Send(pushed)));
                }
                assert(actions.deep_view() =~= sends(sent));
                let ghost before = actions.deep_view();
                if self.subscription.is_complete() {
                    actions.push(Action::FetchEffects);
                    assert(actions.deep_view() =~= before.push(ActionView::FetchEffects));
                } else {
                    actions.push(Action::Read);
                    assert(actions.deep_view() =~= before.push(ActionView::Read));
                }
            },
            HubEvent::ReadFailed => {
                self.connect(actions);
            },
            HubEvent::SendFailed => {
                self.connect(actions);
            },
            HubEvent::Effects(effects) => {
                if !complete {
                    self.back_off(actions);
                    return ;
                }
                self.cursor = EffectCursor::new(effects);
                self.state = BridgeState::Handling;
                actions.push(Action::Read);
                assert(actions.deep_view() =~= seq![ActionView::Read]);
            },
            _ => {
                self.back_off(actions);
            },
        }
    }

    fn step_handling(&mut self, event: HubEvent, actions: &mut Vec<Action>)
        requires
            old(actions)@.len() == 0,
            old(self)@.state == BridgeState::Handling,
        ensures
            (final(self)@, final(actions).deep_view()) == handling_step(old(self)@, event@),
    {
        let received = match event {
            HubEvent::Received(received) => received,
            HubEvent::LightingFailed => {
                actions.push(Action::Read);
                assert(actions.deep_view() =~= seq![ActionView::Read]);
                return ;
            },
            _ => {
                self.back_off(actions);
                return ;
            },
        };
        let button = match accept(received) {
            Some(message) => released_button(&message),
            None => None,
        };
        let id = match button {
            Some(id) => id,
            None => {
                actions.push(Action::Read);
                assert(actions.deep_view() =~= seq![ActionView::Read]);
                return ;
            },
        };
        let calls = match dispatch(id, &mut self.cursor) {
            Reaction::Calls(calls) => calls,
            Reaction::Unhandled => {
                actions.push(Action::Unhandled(id));
                actions.push(Action::Read);
                assert(actions.deep_view() =~= seq![
                    ActionView::Unhandled(id@),
                    ActionView::Read,
                ]);
                return ;
            },
        };
        let ghost made = calls.deep_view();
        for call in it: calls
            invariant
                it.seq().len() == made.len(),
                forall|k: int| 0 <= k < made.len() ==> (#[trigger] it.seq()[k])@ == made[k],
                actions.len() == it.index(),
                forall|k: int|
                    0 <= k < it.index() ==> (#[trigger] actions.deep_view()[k])
                        == ActionView::Light(made[k]),
        {
            let ghost before = actions.deep_view();
            let ghost pushed = call@;
            actions.push(Action::Light(call));
            assert(actions.deep_view() =~= before.push(ActionView::Light(pushed)));
        }
        assert(actions.deep_view() =~= lights(made));
        let ghost before = actions.deep_view();
        actions.push(Action::Read);
        assert(actions.deep_view() =~= before.push(ActionView::Read));
    }
}

} // verus!
