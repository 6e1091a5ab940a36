//! Subscribing to the buttons of the hub: which devices carry buttons, which
//! requests find their buttons, and which subscribe to them.

use vstd::prelude::*;
use crate::leap::{
    answers_read, request, same_text, Body, BodyView, CommuniqueType, DeviceView, Message,
    MessageView,
};

verus! {

/// Why a subscription was given up.
#[derive(Clone, Copy, Debug, PartialEq, Eq, Structural)]
pub enum SubscribeError {
    /// The answer to the device enumeration lists no devices, or a button
    /// device in it names no resource path.
    Devices,
    /// The answer for a button group lists no group, or its first group no
    /// buttons, or one of these buttons names no resource path.
    Buttons,
}

/// Whether a device is of the model that carries the buttons.
pub open spec fn is_button_device(device: DeviceView) -> bool {
    device.device_type == Some("Pico3ButtonRaiseLower"@)
}

/// The devices of `devices` that carry buttons, in their order.
pub open spec fn button_devices(devices: Seq<DeviceView>) -> Seq<DeviceView> {
    devices.filter(|device: DeviceView| is_button_device(device))
}

/// The resource paths of the button devices among `devices`. There are none
/// to give where one of these button devices names no path.
pub open spec fn hrefs_of_devices(devices: Seq<DeviceView>) -> Option<Seq<Seq<char>>> {
    let found = button_devices(devices);
    if forall|i: int| 0 <= i < found.len() ==> (#[trigger] found[i]).href is Some {
        Some(Seq::new(found.len(), |i: int| found[i].href->0))
    } else {
        None
    }
}

/// The resource paths of the button devices that a body enumerates. There are
/// none to give where the body lists no devices, or where one of its button
/// devices names no path.
pub open spec fn device_hrefs_of(body: BodyView) -> Option<Seq<Seq<char>>> {
    match body.devices() {
        Some(devices) => hrefs_of_devices(devices),
        None => None,
    }
}

/// The resource paths of the buttons in the first button group of a body.
/// There are none to give where the body lists no button group, or where its
/// first group lists no buttons, or one of them names no path.
pub open spec fn button_hrefs_of(body: BodyView) -> Option<Seq<Seq<char>>> {
    match body.button_groups() {
        Some(groups) => if groups.len() > 0 {
            match groups[0].buttons {
                Some(buttons) => if forall|i: int|
                    0 <= i < buttons.len() ==> (#[trigger] buttons[i]) is Some {
                    Some(Seq::new(buttons.len(), |i: int| buttons[i]->0))
                } else {
                    None
                },
                None => None,
            }
        } else {
            None
        },
        None => None,
    }
}

/// The resource paths of the button devices in a device enumeration.
pub fn button_device_hrefs(body: &Body) -> (hrefs: Result<Vec<String>, SubscribeError>)
    ensures
        match hrefs {
            Ok(found) => device_hrefs_of(body@) == Some(found.deep_view()),
            Err(error) => error == SubscribeError::Devices && device_hrefs_of(body@) is None,
        },
{
    let devices = match body.devices() {
        Some(devices) => devices,
        None => {
            return Err(SubscribeError::Devices);
        },
    };
    let ghost all = devices.deep_view();
    let ghost wanted = |device: DeviceView| is_button_device(device);
    let mut hrefs: Vec<String> = Vec::new();
    let mut i: usize = 0;
    proof {
        reveal(Seq::filter);
        assert(all.take(0).filter(wanted) =~= Seq::<DeviceView>::empty());
    }
    while i < devices.len()
        invariant
            i <= devices.len(),
            all == devices.deep_view(),
            body@.devices() == Some(all),
            wanted == |device: DeviceView| is_button_device(device),
            hrefs.deep_view().len() == all.take(i as int).filter(wanted).len(),
            forall|k: int|
                0 <= k < hrefs.len() ==> (#[trigger] all.take(i as int).filter(wanted)[k]).href
                    == Some(hrefs.deep_view()[k]),
        decreases devices.len() - i,
    {
        let device = &devices[i];
        let ghost before = all.take(i as int).filter(wanted);
        let ghost old_hrefs = hrefs.deep_view();
        proof {
            assert(all.take(i + 1) =~= all.take(i as int).push(all[i as int]));
            Seq::lemma_filter_push(all.take(i as int), all[i as int], wanted);
            assert(all[i as int] == device@);
        }
        let is_wanted = match &device.device_type {
            Some(model) => same_text(model, "Pico3ButtonRaiseLower"),
            None => false,
        };
        if is_wanted {
            match &device.href {
                Some(href) => {
                    hrefs.push(href.clone());
                    proof {
                        let after = all.take(i + 1).filter(wanted);
                        assert(after == before.push(device@));
                        assert(hrefs.deep_view() =~= old_hrefs.push(href@));
                        assert forall|k: int| 0 <= k < hrefs.len() implies (#[trigger] after[k]).href
                            == Some(hrefs.deep_view()[k]) by {
                            if k < before.len() {
                                assert(after[k] == before[k]);
                            }
                        }
                    }
                },
                None => {
                    proof {
                        let after = all.take(i + 1).filter(wanted);
                        assert(after == before.push(device@));
                        assert(after[before.len() as int].href is None);
                        lemma_filter_of_prefix(all, wanted, i + 1, before.len() as int);
                        let found = button_devices(all);
                        assert(found[before.len() as int].href is None);
                    }
                    return Err(SubscribeError::Devices);
                },
            }
        }
        i = i + 1;
    }
    proof {
        assert(all.take(i as int) =~= all);
        let found = button_devices(all);
        assert(hrefs.deep_view() =~= Seq::new(found.len(), |i: int| found[i].href->0));
    }
    Ok(hrefs)
}

/// The resource paths of the buttons in the first button group of a body.
pub fn button_hrefs(body: &Body) -> (hrefs: Result<Vec<String>, SubscribeError>)
    ensures
        match hrefs {
            Ok(found) => button_hrefs_of(body@) == Some(found.deep_view()),
            Err(error) => error == SubscribeError::Buttons && button_hrefs_of(body@) is None,
        },
{
    let groups = match body.button_groups() {
        Some(groups) => groups,
        None => {
            return Err(SubscribeError::Buttons);
        },
    };
    if groups.len() == 0 {
        return Err(SubscribeError::Buttons);
    }
    let buttons = match &groups[0].buttons {
        Some(buttons) => buttons,
        None => {
            return Err(SubscribeError::Buttons);
        },
    };
    let ghost all = buttons.deep_view();
    assert(body@.button_groups() matches Some(listed) && listed[0].buttons == Some(all));
    let mut hrefs: Vec<String> = Vec::new();
    let mut i: usize = 0;
    while i < buttons.len()
        invariant
            i <= buttons.len(),
            all == buttons.deep_view(),
            body@.button_groups() matches Some(listed) && listed.len() > 0 && listed[0].buttons
                == Some(all),
            hrefs.len() == i,
            forall|k: int| 0 <= k < i ==> (#[trigger] all[k]) == Some(hrefs.deep_view()[k]),
        decreases buttons.len() - i,
    {
        let ghost old_hrefs = hrefs.deep_view();
        match &buttons[i] {
            Some(href) => {
                hrefs.push(href.clone());
                proof {
                    assert(hrefs.deep_view() =~= old_hrefs.push(href@));
                    assert(all[i as int] == Some(href@));
                }
            },
            None => {
                assert(all[i as int] is None);
                return Err(SubscribeError::Buttons);
            },
        }
        i = i + 1;
    }
    proof {
        assert(hrefs.deep_view() =~= Seq::new(all.len(), |i: int| all[i]->0));
    }
    Ok(hrefs)
}

/// The read request that enumerates the devices of the hub.
pub open spec fn devices_request() -> MessageView {
    request(CommuniqueType::ReadRequest, "/device"@)
}

/// The resource path of the button groups of a device.
pub open spec fn group_url(device: Seq<char>) -> Seq<char> {
    device + "/buttongroup"@
}

/// The read request for the button groups of a device.
pub open spec fn group_request(device: Seq<char>) -> MessageView {
    request(CommuniqueType::ReadRequest, group_url(device))
}

/// The request that subscribes to the events of a button.
pub open spec fn subscribe_request(button: Seq<char>) -> MessageView {
    request(CommuniqueType::SubscribeRequest, button + "/status/event"@)
}

/// One subscribe request for each of `buttons`, in their order.
pub open spec fn subscribe_requests(buttons: Seq<Seq<char>>) -> Seq<MessageView> {
    Seq::new(buttons.len(), |i: int| subscribe_request(buttons[i]))
}

/// How far a subscription has come.
#[derive(Clone, Copy, Debug, PartialEq, Eq, Structural)]
pub enum SubscriptionPhase {
    /// The device enumeration was requested and not yet answered.
    AwaitingDevices,
    /// The button groups of one device were requested and not yet answered.
    AwaitingButtons,
    /// Every button found was subscribed to.
    Complete,
}

/// What a subscription knows.
pub struct SubscriptionView {
    pub phase: SubscriptionPhase,
    /// The resource paths of the button devices, in the order of the
    /// enumeration.
    pub devices: Seq<Seq<char>>,
    /// For how many of `devices` the button groups were requested.
    pub asked: nat,
    /// The resource paths of the buttons found so far.
    pub buttons: Seq<Seq<char>>,
}

impl SubscriptionView {
    /// A subscription that has requested the device enumeration.
    pub open spec fn initial() -> SubscriptionView {
        SubscriptionView {
            phase: SubscriptionPhase::AwaitingDevices,
            devices: Seq::empty(),
            asked: 0,
            buttons: Seq::empty(),
        }
    }

    /// The resource path whose answer the subscription waits for, if it
    /// waits for one.
    pub open spec fn awaited_url(self) -> Option<Seq<char>> {
        match self.phase {
            SubscriptionPhase::AwaitingDevices => Some("/device"@),
            SubscriptionPhase::AwaitingButtons => Some(group_url(self.devices[self.asked - 1])),
            SubscriptionPhase::Complete => None,
        }
    }
}

/// What a message does to a subscription: the state it leads to and the
/// requests to send, or the reason to give the subscription up.
///
/// Only the awaited answer moves a subscription; any other message leaves it
/// as it is. The answer to the enumeration fixes the button devices and asks
/// for the button groups of the first. The answer for one device adds its
/// buttons and asks for the next device; after the last device it subscribes
/// to every button found.
pub open spec fn subscription_step(state: SubscriptionView, message: MessageView) -> Result<
    (SubscriptionView, Seq<MessageView>),
    SubscribeError,
> {
    if !(state.awaited_url() matches Some(url) && answers_read(message, url)) {
        Ok((state, Seq::empty()))
    } else if state.phase == SubscriptionPhase::AwaitingDevices {
        match device_hrefs_of(message.body->0) {
            None => Err(SubscribeError::Devices),
            Some(devices) => if devices.len() == 0 {
                Ok(
                    (
                        SubscriptionView {
                            phase: SubscriptionPhase::Complete,
                            devices,
                            asked: 0,
                            buttons: Seq::empty(),
                        },
                        Seq::empty(),
                    ),
                )
            } else {
                Ok(
                    (
                        SubscriptionView {
                            phase: SubscriptionPhase::AwaitingButtons,
                            devices,
                            asked: 1,
                            buttons: Seq::empty(),
                        },
                        seq![group_request(devices[0])],
                    ),
                )
            },
        }
    } else {
        match button_hrefs_of(message.body->0) {
            None => Err(SubscribeError::Buttons),
            Some(found) => {
                let buttons = state.buttons + found;
                if state.asked < state.devices.len() {
                    Ok(
                        (
                            SubscriptionView { asked: state.asked + 1, buttons, ..state },
                            seq![group_request(state.devices[state.asked as int])],
                        ),
                    )
                } else {
                    Ok(
                        (
                            SubscriptionView {
                                phase: SubscriptionPhase::Complete,
                                buttons,
                                ..state
                            },
                            subscribe_requests(buttons),
                        ),
                    )
                }
            },
        }
    }
}

/// The subscription to the buttons of the hub, as it goes from the device
/// enumeration to the last subscribe request.
pub struct Subscription {
    phase: SubscriptionPhase,
    devices: Vec<String>,
    asked: usize,
    buttons: Vec<String>,
}

impl View for Subscription {
    type V = SubscriptionView;

    closed spec fn view(&self) -> SubscriptionView {
        SubscriptionView {
            phase: self.phase,
            devices: self.devices.deep_view(),
            asked: self.asked as nat,
            buttons: self.buttons.deep_view(),
        }
    }
}

/// `path` with `suffix` behind it.
fn with_suffix(path: &String, suffix: &str) -> (joined: String)
    ensures
        joined@ == path@ + suffix@,
{
    let mut joined = path.clone();
    joined.append(suffix);
    joined
}

impl Subscription {
    #[verifier::type_invariant]
    spec fn asked_a_listed_device(&self) -> bool {
        self.phase == SubscriptionPhase::AwaitingButtons ==> 1 <= self.asked <= self.devices.len()
    }

    /// Starts a subscription: gives the machine and the request to send first.
    pub fn begin() -> (started: (Subscription, Message))
        ensures
            started.0@ == SubscriptionView::initial(),
            started.1@ == devices_request(),
    {
        let subscription = Subscription {
            phase: SubscriptionPhase::AwaitingDevices,
            devices: Vec::new(),
            asked: 0,
            buttons: Vec::new(),
        };
        assert(subscription@.devices =~= Seq::empty());
        assert(subscription@.buttons =~= Seq::empty());
        (subscription, Message::new(CommuniqueType::ReadRequest, "/device".to_owned()))
    }

    pub fn phase(&self) -> (phase: SubscriptionPhase)
        ensures
            phase == self@.phase,
    {
        self.phase
    }

    /// Whether every button found was subscribed to.
    pub fn is_complete(&self) -> (complete: bool)
        ensures
            complete == (self@.phase == SubscriptionPhase::Complete),
    {
        match self.phase {
            SubscriptionPhase::Complete => true,
            _ => false,
        }
    }

    /// Takes a message from the hub and gives the requests to send in answer,
    /// in order, or the reason to give the subscription up.
    pub fn on_message(&mut self, message: &Message) -> (requests: Result<
        Vec<Message>,
        SubscribeError,
    >)
        ensures
            match subscription_step(old(self)@, message@) {
                Ok((next, sent)) => {
                    &&& requests matches Ok(out) && out.deep_view() == sent
                    &&& final(self)@ == next
                },
                Err(error) => {
                    &&& requests matches Err(reason) && reason == error
                    &&& final(self)@ == old(self)@
                },
            },
    {
        proof {
            use_type_invariant(&*self);
        }
        let mut requests: Vec<Message> = Vec::new();
        assert(requests.deep_view() =~= Seq::empty());
        match self.phase {
            SubscriptionPhase::AwaitingDevices => {
                if !message.answers("/device") {
                    return Ok(requests);
                }
                let body = match &message.body {
                    Some(body) => body,
                    None => {
                        return Ok(requests);
                    },
                };
                let devices = match button_device_hrefs(body) {
                    Ok(devices) => devices,
                    Err(error) => {
                        return Err(error);
                    },
                };
                if devices.len() == 0 {
                    self.devices = devices;
                    self.asked = 0;
                    self.buttons = Vec::new();
                    self.phase = SubscriptionPhase::Complete;
                    assert(self@.buttons =~= Seq::empty());
                    return Ok(requests);
                }
                let url = with_suffix(&devices[0], "/buttongroup");
                requests.push(Message::new(CommuniqueType::ReadRequest, url));
                self.devices = devices;
                self.asked = 1;
                self.buttons = Vec::new();
                self.phase = SubscriptionPhase::AwaitingButtons;
                assert(self@.buttons =~= Seq::empty());
                assert(requests.deep_view() =~= seq![group_request(self@.devices[0])]);
                Ok(requests)
            },
            SubscriptionPhase::AwaitingButtons => {
                let awaited = with_suffix(&self.devices[self.asked - 1], "/buttongroup");
                if !message.answers(awaited.as_str()) {
                    return Ok(requests);
                }
                let body = match &message.body {
                    Some(body) => body,
                    None => {
                        return Ok(requests);
                    },
                };
                let mut found = match button_hrefs(body) {
                    Ok(found) => found,
                    Err(error) => {
                        return Err(error);
                    },
                };
                let ghost before = self.buttons.deep_view();
                let ghost added = found.deep_view();
                let mut buttons: Vec<String> = Vec::new();
                std::mem::swap(&mut self.buttons, &mut buttons);
                buttons.append(&mut found);
                self.buttons = buttons;
                assert(self.buttons.deep_view() =~= before + added);
                if self.asked < self.devices.len() {
                    let url = with_suffix(&self.devices[self.asked], "/buttongroup");
                    requests.push(Message::new(CommuniqueType::ReadRequest, url));
                    assert(requests.deep_view() =~= seq![
                        group_request(self@.devices[self.asked as int]),
                    ]);
                    self.asked = self.asked + 1;
                    return Ok(requests);
                }
                let mut i: usize = 0;
                while i < self.buttons.len()
                    invariant
                        i <= self.buttons.len(),
                        requests.len() == i,
                        forall|k: int|
                            0 <= k < i ==> (#[trigger] requests.deep_view()[k])
                                == subscribe_request(self.buttons.deep_view()[k]),
                    decreases self.buttons.len() - i,
                {
                    let ghost sent = requests.deep_view();
                    let url = with_suffix(&self.buttons[i], "/status/event");
                    let request = Message::new(CommuniqueType::SubscribeRequest, url);
                    let ghost pushed = request@;
                    requests.push(request);
                    assert(requests.deep_view() =~= sent.push(pushed));
                    i = i + 1;
                }
                self.phase = SubscriptionPhase::Complete;
                assert(requests.deep_view() =~= subscribe_requests(self@.buttons));
                Ok(requests)
            },
            SubscriptionPhase::Complete => Ok(requests),
        }
    }
}

/// Where a subscription stands after it took `messages` one by one, and the
/// requests it sent on the way, in order.
pub open spec fn subscription_run(state: SubscriptionView, messages: Seq<MessageView>) -> Result<
    (SubscriptionView, Seq<MessageView>),
    SubscribeError,
>
    decreases messages.len(),
{
    if messages.len() == 0 {
        Ok((state, Seq::empty()))
    } else {
        match subscription_run(state, messages.drop_last()) {
            Err(error) => Err(error),
            Ok((middle, sent)) => match subscription_step(middle, messages.last()) {
                Err(error) => Err(error),
                Ok((next, more)) => Ok((next, sent + more)),
            },
        }
    }
}

/// One request for the button groups of each of `devices`, in their order.
pub open spec fn group_requests(devices: Seq<Seq<char>>) -> Seq<MessageView> {
    Seq::new(devices.len(), |i: int| group_request(devices[i]))
}

/// The buttons that the answers for the button groups name, in the order of
/// the answers.
pub open spec fn buttons_found(answers: Seq<MessageView>) -> Seq<Seq<char>>
    decreases answers.len(),
{
    if answers.len() == 0 {
        Seq::empty()
    } else {
        buttons_found(answers.drop_last()) + button_hrefs_of(answers.last().body->0)->0
    }
}

/// What holds of a subscription wherever it stands: it has asked for the
/// button groups of no more devices than there are button devices, of none
/// before the enumeration was answered, and of all once it is complete.
pub open spec fn in_step(state: SubscriptionView) -> bool {
    match state.phase {
        SubscriptionPhase::AwaitingDevices => state.asked == 0,
        SubscriptionPhase::AwaitingButtons => 1 <= state.asked <= state.devices.len(),
        SubscriptionPhase::Complete => state.asked == state.devices.len(),
    }
}

/// The requests that a subscription has sent by the time it stands at
/// `state`, behind the one for the enumeration: one for the button groups of
/// each device it has asked about and, once it is complete, one subscribe
/// request for each button found.
pub open spec fn requests_so_far(state: SubscriptionView) -> Seq<MessageView> {
    group_requests(state.devices.take(state.asked as int)) + if state.phase
        == SubscriptionPhase::Complete {
        subscribe_requests(state.buttons)
    } else {
        Seq::empty()
    }
}

/// A step adds its requests to those sent before, and keeps the subscription
/// in step.
pub proof fn lemma_step_adds_requests(state: SubscriptionView, message: MessageView)
    requires
        in_step(state),
    ensures
        subscription_step(state, message) matches Ok((next, sent)) ==> in_step(next)
            && requests_so_far(next) == requests_so_far(state) + sent,
{
    if let Ok((next, sent)) = subscription_step(state, message) {
        if next == state {
            assert(sent =~= Seq::<MessageView>::empty());
            assert(requests_so_far(state) + sent =~= requests_so_far(state));
        } else if state.phase == SubscriptionPhase::AwaitingDevices {
            assert(requests_so_far(state) =~= Seq::<MessageView>::empty());
            assert(requests_so_far(next) =~= sent);
            assert(requests_so_far(state) + sent =~= sent);
        } else {
            assert(state.phase == SubscriptionPhase::AwaitingButtons);
            if state.asked < state.devices.len() {
                assert(requests_so_far(next) =~= requests_so_far(state) + sent);
            } else {
                assert(state.devices.take(state.asked as int) =~= state.devices);
                assert(requests_so_far(next) =~= requests_so_far(state) + sent);
            }
        }
    }
}

/// Whatever the hub sends and in whatever order, a subscription that has not
/// failed has sent one request for button groups for each device it has asked
/// about, which are button devices of the enumeration and never more than
/// there are of them, and no subscribe request before it is complete.
pub proof fn lemma_requests_in_any_run(messages: Seq<MessageView>)
    ensures
        subscription_run(SubscriptionView::initial(), messages) matches Ok((state, sent))
            ==> in_step(state) && sent == requests_so_far(state),
    decreases messages.len(),
{
    let start = SubscriptionView::initial();
    if messages.len() == 0 {
        assert(requests_so_far(start) =~= Seq::<MessageView>::empty());
    } else {
        lemma_requests_in_any_run(messages.drop_last());
        if let Ok((middle, sent)) = subscription_run(start, messages.drop_last()) {
            lemma_step_adds_requests(middle, messages.last());
        }
    }
}

/// The hub answers a subscription in full: `enumeration` answers the device
/// enumeration with `devices`, and `answers` holds, for each button device in
/// turn, the answer for its button groups.
pub open spec fn answered_in_full(
    enumeration: MessageView,
    devices: Seq<DeviceView>,
    answers: Seq<MessageView>,
) -> bool {
    &&& answers_read(enumeration, "/device"@)
    &&& enumeration.body matches Some(body) && body.devices() == Some(devices)
    &&& hrefs_of_devices(devices) matches Some(hrefs)
    &&& answers.len() == hrefs.len()
    &&& forall|i: int|
        0 <= i < answers.len() ==> {
            &&& answers_read(#[trigger] answers[i], group_url(hrefs[i]))
            &&& button_hrefs_of(answers[i].body->0) is Some
        }
}

/// Where a subscription stands when the hub has answered the enumeration and
/// the first `count` button devices.
proof fn lemma_run_so_far(
    enumeration: MessageView,
    devices: Seq<DeviceView>,
    answers: Seq<MessageView>,
    count: int,
)
    requires
        answered_in_full(enumeration, devices, answers),
        0 <= count <= answers.len(),
        answers.len() > 0,
    ensures
        ({
            let hrefs = hrefs_of_devices(devices)->0;
            let buttons = buttons_found(answers.take(count));
            subscription_run(
                SubscriptionView::initial(),
                seq![enumeration] + answers.take(count),
            ) == if count < answers.len() {
                Ok::<_, SubscribeError>(
                    (
                        SubscriptionView {
                            phase: SubscriptionPhase::AwaitingButtons,
                            devices: hrefs,
                            asked: (count + 1) as nat,
                            buttons,
                        },
                        group_requests(hrefs.take(count + 1)),
                    ),
                )
            } else {
                Ok(
                    (
                        SubscriptionView {
                            phase: SubscriptionPhase::Complete,
                            devices: hrefs,
                            asked: count as nat,
                            buttons,
                        },
                        group_requests(hrefs) + subscribe_requests(buttons),
                    ),
                )
            }
        }),
    decreases count,
{
    let hrefs = hrefs_of_devices(devices)->0;
    let messages = seq![enumeration] + answers.take(count);
    let start = SubscriptionView::initial();
    if count == 0 {
        assert(messages.drop_last() =~= Seq::<MessageView>::empty());
        assert(messages.last() == enumeration);
        assert(subscription_run(start, messages.drop_last()) == Ok::<_, SubscribeError>(
            (start, Seq::<MessageView>::empty()),
        ));
        assert(buttons_found(answers.take(0)) =~= Seq::<Seq<char>>::empty());
        assert(Seq::<MessageView>::empty() + seq![group_request(hrefs[0])] =~= group_requests(
            hrefs.take(1),
        ));
    } else {
        let before = count - 1;
        lemma_run_so_far(enumeration, devices, answers, before);
        let answer = answers[before];
        assert(messages.drop_last() =~= seq![enumeration] + answers.take(before));
        assert(messages.last() == answer);
        assert(answers.take(count).drop_last() =~= answers.take(before));
        assert(answers.take(count).last() == answer);
        let found = button_hrefs_of(answer.body->0)->0;
        let buttons = buttons_found(answers.take(before)) + found;
        assert(buttons_found(answers.take(count)) == buttons);
        let middle = SubscriptionView {
            phase: SubscriptionPhase::AwaitingButtons,
            devices: hrefs,
            asked: count as nat,
            buttons: buttons_found(answers.take(before)),
        };
        assert(middle.awaited_url() == Some(group_url(hrefs[before])));
        if count < answers.len() {
            assert(group_requests(hrefs.take(count)) + seq![group_request(hrefs[count])]
                =~= group_requests(hrefs.take(count + 1)));
        } else {
            assert(hrefs.take(count) =~= hrefs);
        }
    }
}

/// With `n` button devices among the devices of the hub, a subscription that
/// the hub answers in full sends exactly `n` requests for button groups, one
/// for each button device and none for any other device, and then one
/// subscribe request for each button that the answers name; with that it is
/// complete.
pub proof fn lemma_subscription_requests(
    enumeration: MessageView,
    devices: Seq<DeviceView>,
    answers: Seq<MessageView>,
)
    requires
        answered_in_full(enumeration, devices, answers),
    ensures
        ({
            let hrefs = hrefs_of_devices(devices)->0;
            let buttons = buttons_found(answers);
            &&& hrefs.len() == button_devices(devices).len()
            &&& group_requests(hrefs).len() == button_devices(devices).len()
            &&& subscription_run(SubscriptionView::initial(), seq![enumeration] + answers) == Ok::<
                _,
                SubscribeError,
            >(
                (
                    SubscriptionView {
                        phase: SubscriptionPhase::Complete,
                        devices: hrefs,
                        asked: hrefs.len(),
                        buttons,
                    },
                    group_requests(hrefs) + subscribe_requests(buttons),
                ),
            )
        }),
{
    let hrefs = hrefs_of_devices(devices)->0;
    let start = SubscriptionView::initial();
    assert(answers.take(answers.len() as int) =~= answers);
    if answers.len() == 0 {
        let messages = seq![enumeration] + answers;
        assert(messages.drop_last() =~= Seq::<MessageView>::empty());
        assert(messages.last() == enumeration);
        assert(subscription_run(start, messages.drop_last()) == Ok::<_, SubscribeError>(
            (start, Seq::<MessageView>::empty()),
        ));
        assert(Seq::<MessageView>::empty() + Seq::<MessageView>::empty() =~= group_requests(hrefs)
            + subscribe_requests(buttons_found(answers)));
    } else {
        lemma_run_so_far(enumeration, devices, answers, answers.len() as int);
    }
}

/// What a filter keeps of the beginning of a sequence, it keeps of the whole,
/// at the same place.
proof fn lemma_filter_of_prefix<A>(s: Seq<A>, keep: spec_fn(A) -> bool, n: int, k: int)
    requires
        0 <= n <= s.len(),
        0 <= k < s.take(n).filter(keep).len(),
    ensures
        k < s.filter(keep).len(),
        s.filter(keep)[k] == s.take(n).filter(keep)[k],
    decreases s.len() - n,
{
    if n == s.len() {
        assert(s.take(n) =~= s);
    } else {
        assert(s.take(n + 1) =~= s.take(n).push(s[n]));
        Seq::lemma_filter_push(s.take(n), s[n], keep);
        lemma_filter_of_prefix(s, keep, n + 1, k);
    }
}

} // verus!
