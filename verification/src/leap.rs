//! The hub's messages, as far as the bridge reads them: a type tag, a header
//! with the resource path and the status, and a body.

use vstd::prelude::*;
use serde_json::Value;
use crate::json::{elements, json_of, member, member_of, member_text, text_of, Json};

verus! {

/// The kind of a message, by the exchange it belongs to.
#[derive(Clone, Copy, Debug, PartialEq, Eq, Structural)]
pub enum CommuniqueType {
    ReadRequest,
    ReadResponse,
    SubscribeRequest,
    UpdateResponse,
    /// Any kind the bridge does not act on.
    Other,
}

/// What a button reported.
#[derive(Clone, Copy, Debug, PartialEq, Eq, Structural)]
pub enum ButtonEventType {
    Press,
    Release,
    /// Any event the bridge does not act on.
    Other,
}

/// The header of a message.
#[derive(Debug, PartialEq, Eq)]
pub struct Header {
    /// The resource path the message is about.
    pub url: String,
    /// The status of a response, such as `200 OK`.
    pub status_code: Option<String>,
}

pub struct HeaderView {
    pub url: Seq<char>,
    pub status_code: Option<Seq<char>>,
}

impl View for Header {
    type V = HeaderView;

    open spec fn view(&self) -> HeaderView {
        HeaderView { url: self.url@, status_code: self.status_code.deep_view() }
    }
}

/// One entry of the hub's device enumeration. A part that the hub left out,
/// or gave as anything but text, is `None`.
#[derive(Debug, PartialEq, Eq)]
pub struct Device {
    pub href: Option<String>,
    pub device_type: Option<String>,
}

pub struct DeviceView {
    pub href: Option<Seq<char>>,
    pub device_type: Option<Seq<char>>,
}

impl View for Device {
    type V = DeviceView;

    open spec fn view(&self) -> DeviceView {
        DeviceView { href: self.href.deep_view(), device_type: self.device_type.deep_view() }
    }
}

impl DeepView for Device {
    type V = DeviceView;

    open spec fn deep_view(&self) -> DeviceView {
        self@
    }
}

/// One button group of a device: the resource paths of its buttons. The list
/// is `None` where the group names no buttons, an entry where a button names
/// no path.
#[derive(Debug, PartialEq, Eq)]
pub struct ButtonGroup {
    pub buttons: Option<Vec<Option<String>>>,
}

pub struct ButtonGroupView {
    pub buttons: Option<Seq<Option<Seq<char>>>>,
}

impl View for ButtonGroup {
    type V = ButtonGroupView;

    open spec fn view(&self) -> ButtonGroupView {
        ButtonGroupView { buttons: self.buttons.deep_view() }
    }
}

impl DeepView for ButtonGroup {
    type V = ButtonGroupView;

    open spec fn deep_view(&self) -> ButtonGroupView {
        self@
    }
}

/// The report of one button event.
#[derive(Debug, PartialEq, Eq)]
pub struct ButtonStatus {
    /// The resource path of the button.
    pub href: String,
    pub event_type: ButtonEventType,
}

pub struct ButtonStatusView {
    pub href: Seq<char>,
    pub event_type: ButtonEventType,
}

impl View for ButtonStatus {
    type V = ButtonStatusView;

    open spec fn view(&self) -> ButtonStatusView {
        ButtonStatusView { href: self.href@, event_type: self.event_type }
    }
}

/// The body of a message.
#[derive(Debug, PartialEq, Eq)]
pub enum Body {
    /// The devices the hub knows.
    Devices(Vec<Device>),
    /// The button groups of one device.
    ButtonGroups(Vec<ButtonGroup>),
    /// A body that lists devices and button groups side by side.
    DevicesAndButtonGroups(Vec<Device>, Vec<ButtonGroup>),
    ButtonStatusReport(ButtonStatus),
    /// Any body the bridge does not read.
    Other,
}

pub enum BodyView {
    Devices(Seq<DeviceView>),
    ButtonGroups(Seq<ButtonGroupView>),
    DevicesAndButtonGroups(Seq<DeviceView>, Seq<ButtonGroupView>),
    ButtonStatusReport(ButtonStatusView),
    Other,
}

impl BodyView {
    /// The devices that the body lists, if it lists any.
    pub open spec fn devices(self) -> Option<Seq<DeviceView>> {
        match self {
            BodyView::Devices(devices) => Some(devices),
            BodyView::DevicesAndButtonGroups(devices, _) => Some(devices),
            _ => None,
        }
    }

    /// The button groups that the body lists, if it lists any.
    pub open spec fn button_groups(self) -> Option<Seq<ButtonGroupView>> {
        match self {
            BodyView::ButtonGroups(groups) => Some(groups),
            BodyView::DevicesAndButtonGroups(_, groups) => Some(groups),
            _ => None,
        }
    }
}

impl View for Body {
    type V = BodyView;

    open spec fn view(&self) -> BodyView {
        match self {
            Body::Devices(devices) => BodyView::Devices(devices.deep_view()),
            Body::ButtonGroups(groups) => BodyView::ButtonGroups(groups.deep_view()),
            Body::DevicesAndButtonGroups(devices, groups) => BodyView::DevicesAndButtonGroups(
                devices.deep_view(),
                groups.deep_view(),
            ),
            Body::ButtonStatusReport(status) => BodyView::ButtonStatusReport(status@),
            Body::Other => BodyView::Other,
        }
    }
}

impl DeepView for Body {
    type V = BodyView;

    open spec fn deep_view(&self) -> BodyView {
        self@
    }
}

/// A message to or from the hub.
#[derive(Debug, PartialEq, Eq)]
pub struct Message {
    pub communique_type: CommuniqueType,
    pub header: Header,
    pub body: Option<Body>,
}

pub struct MessageView {
    pub communique_type: CommuniqueType,
    pub header: HeaderView,
    pub body: Option<BodyView>,
}

impl View for Message {
    type V = MessageView;

    open spec fn view(&self) -> MessageView {
        MessageView {
            communique_type: self.communique_type,
            header: self.header@,
            body: self.body.deep_view(),
        }
    }
}

impl DeepView for Message {
    type V = MessageView;

    open spec fn deep_view(&self) -> MessageView {
        self@
    }
}

/// The device that an entry of the enumeration describes: its path is the
/// text of the member `href`, its model that of the member `DeviceType`.
pub open spec fn device_of(entry: Json) -> DeviceView {
    DeviceView {
        href: text_of(member_of(entry, "href"@)),
        device_type: text_of(member_of(entry, "DeviceType"@)),
    }
}

/// The button group that an entry describes: its buttons are the elements of
/// the member `Buttons`, each with the text of its member `href` as its path.
pub open spec fn group_of(entry: Json) -> ButtonGroupView {
    ButtonGroupView {
        buttons: match member_of(entry, "Buttons"@) {
            Json::Array(buttons) => Some(
                Seq::new(buttons.len(), |i: int| text_of(member_of(buttons[i], "href"@))),
            ),
            _ => None,
        },
    }
}

/// The devices that the entries of an enumeration describe, in their order.
pub open spec fn devices_of(entries: Seq<Json>) -> Seq<DeviceView> {
    Seq::new(entries.len(), |i: int| device_of(entries[i]))
}

/// The button groups that the entries of a list describe, in their order.
pub open spec fn groups_of(entries: Seq<Json>) -> Seq<ButtonGroupView> {
    Seq::new(entries.len(), |i: int| group_of(entries[i]))
}

/// The body that a JSON document describes: the devices of its member
/// `Devices` where that is an array, the button groups of its member
/// `ButtonGroups` where that is one, both where both are, and no body that
/// the bridge reads where neither is.
pub open spec fn body_of(document: Json) -> BodyView {
    match member_of(document, "Devices"@) {
        Json::Array(devices) => match member_of(document, "ButtonGroups"@) {
            Json::Array(groups) => BodyView::DevicesAndButtonGroups(
                devices_of(devices),
                groups_of(groups),
            ),
            _ => BodyView::Devices(devices_of(devices)),
        },
        _ => match member_of(document, "ButtonGroups"@) {
            Json::Array(groups) => BodyView::ButtonGroups(groups_of(groups)),
            _ => BodyView::Other,
        },
    }
}

impl Device {
    /// Reads one entry of the device enumeration.
    pub fn from_json(entry: &Value) -> (device: Device)
        ensures
            device@ == device_of(json_of(*entry)),
    {
        Device { href: member_text(entry, "href"), device_type: member_text(entry, "DeviceType") }
    }
}

impl ButtonGroup {
    /// Reads one button group.
    pub fn from_json(entry: &Value) -> (group: ButtonGroup)
        ensures
            group@ == group_of(json_of(*entry)),
    {
        let listed = match elements(member(entry, "Buttons")) {
            Some(listed) => listed,
            None => {
                return ButtonGroup { buttons: None };
            },
        };
        let ghost held = member_of(json_of(*entry), "Buttons"@)->Array_0;
        let mut buttons: Vec<Option<String>> = Vec::new();
        let mut i: usize = 0;
        while i < listed.len()
            invariant
                i <= listed.len(),
                held.len() == listed@.len(),
                forall|k: int| 0 <= k < listed@.len() ==> json_of(#[trigger] listed@[k]) == held[k],
                buttons.len() == i,
                forall|k: int|
                    0 <= k < i ==> (#[trigger] buttons.deep_view()[k]) == text_of(
                        member_of(held[k], "href"@),
                    ),
            decreases listed.len() - i,
        {
            let ghost before = buttons.deep_view();
            let href = member_text(&listed[i], "href");
            let ghost pushed = href.deep_view();
            buttons.push(href);
            assert(buttons.deep_view() =~= before.push(pushed));
            i = i + 1;
        }
        assert(buttons.deep_view() =~= Seq::new(
            held.len(),
            |i: int| text_of(member_of(held[i], "href"@)),
        ));
        ButtonGroup { buttons: Some(buttons) }
    }
}

/// Reads the entries of a device enumeration.
fn read_devices(listed: &Vec<Value>) -> (devices: Vec<Device>)
    ensures
        devices.len() == listed.len(),
        forall|k: int|
            0 <= k < listed.len() ==> (#[trigger] devices.deep_view()[k]) == device_of(
                json_of(listed@[k]),
            ),
{
    let mut devices: Vec<Device> = Vec::new();
    let mut i: usize = 0;
    while i < listed.len()
        invariant
            i <= listed.len(),
            devices.len() == i,
            forall|k: int|
                0 <= k < i ==> (#[trigger] devices.deep_view()[k]) == device_of(
                    json_of(listed@[k]),
                ),
        decreases listed.len() - i,
    {
        let ghost before = devices.deep_view();
        let device = Device::from_json(&listed[i]);
        let ghost pushed = device@;
        devices.push(device);
        assert(devices.deep_view() =~= before.push(pushed));
        i = i + 1;
    }
    devices
}

/// Reads the entries of a list of button groups.
fn read_groups(listed: &Vec<Value>) -> (groups: Vec<ButtonGroup>)
    ensures
        groups.len() == listed.len(),
        forall|k: int|
            0 <= k < listed.len() ==> (#[trigger] groups.deep_view()[k]) == group_of(
                json_of(listed@[k]),
            ),
{
    let mut groups: Vec<ButtonGroup> = Vec::new();
    let mut i: usize = 0;
    while i < listed.len()
        invariant
            i <= listed.len(),
            groups.len() == i,
            forall|k: int|
                0 <= k < i ==> (#[trigger] groups.deep_view()[k]) == group_of(
                    json_of(listed@[k]),
                ),
        decreases listed.len() - i,
    {
        let ghost before = groups.deep_view();
        let group = ButtonGroup::from_json(&listed[i]);
        let ghost pushed = group@;
        groups.push(group);
        assert(groups.deep_view() =~= before.push(pushed));
        i = i + 1;
    }
    groups
}

impl Body {
    /// Reads the body of a message from its JSON document.
    pub fn from_json(document: &Value) -> (body: Body)
        ensures
            body@ == body_of(json_of(*document)),
    {
        let devices = match elements(member(document, "Devices")) {
            Some(listed) => {
                let devices = read_devices(listed);
                assert(devices.deep_view() =~= devices_of(
                    member_of(json_of(*document), "Devices"@)->Array_0,
                ));
                Some(devices)
            },
            None => None,
        };
        let groups = match elements(member(document, "ButtonGroups")) {
            Some(listed) => {
                let groups = read_groups(listed);
                assert(groups.deep_view() =~= groups_of(
                    member_of(json_of(*document), "ButtonGroups"@)->Array_0,
                ));
                Some(groups)
            },
            None => None,
        };
        match devices {
            Some(devices) => match groups {
                Some(groups) => Body::DevicesAndButtonGroups(devices, groups),
                None => Body::Devices(devices),
            },
            None => match groups {
                Some(groups) => Body::ButtonGroups(groups),
                None => Body::Other,
            },
        }
    }

    /// The devices that the body lists, if it lists any.
    pub fn devices(&self) -> (devices: Option<&Vec<Device>>)
        ensures
            devices.deep_view() == self@.devices(),
    {
        match self {
            Body::Devices(devices) => Some(devices),
            Body::DevicesAndButtonGroups(devices, _) => Some(devices),
            _ => None,
        }
    }

    /// The button groups that the body lists, if it lists any.
    pub fn button_groups(&self) -> (groups: Option<&Vec<ButtonGroup>>)
        ensures
            groups.deep_view() == self@.button_groups(),
    {
        match self {
            Body::ButtonGroups(groups) => Some(groups),
            Body::DevicesAndButtonGroups(_, groups) => Some(groups),
            _ => None,
        }
    }
}

/// The request of kind `communique_type` for the resource `url`: no status,
/// no body.
pub open spec fn request(communique_type: CommuniqueType, url: Seq<char>) -> MessageView {
    MessageView {
        communique_type,
        header: HeaderView { url, status_code: None },
        body: None,
    }
}

/// Whether `text` and `literal` are the same text.
pub fn same_text(text: &String, literal: &str) -> (same: bool)
    ensures
        same == (text@ == literal@),
{
    let other = literal.to_owned();
    *text == other
}

impl Message {
    /// A request for the resource `url`.
    pub fn new(communique_type: CommuniqueType, url: String) -> (message: Message)
        ensures
            message@ == request(communique_type, url@),
    {
        Message { communique_type, header: Header { url, status_code: None }, body: None }
    }

    /// Whether this is the hub's periodic notice that a device was heard.
    pub fn is_liveness_notice(&self) -> (notice: bool)
        ensures
            notice == is_liveness_notice(self@),
    {
        same_text(&self.header.url, "/device/status/deviceheard")
    }

    /// Whether this is the hub's answer to a read request for `url`, with a
    /// body.
    pub fn answers(&self, url: &str) -> (answers: bool)
        ensures
            answers == answers_read(self@, url@),
    {
        match self.communique_type {
            CommuniqueType::ReadResponse => same_text(&self.header.url, url)
                && self.body.is_some(),
            _ => false,
        }
    }
}

/// Whether a message is the hub's notice that it heard a device: one for the
/// resource path under which the hub gives these notices.
pub open spec fn is_liveness_notice(message: MessageView) -> bool {
    message.header.url == "/device/status/deviceheard"@
}

/// A read response for `url` that carries a body.
pub open spec fn answers_read(message: MessageView, url: Seq<char>) -> bool {
    &&& message.communique_type == CommuniqueType::ReadResponse
    &&& message.header.url == url
    &&& message.body is Some
}

} // verus!
