//! The tray menu: what it shows for a snapshot, and which command a click on
//! one of its items means.

use vstd::prelude::*;
use crate::models::{AppSnapshot, AudioDevice, ConnectionStatus};
use crate::percent::{optional_text, percent_decode, percent_decoded, percent_encode, percent_encoded};
use crate::text::{has_prefix, joined, owned, same_text, strip_prefix};

verus! {

/// The id prefix of the Personal Mix device items.
pub open spec fn personal_prefix() -> Seq<char> {
    "personal-device:"@
}

/// The id prefix of the Stream Mix device items.
pub open spec fn stream_prefix() -> Seq<char> {
    "stream-device:"@
}

/// The id prefix of the microphone device items.
pub open spec fn mic_prefix() -> Seq<char> {
    "mic-device:"@
}

/// A plain menu item.
#[derive(Clone, Debug, PartialEq, Eq)]
pub struct MenuItemModel {
    pub id: String,
    pub text: String,
    pub enabled: bool,
}

/// A menu item with a check mark.
#[derive(Clone, Debug, PartialEq, Eq)]
pub struct CheckItemModel {
    pub id: String,
    pub text: String,
    pub enabled: bool,
    pub checked: bool,
}

/// A submenu of devices; with no device to offer it holds a disabled
/// placeholder item instead.
#[derive(Clone, Debug, PartialEq, Eq)]
pub struct SubmenuModel {
    pub text: String,
    pub enabled: bool,
    pub items: Vec<CheckItemModel>,
    pub placeholder: Option<MenuItemModel>,
}

/// The whole tray menu, top to bottom; separators stand after `toggle` and
/// after `mic`.
#[derive(Clone, Debug, PartialEq, Eq)]
pub struct TrayMenuModel {
    pub status: MenuItemModel,
    pub toggle: MenuItemModel,
    pub personal: SubmenuModel,
    pub stream: SubmenuModel,
    pub mic: SubmenuModel,
    pub show: MenuItemModel,
    pub quit: MenuItemModel,
}

/// The active devices, in order.
pub open spec fn active_devices(devices: Seq<AudioDevice>) -> Seq<AudioDevice>
    decreases devices.len(),
{
    if devices.len() == 0 {
        Seq::empty()
    } else {
        let earlier = active_devices(devices.drop_last());
        if devices.last().state@ == "active"@ {
            earlier.push(devices.last())
        } else {
            earlier
        }
    }
}

/// The characters of an optional text.
pub open spec fn optional_view(value: Option<String>) -> Option<Seq<char>> {
    match value {
        Some(text) => Some(text@),
        None => None,
    }
}

/// The id of the item that routes to a device.
pub open spec fn device_item_id(prefix: Seq<char>, device_id: Seq<char>) -> Seq<char> {
    prefix + percent_encoded(device_id)
}

/// The item shows the device.
pub open spec fn shows_device(item: CheckItemModel, device: AudioDevice, prefix: Seq<char>, current: Option<Seq<char>>, connected: bool) -> bool {
    &&& item.id@ == device_item_id(prefix, device.id@)
    &&& item.text@ == device.name@
    &&& item.enabled == connected
    &&& item.checked == (current == Some(device.id@))
}

/// The submenu offers the active devices, checking the current one; with
/// none, it is disabled and holds only a placeholder.
pub open spec fn offers_devices(menu: SubmenuModel, label: Seq<char>, prefix: Seq<char>, devices: Seq<AudioDevice>, current: Option<Seq<char>>, connected: bool) -> bool {
    let active = active_devices(devices);
    &&& menu.text@ == label
    &&& menu.items@.len() == active.len()
    &&& forall|i: int| 0 <= i < active.len() ==> #[trigger] shows_device(menu.items@[i], active[i], prefix, current, connected)
    &&& active.len() == 0 ==> {
        &&& !menu.enabled
        &&& menu.placeholder matches Some(item)
        &&& item.id@ == prefix + "empty"@
        &&& item.text@ == (if connected { "사용 가능한 장치 없음"@ } else { "Sonar 연결 확인 중…"@ })
        &&& !item.enabled
    }
    &&& active.len() > 0 ==> menu.enabled == connected && menu.placeholder is None
}

/// The submenu of a kind of device.
fn device_submenu(label: &str, prefix: &str, devices: &Vec<AudioDevice>, current: &Option<String>, connected: bool) -> (menu: SubmenuModel)
    ensures
        offers_devices(menu, label@, prefix@, devices@, optional_view(*current), connected),
{
    let mut items: Vec<CheckItemModel> = Vec::new();
    let ghost mut shown: Seq<AudioDevice> = Seq::empty();
    let mut i: usize = 0;
    while i < devices.len()
        invariant
            i <= devices@.len(),
            shown == active_devices(devices@.take(i as int)),
            items@.len() == shown.len(),
            forall|k: int| 0 <= k < shown.len() ==> #[trigger] shows_device(items@[k], shown[k], prefix@, optional_view(*current), connected),
        decreases devices.len() - i,
    {
        assert(devices@.take(i + 1).drop_last() =~= devices@.take(i as int));
        let device = &devices[i];
        if same_text(device.state.as_str(), "active") {
            let checked = match current {
                Some(id) => same_text(id.as_str(), device.id.as_str()),
                None => false,
            };
            let id = joined(prefix, percent_encode(device.id.as_str()).as_str());
            items.push(CheckItemModel { id, text: device.name.clone(), enabled: connected, checked });
            proof {
                shown = shown.push(*device);
            }
        }
        i = i + 1;
    }
    assert(devices@.take(devices@.len() as int) =~= devices@);
    if items.len() == 0 {
        let text = if connected { owned("사용 가능한 장치 없음") } else { owned("Sonar 연결 확인 중…") };
        let placeholder = MenuItemModel { id: joined(prefix, "empty"), text, enabled: false };
        return SubmenuModel { text: owned(label), enabled: false, items, placeholder: Some(placeholder) };
    }
    SubmenuModel { text: owned(label), enabled: connected, items, placeholder: None }
}

/// The text of the status item.
pub open spec fn status_text(snapshot: Option<&AppSnapshot>) -> Seq<char> {
    match snapshot {
        Some(value) => match value.personal_device_name {
            Some(name) => "현재: "@ + name@,
            None => value.message@,
        },
        None => "연결 상태 확인 중…"@,
    }
}

/// The text of the toggle item.
pub open spec fn toggle_text(snapshot: Option<&AppSnapshot>) -> Seq<char> {
    match snapshot {
        Some(value) => if optional_view(value.personal_device_id) == optional_view(value.settings.headset_device_id) {
            "스피커로 전환"@
        } else {
            "헤드셋으로 전환"@
        },
        None => "헤드셋 ↔ 스피커 전환"@,
    }
}

/// Whether the toggle item can be clicked.
pub open spec fn can_toggle(snapshot: Option<&AppSnapshot>) -> bool {
    snapshot matches Some(value) && value.status == ConnectionStatus::Connected
        && value.settings.headset_device_id is Some && value.settings.speaker_device_id is Some
}

/// Whether two optional texts hold the same characters.
fn same_optional_text(a: &Option<String>, b: &Option<String>) -> (same: bool)
    ensures
        same == (optional_view(*a) == optional_view(*b)),
{
    match (a, b) {
        (Some(x), Some(y)) => same_text(x.as_str(), y.as_str()),
        (None, None) => true,
        _ => false,
    }
}

/// The tray menu for a snapshot, or for none yet.
pub fn create_menu(snapshot: Option<&AppSnapshot>) -> (menu: TrayMenuModel)
    ensures
        menu.status.id@ == "status"@ && menu.status.text@ == status_text(snapshot) && !menu.status.enabled,
        menu.toggle.id@ == "toggle"@ && menu.toggle.text@ == toggle_text(snapshot)
            && menu.toggle.enabled == can_toggle(snapshot),
        match snapshot {
            Some(value) => {
                let connected = value.status == ConnectionStatus::Connected;
                &&& offers_devices(menu.personal, "개인 믹스"@, personal_prefix(), value.devices@, optional_view(value.personal_device_id), connected)
                &&& offers_devices(menu.stream, "스트림 믹스"@, stream_prefix(), value.devices@, optional_view(value.stream_device_id), connected)
                &&& offers_devices(menu.mic, "마이크 입력"@, mic_prefix(), value.input_devices@, optional_view(value.mic_device_id), connected)
            },
            None => {
                &&& offers_devices(menu.personal, "개인 믹스"@, personal_prefix(), Seq::empty(), None, false)
                &&& offers_devices(menu.stream, "스트림 믹스"@, stream_prefix(), Seq::empty(), None, false)
                &&& offers_devices(menu.mic, "마이크 입력"@, mic_prefix(), Seq::empty(), None, false)
            },
        },
        menu.show.id@ == "show"@ && menu.show.text@ == "Better Sonar 열기"@ && menu.show.enabled,
        menu.quit.id@ == "quit"@ && menu.quit.text@ == "종료"@ && menu.quit.enabled,
{
    let status_text = match snapshot {
        Some(value) => match &value.personal_device_name {
            Some(name) => joined("현재: ", name.as_str()),
            None => value.message.clone(),
        },
        None => owned("연결 상태 확인 중…"),
    };
    let status = MenuItemModel { id: owned("status"), text: status_text, enabled: false };
    let toggle_text = match snapshot {
        Some(value) => if same_optional_text(&value.personal_device_id, &value.settings.headset_device_id) {
            owned("스피커로 전환")
        } else {
            owned("헤드셋으로 전환")
        },
        None => owned("헤드셋 ↔ 스피커 전환"),
    };
    let can_toggle = match snapshot {
        Some(value) => value.status == ConnectionStatus::Connected && value.settings.headset_device_id.is_some()
            && value.settings.speaker_device_id.is_some(),
        None => false,
    };
    let toggle = MenuItemModel { id: owned("toggle"), text: toggle_text, enabled: can_toggle };
    let none: Option<String> = None;
    let no_devices: Vec<AudioDevice> = Vec::new();
    let (personal, stream, mic) = match snapshot {
        Some(value) => {
            let connected = value.status == ConnectionStatus::Connected;
            (
                device_submenu("개인 믹스", "personal-device:", &value.devices, &value.personal_device_id, connected),
                device_submenu("스트림 믹스", "stream-device:", &value.devices, &value.stream_device_id, connected),
                device_submenu("마이크 입력", "mic-device:", &value.input_devices, &value.mic_device_id, connected),
            )
        },
        None => {
            assert(no_devices@ =~= Seq::<AudioDevice>::empty());
            (
                device_submenu("개인 믹스", "personal-device:", &no_devices, &none, false),
                device_submenu("스트림 믹스", "stream-device:", &no_devices, &none, false),
                device_submenu("마이크 입력", "mic-device:", &no_devices, &none, false),
            )
        },
    };
    let show = MenuItemModel { id: owned("show"), text: owned("Better Sonar 열기"), enabled: true };
    let quit = MenuItemModel { id: owned("quit"), text: owned("종료"), enabled: true };
    TrayMenuModel { status, toggle, personal, stream, mic, show, quit }
}

/// The tooltip of the tray icon.
pub fn tooltip(snapshot: &AppSnapshot) -> (text: String)
    ensures
        text@ == "Better Sonar · "@ + match snapshot.personal_device_name {
            Some(name) => name@,
            None => snapshot.message@,
        },
{
    match &snapshot.personal_device_name {
        Some(name) => joined("Better Sonar · ", name.as_str()),
        None => joined("Better Sonar · ", snapshot.message.as_str()),
    }
}

/// The device id of a device item's event id with this prefix: the rest of
/// the id after the prefix, percent-decoded.
pub fn device_id_from_event(event_id: &str, prefix: &str) -> (device_id: Option<String>)
    ensures
        has_prefix(event_id@, prefix@) ==> optional_text(device_id) == percent_decoded(event_id@.skip(prefix@.len() as int)),
        forall|id: Seq<char>| #[trigger] device_item_id(prefix@, id) == event_id@ ==> (device_id matches Some(found) && found@ == id),
        !has_prefix(event_id@, prefix@) ==> device_id is None,
{
    match strip_prefix(event_id, prefix) {
        Some(encoded) => {
            let decoded = percent_decode(encoded);
            proof {
                assert forall|id: Seq<char>| #[trigger] device_item_id(prefix@, id) == event_id@ implies (decoded matches Some(
                    found,
                ) && found@ == id) by {
                    assert(event_id@.skip(prefix@.len() as int) =~= percent_encoded(id));
                }
            }
            decoded
        },
        None => {
            proof {
                assert forall|id: Seq<char>| #[trigger] device_item_id(prefix@, id) == event_id@ implies false by {
                    assert(event_id@.take(prefix@.len() as int) =~= prefix@);
                }
            }
            None
        },
    }
}

/// What a click on a tray menu item asks for.
#[derive(Clone, Debug, PartialEq, Eq)]
pub enum MenuCommand {
    Toggle,
    Show,
    Quit,
    SetPersonalOutput(String),
    SetStreamOutput(String),
    SetMicInput(String),
    Ignore,
}

/// The fixed items have different ids.
proof fn lemma_fixed_items_differ()
    ensures
        "toggle"@ != "show"@,
        "toggle"@ != "quit"@,
        "show"@ != "quit"@,
{
    reveal_strlit("toggle");
    reveal_strlit("show");
    reveal_strlit("quit");
    assert("toggle"@.len() == 6 && "show"@.len() == 4);
    assert("show"@[0] == 's' && "quit"@[0] == 'q');
}

/// The item of a device is not one of the fixed items, nor an item of
/// another kind of device.
proof fn lemma_item_kinds_differ(id: Seq<char>)
    ensures
        device_item_id(stream_prefix(), id) != "toggle"@,
        device_item_id(stream_prefix(), id) != "show"@,
        device_item_id(stream_prefix(), id) != "quit"@,
        device_item_id(mic_prefix(), id) != "toggle"@,
        device_item_id(mic_prefix(), id) != "show"@,
        device_item_id(mic_prefix(), id) != "quit"@,
        device_item_id(personal_prefix(), id) != "toggle"@,
        device_item_id(personal_prefix(), id) != "show"@,
        device_item_id(personal_prefix(), id) != "quit"@,
        !has_prefix(device_item_id(stream_prefix(), id), personal_prefix()),
        !has_prefix(device_item_id(mic_prefix(), id), personal_prefix()),
        !has_prefix(device_item_id(mic_prefix(), id), stream_prefix()),
{
    reveal_strlit("toggle");
    reveal_strlit("show");
    reveal_strlit("quit");
    reveal_strlit("personal-device:");
    reveal_strlit("stream-device:");
    reveal_strlit("mic-device:");
    let s = device_item_id(stream_prefix(), id);
    let m = device_item_id(mic_prefix(), id);
    let p = device_item_id(personal_prefix(), id);
    assert(s[0] == 's' && m[0] == 'm' && p[0] == 'p');
    assert(s.len() >= 14 && m.len() >= 11 && p.len() >= 16);
    if has_prefix(s, personal_prefix()) {
        assert(s.take(16)[0] == 'p');
    }
    if has_prefix(m, personal_prefix()) {
        assert(m.take(16)[0] == 'p');
    }
    if has_prefix(m, stream_prefix()) {
        assert(m.take(14)[0] == 's');
    }
}

/// The command of a click on the tray menu item with this id. Each device
/// item leads back to its own kind of change and to the device it shows.
pub fn menu_command(event_id: &str) -> (command: MenuCommand)
    ensures
        event_id@ == "toggle"@ ==> command == MenuCommand::Toggle,
        event_id@ == "show"@ ==> command == MenuCommand::Show,
        event_id@ == "quit"@ ==> command == MenuCommand::Quit,
        forall|id: Seq<char>| #[trigger] device_item_id(personal_prefix(), id) == event_id@
            ==> (command matches MenuCommand::SetPersonalOutput(found) && found@ == id),
        forall|id: Seq<char>| #[trigger] device_item_id(stream_prefix(), id) == event_id@
            ==> (command matches MenuCommand::SetStreamOutput(found) && found@ == id),
        forall|id: Seq<char>| #[trigger] device_item_id(mic_prefix(), id) == event_id@
            ==> (command matches MenuCommand::SetMicInput(found) && found@ == id),
{
    proof {
        lemma_fixed_items_differ();
    }
    if same_text(event_id, "toggle") {
        proof {
            assert forall|id: Seq<char>| true implies device_item_id(personal_prefix(), id) != event_id@
                && device_item_id(stream_prefix(), id) != event_id@ && device_item_id(mic_prefix(), id) != event_id@ by {
                lemma_item_kinds_differ(id);
            }
        }
        return MenuCommand::Toggle;
    }
    if same_text(event_id, "show") {
        proof {
            assert forall|id: Seq<char>| true implies device_item_id(personal_prefix(), id) != event_id@
                && device_item_id(stream_prefix(), id) != event_id@ && device_item_id(mic_prefix(), id) != event_id@ by {
                lemma_item_kinds_differ(id);
            }
        }
        return MenuCommand::Show;
    }
    if same_text(event_id, "quit") {
        proof {
            assert forall|id: Seq<char>| true implies device_item_id(personal_prefix(), id) != event_id@
                && device_item_id(stream_prefix(), id) != event_id@ && device_item_id(mic_prefix(), id) != event_id@ by {
                lemma_item_kinds_differ(id);
            }
        }
        return MenuCommand::Quit;
    }
    match device_id_from_event(event_id, "personal-device:") {
        Some(device_id) => {
            proof {
                assert forall|id: Seq<char>| true implies device_item_id(stream_prefix(), id) != event_id@
                    && device_item_id(mic_prefix(), id) != event_id@ by {
                    lemma_item_kinds_differ(id);
                }
            }
            return MenuCommand::SetPersonalOutput(device_id);
        },
        None => {},
    }
    match device_id_from_event(event_id, "stream-device:") {
        Some(device_id) => {
            proof {
                assert forall|id: Seq<char>| true implies device_item_id(mic_prefix(), id) != event_id@ by {
                    lemma_item_kinds_differ(id);
                }
            }
            return MenuCommand::SetStreamOutput(device_id);
        },
        None => {},
    }
    match device_id_from_event(event_id, "mic-device:") {
        Some(device_id) => MenuCommand::SetMicInput(device_id),
        None => MenuCommand::Ignore,
    }
}

} // verus!
