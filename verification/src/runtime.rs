//! The application's decisions around Sonar: the snapshot a refresh yields,
//! which device a toggle switches to, and which settings may be saved.

use vstd::prelude::*;
use crate::models::{AppSettings, AppSnapshot, AudioDevice, ConnectionStatus};
use crate::sonar::state_query::SonarState;
use crate::sonar::types::{error_text, SonarError};
use crate::text::{owned, same_text};
use crate::models::unix_millis;

verus! {

/// The status the user sees for an error.
pub open spec fn status_of_error(error: SonarError) -> ConnectionStatus {
    match error {
        SonarError::GgNotRunning => ConnectionStatus::GgNotRunning,
        SonarError::SonarDisabled => ConnectionStatus::SonarDisabled,
        SonarError::SonarStarting => ConnectionStatus::SonarStarting,
        SonarError::WrongMode => ConnectionStatus::WrongMode,
        SonarError::ApiChanged(_) => ConnectionStatus::ApiChanged,
        SonarError::DeviceUnavailable | SonarError::Transport(_) | SonarError::Verification(_) => ConnectionStatus::CommunicationError,
    }
}

/// The snapshot shows the error: its status and text, the settings, and
/// nothing from Sonar.
pub open spec fn shows_error(snapshot: AppSnapshot, error: SonarError, settings: AppSettings) -> bool {
    &&& snapshot.status == status_of_error(error)
    &&& snapshot.message@ == error_text(error)
    &&& snapshot.mode is None
    &&& snapshot.devices@.len() == 0
    &&& snapshot.input_devices@.len() == 0
    &&& snapshot.personal_device_id is None
    &&& snapshot.personal_device_name is None
    &&& snapshot.stream_device_id is None
    &&& snapshot.mic_device_id is None
    &&& snapshot.settings == settings
}

/// The snapshot for a failed refresh: the error's status and text, nothing
/// from Sonar.
pub fn snapshot_from_error(error: SonarError, settings: AppSettings) -> (snapshot: AppSnapshot)
    ensures
        shows_error(snapshot, error, settings),
{
    let status = match &error {
        SonarError::GgNotRunning => ConnectionStatus::GgNotRunning,
        SonarError::SonarDisabled => ConnectionStatus::SonarDisabled,
        SonarError::SonarStarting => ConnectionStatus::SonarStarting,
        SonarError::WrongMode => ConnectionStatus::WrongMode,
        SonarError::ApiChanged(_) => ConnectionStatus::ApiChanged,
        SonarError::DeviceUnavailable | SonarError::Transport(_) | SonarError::Verification(_) => ConnectionStatus::CommunicationError,
    };
    AppSnapshot::disconnected(status, error.message(), settings)
}

/// The first listed device with this id.
pub open spec fn device_with_id(devices: Seq<AudioDevice>, id: Seq<char>) -> Option<AudioDevice>
    decreases devices.len(),
{
    if devices.len() == 0 {
        None
    } else if devices[0].id@ == id {
        Some(devices[0])
    } else {
        device_with_id(devices.drop_first(), id)
    }
}

/// The device is listed and active.
pub open spec fn is_active_listed(devices: Seq<AudioDevice>, id: Seq<char>) -> bool {
    exists|i: int| 0 <= i < devices.len() && #[trigger] devices[i].id@ == id && devices[i].state@ == "active"@
}

/// A saved device is not among the active listed devices.
pub open spec fn selection_missing(settings: AppSettings, devices: Seq<AudioDevice>) -> bool {
    ||| settings.headset_device_id matches Some(id) && !is_active_listed(devices, id@)
    ||| settings.speaker_device_id matches Some(id) && !is_active_listed(devices, id@)
}

/// The message of a connected snapshot.
pub open spec fn connected_message(missing: bool) -> Seq<char> {
    if missing {
        "저장된 장치 중 하나가 연결되어 있지 않습니다"@
    } else {
        "Sonar for Streamers에 연결되었습니다"@
    }
}

/// The name of the first listed device with this id.
fn name_of_device(devices: &Vec<AudioDevice>, id: &str) -> (name: Option<String>)
    ensures
        match device_with_id(devices@, id@) {
            Some(device) => name == Some(device.name),
            None => name is None,
        },
{
    let mut i: usize = 0;
    assert(devices@.skip(0) =~= devices@);
    while i < devices.len()
        invariant
            i <= devices@.len(),
            device_with_id(devices@, id@) == device_with_id(devices@.skip(i as int), id@),
        decreases devices.len() - i,
    {
        assert(devices@.skip(i as int).drop_first() =~= devices@.skip(i + 1));
        if same_text(devices[i].id.as_str(), id) {
            return Some(devices[i].name.clone());
        }
        i = i + 1;
    }
    assert(devices@.skip(i as int).len() == 0);
    None
}

/// Whether the device is listed and active.
fn active_listed(devices: &Vec<AudioDevice>, id: &str) -> (yes: bool)
    ensures
        yes == is_active_listed(devices@, id@),
{
    let mut i: usize = 0;
    while i < devices.len()
        invariant
            i <= devices@.len(),
            forall|j: int| 0 <= j < i ==> !(#[trigger] devices@[j].id@ == id@ && devices@[j].state@ == "active"@),
        decreases devices.len() - i,
    {
        if same_text(devices[i].id.as_str(), id) && same_text(devices[i].state.as_str(), "active") {
            return true;
        }
        i = i + 1;
    }
    false
}

/// The snapshot shows Sonar's state: connected, Sonar's mode, output and
/// input devices, mixes and microphone, the name of the Personal Mix device,
/// the settings, and a message that says whether a saved device is missing.
pub open spec fn shows_state(snapshot: AppSnapshot, state: SonarState, settings: AppSettings) -> bool {
    &&& snapshot.status == ConnectionStatus::Connected
    &&& snapshot.message@ == connected_message(selection_missing(settings, state.devices@))
    &&& snapshot.mode == Some(state.mode)
    &&& snapshot.devices == state.devices
    &&& snapshot.input_devices == state.input_devices
    &&& snapshot.personal_device_id == Some(state.personal_device_id)
    &&& snapshot.mic_device_id == Some(state.mic_device_id)
    &&& snapshot.personal_device_name == (match device_with_id(state.devices@, state.personal_device_id@) {
        Some(device) => Some(device.name),
        None => None,
    })
    &&& snapshot.stream_device_id == Some(state.stream_device_id)
    &&& snapshot.settings == settings
}

/// The snapshot for a successful refresh: connected, Sonar's mode, output
/// and input devices, mixes and microphone, the name of the Personal Mix device, and a message
/// that says whether a saved device is missing.
pub fn connected_snapshot(state: SonarState, settings: AppSettings) -> (snapshot: AppSnapshot)
    ensures
        shows_state(snapshot, state, settings),
{
    let current_name = name_of_device(&state.devices, state.personal_device_id.as_str());
    let headset_missing = match &settings.headset_device_id {
        Some(id) => !active_listed(&state.devices, id.as_str()),
        None => false,
    };
    let speaker_missing = match &settings.speaker_device_id {
        Some(id) => !active_listed(&state.devices, id.as_str()),
        None => false,
    };
    let message = if headset_missing || speaker_missing {
        owned("저장된 장치 중 하나가 연결되어 있지 않습니다")
    } else {
        owned("Sonar for Streamers에 연결되었습니다")
    };
    AppSnapshot {
        status: ConnectionStatus::Connected,
        message,
        mode: Some(state.mode),
        devices: state.devices,
        input_devices: state.input_devices,
        personal_device_id: Some(state.personal_device_id),
        personal_device_name: current_name,
        stream_device_id: Some(state.stream_device_id),
        mic_device_id: Some(state.mic_device_id),
        settings,
        last_updated_at: unix_millis(),
    }
}

/// The snapshot a refresh yields from the outcome of the state query.
pub fn snapshot_after_refresh(outcome: Result<SonarState, SonarError>, settings: AppSettings) -> (snapshot: AppSnapshot)
    ensures
        match outcome {
            Ok(state) => shows_state(snapshot, state, settings),
            Err(error) => shows_error(snapshot, error, settings),
        },
{
    match outcome {
        Ok(state) => connected_snapshot(state, settings),
        Err(error) => snapshot_from_error(error, settings),
    }
}

/// The text of a missing confirmation after a switch.
pub open spec fn unconfirmed_switch_text() -> Seq<char> {
    "전환 후 Personal Mix 상태를 확인하지 못했습니다"@
}

/// Accepts the snapshot read after switching the Personal Mix only when it
/// shows the Personal Mix on the device.
pub fn confirm_output(snapshot: AppSnapshot, device_id: &str) -> (confirmed: Result<AppSnapshot, String>)
    ensures
        (snapshot.personal_device_id matches Some(id) && id@ == device_id@) ==> confirmed == Ok::<AppSnapshot, String>(snapshot),
        !(snapshot.personal_device_id matches Some(id) && id@ == device_id@) ==> (confirmed matches Err(text) && text@ == unconfirmed_switch_text()),
{
    let on_device = match &snapshot.personal_device_id {
        Some(id) => same_text(id.as_str(), device_id),
        None => false,
    };
    if on_device {
        Ok(snapshot)
    } else {
        Err(owned("전환 후 Personal Mix 상태를 확인하지 못했습니다"))
    }
}

/// The device a toggle switches the Personal Mix to: the speaker when the
/// Personal Mix is on the headset, the headset otherwise.
pub open spec fn toggle_choice(personal: Option<Seq<char>>, headset: Seq<char>, speaker: Seq<char>) -> Seq<char> {
    if personal == Some(headset) { speaker } else { headset }
}

/// The text of a toggle without a headset.
pub open spec fn no_headset_text() -> Seq<char> {
    "헤드셋 장치를 먼저 선택하세요"@
}

/// The text of a toggle without a speaker.
pub open spec fn no_speaker_text() -> Seq<char> {
    "스피커 장치를 먼저 선택하세요"@
}

/// The text of a headset that is also the speaker.
pub open spec fn same_devices_text() -> Seq<char> {
    "헤드셋과 스피커는 서로 다른 장치여야 합니다"@
}

/// The device a toggle switches to, given the refreshed snapshot and the
/// saved settings; the refusal text otherwise.
pub fn toggle_target(current: &AppSnapshot, settings: &AppSettings) -> (target: Result<String, String>)
    ensures
        current.status != ConnectionStatus::Connected ==> target == Err::<String, String>(current.message),
        current.status == ConnectionStatus::Connected ==> match (settings.headset_device_id, settings.speaker_device_id) {
            (None, _) => target matches Err(text) && text@ == no_headset_text(),
            (Some(_), None) => target matches Err(text) && text@ == no_speaker_text(),
            (Some(headset), Some(speaker)) => if headset@ == speaker@ {
                target matches Err(text) && text@ == same_devices_text()
            } else {
                target matches Ok(device) && device@ == toggle_choice(
                    match current.personal_device_id {
                        Some(id) => Some(id@),
                        None => None,
                    },
                    headset@,
                    speaker@,
                )
            },
        },
{
    if current.status != ConnectionStatus::Connected {
        return Err(current.message.clone());
    }
    let headset = match &settings.headset_device_id {
        Some(id) => id,
        None => return Err(owned("헤드셋 장치를 먼저 선택하세요")),
    };
    let speaker = match &settings.speaker_device_id {
        Some(id) => id,
        None => return Err(owned("스피커 장치를 먼저 선택하세요")),
    };
    if same_text(headset.as_str(), speaker.as_str()) {
        return Err(owned("헤드셋과 스피커는 서로 다른 장치여야 합니다"));
    }
    let on_headset = match &current.personal_device_id {
        Some(id) => same_text(id.as_str(), headset.as_str()),
        None => false,
    };
    if on_headset {
        Ok(speaker.clone())
    } else {
        Ok(headset.clone())
    }
}

/// Toggling twice from either saved device comes back to it, and a toggle
/// always leaves the device it starts on.
pub proof fn toggle_alternates(headset: Seq<char>, speaker: Seq<char>)
    requires
        headset != speaker,
    ensures
        toggle_choice(Some(toggle_choice(Some(headset), headset, speaker)), headset, speaker) == headset,
        toggle_choice(Some(toggle_choice(Some(speaker), headset, speaker)), headset, speaker) == speaker,
        toggle_choice(Some(headset), headset, speaker) != headset,
        toggle_choice(Some(speaker), headset, speaker) != speaker,
{
}

/// A refresh that fails shows the user the status of its error: GG not
/// running, Sonar disabled or starting, the wrong mode and a changed API
/// each keep their own status; an unavailable device, a transport failure
/// and a failed check show as a communication error.
pub proof fn errors_keep_their_status(detail: String)
    ensures
        status_of_error(SonarError::GgNotRunning) == ConnectionStatus::GgNotRunning,
        status_of_error(SonarError::SonarDisabled) == ConnectionStatus::SonarDisabled,
        status_of_error(SonarError::SonarStarting) == ConnectionStatus::SonarStarting,
        status_of_error(SonarError::WrongMode) == ConnectionStatus::WrongMode,
        status_of_error(SonarError::ApiChanged(detail)) == ConnectionStatus::ApiChanged,
        status_of_error(SonarError::DeviceUnavailable) == ConnectionStatus::CommunicationError,
        status_of_error(SonarError::Transport(detail)) == ConnectionStatus::CommunicationError,
        status_of_error(SonarError::Verification(detail)) == ConnectionStatus::CommunicationError,
{
}

/// A toggle goes to the headset whenever the Personal Mix is anywhere but
/// on the saved headset (on the speaker, on a third device, or on none), and
/// to the speaker only when it is on the headset.
pub proof fn toggle_prefers_the_headset(personal: Option<Seq<char>>, headset: Seq<char>, speaker: Seq<char>)
    ensures
        personal != Some(headset) ==> toggle_choice(personal, headset, speaker) == headset,
        personal == Some(headset) ==> toggle_choice(personal, headset, speaker) == speaker,
        toggle_choice(personal, headset, speaker) == headset || toggle_choice(personal, headset, speaker) == speaker,
{
}

/// A saved device counts as connected only through a listed device with its
/// id whose state is `"active"`: a saved headset or speaker that is not
/// listed, or listed only in another state, makes the connected snapshot
/// say that a saved device is missing; when every saved device has an
/// active listing, it does not.
pub proof fn missing_saved_devices_are_flagged(settings: AppSettings, devices: Seq<AudioDevice>)
    ensures
        (settings.headset_device_id matches Some(id)
            && forall|i: int| 0 <= i < devices.len() && #[trigger] devices[i].id@ == id@ ==> devices[i].state@ != "active"@)
            ==> selection_missing(settings, devices),
        (settings.speaker_device_id matches Some(id)
            && forall|i: int| 0 <= i < devices.len() && #[trigger] devices[i].id@ == id@ ==> devices[i].state@ != "active"@)
            ==> selection_missing(settings, devices),
        (settings.headset_device_id matches Some(id) ==> exists|i: int| 0 <= i < devices.len()
            && #[trigger] devices[i].id@ == id@ && devices[i].state@ == "active"@)
            && (settings.speaker_device_id matches Some(id) ==> exists|i: int| 0 <= i < devices.len()
            && #[trigger] devices[i].id@ == id@ && devices[i].state@ == "active"@)
            ==> !selection_missing(settings, devices),
        connected_message(true) == "저장된 장치 중 하나가 연결되어 있지 않습니다"@,
        connected_message(false) == "Sonar for Streamers에 연결되었습니다"@,
{
}

/// Settings may be saved unless the headset is also the speaker.
pub fn validate_settings(value: &AppSettings) -> (checked: Result<(), String>)
    ensures
        (value.headset_device_id matches Some(headset) && value.speaker_device_id matches Some(speaker)
            && headset@ == speaker@) ==> (checked matches Err(text) && text@ == same_devices_text()),
        !(value.headset_device_id matches Some(headset) && value.speaker_device_id matches Some(speaker)
            && headset@ == speaker@) ==> checked is Ok,
{
    let same = match (&value.headset_device_id, &value.speaker_device_id) {
        (Some(headset), Some(speaker)) => same_text(headset.as_str(), speaker.as_str()),
        _ => false,
    };
    if same {
        Err(owned("헤드셋과 스피커는 서로 다른 장치여야 합니다"))
    } else {
        Ok(())
    }
}

} // verus!
