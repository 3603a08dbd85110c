//! The values that the user interface and the tray show: the connection
//! status, the audio devices, the saved settings and the snapshot of all of it.

use vstd::prelude::*;
use crate::clock::{duration_as_millis, duration_since_unix_epoch, system_time_now};

verus! {

/// How the application currently relates to Sonar.
#[derive(Clone, Copy, Debug, PartialEq, Eq, Structural)]
pub enum ConnectionStatus {
    Connected,
    GgNotRunning,
    SonarDisabled,
    SonarStarting,
    WrongMode,
    ApiChanged,
    CommunicationError,
}

/// A physical audio device as the user interface lists it.
#[derive(Clone, Debug, PartialEq, Eq)]
pub struct AudioDevice {
    pub id: String,
    pub name: String,
    pub state: String,
    pub channels: u32,
}

/// The settings that are saved between runs.
#[derive(Clone, Debug, PartialEq, Eq)]
pub struct AppSettings {
    pub headset_device_id: Option<String>,
    pub speaker_device_id: Option<String>,
    pub shortcut: String,
    pub autostart: bool,
    pub media_keys_enabled: bool,
}

/// Whether the volume media keys are handled when a saved settings file does
/// not say: they are, as before the switch existed.
pub fn default_media_keys_enabled() -> (enabled: bool)
    ensures
        enabled,
{
    true
}

/// The shortcut that toggles the output when nothing else was chosen.
pub open spec fn default_shortcut() -> Seq<char> {
    "Ctrl+Alt+F9"@
}

impl AppSettings {
    /// The settings of a first run: no devices chosen, `Ctrl+Alt+F9`, no
    /// autostart, media keys handled.
    pub open spec fn is_default(&self) -> bool {
        &&& self.headset_device_id is None
        &&& self.speaker_device_id is None
        &&& self.shortcut@ == default_shortcut()
        &&& !self.autostart
        &&& self.media_keys_enabled
    }
}

impl Default for AppSettings {
    fn default() -> (settings: Self)
        ensures
            settings.is_default(),
    {
        AppSettings {
            headset_device_id: None,
            speaker_device_id: None,
            shortcut: String::from_str("Ctrl+Alt+F9"),
            autostart: false,
            media_keys_enabled: default_media_keys_enabled(),
        }
    }
}

/// Copies an optional text exactly.
pub fn copy_optional_text(value: &Option<String>) -> (copy: Option<String>)
    ensures
        copy == *value,
{
    match value {
        Some(text) => Some(text.clone()),
        None => None,
    }
}

/// Copies settings exactly.
pub fn copy_settings(settings: &AppSettings) -> (copy: AppSettings)
    ensures
        copy == *settings,
{
    AppSettings {
        headset_device_id: copy_optional_text(&settings.headset_device_id),
        speaker_device_id: copy_optional_text(&settings.speaker_device_id),
        shortcut: settings.shortcut.clone(),
        autostart: settings.autostart,
        media_keys_enabled: settings.media_keys_enabled,
    }
}

/// The timestamp of an elapsed time since the Unix epoch: its milliseconds
/// truncated to 64 bits, or 0 when the clock reads earlier than the epoch
/// (`elapsed` is `None`).
pub fn millis_since_epoch(elapsed: Option<u128>) -> (millis: u64)
    ensures
        millis == match elapsed {
            Some(m) => (m % 0x1_0000_0000_0000_0000) as u64,
            None => 0,
        },
{
    match elapsed {
        Some(m) => {
            assert(m as u64 == (m % 0x1_0000_0000_0000_0000) as u64) by (bit_vector);
            #[verifier::truncate]
            (m as u64)
        },
        None => 0,
    }
}

/// Milliseconds since the Unix epoch as the wall clock reads it, truncated
/// to 64 bits; 0 when the clock reads earlier than the epoch.
pub fn unix_millis() -> u64 {
    let now = system_time_now();
    let elapsed: Option<u128> = match duration_since_unix_epoch(&now) {
        Some(duration) => Some(duration_as_millis(&duration)),
        None => None,
    };
    millis_since_epoch(elapsed)
}

/// Everything the user interface shows at one moment.
#[derive(Clone, Debug)]
pub struct AppSnapshot {
    pub status: ConnectionStatus,
    pub message: String,
    pub mode: Option<String>,
    pub devices: Vec<AudioDevice>,
    pub input_devices: Vec<AudioDevice>,
    pub personal_device_id: Option<String>,
    pub personal_device_name: Option<String>,
    pub stream_device_id: Option<String>,
    pub mic_device_id: Option<String>,
    pub settings: AppSettings,
    pub last_updated_at: u64,
}

impl AppSnapshot {
    /// A snapshot without Sonar data: the given status, message and settings,
    /// no mode, no devices, no mixes or microphone, stamped with the current time.
    pub fn disconnected(status: ConnectionStatus, message: String, settings: AppSettings) -> (snapshot: Self)
        ensures
            snapshot.status == status,
            snapshot.message == message,
            snapshot.mode is None,
            snapshot.devices@.len() == 0,
            snapshot.input_devices@.len() == 0,
            snapshot.personal_device_id is None,
            snapshot.personal_device_name is None,
            snapshot.stream_device_id is None,
            snapshot.mic_device_id is None,
            snapshot.settings == settings,
    {
        AppSnapshot {
            status,
            message,
            mode: None,
            devices: Vec::new(),
            input_devices: Vec::new(),
            personal_device_id: None,
            personal_device_name: None,
            stream_device_id: None,
            mic_device_id: None,
            settings,
            last_updated_at: unix_millis(),
        }
    }
}

} // verus!
