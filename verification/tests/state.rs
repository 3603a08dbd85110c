use better_sonar::models::{millis_since_epoch, unix_millis, AppSettings, AppSnapshot, AudioDevice, ConnectionStatus};
use better_sonar::runtime::{
    confirm_output, connected_snapshot, snapshot_after_refresh, snapshot_from_error, toggle_target, validate_settings,
};
use better_sonar::sonar::state_query::SonarState;
use better_sonar::sonar::types::SonarError;

fn device(id: &str, name: &str, state: &str) -> AudioDevice {
    AudioDevice { id: id.to_string(), name: name.to_string(), state: state.to_string(), channels: 2 }
}

fn settings(headset: Option<&str>, speaker: Option<&str>) -> AppSettings {
    AppSettings {
        headset_device_id: headset.map(str::to_string),
        speaker_device_id: speaker.map(str::to_string),
        shortcut: "Ctrl+Alt+F9".to_string(),
        autostart: false,
        media_keys_enabled: true,
    }
}

fn sonar_state(personal: &str) -> SonarState {
    SonarState {
        mode: "stream".to_string(),
        devices: vec![device("headset", "Headphones", "active"), device("speaker", "Speakers", "active")],
        input_devices: vec![device("mic", "Microphone", "active")],
        personal_device_id: personal.to_string(),
        stream_device_id: "stream".to_string(),
        mic_device_id: "mic".to_string(),
    }
}

#[test]
fn discovery_errors_keep_their_user_facing_status() {
    let cases = [
        (SonarError::GgNotRunning, ConnectionStatus::GgNotRunning),
        (SonarError::SonarDisabled, ConnectionStatus::SonarDisabled),
        (SonarError::SonarStarting, ConnectionStatus::SonarStarting),
        (SonarError::WrongMode, ConnectionStatus::WrongMode),
        (SonarError::ApiChanged("changed".into()), ConnectionStatus::ApiChanged),
        (SonarError::DeviceUnavailable, ConnectionStatus::CommunicationError),
        (SonarError::Verification("failed".into()), ConnectionStatus::CommunicationError),
    ];

    for (error, expected) in cases {
        assert_eq!(snapshot_from_error(error, AppSettings::default()).status, expected);
    }
}

#[test]
fn error_snapshots_carry_the_error_text_and_nothing_from_sonar() {
    let snapshot = snapshot_from_error(SonarError::Transport("timeout".to_string()), settings(Some("a"), None));
    assert_eq!(snapshot.status, ConnectionStatus::CommunicationError);
    assert_eq!(snapshot.message, "Sonar와 통신할 수 없습니다: timeout");
    assert!(snapshot.mode.is_none() && snapshot.devices.is_empty() && snapshot.personal_device_id.is_none());
    assert_eq!(snapshot.settings, settings(Some("a"), None));
    assert!(snapshot.last_updated_at > 0);
}

#[test]
fn default_settings_use_the_documented_shortcut() {
    let defaults = AppSettings::default();
    assert_eq!(defaults, settings(None, None));
}

#[test]
fn disconnected_snapshot_holds_no_sonar_data() {
    let snapshot = AppSnapshot::disconnected(
        ConnectionStatus::SonarStarting,
        "Sonar 연결을 확인하고 있습니다".to_string(),
        AppSettings::default(),
    );
    assert_eq!(snapshot.status, ConnectionStatus::SonarStarting);
    assert!(snapshot.devices.is_empty() && snapshot.input_devices.is_empty());
    assert!(snapshot.stream_device_id.is_none() && snapshot.mic_device_id.is_none());
}

#[test]
fn connected_snapshot_names_the_personal_device_and_flags_missing_selections() {
    let snapshot = connected_snapshot(sonar_state("speaker"), settings(Some("headset"), Some("speaker")));
    assert_eq!(snapshot.status, ConnectionStatus::Connected);
    assert_eq!(snapshot.message, "Sonar for Streamers에 연결되었습니다");
    assert_eq!(snapshot.personal_device_name.as_deref(), Some("Speakers"));
    assert_eq!(snapshot.mic_device_id.as_deref(), Some("mic"));

    let snapshot = connected_snapshot(sonar_state("headset"), settings(Some("headset"), Some("gone")));
    assert_eq!(snapshot.message, "저장된 장치 중 하나가 연결되어 있지 않습니다");

    let snapshot = snapshot_after_refresh(Ok(sonar_state("elsewhere")), settings(None, None));
    assert_eq!(snapshot.personal_device_name, None);
    let snapshot = snapshot_after_refresh(Err(SonarError::WrongMode), settings(None, None));
    assert_eq!(snapshot.status, ConnectionStatus::WrongMode);
}

#[test]
fn toggle_alternates_between_headset_and_speaker() {
    let on_headset = connected_snapshot(sonar_state("headset"), settings(Some("headset"), Some("speaker")));
    let on_speaker = connected_snapshot(sonar_state("speaker"), settings(Some("headset"), Some("speaker")));
    let chosen = settings(Some("headset"), Some("speaker"));
    assert_eq!(toggle_target(&on_headset, &chosen), Ok("speaker".to_string()));
    assert_eq!(toggle_target(&on_speaker, &chosen), Ok("headset".to_string()));
}

#[test]
fn toggle_refuses_without_a_usable_pair() {
    let current = connected_snapshot(sonar_state("headset"), settings(None, None));
    assert_eq!(
        toggle_target(&current, &settings(None, Some("speaker"))),
        Err("헤드셋 장치를 먼저 선택하세요".to_string())
    );
    assert_eq!(
        toggle_target(&current, &settings(Some("headset"), None)),
        Err("스피커 장치를 먼저 선택하세요".to_string())
    );
    assert_eq!(
        toggle_target(&current, &settings(Some("headset"), Some("headset"))),
        Err("헤드셋과 스피커는 서로 다른 장치여야 합니다".to_string())
    );
    let offline = snapshot_from_error(SonarError::GgNotRunning, settings(None, None));
    assert_eq!(
        toggle_target(&offline, &settings(Some("headset"), Some("speaker"))),
        Err("SteelSeries GG가 실행 중이 아닙니다".to_string())
    );
}

#[test]
fn a_switch_is_confirmed_only_by_the_refreshed_personal_mix() {
    let snapshot = connected_snapshot(sonar_state("speaker"), settings(None, None));
    assert!(confirm_output(snapshot.clone(), "speaker").is_ok());
    assert_eq!(
        confirm_output(snapshot, "headset").unwrap_err(),
        "전환 후 Personal Mix 상태를 확인하지 못했습니다"
    );
}

#[test]
fn settings_with_the_same_headset_and_speaker_are_refused() {
    assert_eq!(
        validate_settings(&settings(Some("x"), Some("x"))),
        Err("헤드셋과 스피커는 서로 다른 장치여야 합니다".to_string())
    );
    assert_eq!(validate_settings(&settings(Some("x"), Some("y"))), Ok(()));
    assert_eq!(validate_settings(&settings(None, None)), Ok(()));
}

#[test]
fn timestamps_truncate_to_64_bits_and_start_at_zero_before_the_epoch() {
    assert_eq!(millis_since_epoch(None), 0);
    assert_eq!(millis_since_epoch(Some(1_752_537_600_000)), 1_752_537_600_000);
    assert_eq!(millis_since_epoch(Some(u64::MAX as u128 + 6)), 5);
    assert!(unix_millis() > 1_600_000_000_000);
}
