use better_sonar::models::{AppSettings, AppSnapshot, AudioDevice, ConnectionStatus};
use better_sonar::runtime::snapshot_from_error;
use better_sonar::sonar::types::SonarError;
use better_sonar::tray::{create_menu, device_id_from_event, menu_command, tooltip, MenuCommand};

fn device(id: &str, name: &str, state: &str) -> AudioDevice {
    AudioDevice { id: id.to_string(), name: name.to_string(), state: state.to_string(), channels: 2 }
}

fn connected() -> AppSnapshot {
    AppSnapshot {
        status: ConnectionStatus::Connected,
        message: "Sonar for Streamers에 연결되었습니다".to_string(),
        mode: Some("stream".to_string()),
        devices: vec![
            device("{0.0.0.1}", "Headphones", "active"),
            device("speaker id", "Speakers", "active"),
            device("off", "Old", "disabled"),
        ],
        input_devices: vec![device("mic", "Microphone", "active")],
        personal_device_id: Some("{0.0.0.1}".to_string()),
        personal_device_name: Some("Headphones".to_string()),
        stream_device_id: Some("speaker id".to_string()),
        mic_device_id: Some("mic".to_string()),
        settings: AppSettings {
            headset_device_id: Some("{0.0.0.1}".to_string()),
            speaker_device_id: Some("speaker id".to_string()),
            shortcut: "Ctrl+Alt+F9".to_string(),
            autostart: false,
            media_keys_enabled: true,
        },
        last_updated_at: 1,
    }
}

#[test]
fn menu_lists_active_devices_and_checks_the_current_ones() {
    let snapshot = connected();
    let menu = create_menu(Some(&snapshot));
    assert_eq!(menu.status.text, "현재: Headphones");
    assert!(!menu.status.enabled);
    assert_eq!(menu.toggle.text, "스피커로 전환");
    assert!(menu.toggle.enabled);
    assert_eq!(menu.personal.text, "개인 믹스");
    assert_eq!(menu.personal.items.len(), 2);
    assert!(menu.personal.items[0].checked && !menu.personal.items[1].checked);
    assert!(menu.stream.items[1].checked);
    assert_eq!(menu.mic.items.len(), 1);
    assert!(menu.mic.items[0].checked);
    assert_eq!(menu.show.id, "show");
    assert_eq!(menu.quit.text, "종료");
}

#[test]
fn menu_item_ids_round_trip_to_their_device() {
    let snapshot = connected();
    let menu = create_menu(Some(&snapshot));
    for item in &menu.personal.items {
        match menu_command(&item.id) {
            MenuCommand::SetPersonalOutput(id) => assert!(id == "{0.0.0.1}" || id == "speaker id"),
            other => panic!("unexpected {other:?}"),
        }
    }
    assert_eq!(menu_command(&menu.stream.items[1].id), MenuCommand::SetStreamOutput("speaker id".to_string()));
    assert_eq!(menu_command(&menu.mic.items[0].id), MenuCommand::SetMicInput("mic".to_string()));
    assert_ne!(menu.personal.items[1].id, "personal-device:speaker id");
    assert_eq!(
        device_id_from_event(&menu.personal.items[1].id, "personal-device:"),
        Some("speaker id".to_string())
    );
}

#[test]
fn fixed_items_and_unknown_ids_map_to_commands() {
    assert_eq!(menu_command("toggle"), MenuCommand::Toggle);
    assert_eq!(menu_command("show"), MenuCommand::Show);
    assert_eq!(menu_command("quit"), MenuCommand::Quit);
    assert_eq!(menu_command("status"), MenuCommand::Ignore);
    assert_eq!(device_id_from_event("stream-device:x", "personal-device:"), None);
}

#[test]
fn menu_before_the_first_snapshot_waits_for_sonar() {
    let menu = create_menu(None);
    assert_eq!(menu.status.text, "연결 상태 확인 중…");
    assert_eq!(menu.toggle.text, "헤드셋 ↔ 스피커 전환");
    assert!(!menu.toggle.enabled);
    assert!(!menu.personal.enabled);
    let placeholder = menu.personal.placeholder.unwrap();
    assert_eq!(placeholder.id, "personal-device:empty");
    assert_eq!(placeholder.text, "Sonar 연결 확인 중…");
}

#[test]
fn disconnected_menu_disables_devices_and_shows_the_message() {
    let snapshot = snapshot_from_error(SonarError::SonarDisabled, AppSettings::default());
    let menu = create_menu(Some(&snapshot));
    assert_eq!(menu.status.text, "SteelSeries GG 설정에서 Sonar가 꺼져 있습니다");
    assert_eq!(menu.toggle.text, "스피커로 전환");
    assert!(!menu.toggle.enabled);
    assert_eq!(menu.mic.placeholder.unwrap().text, "Sonar 연결 확인 중…");
    assert_eq!(tooltip(&snapshot), "Better Sonar · SteelSeries GG 설정에서 Sonar가 꺼져 있습니다");
    assert_eq!(tooltip(&connected()), "Better Sonar · Headphones");
}

#[test]
fn toggle_item_offers_the_headset_while_the_speaker_plays() {
    let mut snapshot = connected();
    snapshot.personal_device_id = Some("speaker id".to_string());
    snapshot.personal_device_name = Some("Speakers".to_string());
    let menu = create_menu(Some(&snapshot));
    assert_eq!(menu.toggle.text, "헤드셋으로 전환");
    assert_eq!(menu.status.text, "현재: Speakers");
    assert!(menu.personal.items[1].checked);
    assert_eq!(menu.personal.items[0].id, "personal-device:%7B0.0.0.1%7D");
}

#[test]
fn event_ids_decode_whatever_follows_the_prefix() {
    assert_eq!(device_id_from_event("personal-device:a b", "personal-device:"), Some("a b".to_string()));
    assert_eq!(device_id_from_event("personal-device:%41%42", "personal-device:"), Some("AB".to_string()));
    assert_eq!(device_id_from_event("personal-device:%FF", "personal-device:"), None);
}
