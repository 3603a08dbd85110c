use better_sonar::models::AppSettings;
use better_sonar::settings_flow::{SettingsReply, SettingsRequest, SettingsSave, SettingsStep};

fn settings(shortcut: &str, autostart: bool, media_keys_enabled: bool) -> AppSettings {
    AppSettings {
        headset_device_id: Some("headset".to_string()),
        speaker_device_id: Some("speaker".to_string()),
        shortcut: shortcut.to_string(),
        autostart,
        media_keys_enabled,
    }
}

fn request(step: SettingsStep) -> SettingsRequest {
    match step {
        SettingsStep::Request(request) => request,
        other => panic!("unexpected {other:?}"),
    }
}

#[test]
fn saving_applies_shortcut_autostart_file_and_media_keys_in_order() {
    let (mut save, first) = SettingsSave::new(settings("Ctrl+Alt+F9", false, true), settings("Ctrl+Shift+F10", true, false));
    assert!(matches!(request(first), SettingsRequest::ApplyShortcut(value) if value == "Ctrl+Shift+F10"));
    assert!(matches!(request(save.step(SettingsReply::Done)), SettingsRequest::SetAutostart(true)));
    assert!(matches!(request(save.step(SettingsReply::Done)), SettingsRequest::Persist));
    assert!(matches!(request(save.step(SettingsReply::Done)), SettingsRequest::SwitchMediaKeys(false)));
    assert!(matches!(save.step(SettingsReply::Done), SettingsStep::Finished(Ok(()))));
}

#[test]
fn unchanged_settings_are_only_written() {
    let (mut save, first) = SettingsSave::new(settings("F9", false, true), settings("F9", false, true));
    assert!(matches!(request(first), SettingsRequest::Persist));
    assert!(matches!(save.step(SettingsReply::Done), SettingsStep::Finished(Ok(()))));
}

#[test]
fn a_refused_shortcut_puts_the_old_one_back() {
    let (mut save, _) = SettingsSave::new(settings("F9", false, true), settings("F10", true, true));
    assert!(matches!(
        request(save.step(SettingsReply::Failed("taken".to_string()))),
        SettingsRequest::ApplyShortcut(value) if value == "F9"
    ));
    assert!(matches!(save.step(SettingsReply::Done), SettingsStep::Finished(Err(text)) if text == "taken"));
}

#[test]
fn a_failed_autostart_change_puts_the_old_shortcut_back() {
    let (mut save, first) = SettingsSave::new(settings("F9", false, true), settings("F9", true, true));
    assert!(matches!(request(first), SettingsRequest::SetAutostart(true)));
    assert!(matches!(
        request(save.step(SettingsReply::Failed("denied".to_string()))),
        SettingsRequest::ApplyShortcut(value) if value == "F9"
    ));
    assert!(matches!(save.step(SettingsReply::Failed("ignored".to_string())), SettingsStep::Finished(Err(text)) if text == "denied"));
}

#[test]
fn a_failed_write_puts_back_shortcut_and_autostart() {
    let (mut save, _) = SettingsSave::new(settings("F9", false, true), settings("F10", true, true));
    save.step(SettingsReply::Done);
    save.step(SettingsReply::Done);
    assert!(matches!(
        request(save.step(SettingsReply::Failed("disk full".to_string()))),
        SettingsRequest::ApplyShortcut(value) if value == "F9"
    ));
    assert!(matches!(request(save.step(SettingsReply::Done)), SettingsRequest::SetAutostart(false)));
    assert!(matches!(save.step(SettingsReply::Done), SettingsStep::Finished(Err(text)) if text == "disk full"));
}

#[test]
fn a_failed_media_key_switch_keeps_the_written_settings() {
    let (mut save, first) = SettingsSave::new(settings("F9", false, true), settings("F9", false, false));
    assert!(matches!(request(first), SettingsRequest::Persist));
    assert!(matches!(request(save.step(SettingsReply::Done)), SettingsRequest::SwitchMediaKeys(false)));
    assert!(matches!(
        request(save.step(SettingsReply::Failed("busy".to_string()))),
        SettingsRequest::ReportMediaKeyError(text) if text == "busy"
    ));
    assert!(matches!(save.step(SettingsReply::Done), SettingsStep::Finished(Ok(()))));
}
