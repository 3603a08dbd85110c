use better_sonar::repeat::{plan_press, MediaKeyRepeatState, PressPlan, RepeatReply, RepeatRequest, VolumeRepeat};
use better_sonar::shortcuts::{
    check_user_shortcut, is_media_key, media_action, registration_error, shortcut_reaction, ShortcutReaction,
};
use better_sonar::sonar::types::PersonalVolumeAction;

#[test]
fn recognizes_only_windows_volume_media_keys() {
    assert!(is_media_key("AudioVolumeMute"));
    assert!(is_media_key("AudioVolumeDown"));
    assert!(is_media_key("AudioVolumeUp"));
    assert!(!is_media_key("F10"));
    assert!(!is_media_key("F11"));
    assert!(!is_media_key("F12"));
}

#[test]
fn routes_each_media_key_to_a_distinct_volume_action() {
    assert_eq!(media_action("AudioVolumeMute"), Some(PersonalVolumeAction::ToggleMute));
    assert_eq!(media_action("AudioVolumeDown"), Some(PersonalVolumeAction::StepDown));
    assert_eq!(media_action("AudioVolumeUp"), Some(PersonalVolumeAction::StepUp));
    assert_eq!(media_action("F10"), None);
    assert_eq!(media_action("F11"), None);
    assert_eq!(media_action("F12"), None);
}

#[test]
fn repeat_state_deduplicates_press_and_stops_on_release() {
    let mut repeats = MediaKeyRepeatState::default();
    let held = repeats.start(PersonalVolumeAction::StepUp).unwrap();

    assert!(repeats.is_held(PersonalVolumeAction::StepUp, held));
    assert!(repeats.start(PersonalVolumeAction::StepUp).is_none());
    assert!(repeats.start(PersonalVolumeAction::StepDown).is_some());

    repeats.stop(PersonalVolumeAction::StepUp);
    assert!(!repeats.is_held(PersonalVolumeAction::StepUp, held));
    assert!(repeats.start(PersonalVolumeAction::StepUp).is_some());
}

#[test]
fn a_stopped_repeat_never_resumes_through_a_later_press() {
    let mut repeats = MediaKeyRepeatState::new();
    let first = repeats.start(PersonalVolumeAction::StepDown).unwrap();
    repeats.stop(PersonalVolumeAction::StepDown);
    let second = repeats.start(PersonalVolumeAction::StepDown).unwrap();
    assert_ne!(first, second);
    assert!(!repeats.is_held(PersonalVolumeAction::StepDown, first));
    assert!(repeats.is_held(PersonalVolumeAction::StepDown, second));
}

#[test]
fn user_shortcut_check_reserves_the_media_keys() {
    assert_eq!(check_user_shortcut(Ok("F9".to_string())), Ok(()));
    for key in ["AudioVolumeMute", "AudioVolumeDown", "AudioVolumeUp"] {
        assert_eq!(
            check_user_shortcut(Ok(key.to_string())),
            Err("음량 미디어 키는 Personal Mix 음량 제어용으로 예약되어 있습니다".to_string())
        );
    }
    assert_eq!(
        check_user_shortcut(Err("bad".to_string())),
        Err("단축키 형식이 올바르지 않습니다: bad".to_string())
    );
    assert_eq!(
        registration_error("taken"),
        "다른 앱이 사용 중인 단축키이거나 등록할 수 없습니다: taken"
    );
}

#[test]
fn key_events_toggle_or_drive_the_volume() {
    assert_eq!(shortcut_reaction("F9", true, true), ShortcutReaction::Toggle);
    assert_eq!(shortcut_reaction("F9", false, true), ShortcutReaction::Ignore);
    assert_eq!(
        shortcut_reaction("AudioVolumeUp", true, true),
        ShortcutReaction::VolumePressed(PersonalVolumeAction::StepUp)
    );
    assert_eq!(
        shortcut_reaction("AudioVolumeMute", false, true),
        ShortcutReaction::VolumeReleased(PersonalVolumeAction::ToggleMute)
    );
    assert_eq!(shortcut_reaction("AudioVolumeUp", true, false), ShortcutReaction::Toggle);
}

#[test]
fn mute_runs_once_and_steps_repeat() {
    let mut repeats = MediaKeyRepeatState::new();
    assert_eq!(plan_press(&mut repeats, PersonalVolumeAction::ToggleMute), PressPlan::RunOnce);
    assert_eq!(plan_press(&mut repeats, PersonalVolumeAction::StepUp), PressPlan::Repeat(0));
    assert_eq!(plan_press(&mut repeats, PersonalVolumeAction::StepUp), PressPlan::Ignore);
    assert_eq!(plan_press(&mut repeats, PersonalVolumeAction::StepDown), PressPlan::Repeat(1));
}

#[test]
fn a_held_key_repeats_after_the_first_delay_until_release() {
    let (mut repeat, first) = VolumeRepeat::new();
    assert_eq!(first, RepeatRequest::Run);
    assert_eq!(repeat.step(RepeatReply::Ran { applied: true }), RepeatRequest::Pause { millis: 350 });
    assert_eq!(repeat.step(RepeatReply::Paused { held: true }), RepeatRequest::Run);
    assert_eq!(repeat.step(RepeatReply::Ran { applied: true }), RepeatRequest::Pause { millis: 90 });
    assert_eq!(repeat.step(RepeatReply::Paused { held: true }), RepeatRequest::Run);
    assert_eq!(repeat.step(RepeatReply::Ran { applied: true }), RepeatRequest::Pause { millis: 90 });
    assert_eq!(repeat.step(RepeatReply::Paused { held: false }), RepeatRequest::Stop);
}

#[test]
fn a_failed_volume_action_stops_the_repeat() {
    let (mut repeat, _) = VolumeRepeat::new();
    assert_eq!(repeat.step(RepeatReply::Ran { applied: false }), RepeatRequest::Stop);
    let (mut repeat, _) = VolumeRepeat::new();
    repeat.step(RepeatReply::Ran { applied: true });
    repeat.step(RepeatReply::Paused { held: true });
    assert_eq!(repeat.step(RepeatReply::Ran { applied: false }), RepeatRequest::Stop);
}

/// The key of a shortcut written as modifiers and a key joined by `+`, as
/// the shortcut parser reads it.
fn key_of(shortcut: &str) -> Result<String, String> {
    match shortcut.rsplit('+').next() {
        Some(key) if !key.is_empty() => Ok(key.to_string()),
        _ => Err(format!("no key in {shortcut}")),
    }
}

#[test]
fn user_shortcuts_cannot_replace_reserved_media_keys() {
    assert!(check_user_shortcut(key_of("Ctrl+Alt+F9")).is_ok());
    assert!(check_user_shortcut(key_of("AudioVolumeMute")).is_err());
    assert!(check_user_shortcut(key_of("AudioVolumeDown")).is_err());
    assert!(check_user_shortcut(key_of("AudioVolumeUp")).is_err());
}
