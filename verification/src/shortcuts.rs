//! Global shortcuts: which keys are the volume media keys, what a key event
//! does, the all-or-nothing registration of the media keys, replacing the
//! user's toggle shortcut, and the auto-repeat of a held volume key.

use vstd::prelude::*;
use crate::sonar::types::PersonalVolumeAction;
use crate::text::{joined, joined3, owned, same_text};

verus! {

/// The names of the three volume media keys, as key codes are written.
pub open spec fn is_media_key_name(key: Seq<char>) -> bool {
    key == "AudioVolumeMute"@ || key == "AudioVolumeDown"@ || key == "AudioVolumeUp"@
}

/// Whether the key, named as key codes are written, is a volume media key.
pub fn is_media_key(key: &str) -> (media: bool)
    ensures
        media == is_media_key_name(key@),
{
    same_text(key, "AudioVolumeMute") || same_text(key, "AudioVolumeDown") || same_text(key, "AudioVolumeUp")
}

/// The volume action of a media key.
pub open spec fn media_key_action(key: Seq<char>) -> Option<PersonalVolumeAction> {
    if key == "AudioVolumeMute"@ {
        Some(PersonalVolumeAction::ToggleMute)
    } else if key == "AudioVolumeDown"@ {
        Some(PersonalVolumeAction::StepDown)
    } else if key == "AudioVolumeUp"@ {
        Some(PersonalVolumeAction::StepUp)
    } else {
        None
    }
}

/// The volume action of a key: mute toggles, down steps down, up steps up,
/// every other key has none.
pub fn media_action(key: &str) -> (action: Option<PersonalVolumeAction>)
    ensures
        action == media_key_action(key@),
        action is Some <==> is_media_key_name(key@),
{
    if same_text(key, "AudioVolumeMute") {
        Some(PersonalVolumeAction::ToggleMute)
    } else if same_text(key, "AudioVolumeDown") {
        Some(PersonalVolumeAction::StepDown)
    } else if same_text(key, "AudioVolumeUp") {
        Some(PersonalVolumeAction::StepUp)
    } else {
        None
    }
}

/// The text of a user shortcut that does not parse.
pub open spec fn malformed_shortcut_text(detail: Seq<char>) -> Seq<char> {
    "단축키 형식이 올바르지 않습니다: "@ + detail
}

/// The text of a user shortcut on a reserved media key.
pub open spec fn reserved_key_text() -> Seq<char> {
    "음량 미디어 키는 Personal Mix 음량 제어용으로 예약되어 있습니다"@
}

/// Accepts a user shortcut given the outcome of parsing it: the name of its
/// key, or the parser's error text. The volume media keys are reserved.
pub fn check_user_shortcut(parsed: Result<String, String>) -> (checked: Result<(), String>)
    ensures
        match parsed {
            Err(detail) => checked matches Err(text) && text@ == malformed_shortcut_text(detail@),
            Ok(key) => if is_media_key_name(key@) {
                checked matches Err(text) && text@ == reserved_key_text()
            } else {
                checked is Ok
            },
        },
{
    match parsed {
        Err(detail) => Err(joined("단축키 형식이 올바르지 않습니다: ", detail.as_str())),
        Ok(key) => if is_media_key(key.as_str()) {
            Err(owned("음량 미디어 키는 Personal Mix 음량 제어용으로 예약되어 있습니다"))
        } else {
            Ok(())
        },
    }
}

/// The text of a shortcut that could not be registered.
pub open spec fn unregistrable_text(detail: Seq<char>) -> Seq<char> {
    "다른 앱이 사용 중인 단축키이거나 등록할 수 없습니다: "@ + detail
}

/// The error for a shortcut that could not be registered.
pub fn registration_error(detail: &str) -> (text: String)
    ensures
        text@ == unregistrable_text(detail@),
{
    joined("다른 앱이 사용 중인 단축키이거나 등록할 수 없습니다: ", detail)
}

/// What a key event does.
#[derive(Clone, Copy, Debug, PartialEq, Eq, Structural)]
pub enum ShortcutReaction {
    /// Toggle the Personal Mix between the headset and the speaker.
    Toggle,
    /// A volume key went down.
    VolumePressed(PersonalVolumeAction),
    /// A volume key came up.
    VolumeReleased(PersonalVolumeAction),
    /// Nothing.
    Ignore,
}

/// What a key event does: where the media keys are handled, a volume key's
/// press and release go to its action; any other press toggles the output.
pub open spec fn reaction_to(key: Seq<char>, pressed: bool, media_keys_handled: bool) -> ShortcutReaction {
    if media_keys_handled && media_key_action(key) is Some {
        if pressed {
            ShortcutReaction::VolumePressed(media_key_action(key)->0)
        } else {
            ShortcutReaction::VolumeReleased(media_key_action(key)->0)
        }
    } else if pressed {
        ShortcutReaction::Toggle
    } else {
        ShortcutReaction::Ignore
    }
}

/// What a key event does.
pub fn shortcut_reaction(key: &str, pressed: bool, media_keys_handled: bool) -> (reaction: ShortcutReaction)
    ensures
        reaction == reaction_to(key@, pressed, media_keys_handled),
{
    if media_keys_handled {
        match media_action(key) {
            Some(action) => {
                return if pressed {
                    ShortcutReaction::VolumePressed(action)
                } else {
                    ShortcutReaction::VolumeReleased(action)
                };
            },
            None => {},
        }
    }
    if pressed {
        ShortcutReaction::Toggle
    } else {
        ShortcutReaction::Ignore
    }
}

/// The three volume media key names differ from each other.
proof fn lemma_media_key_names_differ()
    ensures
        "AudioVolumeMute"@ != "AudioVolumeDown"@,
        "AudioVolumeMute"@ != "AudioVolumeUp"@,
        "AudioVolumeDown"@ != "AudioVolumeUp"@,
{
    reveal_strlit("AudioVolumeMute");
    reveal_strlit("AudioVolumeDown");
    reveal_strlit("AudioVolumeUp");
    assert("AudioVolumeMute"@[11] != "AudioVolumeDown"@[11]);
    assert("AudioVolumeMute"@.len() != "AudioVolumeUp"@.len());
    assert("AudioVolumeDown"@.len() != "AudioVolumeUp"@.len());
}

/// Where the media keys are handled, each volume key's press starts its own
/// action and each release, of any of the three keys, stops that same
/// action: mute toggles Master - Personal's mute, down steps it down, up
/// steps it up.
pub proof fn volume_keys_press_and_release_their_action(pressed: bool)
    ensures
        reaction_to("AudioVolumeMute"@, pressed, true) == if pressed {
            ShortcutReaction::VolumePressed(PersonalVolumeAction::ToggleMute)
        } else {
            ShortcutReaction::VolumeReleased(PersonalVolumeAction::ToggleMute)
        },
        reaction_to("AudioVolumeDown"@, pressed, true) == if pressed {
            ShortcutReaction::VolumePressed(PersonalVolumeAction::StepDown)
        } else {
            ShortcutReaction::VolumeReleased(PersonalVolumeAction::StepDown)
        },
        reaction_to("AudioVolumeUp"@, pressed, true) == if pressed {
            ShortcutReaction::VolumePressed(PersonalVolumeAction::StepUp)
        } else {
            ShortcutReaction::VolumeReleased(PersonalVolumeAction::StepUp)
        },
{
    lemma_media_key_names_differ();
}

/// Any other key, and every key where the media keys are not handled,
/// toggles the output when pressed and does nothing when released.
pub proof fn other_keys_toggle_on_press(key: Seq<char>, pressed: bool, media_keys_handled: bool)
    ensures
        key != "AudioVolumeMute"@ && key != "AudioVolumeDown"@ && key != "AudioVolumeUp"@ || !media_keys_handled
            ==> reaction_to(key, pressed, media_keys_handled) == if pressed {
                ShortcutReaction::Toggle
            } else {
                ShortcutReaction::Ignore
            },
{
}

} // verus!
