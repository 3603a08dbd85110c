use better_sonar::keys::{
    media_keys_change, KeyReply, KeyRequest, KeyStep, MediaKey, MediaKeySwitch, ShortcutReplacement,
    ShortcutRequest, ShortcutStep, SwitchDirection,
};

fn request(step: KeyStep) -> KeyRequest {
    match step {
        KeyStep::Request(request) => request,
        other => panic!("unexpected {other:?}"),
    }
}

#[test]
fn a_change_of_the_setting_picks_the_direction() {
    assert_eq!(media_keys_change(true, true), None);
    assert_eq!(media_keys_change(false, false), None);
    assert_eq!(media_keys_change(false, true), Some(SwitchDirection::Enable));
    assert_eq!(media_keys_change(true, false), Some(SwitchDirection::Disable));
}

#[test]
fn enabling_registers_the_three_keys_in_order() {
    let (mut switch, first) = MediaKeySwitch::new(SwitchDirection::Enable);
    assert_eq!(first, KeyRequest::Register(MediaKey::VolumeMute));
    assert_eq!(request(switch.step(KeyReply::Accepted)), KeyRequest::Register(MediaKey::VolumeDown));
    assert_eq!(request(switch.step(KeyReply::Accepted)), KeyRequest::Register(MediaKey::VolumeUp));
    assert!(matches!(switch.step(KeyReply::Accepted), KeyStep::Finished(Ok(()))));
}

#[test]
fn a_refused_key_undoes_the_keys_already_registered() {
    let (mut switch, _) = MediaKeySwitch::new(SwitchDirection::Enable);
    switch.step(KeyReply::Accepted);
    switch.step(KeyReply::Accepted);
    assert_eq!(
        request(switch.step(KeyReply::Refused("busy".to_string()))),
        KeyRequest::Unregister(MediaKey::VolumeMute)
    );
    assert_eq!(
        request(switch.step(KeyReply::Accepted)),
        KeyRequest::Unregister(MediaKey::VolumeDown)
    );
    match switch.step(KeyReply::Refused("ignored".to_string())) {
        KeyStep::Finished(Err(text)) => assert_eq!(
            text,
            "AudioVolumeUp 미디어 키를 등록하지 못했습니다. 다른 앱과의 글로벌 키 충돌일 수 있습니다: busy"
        ),
        other => panic!("unexpected {other:?}"),
    }
}

#[test]
fn a_refused_first_key_fails_at_once() {
    let (mut switch, first) = MediaKeySwitch::new(SwitchDirection::Disable);
    assert_eq!(first, KeyRequest::Unregister(MediaKey::VolumeMute));
    match switch.step(KeyReply::Refused("gone".to_string())) {
        KeyStep::Finished(Err(text)) => {
            assert_eq!(text, "AudioVolumeMute 미디어 키 등록을 해제하지 못했습니다: gone")
        }
        other => panic!("unexpected {other:?}"),
    }
}

#[test]
fn disabling_puts_back_what_it_released_on_failure() {
    let (mut switch, _) = MediaKeySwitch::new(SwitchDirection::Disable);
    switch.step(KeyReply::Accepted);
    assert_eq!(
        request(switch.step(KeyReply::Refused("gone".to_string()))),
        KeyRequest::Register(MediaKey::VolumeMute)
    );
    assert!(matches!(switch.step(KeyReply::Accepted), KeyStep::Finished(Err(_))));
    assert_eq!(MediaKey::VolumeDown.name(), "AudioVolumeDown");
}

#[test]
fn replacing_the_shortcut_registers_new_then_releases_old() {
    let (mut replacement, first) = ShortcutReplacement::new(Ok(()), Ok(()), false);
    assert!(matches!(first, ShortcutStep::Request(ShortcutRequest::RegisterNew)));
    assert!(matches!(
        replacement.step(KeyReply::Accepted),
        ShortcutStep::Request(ShortcutRequest::UnregisterOld)
    ));
    assert!(matches!(replacement.step(KeyReply::Accepted), ShortcutStep::Finished(Ok(()))));
}

#[test]
fn replacing_with_the_same_shortcut_does_nothing() {
    let (_, first) = ShortcutReplacement::new(Ok(()), Ok(()), true);
    assert!(matches!(first, ShortcutStep::Finished(Ok(()))));
    let (_, first) = ShortcutReplacement::new(Err("old".to_string()), Ok(()), false);
    assert!(matches!(first, ShortcutStep::Finished(Err(text)) if text == "old"));
    let (_, first) = ShortcutReplacement::new(Ok(()), Err("new".to_string()), false);
    assert!(matches!(first, ShortcutStep::Finished(Err(text)) if text == "new"));
}

#[test]
fn a_refused_new_shortcut_keeps_the_old_one() {
    let (mut replacement, _) = ShortcutReplacement::new(Ok(()), Ok(()), false);
    match replacement.step(KeyReply::Refused("taken".to_string())) {
        ShortcutStep::Finished(Err(text)) => {
            assert_eq!(text, "다른 앱이 사용 중인 단축키이거나 등록할 수 없습니다: taken")
        }
        other => panic!("unexpected {other:?}"),
    }
}

#[test]
fn an_old_shortcut_that_cannot_be_released_releases_the_new_one() {
    let (mut replacement, _) = ShortcutReplacement::new(Ok(()), Ok(()), false);
    replacement.step(KeyReply::Accepted);
    assert!(matches!(
        replacement.step(KeyReply::Refused("stuck".to_string())),
        ShortcutStep::Request(ShortcutRequest::UnregisterNew)
    ));
    match replacement.step(KeyReply::Accepted) {
        ShortcutStep::Finished(Err(text)) => assert_eq!(text, "이전 단축키 등록을 해제하지 못했습니다: stuck"),
        other => panic!("unexpected {other:?}"),
    }
}
