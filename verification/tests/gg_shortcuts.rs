use better_sonar::gg::{
    authentication_message, environment_text, environment_unreadable, environment_value, gg_connection,
    shortcut_event_message, shortcut_id, DeliveryStage, GgReply, GgRequest, GgStep, ShortcutDelivery,
};
use better_sonar::sonar::types::{PersonalVolumeAction, SonarError};

#[test]
fn maps_personal_master_actions_to_sonar_shortcuts() {
    assert_eq!(shortcut_id(PersonalVolumeAction::StepUp), 22);
    assert_eq!(shortcut_id(PersonalVolumeAction::StepDown), 23);
    assert_eq!(shortcut_id(PersonalVolumeAction::ToggleMute), 24);
}

#[test]
fn finds_case_insensitive_values_in_windows_environment_blocks() {
    let environment = "Path=C:\\Windows\0GG_WS_ENDPOINT=wss://127.0.0.1:6327/eventing\0\0";
    assert_eq!(
        environment_value(environment, "gg_ws_endpoint"),
        Some("wss://127.0.0.1:6327/eventing")
    );
    assert_eq!(environment_value(environment, "missing"), None);
}

#[test]
fn environment_lookup_takes_the_first_matching_entry() {
    let environment = "A=1\0a=2\0\0B=3\0";
    assert_eq!(environment_value(environment, "a"), Some("1"));
    assert_eq!(environment_value(environment, "b"), Some("3"));
    assert_eq!(environment_value("NAME=x=y\0", "name"), Some("x=y"));
    assert_eq!(environment_value("KEY=\0", "key"), Some(""));
    assert_eq!(environment_value("KEYS=1\0", "KEY"), None);
}

#[test]
fn environment_text_decodes_utf16_until_the_double_terminator() {
    let text = "GG_WS_ENDPOINT=ws://x\0GG_API_AUTH_TOKEN=abc\0\0rest";
    let bytes: Vec<u8> = text.encode_utf16().flat_map(|unit| unit.to_le_bytes()).collect();
    let decoded = environment_text(&bytes).unwrap();
    assert_eq!(decoded, "GG_WS_ENDPOINT=ws://x\0GG_API_AUTH_TOKEN=abc\0");
    let connection = gg_connection(&decoded).unwrap();
    assert_eq!(connection.endpoint, "ws://x");
    assert_eq!(connection.token, "abc");
}

#[test]
fn environment_text_rejects_unpaired_surrogates() {
    let bytes: Vec<u8> = vec![0x00, 0xD8, 0x41, 0x00];
    assert_eq!(environment_text(&bytes), None);
}

#[test]
fn gg_connection_requires_endpoint_then_token() {
    match gg_connection("GG_API_AUTH_TOKEN=abc\0\0") {
        Err(SonarError::ApiChanged(detail)) => assert_eq!(detail, "Sonar 프로세스에 GG_WS_ENDPOINT가 없습니다"),
        other => panic!("unexpected {other:?}"),
    }
    match gg_connection("GG_WS_ENDPOINT=ws://x\0\0") {
        Err(SonarError::ApiChanged(detail)) => assert_eq!(detail, "Sonar 프로세스에 GG_API_AUTH_TOKEN이 없습니다"),
        other => panic!("unexpected {other:?}"),
    }
    match environment_unreadable("denied") {
        SonarError::Verification(detail) => {
            assert_eq!(detail, "Sonar 프로세스의 GG 연결 정보를 읽지 못했습니다: denied")
        }
        other => panic!("unexpected {other:?}"),
    }
}

#[test]
fn messages_carry_the_shortcut_and_a_quoted_token() {
    assert_eq!(
        shortcut_event_message(PersonalVolumeAction::StepUp),
        "{\"data\":{\"shortcutId\":22},\"event\":\"EVENT_KEYBOARD_SHORTCUT\"}"
    );
    assert_eq!(
        shortcut_event_message(PersonalVolumeAction::ToggleMute),
        "{\"data\":{\"shortcutId\":24},\"event\":\"EVENT_KEYBOARD_SHORTCUT\"}"
    );
    assert_eq!(
        authentication_message("a\"b"),
        "{\"data\":{\"token\":\"a\\\"b\"},\"event\":\"EVENT_SOCKET_AUTHENTICATION_TOKEN\"}"
    );
}

#[test]
fn delivery_sends_at_once_over_an_open_socket() {
    let (mut delivery, request) = ShortcutDelivery::new(PersonalVolumeAction::StepDown, true);
    assert!(matches!(request, GgRequest::Send { message } if message.contains("23")));
    assert!(matches!(delivery.step(GgReply::Sent), GgStep::Finished(Ok(()))));
}

#[test]
fn delivery_retries_a_failed_send_once_over_a_new_connection() {
    let (mut delivery, request) = ShortcutDelivery::new(PersonalVolumeAction::StepUp, true);
    assert!(matches!(request, GgRequest::Send { .. }));
    assert!(matches!(delivery.step(GgReply::SendFailed), GgStep::Request(GgRequest::Connect)));
    assert!(matches!(delivery.step(GgReply::Connected), GgStep::Request(GgRequest::Send { .. })));
    match delivery.step(GgReply::SendFailed) {
        GgStep::Finished(Err(SonarError::Verification(detail))) => {
            assert_eq!(detail, "GG 단축키 이벤트를 Sonar에 전달하지 못했습니다")
        }
        other => panic!("unexpected {other:?}"),
    }
    let _ = DeliveryStage::Finished;
}

#[test]
fn delivery_ends_with_the_connection_error() {
    let (mut delivery, request) = ShortcutDelivery::new(PersonalVolumeAction::ToggleMute, false);
    assert!(matches!(request, GgRequest::Connect));
    match delivery.step(GgReply::ConnectFailed(SonarError::Transport("refused".to_string()))) {
        GgStep::Finished(Err(SonarError::Transport(detail))) => assert_eq!(detail, "refused"),
        other => panic!("unexpected {other:?}"),
    }
}

#[test]
fn tokens_are_escaped_as_json_strings() {
    assert_eq!(
        authentication_message("a\nb\u{1}\\é"),
        "{\"data\":{\"token\":\"a\\nb\\u0001\\\\é\"},\"event\":\"EVENT_SOCKET_AUTHENTICATION_TOKEN\"}"
    );
}

#[test]
fn environment_text_decodes_surrogate_pairs() {
    let text = "K=😀\0\0";
    let bytes: Vec<u8> = text.encode_utf16().flat_map(|unit| unit.to_le_bytes()).collect();
    assert_eq!(environment_text(&bytes), Some("K=😀\0".to_string()));
}
