use better_sonar::percent::percent_decode;
use better_sonar::sonar::http::{master_write_status, unsupported_master_write_error, StatusOutcome};
use better_sonar::sonar::protocol::{
    MasterVolumeCheck, MasterVolumeReading, SonarQuery, SonarReply, SonarRequest, SonarStep, VolumeStep,
};
use better_sonar::sonar::redirect::RedirectionChange;
use better_sonar::sonar::state_query::{SonarState, StateQuery};
use better_sonar::sonar::types::{PersonalVolumeAction, RawAudioDevice, RawRedirection, RedirectionTarget, SonarError};
use better_sonar::sonar::volume::PersonalVolumeControl;

const HEADSET_ID: &str = "{0.0.0.00000000}.{headset}";
const SPEAKER_ID: &str = "{0.0.0.00000000}.{speaker}";
const STREAM_ID: &str = "{0.0.0.00000000}.{stream}";
const MIC_ID: &str = "{0.0.1.00000000}.{microphone}";
const SECOND_MIC_ID: &str = "{0.0.1.00000000}.{second-microphone}";
const BASE: &str = "http://127.0.0.1:41000";

/// An in-memory Sonar for Streamers that answers the requests of the
/// library's operations the way the Sonar API does.
struct Mock {
    mode: String,
    personal_id: String,
    stream_id: String,
    mic_id: String,
    mutate_stream_on_put: bool,
    ignore_put: bool,
    put_count: usize,
    personal_volume: f32,
    personal_muted: bool,
    streaming_volume: f32,
    volume_put_count: usize,
    ignore_volume_put: bool,
    reject_volume_put: bool,
}

impl Default for Mock {
    fn default() -> Self {
        Mock {
            mode: "stream".into(),
            personal_id: HEADSET_ID.into(),
            stream_id: STREAM_ID.into(),
            mic_id: MIC_ID.into(),
            mutate_stream_on_put: false,
            ignore_put: false,
            put_count: 0,
            personal_volume: 0.6,
            personal_muted: false,
            streaming_volume: 0.8,
            volume_put_count: 0,
            ignore_volume_put: false,
            reject_volume_put: false,
        }
    }
}

fn device(name: &str, id: &str, flow: &str, role: &str, channels: u32, state: &str, is_vad: bool) -> RawAudioDevice {
    RawAudioDevice {
        friendly_name: name.to_string(),
        id: id.to_string(),
        data_flow: flow.to_string(),
        role: role.to_string(),
        channels,
        state: state.to_string(),
        is_vad,
    }
}

fn devices() -> Vec<RawAudioDevice> {
    vec![
        device("Headphones", HEADSET_ID, "render", "none", 2, "active", false),
        device("Speakers", SPEAKER_ID, "render", "none", 2, "active", false),
        device("Disconnected output", "inactive", "render", "none", 2, "disabled", false),
        device("Sonar Gaming", "vad", "render", "game", 8, "active", true),
        device("Microphone", MIC_ID, "capture", "none", 1, "active", false),
        device("Second microphone", SECOND_MIC_ID, "capture", "none", 1, "active", false),
    ]
}

fn redirection(id: &str, device_id: &str, rest: &str) -> RawRedirection {
    RawRedirection {
        stream_redirection_id: id.to_string(),
        device_id: device_id.to_string(),
        is_running: true,
        rest: rest.to_string(),
    }
}

fn volume_step(volume: f32) -> VolumeStep {
    VolumeStep { text: format!("{volume}"), bits: volume.to_bits() }
}

impl Mock {
    fn redirections(&self) -> Vec<RawRedirection> {
        vec![
            redirection("streaming", &self.stream_id, "{\"status\":[{\"isEnabled\":true,\"role\":\"game\"}]}"),
            redirection("monitoring", &self.personal_id, "{\"status\":[{\"isEnabled\":true,\"role\":\"game\"}]}"),
            redirection("mic", &self.mic_id, "{\"status\":[]}"),
        ]
    }

    fn reading(&self) -> MasterVolumeReading {
        let volume = self.personal_volume;
        MasterVolumeReading {
            muted: self.personal_muted,
            volume_valid: volume.is_finite() && (0.0..=1.0).contains(&volume),
            volume_bits: volume.to_bits(),
            step_down: volume_step((volume - 0.05).clamp(0.0, 1.0)),
            step_up: volume_step((volume + 0.05).clamp(0.0, 1.0)),
        }
    }

    fn answer(&mut self, request: SonarRequest) -> SonarReply {
        match request {
            SonarRequest::Locate => SonarReply::Located(BASE.to_string()),
            SonarRequest::Read { query, url } => {
                assert!(url.starts_with(BASE));
                match query {
                    SonarQuery::Mode => SonarReply::Mode(self.mode.clone()),
                    SonarQuery::AudioDevices => SonarReply::AudioDevices(devices()),
                    SonarQuery::StreamRedirections => SonarReply::StreamRedirections(self.redirections()),
                    SonarQuery::MasterVolume => SonarReply::MasterVolume(self.reading()),
                    SonarQuery::MasterVolumeCheck { expected_bits } => SonarReply::MasterVolumeCheck(MasterVolumeCheck {
                        muted: self.personal_muted,
                        volume_matches: (self.personal_volume - f32::from_bits(expected_bits)).abs() <= 0.001,
                    }),
                }
            }
            SonarRequest::Redirect { url } => {
                self.put_count += 1;
                let path = url.strip_prefix(&format!("{BASE}/streamRedirections/")).unwrap();
                let (id, encoded) = path.split_once("/deviceId/").unwrap();
                let device_id = percent_decode(encoded).unwrap();
                if !self.ignore_put {
                    match id {
                        "monitoring" => self.personal_id = device_id,
                        "streaming" => self.stream_id = device_id,
                        "mic" => self.mic_id = device_id,
                        other => panic!("unknown redirection {other}"),
                    }
                }
                if id == "monitoring" && self.mutate_stream_on_put {
                    self.stream_id = "stream-was-modified".into();
                }
                SonarReply::Completed
            }
            SonarRequest::ControlMaster { url, .. } => {
                self.volume_put_count += 1;
                if self.reject_volume_put {
                    assert_eq!(master_write_status(404), StatusOutcome::Unsupported);
                    return SonarReply::Failed(unsupported_master_write_error("404 Not Found"));
                }
                let path = url
                    .strip_prefix(&format!("{BASE}/volumeSettings/streamer/monitoring/master/"))
                    .unwrap();
                if !self.ignore_volume_put {
                    if let Some(volume) = path.strip_prefix("volume/") {
                        self.personal_volume = volume.parse().unwrap();
                    } else if let Some(muted) = path.strip_prefix("isMuted/") {
                        self.personal_muted = muted.parse().unwrap();
                    } else {
                        panic!("unknown master path {path}");
                    }
                }
                SonarReply::Completed
            }
            SonarRequest::Pause { .. } => SonarReply::Completed,
        }
    }
}

fn drive<T>(mock: &mut Mock, first: SonarRequest, mut step: impl FnMut(SonarReply) -> SonarStep<T>) -> Result<T, SonarError> {
    let mut request = first;
    loop {
        let reply = mock.answer(request);
        match step(reply) {
            SonarStep::Request(next) => request = next,
            SonarStep::Finished(outcome) => return outcome,
        }
    }
}

fn state(mock: &mut Mock) -> Result<SonarState, SonarError> {
    let (mut query, first) = StateQuery::new();
    drive(mock, first, |reply| query.step(reply))
}

fn redirect(mock: &mut Mock, target: RedirectionTarget, device_id: &str) -> Result<(), SonarError> {
    let (mut change, first) = RedirectionChange::new(target, device_id.to_string());
    drive(mock, first, |reply| change.step(reply))
}

fn control(mock: &mut Mock, action: PersonalVolumeAction) -> Result<(), SonarError> {
    let (mut control, first) = PersonalVolumeControl::new(action);
    drive(mock, first, |reply| control.step(reply))
}

#[test]
fn state_returns_only_physical_render_devices_and_current_mixes() {
    let mut mock = Mock::default();

    let state = state(&mut mock).unwrap();

    assert_eq!(state.mode, "stream");
    assert_eq!(state.personal_device_id, HEADSET_ID);
    assert_eq!(state.stream_device_id, STREAM_ID);
    assert_eq!(state.mic_device_id, MIC_ID);
    assert_eq!(state.devices.len(), 3);
    assert_eq!(state.input_devices.len(), 2);
    assert_eq!(state.devices[0].name, "Headphones");
    assert_eq!(state.devices[1].name, "Speakers");
    assert_eq!(state.devices[2].state, "disabled");
}

#[test]
fn state_rejects_classic_mode() {
    let mut mock = Mock { mode: "classic".into(), ..Mock::default() };

    assert!(matches!(state(&mut mock), Err(SonarError::WrongMode)));
}

#[test]
fn set_output_changes_monitoring_and_preserves_streaming() {
    let mut mock = Mock::default();

    redirect(&mut mock, RedirectionTarget::Personal, SPEAKER_ID).unwrap();

    assert_eq!(mock.personal_id, SPEAKER_ID);
    assert_eq!(mock.stream_id, STREAM_ID);
    assert_eq!(mock.put_count, 1);
}

#[test]
fn set_output_rejects_unavailable_device_without_put() {
    let mut mock = Mock::default();

    let error = redirect(&mut mock, RedirectionTarget::Personal, "inactive").unwrap_err();

    assert!(matches!(error, SonarError::DeviceUnavailable));
    assert_eq!(mock.put_count, 0);
}

#[test]
fn set_output_detects_when_personal_mix_did_not_change() {
    let mut mock = Mock { ignore_put: true, ..Mock::default() };

    let error = redirect(&mut mock, RedirectionTarget::Personal, SPEAKER_ID).unwrap_err();

    assert!(matches!(error, SonarError::Verification(message) if message.contains("변경되지 않았습니다")));
}

#[test]
fn set_output_detects_any_stream_mix_mutation() {
    let mut mock = Mock { mutate_stream_on_put: true, ..Mock::default() };

    let error = redirect(&mut mock, RedirectionTarget::Personal, SPEAKER_ID).unwrap_err();

    assert!(matches!(error, SonarError::Verification(message) if message.contains("streaming")));
}

#[test]
fn set_stream_output_changes_only_streaming_redirection() {
    let mut mock = Mock::default();

    redirect(&mut mock, RedirectionTarget::Stream, SPEAKER_ID).unwrap();

    assert_eq!(mock.personal_id, HEADSET_ID);
    assert_eq!(mock.stream_id, SPEAKER_ID);
    assert_eq!(mock.mic_id, MIC_ID);
    assert_eq!(mock.put_count, 1);
}

#[test]
fn set_mic_input_changes_only_mic_redirection() {
    let mut mock = Mock::default();

    redirect(&mut mock, RedirectionTarget::Mic, SECOND_MIC_ID).unwrap();

    assert_eq!(mock.personal_id, HEADSET_ID);
    assert_eq!(mock.stream_id, STREAM_ID);
    assert_eq!(mock.mic_id, SECOND_MIC_ID);
    assert_eq!(mock.put_count, 1);
}

#[test]
fn set_mic_input_rejects_render_device() {
    let mut mock = Mock::default();

    let error = redirect(&mut mock, RedirectionTarget::Mic, SPEAKER_ID).unwrap_err();

    assert!(matches!(error, SonarError::DeviceUnavailable));
    assert_eq!(mock.put_count, 0);
}

#[test]
fn personal_master_volume_uses_sonar_step_and_preserves_stream_master() {
    let mut mock = Mock::default();

    control(&mut mock, PersonalVolumeAction::StepUp).unwrap();
    control(&mut mock, PersonalVolumeAction::StepDown).unwrap();

    assert!((mock.personal_volume - 0.6).abs() < 0.001);
    assert!((mock.streaming_volume - 0.8).abs() < f32::EPSILON);
    assert_eq!(mock.volume_put_count, 2);
}

#[test]
fn personal_master_mute_toggles_sonar_monitoring_master() {
    let mut mock = Mock::default();

    control(&mut mock, PersonalVolumeAction::ToggleMute).unwrap();

    assert!(mock.personal_muted);
    assert_eq!(mock.volume_put_count, 1);
}

#[test]
fn personal_master_control_detects_when_sonar_ignores_the_request() {
    let mut mock = Mock { ignore_volume_put: true, ..Mock::default() };

    let error = control(&mut mock, PersonalVolumeAction::StepUp).unwrap_err();

    assert!(matches!(error, SonarError::Verification(message) if message.contains("변경되지 않았습니다")));
    assert_eq!(mock.volume_put_count, 1);
}

#[test]
fn personal_master_control_rejects_classic_mode_without_writing() {
    let mut mock = Mock { mode: "classic".into(), ..Mock::default() };

    let error = control(&mut mock, PersonalVolumeAction::StepUp).unwrap_err();

    assert!(matches!(error, SonarError::WrongMode));
    assert_eq!(mock.volume_put_count, 0);
}

#[test]
fn personal_master_control_reports_internal_api_changes() {
    let mut mock = Mock { reject_volume_put: true, ..Mock::default() };

    let error = control(&mut mock, PersonalVolumeAction::StepUp).unwrap_err();

    assert!(matches!(error, SonarError::ApiChanged(message) if message.contains("변경 경로")));
    assert_eq!(mock.volume_put_count, 1);
}

#[test]
fn a_volume_outside_its_range_is_not_written() {
    let mut mock = Mock { personal_volume: 1.5, ..Mock::default() };

    let error = control(&mut mock, PersonalVolumeAction::StepUp).unwrap_err();

    assert_eq!(
        error,
        SonarError::ApiChanged("Master - Personal 음량 값이 예상 범위를 벗어났습니다".to_string())
    );
    assert_eq!(mock.volume_put_count, 0);
}

#[test]
fn a_failed_request_ends_the_operation_with_its_error() {
    let (mut change, _) = RedirectionChange::new(RedirectionTarget::Personal, SPEAKER_ID.to_string());
    let next = change.step(SonarReply::Failed(SonarError::GgNotRunning));
    assert!(matches!(next, SonarStep::Finished(Err(SonarError::GgNotRunning))));
    assert!(matches!(change.step(SonarReply::Completed), SonarStep::Finished(Err(SonarError::ApiChanged(_)))));
}

#[test]
fn a_reply_that_does_not_answer_the_request_is_an_api_change() {
    let (mut query, _) = StateQuery::new();
    let next = query.step(SonarReply::Mode("stream".to_string()));
    assert!(matches!(next, SonarStep::Finished(Err(SonarError::ApiChanged(_)))));
}

#[test]
fn a_missing_redirection_is_reported_by_name() {
    let (mut query, _) = StateQuery::new();
    query.step(SonarReply::Located(BASE.to_string()));
    query.step(SonarReply::Mode("stream".to_string()));
    query.step(SonarReply::AudioDevices(devices()));
    let next = query.step(SonarReply::StreamRedirections(vec![redirection("monitoring", HEADSET_ID, "{}")]));
    match next {
        SonarStep::Finished(Err(SonarError::ApiChanged(detail))) => {
            assert_eq!(detail, "streamRedirections에 streaming 항목이 없습니다")
        }
        other => panic!("unexpected {other:?}"),
    }
}
