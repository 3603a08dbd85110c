//! The values exchanged with Sonar and the errors an operation ends with.

use vstd::prelude::*;
use crate::text::{joined, owned};

verus! {

/// Why an operation on Sonar did not succeed.
#[derive(Clone, Debug, PartialEq, Eq)]
pub enum SonarError {
    GgNotRunning,
    SonarDisabled,
    SonarStarting,
    WrongMode,
    DeviceUnavailable,
    /// Sonar answered in a way this version does not understand.
    ApiChanged(String),
    /// The request could not be carried out; the text describes the failure.
    Transport(String),
    /// Sonar accepted a change but its state afterwards is not the one asked for.
    Verification(String),
}

/// The user-facing text of an error.
pub open spec fn error_text(error: SonarError) -> Seq<char> {
    match error {
        SonarError::GgNotRunning => "SteelSeries GG가 실행 중이 아닙니다"@,
        SonarError::SonarDisabled => "SteelSeries GG 설정에서 Sonar가 꺼져 있습니다"@,
        SonarError::SonarStarting => "Sonar가 시작 중입니다. 잠시 후 자동으로 다시 연결합니다"@,
        SonarError::WrongMode => "현재 Sonar for Streamers 모드가 아닙니다"@,
        SonarError::DeviceUnavailable => "선택한 장치를 현재 Sonar에서 찾을 수 없습니다"@,
        SonarError::ApiChanged(detail) => "Sonar API가 변경되었을 수 있습니다: "@ + detail@,
        SonarError::Transport(detail) => "Sonar와 통신할 수 없습니다: "@ + detail@,
        SonarError::Verification(detail) => "출력 전환 검증에 실패했습니다: "@ + detail@,
    }
}

impl SonarError {
    /// The text shown to the user for this error.
    pub fn message(&self) -> (text: String)
        ensures
            text@ == error_text(*self),
    {
        match self {
            SonarError::GgNotRunning => owned("SteelSeries GG가 실행 중이 아닙니다"),
            SonarError::SonarDisabled => owned("SteelSeries GG 설정에서 Sonar가 꺼져 있습니다"),
            SonarError::SonarStarting => owned("Sonar가 시작 중입니다. 잠시 후 자동으로 다시 연결합니다"),
            SonarError::WrongMode => owned("현재 Sonar for Streamers 모드가 아닙니다"),
            SonarError::DeviceUnavailable => owned("선택한 장치를 현재 Sonar에서 찾을 수 없습니다"),
            SonarError::ApiChanged(detail) => joined("Sonar API가 변경되었을 수 있습니다: ", detail.as_str()),
            SonarError::Transport(detail) => joined("Sonar와 통신할 수 없습니다: ", detail.as_str()),
            SonarError::Verification(detail) => joined("출력 전환 검증에 실패했습니다: ", detail.as_str()),
        }
    }
}

/// What a volume media key does to Sonar's Master - Personal.
#[derive(Clone, Copy, Debug, PartialEq, Eq, Hash, Structural)]
pub enum PersonalVolumeAction {
    ToggleMute,
    StepDown,
    StepUp,
}

/// An audio device as Sonar lists it under `/audioDevices`.
#[derive(Clone, Debug, PartialEq, Eq)]
pub struct RawAudioDevice {
    pub friendly_name: String,
    pub id: String,
    pub data_flow: String,
    pub role: String,
    pub channels: u32,
    pub state: String,
    pub is_vad: bool,
}

/// One entry of `/streamRedirections`. `rest` holds every other field of the
/// entry as compact JSON text, so that two entries are the same exactly when
/// all four fields are.
#[derive(Clone, Debug, PartialEq, Eq)]
pub struct RawRedirection {
    pub stream_redirection_id: String,
    pub device_id: String,
    pub is_running: bool,
    pub rest: String,
}

/// Two redirection entries agree in every field.
pub open spec fn same_redirection(a: RawRedirection, b: RawRedirection) -> bool {
    &&& a.stream_redirection_id@ == b.stream_redirection_id@
    &&& a.device_id@ == b.device_id@
    &&& a.is_running == b.is_running
    &&& a.rest@ == b.rest@
}

/// The three redirections Sonar for Streamers routes.
#[derive(Clone, Copy, Debug, PartialEq, Eq, Structural)]
pub enum RedirectionTarget {
    Personal,
    Stream,
    Mic,
}

/// The `streamRedirectionId` of a target.
pub open spec fn target_id(target: RedirectionTarget) -> Seq<char> {
    match target {
        RedirectionTarget::Personal => "monitoring"@,
        RedirectionTarget::Stream => "streaming"@,
        RedirectionTarget::Mic => "mic"@,
    }
}

/// The `dataFlow` of the devices a target can be routed to.
pub open spec fn target_data_flow(target: RedirectionTarget) -> Seq<char> {
    match target {
        RedirectionTarget::Personal | RedirectionTarget::Stream => "render"@,
        RedirectionTarget::Mic => "capture"@,
    }
}

/// The name of a target shown to the user.
pub open spec fn target_label(target: RedirectionTarget) -> Seq<char> {
    match target {
        RedirectionTarget::Personal => "Personal Mix"@,
        RedirectionTarget::Stream => "Stream Mix"@,
        RedirectionTarget::Mic => "마이크 입력"@,
    }
}

impl RedirectionTarget {
    pub fn id(self) -> (id: &'static str)
        ensures
            id@ == target_id(self),
    {
        match self {
            RedirectionTarget::Personal => "monitoring",
            RedirectionTarget::Stream => "streaming",
            RedirectionTarget::Mic => "mic",
        }
    }

    pub fn data_flow(self) -> (flow: &'static str)
        ensures
            flow@ == target_data_flow(self),
    {
        match self {
            RedirectionTarget::Personal | RedirectionTarget::Stream => "render",
            RedirectionTarget::Mic => "capture",
        }
    }

    pub fn label(self) -> (label: &'static str)
        ensures
            label@ == target_label(self),
    {
        match self {
            RedirectionTarget::Personal => "Personal Mix",
            RedirectionTarget::Stream => "Stream Mix",
            RedirectionTarget::Mic => "마이크 입력",
        }
    }
}

} // verus!
