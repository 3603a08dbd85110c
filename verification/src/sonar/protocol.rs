//! The requests an operation asks the host program to perform, and the
//! replies the host program hands back.

use vstd::prelude::*;
use crate::sonar::types::{PersonalVolumeAction, RawAudioDevice, RawRedirection, SonarError};
use crate::text::owned;

verus! {

/// A `GET` of the Sonar API, telling the host program what to read the body as.
#[derive(Clone, Copy, Debug, PartialEq, Eq, Structural)]
pub enum SonarQuery {
    /// `/mode`: a JSON string.
    Mode,
    /// `/audioDevices`: a list of devices.
    AudioDevices,
    /// `/streamRedirections`: a list of redirections.
    StreamRedirections,
    /// `/volumeSettings/streamer`, before a change of Master - Personal.
    MasterVolume,
    /// `/volumeSettings/streamer`, after a change of Master - Personal, to be
    /// compared with the volume whose `f32` bits are given.
    MasterVolumeCheck { expected_bits: u32 },
}

/// One piece of outside work.
#[derive(Debug)]
pub enum SonarRequest {
    /// Find the address of the Sonar API through SteelSeries GG.
    Locate,
    /// `GET` the URL and read the body as the query says.
    Read { query: SonarQuery, url: String },
    /// `PUT` the URL, a change of a stream redirection.
    Redirect { url: String },
    /// Change Master - Personal: the URL is the direct `PUT` of the Sonar API;
    /// on Windows the host program sends the matching GG shortcut event instead.
    ControlMaster { action: PersonalVolumeAction, url: String },
    /// Wait this many milliseconds.
    Pause { millis: u64 },
}

/// A Master - Personal volume after the host program's float arithmetic:
/// its text in a URL and the bits of the `f32` value.
#[derive(Clone, Debug, PartialEq, Eq)]
pub struct VolumeStep {
    pub text: String,
    pub bits: u32,
}

/// Master - Personal as read before a change. `volume_valid` is whether the
/// volume is finite and within `0.0..=1.0`; the steps are the volume plus and
/// minus one step of `0.05`, clamped to `0.0..=1.0`.
#[derive(Clone, Debug, PartialEq, Eq)]
pub struct MasterVolumeReading {
    pub muted: bool,
    pub volume_valid: bool,
    pub volume_bits: u32,
    pub step_down: VolumeStep,
    pub step_up: VolumeStep,
}

/// Master - Personal as read after a change: whether it is muted, and whether
/// the volume is within `0.001` of the expected one.
#[derive(Clone, Copy, Debug, PartialEq, Eq, Structural)]
pub struct MasterVolumeCheck {
    pub muted: bool,
    pub volume_matches: bool,
}

/// The outcome of a request.
#[derive(Debug)]
pub enum SonarReply {
    /// The Sonar API lives at this base URL.
    Located(String),
    Mode(String),
    AudioDevices(Vec<RawAudioDevice>),
    StreamRedirections(Vec<RawRedirection>),
    MasterVolume(MasterVolumeReading),
    MasterVolumeCheck(MasterVolumeCheck),
    /// A write or a pause finished without error.
    Completed,
    /// The request failed with this error.
    Failed(SonarError),
}

/// What an operation does next.
#[derive(Debug)]
pub enum SonarStep<T> {
    Request(SonarRequest),
    Finished(Result<T, SonarError>),
}

/// The detail of the error that ends an operation handed a reply that does not
/// answer its pending request.
pub open spec fn unexpected_reply_text() -> Seq<char> {
    "Sonar 요청과 맞지 않는 응답을 받았습니다"@
}

/// The operation ended on a reply that does not answer its pending request.
pub open spec fn ends_unexpectedly<T>(step: SonarStep<T>) -> bool {
    step matches SonarStep::Finished(Err(SonarError::ApiChanged(detail)))
        && detail@ == unexpected_reply_text()
}

/// The operation ended with an `ApiChanged` error of this detail.
pub open spec fn ends_api_changed<T>(step: SonarStep<T>, detail: Seq<char>) -> bool {
    step matches SonarStep::Finished(Err(SonarError::ApiChanged(text))) && text@ == detail
}

/// The operation ended with a `Verification` error of this detail.
pub open spec fn ends_unverified<T>(step: SonarStep<T>, detail: Seq<char>) -> bool {
    step matches SonarStep::Finished(Err(SonarError::Verification(text))) && text@ == detail
}

/// The operation asks to read this query at this URL.
pub open spec fn reads<T>(step: SonarStep<T>, query: SonarQuery, url: Seq<char>) -> bool {
    step matches SonarStep::Request(SonarRequest::Read { query: q, url: u }) && q == query && u@ == url
}

/// The step that ends an operation on a reply that does not fit.
pub fn unexpected_reply<T>() -> (step: SonarStep<T>)
    ensures
        ends_unexpectedly(step),
{
    SonarStep::Finished(Err(SonarError::ApiChanged(owned("Sonar 요청과 맞지 않는 응답을 받았습니다"))))
}

} // verus!
