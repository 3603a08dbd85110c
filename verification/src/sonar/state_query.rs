//! Reading Sonar's current state: the mode, the physical devices and where
//! each mix is routed.

use vstd::prelude::*;
use crate::models::AudioDevice;
use crate::sonar::lookup::{
    find_redirection, lookup_redirection, missing_redirection_text, physical_device_list,
    physical_devices,
};
use crate::sonar::protocol::{
    ends_api_changed, ends_unexpectedly, ends_unverified, reads, unexpected_reply, SonarQuery,
    SonarReply, SonarRequest, SonarStep,
};
use crate::sonar::types::{RawRedirection, SonarError};
use crate::text::{joined, owned, same_text};

verus! {

/// Sonar for Streamers as read at one moment.
#[derive(Clone, Debug)]
pub struct SonarState {
    pub mode: String,
    /// The physical output devices.
    pub devices: Vec<AudioDevice>,
    /// The physical input devices.
    pub input_devices: Vec<AudioDevice>,
    pub personal_device_id: String,
    pub stream_device_id: String,
    pub mic_device_id: String,
}

/// Where a state query stands.
#[derive(Debug)]
pub enum StateQueryStage {
    Locating,
    ReadingMode { base: String },
    ReadingDevices { base: String, mode: String },
    ReadingRedirections { mode: String, devices: Vec<AudioDevice>, input_devices: Vec<AudioDevice> },
    Finished,
}

/// The operation that reads Sonar's current state.
#[derive(Debug)]
pub struct StateQuery {
    pub stage: StateQueryStage,
}

/// How a state query ends once the redirections are read: the three
/// redirections must be listed and the Personal Mix running.
pub open spec fn state_outcome(
    step: SonarStep<SonarState>,
    mode: String,
    devices: Vec<AudioDevice>,
    input_devices: Vec<AudioDevice>,
    items: Seq<RawRedirection>,
) -> bool {
    match (
        lookup_redirection(items, "monitoring"@),
        lookup_redirection(items, "streaming"@),
        lookup_redirection(items, "mic"@),
    ) {
        (None, _, _) => ends_api_changed(step, missing_redirection_text("monitoring"@)),
        (Some(_), None, _) => ends_api_changed(step, missing_redirection_text("streaming"@)),
        (Some(_), Some(_), None) => ends_api_changed(step, missing_redirection_text("mic"@)),
        (Some(personal), Some(stream), Some(mic)) => if !personal.is_running {
            ends_unverified(step, "Personal Mix가 실행 중이 아닙니다"@)
        } else {
            step == SonarStep::<SonarState>::Finished(
                Ok(
                    SonarState {
                        mode,
                        devices,
                        input_devices,
                        personal_device_id: personal.device_id,
                        stream_device_id: stream.device_id,
                        mic_device_id: mic.device_id,
                    },
                ),
            )
        },
    }
}

/// A state query succeeds only when all three redirections are listed and
/// the Personal Mix is running; the state it gives holds the devices of
/// each mix and of the microphone as the first entries with those ids say.
pub proof fn state_comes_from_the_redirections(
    step: SonarStep<SonarState>,
    mode: String,
    devices: Vec<AudioDevice>,
    input_devices: Vec<AudioDevice>,
    items: Seq<RawRedirection>,
)
    ensures
        state_outcome(step, mode, devices, input_devices, items) && step is Finished && step->Finished_0 is Ok ==> {
            let state = step->Finished_0->Ok_0;
            &&& lookup_redirection(items, "monitoring"@) matches Some(personal)
                && personal.is_running && state.personal_device_id == personal.device_id
            &&& lookup_redirection(items, "streaming"@) matches Some(stream) && state.stream_device_id == stream.device_id
            &&& lookup_redirection(items, "mic"@) matches Some(mic) && state.mic_device_id == mic.device_id
            &&& state.mode == mode && state.devices == devices && state.input_devices == input_devices
        },
{
}

/// Finishes a state query once the redirections are read.
fn finish_state(
    mode: String,
    devices: Vec<AudioDevice>,
    input_devices: Vec<AudioDevice>,
    items: &Vec<RawRedirection>,
) -> (step: SonarStep<SonarState>)
    ensures
        state_outcome(step, mode, devices, input_devices, items@),
{
    let personal = match find_redirection(items.as_slice(), "monitoring") {
        Ok(entry) => entry,
        Err(error) => return SonarStep::Finished(Err(error)),
    };
    let stream = match find_redirection(items.as_slice(), "streaming") {
        Ok(entry) => entry,
        Err(error) => return SonarStep::Finished(Err(error)),
    };
    let mic = match find_redirection(items.as_slice(), "mic") {
        Ok(entry) => entry,
        Err(error) => return SonarStep::Finished(Err(error)),
    };
    if !personal.is_running {
        return SonarStep::Finished(Err(SonarError::Verification(owned("Personal Mix가 실행 중이 아닙니다"))));
    }
    SonarStep::Finished(
        Ok(
            SonarState {
                mode,
                devices,
                input_devices,
                personal_device_id: personal.device_id.clone(),
                stream_device_id: stream.device_id.clone(),
                mic_device_id: mic.device_id.clone(),
            },
        ),
    )
}

impl StateQuery {
    /// A new query, and its first request: locating the Sonar API.
    pub fn new() -> (started: (Self, SonarRequest))
        ensures
            started.0.stage is Locating,
            started.1 is Locate,
    {
        (StateQuery { stage: StateQueryStage::Locating }, SonarRequest::Locate)
    }

    /// Takes the reply to the pending request and says what comes next:
    /// locate, read `/mode` (which must be `"stream"`), read `/audioDevices`,
    /// read `/streamRedirections`, then finish. A failed request ends the
    /// query with its error; any other reply that does not answer the
    /// pending request ends it with `ApiChanged`.
    pub fn step(&mut self, reply: SonarReply) -> (next: SonarStep<SonarState>)
        ensures
            match old(self).stage {
                StateQueryStage::Locating => match reply {
                    SonarReply::Located(base) => final(self).stage == (StateQueryStage::ReadingMode { base })
                        && reads(next, SonarQuery::Mode, base@ + "/mode"@),
                    SonarReply::Failed(error) => final(self).stage is Finished
                        && next == SonarStep::<SonarState>::Finished(Err(error)),
                    _ => final(self).stage is Finished && ends_unexpectedly(next),
                },
                StateQueryStage::ReadingMode { base } => match reply {
                    SonarReply::Mode(mode) => if mode@ == "stream"@ {
                        final(self).stage == (StateQueryStage::ReadingDevices { base, mode })
                            && reads(next, SonarQuery::AudioDevices, base@ + "/audioDevices"@)
                    } else {
                        final(self).stage is Finished
                            && next == SonarStep::<SonarState>::Finished(Err(SonarError::WrongMode))
                    },
                    SonarReply::Failed(error) => final(self).stage is Finished
                        && next == SonarStep::<SonarState>::Finished(Err(error)),
                    _ => final(self).stage is Finished && ends_unexpectedly(next),
                },
                StateQueryStage::ReadingDevices { base, mode } => match reply {
                    SonarReply::AudioDevices(raw) => (final(self).stage matches StateQueryStage::ReadingRedirections {
                        mode: m,
                        devices,
                        input_devices,
                    } && m == mode && devices@ == physical_devices(raw@, "render"@)
                        && input_devices@ == physical_devices(raw@, "capture"@))
                        && reads(next, SonarQuery::StreamRedirections, base@ + "/streamRedirections"@),
                    SonarReply::Failed(error) => final(self).stage is Finished
                        && next == SonarStep::<SonarState>::Finished(Err(error)),
                    _ => final(self).stage is Finished && ends_unexpectedly(next),
                },
                StateQueryStage::ReadingRedirections { mode, devices, input_devices } => match reply {
                    SonarReply::StreamRedirections(items) => final(self).stage is Finished
                        && state_outcome(next, mode, devices, input_devices, items@),
                    SonarReply::Failed(error) => final(self).stage is Finished
                        && next == SonarStep::<SonarState>::Finished(Err(error)),
                    _ => final(self).stage is Finished && ends_unexpectedly(next),
                },
                StateQueryStage::Finished => final(self).stage is Finished && ends_unexpectedly(next),
            },
    {
        let mut stage = StateQueryStage::Finished;
        std::mem::swap(&mut stage, &mut self.stage);
        match stage {
            StateQueryStage::Locating => match reply {
                SonarReply::Located(base) => {
                    let url = joined(base.as_str(), "/mode");
                    self.stage = StateQueryStage::ReadingMode { base };
                    SonarStep::Request(SonarRequest::Read { query: SonarQuery::Mode, url })
                },
                SonarReply::Failed(error) => SonarStep::Finished(Err(error)),
                _ => unexpected_reply(),
            },
            StateQueryStage::ReadingMode { base } => match reply {
                SonarReply::Mode(mode) => {
                    if same_text(mode.as_str(), "stream") {
                        let url = joined(base.as_str(), "/audioDevices");
                        self.stage = StateQueryStage::ReadingDevices { base, mode };
                        SonarStep::Request(SonarRequest::Read { query: SonarQuery::AudioDevices, url })
                    } else {
                        SonarStep::Finished(Err(SonarError::WrongMode))
                    }
                },
                SonarReply::Failed(error) => SonarStep::Finished(Err(error)),
                _ => unexpected_reply(),
            },
            StateQueryStage::ReadingDevices { base, mode } => match reply {
                SonarReply::AudioDevices(raw) => {
                    let devices = physical_device_list(&raw, "render");
                    let input_devices = physical_device_list(&raw, "capture");
                    let url = joined(base.as_str(), "/streamRedirections");
                    self.stage = StateQueryStage::ReadingRedirections { mode, devices, input_devices };
                    SonarStep::Request(SonarRequest::Read { query: SonarQuery::StreamRedirections, url })
                },
                SonarReply::Failed(error) => SonarStep::Finished(Err(error)),
                _ => unexpected_reply(),
            },
            StateQueryStage::ReadingRedirections { mode, devices, input_devices } => match reply {
                SonarReply::StreamRedirections(items) => finish_state(mode, devices, input_devices, &items),
                SonarReply::Failed(error) => SonarStep::Finished(Err(error)),
                _ => unexpected_reply(),
            },
            StateQueryStage::Finished => unexpected_reply(),
        }
    }
}

} // verus!
