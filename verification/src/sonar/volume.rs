//! Changing Sonar's Master - Personal: muting or stepping its volume, and
//! checking afterwards that Sonar applied the change.

use vstd::prelude::*;
use crate::sonar::protocol::{
    ends_api_changed, ends_unexpectedly, ends_unverified, reads, unexpected_reply,
    MasterVolumeCheck, MasterVolumeReading, SonarQuery, SonarReply, SonarRequest, SonarStep,
};
use crate::sonar::types::{PersonalVolumeAction, SonarError};
use crate::text::{joined, owned, same_text};

verus! {

/// What Master - Personal must look like after the change.
#[derive(Clone, Copy, Debug, PartialEq, Eq, Structural)]
pub struct MasterExpectation {
    pub muted: bool,
    pub volume_bits: u32,
}

/// The path under the Sonar API base that changes Master - Personal.
pub open spec fn master_path() -> Seq<char> {
    "/volumeSettings/streamer/monitoring/master/"@
}

/// The text of a boolean in a URL.
pub open spec fn bool_text(value: bool) -> Seq<char> {
    if value { "true"@ } else { "false"@ }
}

/// The write an action asks for, given the reading before it: the URL and
/// the state expected afterwards.
pub open spec fn planned_write(base: Seq<char>, action: PersonalVolumeAction, before: MasterVolumeReading) -> (Seq<char>, MasterExpectation) {
    match action {
        PersonalVolumeAction::ToggleMute => (
            base + master_path() + "isMuted/"@ + bool_text(!before.muted),
            MasterExpectation { muted: !before.muted, volume_bits: before.volume_bits },
        ),
        PersonalVolumeAction::StepDown => (
            base + master_path() + "volume/"@ + before.step_down.text@,
            MasterExpectation { muted: before.muted, volume_bits: before.step_down.bits },
        ),
        PersonalVolumeAction::StepUp => (
            base + master_path() + "volume/"@ + before.step_up.text@,
            MasterExpectation { muted: before.muted, volume_bits: before.step_up.bits },
        ),
    }
}

/// Whether the reading after the change shows it applied: the mute state for
/// a mute toggle, the volume for a step.
pub open spec fn applied(action: PersonalVolumeAction, expected: MasterExpectation, after: MasterVolumeCheck) -> bool {
    match action {
        PersonalVolumeAction::ToggleMute => after.muted == expected.muted,
        _ => after.volume_matches,
    }
}

/// The mute key flips Master - Personal's mute: it writes `isMuted` as the
/// opposite of the state read before, keeps the volume, and counts as
/// applied exactly when the state read after is that opposite. The volume
/// keys write the step they are given, keep the mute state, and count as
/// applied when the volume read after matches.
pub proof fn volume_keys_do_what_they_say(base: Seq<char>, before: MasterVolumeReading, after: MasterVolumeCheck)
    ensures
        planned_write(base, PersonalVolumeAction::ToggleMute, before).0
            == base + "/volumeSettings/streamer/monitoring/master/"@ + "isMuted/"@ + (if before.muted { "false"@ } else { "true"@ }),
        planned_write(base, PersonalVolumeAction::ToggleMute, before).1.muted == !before.muted,
        planned_write(base, PersonalVolumeAction::ToggleMute, before).1.volume_bits == before.volume_bits,
        applied(PersonalVolumeAction::ToggleMute, planned_write(base, PersonalVolumeAction::ToggleMute, before).1, after)
            <==> after.muted != before.muted,
        planned_write(base, PersonalVolumeAction::StepDown, before).0
            == base + "/volumeSettings/streamer/monitoring/master/"@ + "volume/"@ + before.step_down.text@,
        planned_write(base, PersonalVolumeAction::StepDown, before).1
            == (MasterExpectation { muted: before.muted, volume_bits: before.step_down.bits }),
        planned_write(base, PersonalVolumeAction::StepUp, before).0
            == base + "/volumeSettings/streamer/monitoring/master/"@ + "volume/"@ + before.step_up.text@,
        planned_write(base, PersonalVolumeAction::StepUp, before).1
            == (MasterExpectation { muted: before.muted, volume_bits: before.step_up.bits }),
        applied(PersonalVolumeAction::StepDown, planned_write(base, PersonalVolumeAction::StepDown, before).1, after)
            <==> after.volume_matches,
        applied(PersonalVolumeAction::StepUp, planned_write(base, PersonalVolumeAction::StepUp, before).1, after)
            <==> after.volume_matches,
{
}

/// The detail of the error for a volume outside its range.
pub open spec fn volume_out_of_range_text() -> Seq<char> {
    "Master - Personal 음량 값이 예상 범위를 벗어났습니다"@
}

/// The detail of the error for a change that Sonar did not apply.
pub open spec fn not_applied_text() -> Seq<char> {
    "Sonar Master - Personal 값이 요청대로 변경되지 않았습니다"@
}

/// Where a change of Master - Personal stands.
#[derive(Debug)]
pub enum VolumeControlStage {
    Locating,
    ReadingMode { base: String },
    ReadingBefore { base: String },
    Writing { base: String, expected: MasterExpectation },
    Settling { base: String, expected: MasterExpectation },
    ReadingAfter { expected: MasterExpectation },
    Finished,
}

/// The operation that applies a volume action to Master - Personal. Besides
/// its stage it records, for the proofs only, the mode it read and how many
/// writes it asked for.
pub struct PersonalVolumeControl {
    action: PersonalVolumeAction,
    stage: VolumeControlStage,
    mode_read: Ghost<Seq<char>>,
    writes: Ghost<nat>,
}

/// The text of a boolean in a URL.
fn bool_url_text(value: bool) -> (text: &'static str)
    ensures
        text@ == bool_text(value),
{
    if value { "true" } else { "false" }
}

impl PersonalVolumeControl {
    pub closed spec fn action(&self) -> PersonalVolumeAction {
        self.action
    }

    pub closed spec fn stage(&self) -> VolumeControlStage {
        self.stage
    }

    /// The mode this change read, once it read one.
    pub closed spec fn mode_read(&self) -> Seq<char> {
        self.mode_read@
    }

    /// How many writes this change asked for.
    pub closed spec fn writes(&self) -> nat {
        self.writes@
    }

    /// What every reachable change satisfies: at most one write, and once
    /// past the mode, the mode was `"stream"`.
    #[verifier::type_invariant]
    closed spec fn well_formed(&self) -> bool {
        &&& self.writes@ <= 1
        &&& match self.stage {
            VolumeControlStage::Locating | VolumeControlStage::ReadingMode { .. } => self.writes@ == 0,
            VolumeControlStage::ReadingBefore { .. } => self.writes@ == 0 && self.mode_read@ == "stream"@,
            VolumeControlStage::Writing { .. }
            | VolumeControlStage::Settling { .. }
            | VolumeControlStage::ReadingAfter { .. } => self.writes@ == 1 && self.mode_read@ == "stream"@,
            VolumeControlStage::Finished => true,
        }
    }

    /// A change for the action, and its first request: locating the Sonar API.
    pub fn new(action: PersonalVolumeAction) -> (started: (Self, SonarRequest))
        ensures
            started.0.action() == action,
            started.0.stage() is Locating,
            started.0.writes() == 0,
            started.1 is Locate,
    {
        let control = PersonalVolumeControl {
            action,
            stage: VolumeControlStage::Locating,
            mode_read: Ghost(Seq::empty()),
            writes: Ghost(0),
        };
        (control, SonarRequest::Locate)
    }

    /// Takes the reply to the pending request and says what comes next:
    /// locate; read `/mode`, which must be `"stream"`; read Master - Personal,
    /// whose volume must be valid; write the change; pause 80 ms; read
    /// Master - Personal again and check that the change applied. A failed
    /// request ends the change with its error; a reply that does not answer
    /// the pending request ends it with `ApiChanged`.
    pub fn step(&mut self, reply: SonarReply) -> (next: SonarStep<()>)
        ensures
            final(self).action() == old(self).action(),
            // At most one write, and only in Streamer mode.
            final(self).writes() <= 1,
            next is Request && next->Request_0 is ControlMaster ==> {
                &&& old(self).writes() == 0
                &&& final(self).writes() == 1
                &&& final(self).mode_read() == "stream"@
                &&& next->Request_0->ControlMaster_action == old(self).action()
            },
            !(next is Request && next->Request_0 is ControlMaster) ==> final(self).writes() == old(self).writes(),
            // Success only after the write, and only as the last read confirms.
            next matches SonarStep::Finished(Ok(_)) ==> final(self).writes() == 1 && old(self).stage() is ReadingAfter
                && reply is MasterVolumeCheck && applied(old(self).action(), old(self).stage()->ReadingAfter_expected,
                reply->MasterVolumeCheck_0),
            match old(self).stage() {
                VolumeControlStage::Locating => match reply {
                    SonarReply::Located(base) => final(self).stage() == (VolumeControlStage::ReadingMode { base })
                        && reads(next, SonarQuery::Mode, base@ + "/mode"@),
                    SonarReply::Failed(error) => final(self).stage() is Finished
                        && next == SonarStep::<()>::Finished(Err(error)),
                    _ => final(self).stage() is Finished && ends_unexpectedly(next),
                },
                VolumeControlStage::ReadingMode { base } => match reply {
                    SonarReply::Mode(mode) => final(self).mode_read() == mode@ && if mode@ == "stream"@ {
                        final(self).stage() == (VolumeControlStage::ReadingBefore { base })
                            && reads(next, SonarQuery::MasterVolume, base@ + "/volumeSettings/streamer"@)
                    } else {
                        final(self).stage() is Finished
                            && next == SonarStep::<()>::Finished(Err(SonarError::WrongMode))
                    },
                    SonarReply::Failed(error) => final(self).stage() is Finished
                        && next == SonarStep::<()>::Finished(Err(error)),
                    _ => final(self).stage() is Finished && ends_unexpectedly(next),
                },
                VolumeControlStage::ReadingBefore { base } => match reply {
                    SonarReply::MasterVolume(before) => if before.volume_valid {
                        let (url, expected) = planned_write(base@, old(self).action(), before);
                        final(self).stage() == (VolumeControlStage::Writing { base, expected })
                            && (next matches SonarStep::Request(SonarRequest::ControlMaster { action, url: u })
                            && action == old(self).action() && u@ == url)
                    } else {
                        final(self).stage() is Finished && ends_api_changed(next, volume_out_of_range_text())
                    },
                    SonarReply::Failed(error) => final(self).stage() is Finished
                        && next == SonarStep::<()>::Finished(Err(error)),
                    _ => final(self).stage() is Finished && ends_unexpectedly(next),
                },
                VolumeControlStage::Writing { base, expected } => match reply {
                    SonarReply::Completed => final(self).stage() == (VolumeControlStage::Settling { base, expected })
                        && next == SonarStep::<()>::Request(SonarRequest::Pause { millis: 80 }),
                    SonarReply::Failed(error) => final(self).stage() is Finished
                        && next == SonarStep::<()>::Finished(Err(error)),
                    _ => final(self).stage() is Finished && ends_unexpectedly(next),
                },
                VolumeControlStage::Settling { base, expected } => match reply {
                    SonarReply::Completed => final(self).stage() == (VolumeControlStage::ReadingAfter { expected })
                        && reads(next, SonarQuery::MasterVolumeCheck { expected_bits: expected.volume_bits },
                        base@ + "/volumeSettings/streamer"@),
                    SonarReply::Failed(error) => final(self).stage() is Finished
                        && next == SonarStep::<()>::Finished(Err(error)),
                    _ => final(self).stage() is Finished && ends_unexpectedly(next),
                },
                VolumeControlStage::ReadingAfter { expected } => match reply {
                    SonarReply::MasterVolumeCheck(after) => final(self).stage() is Finished && if applied(old(self).action(), expected, after) {
                        next == SonarStep::<()>::Finished(Ok(()))
                    } else {
                        ends_unverified(next, not_applied_text())
                    },
                    SonarReply::Failed(error) => final(self).stage() is Finished
                        && next == SonarStep::<()>::Finished(Err(error)),
                    _ => final(self).stage() is Finished && ends_unexpectedly(next),
                },
                VolumeControlStage::Finished => final(self).stage() is Finished && ends_unexpectedly(next),
            },
    {
        proof {
            use_type_invariant(&*self);
        }
        let mut stage = VolumeControlStage::Finished;
        std::mem::swap(&mut stage, &mut self.stage);
        match stage {
            VolumeControlStage::Locating => match reply {
                SonarReply::Located(base) => {
                    let url = joined(base.as_str(), "/mode");
                    self.stage = VolumeControlStage::ReadingMode { base };
                    SonarStep::Request(SonarRequest::Read { query: SonarQuery::Mode, url })
                },
                SonarReply::Failed(error) => SonarStep::Finished(Err(error)),
                _ => unexpected_reply(),
            },
            VolumeControlStage::ReadingMode { base } => match reply {
                SonarReply::Mode(mode) => {
                    self.mode_read = Ghost(mode@);
                    if same_text(mode.as_str(), "stream") {
                        let url = joined(base.as_str(), "/volumeSettings/streamer");
                        self.stage = VolumeControlStage::ReadingBefore { base };
                        SonarStep::Request(SonarRequest::Read { query: SonarQuery::MasterVolume, url })
                    } else {
                        SonarStep::Finished(Err(SonarError::WrongMode))
                    }
                },
                SonarReply::Failed(error) => SonarStep::Finished(Err(error)),
                _ => unexpected_reply(),
            },
            VolumeControlStage::ReadingBefore { base } => match reply {
                SonarReply::MasterVolume(before) => {
                    if !before.volume_valid {
                        return SonarStep::Finished(Err(SonarError::ApiChanged(owned("Master - Personal 음량 값이 예상 범위를 벗어났습니다"))));
                    }
                    let master = joined(base.as_str(), "/volumeSettings/streamer/monitoring/master/");
                    let (url, expected) = match self.action {
                        PersonalVolumeAction::ToggleMute => (
                            joined(joined(master.as_str(), "isMuted/").as_str(), bool_url_text(!before.muted)),
                            MasterExpectation { muted: !before.muted, volume_bits: before.volume_bits },
                        ),
                        PersonalVolumeAction::StepDown => (
                            joined(joined(master.as_str(), "volume/").as_str(), before.step_down.text.as_str()),
                            MasterExpectation { muted: before.muted, volume_bits: before.step_down.bits },
                        ),
                        PersonalVolumeAction::StepUp => (
                            joined(joined(master.as_str(), "volume/").as_str(), before.step_up.text.as_str()),
                            MasterExpectation { muted: before.muted, volume_bits: before.step_up.bits },
                        ),
                    };
                    self.writes = Ghost(1);
                    self.stage = VolumeControlStage::Writing { base, expected };
                    SonarStep::Request(SonarRequest::ControlMaster { action: self.action, url })
                },
                SonarReply::Failed(error) => SonarStep::Finished(Err(error)),
                _ => unexpected_reply(),
            },
            VolumeControlStage::Writing { base, expected } => match reply {
                SonarReply::Completed => {
                    self.stage = VolumeControlStage::Settling { base, expected };
                    SonarStep::Request(SonarRequest::Pause { millis: 80 })
                },
                SonarReply::Failed(error) => SonarStep::Finished(Err(error)),
                _ => unexpected_reply(),
            },
            VolumeControlStage::Settling { base, expected } => match reply {
                SonarReply::Completed => {
                    let url = joined(base.as_str(), "/volumeSettings/streamer");
                    self.stage = VolumeControlStage::ReadingAfter { expected };
                    SonarStep::Request(SonarRequest::Read {
                        query: SonarQuery::MasterVolumeCheck { expected_bits: expected.volume_bits },
                        url,
                    })
                },
                SonarReply::Failed(error) => SonarStep::Finished(Err(error)),
                _ => unexpected_reply(),
            },
            VolumeControlStage::ReadingAfter { expected } => match reply {
                SonarReply::MasterVolumeCheck(after) => {
                    let confirmed = match self.action {
                        PersonalVolumeAction::ToggleMute => after.muted == expected.muted,
                        _ => after.volume_matches,
                    };
                    if confirmed {
                        SonarStep::Finished(Ok(()))
                    } else {
                        SonarStep::Finished(Err(SonarError::Verification(owned("Sonar Master - Personal 값이 요청대로 변경되지 않았습니다"))))
                    }
                },
                SonarReply::Failed(error) => SonarStep::Finished(Err(error)),
                _ => unexpected_reply(),
            },
            VolumeControlStage::Finished => unexpected_reply(),
        }
    }
}

} // verus!
