//! Routing one of Sonar's mixes, or the microphone, to another device, and
//! checking afterwards that exactly that redirection changed.

use vstd::prelude::*;
use crate::percent::{percent_encode, percent_encoded};
use crate::sonar::lookup::{find_redirection, is_physical, lookup_redirection, missing_redirection_text, physical};
use crate::sonar::protocol::{
    ends_api_changed, ends_unexpectedly, ends_unverified, reads, unexpected_reply, SonarQuery,
    SonarReply, SonarRequest, SonarStep,
};
use crate::sonar::types::{
    same_redirection, target_data_flow, target_id, target_label, RawAudioDevice, RawRedirection,
    RedirectionTarget, SonarError,
};
use crate::text::{joined, joined3, same_text};

verus! {

/// An active physical device that the target can be routed to, with this id.
pub open spec fn is_available(device: RawAudioDevice, target: RedirectionTarget, device_id: Seq<char>) -> bool {
    &&& device.id@ == device_id
    &&& is_physical(device, target_data_flow(target))
    &&& device.state@ == "active"@
}

/// The device list offers the device for the target.
pub open spec fn device_offered(devices: Seq<RawAudioDevice>, target: RedirectionTarget, device_id: Seq<char>) -> bool {
    exists|i: int| 0 <= i < devices.len() && #[trigger] is_available(devices[i], target, device_id)
}

/// All three redirections are listed.
pub open spec fn lists_all_redirections(items: Seq<RawRedirection>) -> bool {
    &&& lookup_redirection(items, "monitoring"@) is Some
    &&& lookup_redirection(items, "streaming"@) is Some
    &&& lookup_redirection(items, "mic"@) is Some
}

/// The URL of the `PUT` that routes the target to the device.
pub open spec fn redirect_url(base: Seq<char>, target: RedirectionTarget, device_id: Seq<char>) -> Seq<char> {
    base + "/streamRedirections/"@ + target_id(target) + "/deviceId/"@ + percent_encoded(device_id)
}

/// The ids of the two redirections that must stay as they were, in the order
/// they are checked.
pub open spec fn kept_ids(target: RedirectionTarget) -> (Seq<char>, Seq<char>) {
    match target {
        RedirectionTarget::Personal => ("streaming"@, "mic"@),
        RedirectionTarget::Stream => ("monitoring"@, "mic"@),
        RedirectionTarget::Mic => ("monitoring"@, "streaming"@),
    }
}

/// The detail of the error for a target that did not move to the device.
pub open spec fn not_moved_text(target: RedirectionTarget) -> Seq<char> {
    target_label(target) + "이(가) 요청한 장치로 변경되지 않았습니다"@
}

/// The detail of the error for a redirection that moved along with the target.
pub open spec fn moved_along_text(target: RedirectionTarget, id: Seq<char>) -> Seq<char> {
    target_label(target) + " 변경 중 "@ + id + " 리디렉션이 함께 변경되었습니다"@
}

/// The redirection `id` is listed before and after, and is the same.
pub open spec fn kept(id: Seq<char>, before: Seq<RawRedirection>, after: Seq<RawRedirection>) -> bool {
    &&& lookup_redirection(before, id) is Some
    &&& lookup_redirection(after, id) is Some
    &&& same_redirection(lookup_redirection(before, id)->0, lookup_redirection(after, id)->0)
}

/// The step carries the error that the check of the redirection `id` found.
pub open spec fn kept_failure(step: SonarStep<()>, target: RedirectionTarget, id: Seq<char>, before: Seq<RawRedirection>, after: Seq<RawRedirection>) -> bool {
    if lookup_redirection(before, id) is None || lookup_redirection(after, id) is None {
        ends_api_changed(step, missing_redirection_text(id))
    } else {
        ends_unverified(step, moved_along_text(target, id))
    }
}

/// How a change ends once the redirections are read again: the target must
/// be on the device, and the two other redirections unchanged.
pub open spec fn change_outcome(
    step: SonarStep<()>,
    target: RedirectionTarget,
    device_id: Seq<char>,
    before: Seq<RawRedirection>,
    after: Seq<RawRedirection>,
) -> bool {
    let (first, second) = kept_ids(target);
    match lookup_redirection(after, target_id(target)) {
        None => ends_api_changed(step, missing_redirection_text(target_id(target))),
        Some(changed) => if changed.device_id@ != device_id {
            ends_unverified(step, not_moved_text(target))
        } else if !kept(first, before, after) {
            kept_failure(step, target, first, before, after)
        } else if !kept(second, before, after) {
            kept_failure(step, target, second, before, after)
        } else {
            step == SonarStep::<()>::Finished(Ok(()))
        },
    }
}

/// The change succeeded as far as the redirections read after it show.
pub open spec fn change_confirmed(
    target: RedirectionTarget,
    device_id: Seq<char>,
    before: Seq<RawRedirection>,
    after: Seq<RawRedirection>,
) -> bool {
    let (first, second) = kept_ids(target);
    &&& lookup_redirection(after, target_id(target)) matches Some(changed) && changed.device_id@ == device_id
    &&& kept(first, before, after)
    &&& kept(second, before, after)
}

/// A device is offered for a change only through a listed device with its
/// id that is active, has no role, is not one of Sonar's virtual devices,
/// and plays (`render`) for the two mixes or records (`capture`) for the
/// microphone.
pub proof fn only_active_physical_devices_are_offered(devices: Seq<RawAudioDevice>, target: RedirectionTarget, device_id: Seq<char>)
    ensures
        device_offered(devices, target, device_id) <==> exists|i: int| 0 <= i < devices.len() && {
            let device = #[trigger] devices[i];
            &&& device.id@ == device_id
            &&& device.state@ == "active"@
            &&& device.role@ == "none"@
            &&& !device.is_vad
            &&& device.data_flow@ == (if target == RedirectionTarget::Mic { "capture"@ } else { "render"@ })
        },
{
    if exists|i: int| 0 <= i < devices.len() && {
        let device = #[trigger] devices[i];
        &&& device.id@ == device_id
        &&& device.state@ == "active"@
        &&& device.role@ == "none"@
        &&& !device.is_vad
        &&& device.data_flow@ == (if target == RedirectionTarget::Mic { "capture"@ } else { "render"@ })
    } {
        let i = choose|i: int| 0 <= i < devices.len() && {
            let device = #[trigger] devices[i];
            &&& device.id@ == device_id
            &&& device.state@ == "active"@
            &&& device.role@ == "none"@
            &&& !device.is_vad
            &&& device.data_flow@ == (if target == RedirectionTarget::Mic { "capture"@ } else { "render"@ })
        };
        assert(is_available(devices[i], target, device_id));
    }
}

/// The redirection `id` is listed before and after the change, and the
/// entry after agrees with the entry before in every field.
pub open spec fn unchanged(id: Seq<char>, before: Seq<RawRedirection>, after: Seq<RawRedirection>) -> bool {
    lookup_redirection(before, id) matches Some(old_entry)
        && lookup_redirection(after, id) matches Some(new_entry)
        && same_redirection(old_entry, new_entry)
}

/// The redirection `id` is listed after the change and is on the device.
pub open spec fn moved_to(id: Seq<char>, device_id: Seq<char>, after: Seq<RawRedirection>) -> bool {
    lookup_redirection(after, id) matches Some(entry) && entry.device_id@ == device_id
}

/// A change succeeds only when the redirection it routes (`monitoring` for
/// the Personal Mix, `streaming` for the Stream Mix, `mic` for the
/// microphone) is on the device afterwards and both other redirections are
/// listed before and after and unchanged in every field.
pub proof fn change_succeeds_only_when_nothing_else_moved(
    step: SonarStep<()>,
    target: RedirectionTarget,
    device_id: Seq<char>,
    before: Seq<RawRedirection>,
    after: Seq<RawRedirection>,
)
    ensures
        change_outcome(step, target, device_id, before, after) && step == SonarStep::<()>::Finished(Ok(())) ==> {
            &&& target == RedirectionTarget::Personal ==> moved_to("monitoring"@, device_id, after)
                && unchanged("streaming"@, before, after) && unchanged("mic"@, before, after)
            &&& target == RedirectionTarget::Stream ==> moved_to("streaming"@, device_id, after)
                && unchanged("monitoring"@, before, after) && unchanged("mic"@, before, after)
            &&& target == RedirectionTarget::Mic ==> moved_to("mic"@, device_id, after)
                && unchanged("monitoring"@, before, after) && unchanged("streaming"@, before, after)
        },
        change_confirmed(target, device_id, before, after) ==> {
            &&& target == RedirectionTarget::Personal ==> moved_to("monitoring"@, device_id, after)
                && unchanged("streaming"@, before, after) && unchanged("mic"@, before, after)
            &&& target == RedirectionTarget::Stream ==> moved_to("streaming"@, device_id, after)
                && unchanged("monitoring"@, before, after) && unchanged("mic"@, before, after)
            &&& target == RedirectionTarget::Mic ==> moved_to("mic"@, device_id, after)
                && unchanged("monitoring"@, before, after) && unchanged("streaming"@, before, after)
        },
{
}

/// Where a change stands.
#[derive(Debug)]
pub enum RedirectionChangeStage {
    Locating,
    ReadingMode { base: String },
    ReadingDevices { base: String },
    ReadingBefore { base: String },
    Writing { base: String, before: Vec<RawRedirection> },
    Settling { base: String, before: Vec<RawRedirection> },
    ReadingAfter { before: Vec<RawRedirection> },
    Finished,
}

/// The operation that routes a target to a device. Besides its stage it
/// records, for the proofs only, the mode and the device list it read and how
/// many writes it asked for.
pub struct RedirectionChange {
    target: RedirectionTarget,
    device_id: String,
    stage: RedirectionChangeStage,
    mode_read: Ghost<Seq<char>>,
    devices_read: Ghost<Seq<RawAudioDevice>>,
    writes: Ghost<nat>,
}

/// Whether a device is available for the target.
fn available(device: &RawAudioDevice, target: RedirectionTarget, device_id: &str) -> (yes: bool)
    ensures
        yes == is_available(*device, target, device_id@),
{
    same_text(device.id.as_str(), device_id) && physical(device, target.data_flow())
        && same_text(device.state.as_str(), "active")
}

/// Whether the device list offers the device for the target.
fn offered(devices: &Vec<RawAudioDevice>, target: RedirectionTarget, device_id: &str) -> (yes: bool)
    ensures
        yes == device_offered(devices@, target, device_id@),
{
    let mut i: usize = 0;
    while i < devices.len()
        invariant
            i <= devices@.len(),
            forall|j: int| 0 <= j < i ==> !#[trigger] is_available(devices@[j], target, device_id@),
        decreases devices.len() - i,
    {
        if available(&devices[i], target, device_id) {
            return true;
        }
        i = i + 1;
    }
    false
}

/// Whether two redirection entries agree in every field.
pub fn same_redirection_entry(a: &RawRedirection, b: &RawRedirection) -> (same: bool)
    ensures
        same == same_redirection(*a, *b),
{
    same_text(a.stream_redirection_id.as_str(), b.stream_redirection_id.as_str())
        && same_text(a.device_id.as_str(), b.device_id.as_str()) && a.is_running == b.is_running
        && same_text(a.rest.as_str(), b.rest.as_str())
}

/// Checks that the redirection `id` is listed before and after and unchanged.
fn check_kept(target: RedirectionTarget, id: &str, before: &Vec<RawRedirection>, after: &Vec<RawRedirection>) -> (checked: Result<(), SonarError>)
    ensures
        checked is Ok <==> kept(id@, before@, after@),
        checked is Err ==> kept_failure(SonarStep::Finished(checked), target, id@, before@, after@),
{
    let old_entry = match find_redirection(before.as_slice(), id) {
        Ok(entry) => entry,
        Err(error) => return Err(error),
    };
    let new_entry = match find_redirection(after.as_slice(), id) {
        Ok(entry) => entry,
        Err(error) => return Err(error),
    };
    if !same_redirection_entry(old_entry, new_entry) {
        let detail = joined3(joined(target.label(), " 변경 중 ").as_str(), id, " 리디렉션이 함께 변경되었습니다");
        return Err(SonarError::Verification(detail));
    }
    Ok(())
}

/// Finishes a change once the redirections are read again.
fn finish_change(target: RedirectionTarget, device_id: &str, before: &Vec<RawRedirection>, after: &Vec<RawRedirection>) -> (step: SonarStep<()>)
    ensures
        change_outcome(step, target, device_id@, before@, after@),
{
    let changed = match find_redirection(after.as_slice(), target.id()) {
        Ok(entry) => entry,
        Err(error) => return SonarStep::Finished(Err(error)),
    };
    if !same_text(changed.device_id.as_str(), device_id) {
        let detail = joined(target.label(), "이(가) 요청한 장치로 변경되지 않았습니다");
        return SonarStep::Finished(Err(SonarError::Verification(detail)));
    }
    let (first, second) = match target {
        RedirectionTarget::Personal => ("streaming", "mic"),
        RedirectionTarget::Stream => ("monitoring", "mic"),
        RedirectionTarget::Mic => ("monitoring", "streaming"),
    };
    match check_kept(target, first, before, after) {
        Ok(()) => {},
        Err(error) => return SonarStep::Finished(Err(error)),
    }
    match check_kept(target, second, before, after) {
        Ok(()) => {},
        Err(error) => return SonarStep::Finished(Err(error)),
    }
    SonarStep::Finished(Ok(()))
}

/// Checks that the three redirections are listed, in the order monitoring,
/// streaming, mic.
fn check_listed(items: &Vec<RawRedirection>) -> (checked: Result<(), SonarError>)
    ensures
        checked is Ok <==> lists_all_redirections(items@),
        lookup_redirection(items@, "monitoring"@) is None ==> ends_api_changed(SonarStep::<()>::Finished(checked), missing_redirection_text("monitoring"@)),
        lookup_redirection(items@, "monitoring"@) is Some && lookup_redirection(items@, "streaming"@) is None ==> ends_api_changed(SonarStep::<()>::Finished(checked), missing_redirection_text("streaming"@)),
        lookup_redirection(items@, "monitoring"@) is Some && lookup_redirection(items@, "streaming"@) is Some && lookup_redirection(items@, "mic"@) is None ==> ends_api_changed(SonarStep::<()>::Finished(checked), missing_redirection_text("mic"@)),
{
    match find_redirection(items.as_slice(), "monitoring") {
        Ok(_) => {},
        Err(error) => return Err(error),
    }
    match find_redirection(items.as_slice(), "streaming") {
        Ok(_) => {},
        Err(error) => return Err(error),
    }
    match find_redirection(items.as_slice(), "mic") {
        Ok(_) => {},
        Err(error) => return Err(error),
    }
    Ok(())
}

impl RedirectionChange {
    pub closed spec fn target(&self) -> RedirectionTarget {
        self.target
    }

    pub closed spec fn device_id(&self) -> Seq<char> {
        self.device_id@
    }

    pub closed spec fn stage(&self) -> RedirectionChangeStage {
        self.stage
    }

    /// The mode this change read, once it read one.
    pub closed spec fn mode_read(&self) -> Seq<char> {
        self.mode_read@
    }

    /// The device list this change read, once it read one.
    pub closed spec fn devices_read(&self) -> Seq<RawAudioDevice> {
        self.devices_read@
    }

    /// How many writes this change asked for.
    pub closed spec fn writes(&self) -> nat {
        self.writes@
    }

    /// What every reachable change satisfies: at most one write; past the
    /// mode, the mode was `"stream"`; past the device list, it offered the
    /// device; past the first read of the redirections, all three were listed
    /// and the write was asked for.
    #[verifier::type_invariant]
    closed spec fn well_formed(&self) -> bool {
        &&& self.writes@ <= 1
        &&& match self.stage {
            RedirectionChangeStage::Locating | RedirectionChangeStage::ReadingMode { .. } => self.writes@ == 0,
            RedirectionChangeStage::ReadingDevices { .. } => self.writes@ == 0 && self.mode_read@ == "stream"@,
            RedirectionChangeStage::ReadingBefore { .. } => {
                &&& self.writes@ == 0
                &&& self.mode_read@ == "stream"@
                &&& device_offered(self.devices_read@, self.target, self.device_id@)
            },
            RedirectionChangeStage::Writing { before, .. }
            | RedirectionChangeStage::Settling { before, .. }
            | RedirectionChangeStage::ReadingAfter { before } => {
                &&& self.writes@ == 1
                &&& self.mode_read@ == "stream"@
                &&& device_offered(self.devices_read@, self.target, self.device_id@)
                &&& lists_all_redirections(before@)
            },
            RedirectionChangeStage::Finished => true,
        }
    }

    /// A change of the target to the device, and its first request: locating
    /// the Sonar API.
    pub fn new(target: RedirectionTarget, device_id: String) -> (started: (Self, SonarRequest))
        ensures
            started.0.target() == target,
            started.0.device_id() == device_id@,
            started.0.stage() is Locating,
            started.0.writes() == 0,
            started.1 is Locate,
    {
        let change = RedirectionChange {
            target,
            device_id,
            stage: RedirectionChangeStage::Locating,
            mode_read: Ghost(Seq::empty()),
            devices_read: Ghost(Seq::empty()),
            writes: Ghost(0),
        };
        (change, SonarRequest::Locate)
    }

    /// Takes the reply to the pending request and says what comes next:
    /// locate; read `/mode`, which must be `"stream"`; read `/audioDevices`,
    /// which must offer the device as an active physical device of the
    /// target's data flow; read `/streamRedirections`, which must list all
    /// three redirections; write; pause 180 ms; read `/streamRedirections`
    /// again and check that the target is on the device and the two others
    /// are unchanged. A failed request ends the change with its error; a
    /// reply that does not answer the pending request ends it with
    /// `ApiChanged`.
    pub fn step(&mut self, reply: SonarReply) -> (next: SonarStep<()>)
        ensures
            final(self).target() == old(self).target(),
            final(self).device_id() == old(self).device_id(),
            // At most one write, and only once the mode and the device list
            // allowed it.
            final(self).writes() <= 1,
            next is Request && next->Request_0 is Redirect ==> {
                &&& old(self).writes() == 0
                &&& final(self).writes() == 1
                &&& final(self).mode_read() == "stream"@
                &&& device_offered(final(self).devices_read(), final(self).target(), final(self).device_id())
            },
            !(next is Request && next->Request_0 is Redirect) ==> final(self).writes() == old(self).writes(),
            // Success only after the write, and only as the last read confirms.
            next matches SonarStep::Finished(Ok(_)) ==> final(self).writes() == 1 && old(self).stage() is ReadingAfter
                && reply is StreamRedirections && change_confirmed(old(self).target(), old(self).device_id(),
                old(self).stage()->ReadingAfter_before@, reply->StreamRedirections_0@),
            match old(self).stage() {
                RedirectionChangeStage::Locating => match reply {
                    SonarReply::Located(base) => final(self).stage() == (RedirectionChangeStage::ReadingMode { base })
                        && reads(next, SonarQuery::Mode, base@ + "/mode"@),
                    SonarReply::Failed(error) => final(self).stage() is Finished
                        && next == SonarStep::<()>::Finished(Err(error)),
                    _ => final(self).stage() is Finished && ends_unexpectedly(next),
                },
                RedirectionChangeStage::ReadingMode { base } => match reply {
                    SonarReply::Mode(mode) => final(self).mode_read() == mode@ && if mode@ == "stream"@ {
                        final(self).stage() == (RedirectionChangeStage::ReadingDevices { base })
                            && reads(next, SonarQuery::AudioDevices, base@ + "/audioDevices"@)
                    } else {
                        final(self).stage() is Finished
                            && next == SonarStep::<()>::Finished(Err(SonarError::WrongMode))
                    },
                    SonarReply::Failed(error) => final(self).stage() is Finished
                        && next == SonarStep::<()>::Finished(Err(error)),
                    _ => final(self).stage() is Finished && ends_unexpectedly(next),
                },
                RedirectionChangeStage::ReadingDevices { base } => match reply {
                    SonarReply::AudioDevices(devices) => final(self).devices_read() == devices@
                        && if device_offered(devices@, old(self).target(), old(self).device_id()) {
                        final(self).stage() == (RedirectionChangeStage::ReadingBefore { base })
                            && reads(next, SonarQuery::StreamRedirections, base@ + "/streamRedirections"@)
                    } else {
                        final(self).stage() is Finished
                            && next == SonarStep::<()>::Finished(Err(SonarError::DeviceUnavailable))
                    },
                    SonarReply::Failed(error) => final(self).stage() is Finished
                        && next == SonarStep::<()>::Finished(Err(error)),
                    _ => final(self).stage() is Finished && ends_unexpectedly(next),
                },
                RedirectionChangeStage::ReadingBefore { base } => match reply {
                    SonarReply::StreamRedirections(before) => if lists_all_redirections(before@) {
                        final(self).stage() == (RedirectionChangeStage::Writing { base, before })
                            && (next matches SonarStep::Request(SonarRequest::Redirect { url })
                            && url@ == redirect_url(base@, old(self).target(), old(self).device_id()))
                    } else {
                        final(self).stage() is Finished && next is Finished && {
                            let missing = if lookup_redirection(before@, "monitoring"@) is None {
                                "monitoring"@
                            } else if lookup_redirection(before@, "streaming"@) is None {
                                "streaming"@
                            } else {
                                "mic"@
                            };
                            ends_api_changed(next, missing_redirection_text(missing))
                        }
                    },
                    SonarReply::Failed(error) => final(self).stage() is Finished
                        && next == SonarStep::<()>::Finished(Err(error)),
                    _ => final(self).stage() is Finished && ends_unexpectedly(next),
                },
                RedirectionChangeStage::Writing { base, before } => match reply {
                    SonarReply::Completed => final(self).stage() == (RedirectionChangeStage::Settling { base, before })
                        && next == SonarStep::<()>::Request(SonarRequest::Pause { millis: 180 }),
                    SonarReply::Failed(error) => final(self).stage() is Finished
                        && next == SonarStep::<()>::Finished(Err(error)),
                    _ => final(self).stage() is Finished && ends_unexpectedly(next),
                },
                RedirectionChangeStage::Settling { base, before } => match reply {
                    SonarReply::Completed => final(self).stage() == (RedirectionChangeStage::ReadingAfter { before })
                        && reads(next, SonarQuery::StreamRedirections, base@ + "/streamRedirections"@),
                    SonarReply::Failed(error) => final(self).stage() is Finished
                        && next == SonarStep::<()>::Finished(Err(error)),
                    _ => final(self).stage() is Finished && ends_unexpectedly(next),
                },
                RedirectionChangeStage::ReadingAfter { before } => match reply {
                    SonarReply::StreamRedirections(after) => final(self).stage() is Finished
                        && change_outcome(next, old(self).target(), old(self).device_id(), before@, after@),
                    SonarReply::Failed(error) => final(self).stage() is Finished
                        && next == SonarStep::<()>::Finished(Err(error)),
                    _ => final(self).stage() is Finished && ends_unexpectedly(next),
                },
                RedirectionChangeStage::Finished => final(self).stage() is Finished && ends_unexpectedly(next),
            },
    {
        proof {
            use_type_invariant(&*self);
        }
        let mut stage = RedirectionChangeStage::Finished;
        std::mem::swap(&mut stage, &mut self.stage);
        match stage {
            RedirectionChangeStage::Locating => match reply {
                SonarReply::Located(base) => {
                    let url = joined(base.as_str(), "/mode");
                    self.stage = RedirectionChangeStage::ReadingMode { base };
                    SonarStep::Request(SonarRequest::Read { query: SonarQuery::Mode, url })
                },
                SonarReply::Failed(error) => SonarStep::Finished(Err(error)),
                _ => unexpected_reply(),
            },
            RedirectionChangeStage::ReadingMode { base } => match reply {
                SonarReply::Mode(mode) => {
                    self.mode_read = Ghost(mode@);
                    if same_text(mode.as_str(), "stream") {
                        let url = joined(base.as_str(), "/audioDevices");
                        self.stage = RedirectionChangeStage::ReadingDevices { base };
                        SonarStep::Request(SonarRequest::Read { query: SonarQuery::AudioDevices, url })
                    } else {
                        SonarStep::Finished(Err(SonarError::WrongMode))
                    }
                },
                SonarReply::Failed(error) => SonarStep::Finished(Err(error)),
                _ => unexpected_reply(),
            },
            RedirectionChangeStage::ReadingDevices { base } => match reply {
                SonarReply::AudioDevices(devices) => {
                    self.devices_read = Ghost(devices@);
                    if offered(&devices, self.target, self.device_id.as_str()) {
                        let url = joined(base.as_str(), "/streamRedirections");
                        self.stage = RedirectionChangeStage::ReadingBefore { base };
                        SonarStep::Request(SonarRequest::Read { query: SonarQuery::StreamRedirections, url })
                    } else {
                        SonarStep::Finished(Err(SonarError::DeviceUnavailable))
                    }
                },
                SonarReply::Failed(error) => SonarStep::Finished(Err(error)),
                _ => unexpected_reply(),
            },
            RedirectionChangeStage::ReadingBefore { base } => match reply {
                SonarReply::StreamRedirections(before) => {
                    match check_listed(&before) {
                        Ok(()) => {},
                        Err(error) => return SonarStep::Finished(Err(error)),
                    }
                    let path = joined3(joined(base.as_str(), "/streamRedirections/").as_str(), self.target.id(), "/deviceId/");
                    let encoded = percent_encode(self.device_id.as_str());
                    let url = joined(path.as_str(), encoded.as_str());
                    self.writes = Ghost(1);
                    self.stage = RedirectionChangeStage::Writing { base, before };
                    SonarStep::Request(SonarRequest::Redirect { url })
                },
                SonarReply::Failed(error) => SonarStep::Finished(Err(error)),
                _ => unexpected_reply(),
            },
            RedirectionChangeStage::Writing { base, before } => match reply {
                SonarReply::Completed => {
                    self.stage = RedirectionChangeStage::Settling { base, before };
                    SonarStep::Request(SonarRequest::Pause { millis: 180 })
                },
                SonarReply::Failed(error) => SonarStep::Finished(Err(error)),
                _ => unexpected_reply(),
            },
            RedirectionChangeStage::Settling { base, before } => match reply {
                SonarReply::Completed => {
                    let url = joined(base.as_str(), "/streamRedirections");
                    self.stage = RedirectionChangeStage::ReadingAfter { before };
                    SonarStep::Request(SonarRequest::Read { query: SonarQuery::StreamRedirections, url })
                },
                SonarReply::Failed(error) => SonarStep::Finished(Err(error)),
                _ => unexpected_reply(),
            },
            RedirectionChangeStage::ReadingAfter { before } => match reply {
                SonarReply::StreamRedirections(after) => finish_change(self.target, self.device_id.as_str(), &before, &after),
                SonarReply::Failed(error) => SonarStep::Finished(Err(error)),
                _ => unexpected_reply(),
            },
            RedirectionChangeStage::Finished => unexpected_reply(),
        }
    }
}

} // verus!
