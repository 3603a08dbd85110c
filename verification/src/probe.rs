//! The checks of the Sonar probe, a command-line tool that reads Sonar's
//! state and, when asked, switches the Personal Mix to a device and back,
//! checking that the Stream Mix never moves.

use vstd::prelude::*;
use crate::discovery::SonarAppInfo;
use crate::models::AudioDevice;
use crate::percent::{percent_encode, percent_encoded};
use crate::text::{joined, joined3, owned, same_text};

verus! {

/// One entry of `/streamRedirections` as the probe reads it.
#[derive(Clone, Debug, PartialEq, Eq)]
pub struct StreamRedirection {
    pub stream_redirection_id: String,
    pub device_id: String,
    pub is_running: bool,
}

/// Two entries agree in every field.
pub open spec fn same_entry(a: StreamRedirection, b: StreamRedirection) -> bool {
    a.stream_redirection_id@ == b.stream_redirection_id@ && a.device_id@ == b.device_id@ && a.is_running == b.is_running
}

/// Whether two entries agree in every field.
pub fn same_stream_redirection(a: &StreamRedirection, b: &StreamRedirection) -> (same: bool)
    ensures
        same == same_entry(*a, *b),
{
    same_text(a.stream_redirection_id.as_str(), b.stream_redirection_id.as_str())
        && same_text(a.device_id.as_str(), b.device_id.as_str()) && a.is_running == b.is_running
}

/// A copy of an entry.
fn copy_entry(entry: &StreamRedirection) -> (copy: StreamRedirection)
    ensures
        copy == *entry,
{
    StreamRedirection {
        stream_redirection_id: entry.stream_redirection_id.clone(),
        device_id: entry.device_id.clone(),
        is_running: entry.is_running,
    }
}

/// The first entry with this id.
pub open spec fn find_entry(items: Seq<StreamRedirection>, id: Seq<char>) -> Option<StreamRedirection>
    decreases items.len(),
{
    if items.len() == 0 {
        None
    } else if items[0].stream_redirection_id@ == id {
        Some(items[0])
    } else {
        find_entry(items.drop_first(), id)
    }
}

/// The error for a missing entry.
pub open spec fn missing_entry_text(id: Seq<char>) -> Seq<char> {
    "streamRedirections에 "@ + id + " 항목이 없습니다"@
}

/// The first entry with this id, or the error naming it.
pub fn redirection(items: &[StreamRedirection], id: &str) -> (found: Result<StreamRedirection, String>)
    ensures
        match find_entry(items@, id@) {
            Some(entry) => found == Ok::<StreamRedirection, String>(entry),
            None => found matches Err(text) && text@ == missing_entry_text(id@),
        },
{
    let mut i: usize = 0;
    assert(items@.skip(0) =~= items@);
    while i < items.len()
        invariant
            i <= items@.len(),
            find_entry(items@, id@) == find_entry(items@.skip(i as int), id@),
        decreases items.len() - i,
    {
        assert(items@.skip(i as int).drop_first() =~= items@.skip(i + 1));
        if same_text(items[i].stream_redirection_id.as_str(), id) {
            return Ok(copy_entry(&items[i]));
        }
        i = i + 1;
    }
    assert(items@.skip(i as int).len() == 0);
    Err(joined3("streamRedirections에 ", id, " 항목이 없습니다"))
}

/// The device after the first `--switch-to` that has one.
pub open spec fn switch_target_of(args: Seq<&str>) -> Option<Seq<char>>
    decreases args.len(),
{
    if args.len() < 2 {
        None
    } else if args[0]@ == "--switch-to"@ {
        Some(args[1]@)
    } else {
        switch_target_of(args.drop_first())
    }
}

/// The device the probe is asked to switch to, given as `--switch-to <id>`.
pub fn switch_target(args: &[&str]) -> (target: Option<String>)
    ensures
        match switch_target_of(args@) {
            Some(id) => target matches Some(value) && value@ == id,
            None => target is None,
        },
{
    let mut i: usize = 0;
    assert(args@.skip(0) =~= args@);
    while i < args.len() && i + 1 < args.len()
        invariant
            i <= args@.len(),
            switch_target_of(args@) == switch_target_of(args@.skip(i as int)),
        decreases args.len() - i,
    {
        assert(args@.skip(i as int).drop_first() =~= args@.skip(i + 1));
        if same_text(args[i], "--switch-to") {
            return Some(owned(args[i + 1]));
        }
        i = i + 1;
    }
    assert(args@.skip(i as int).len() < 2);
    None
}

/// Checks that Sonar is enabled, ready and running with an API address, and
/// gives that address.
pub fn check_probe_app(app: &SonarAppInfo) -> (base: Result<String, String>)
    ensures
        !app.is_enabled ==> (base matches Err(text) && text@ == "Sonar가 비활성화되어 있습니다"@),
        app.is_enabled && !(app.is_ready && app.is_running) ==> (base matches Err(text)
            && text@ == "Sonar가 아직 실행 준비되지 않았습니다"@),
        app.is_enabled && app.is_ready && app.is_running && app.web_server_address@.len() == 0
            ==> (base matches Err(text) && text@ == "Sonar API 주소가 비어 있습니다"@),
        app.is_enabled && app.is_ready && app.is_running && app.web_server_address@.len() > 0
            ==> (base matches Ok(address) && address@ == app.web_server_address@),
{
    if !app.is_enabled {
        return Err(owned("Sonar가 비활성화되어 있습니다"));
    }
    if !(app.is_ready && app.is_running) {
        return Err(owned("Sonar가 아직 실행 준비되지 않았습니다"));
    }
    if app.web_server_address.as_str().is_empty() {
        return Err(owned("Sonar API 주소가 비어 있습니다"));
    }
    Ok(app.web_server_address.clone())
}

/// The text Rust's `Debug` writes for a text: quoted, with escapes.
pub uninterp spec fn debug_text(text: Seq<char>) -> Seq<char>;

/// Formats a text with `{:?}`; the contract names the result.
#[verifier::external_body]
fn debug_quoted(text: &str) -> (quoted: String)
    ensures
        quoted@ == debug_text(text@),
{
    format!("{:?}", text)
}

/// Checks that Sonar is in Streamer mode.
pub fn check_probe_mode(mode: &str) -> (checked: Result<(), String>)
    ensures
        mode@ == "stream"@ ==> checked is Ok,
        mode@ != "stream"@ ==> (checked matches Err(text)
            && text@ == "현재 모드는 "@ + debug_text(mode@) + "이며 Sonar for Streamers가 아닙니다"@),
{
    if same_text(mode, "stream") {
        Ok(())
    } else {
        let quoted = debug_quoted(mode);
        Err(joined3("현재 모드는 ", quoted.as_str(), "이며 Sonar for Streamers가 아닙니다"))
    }
}

/// The output is an active device with this id.
pub open spec fn offers_target(outputs: Seq<AudioDevice>, target: Seq<char>) -> bool {
    exists|i: int| 0 <= i < outputs.len() && #[trigger] outputs[i].id@ == target && outputs[i].state@ == "active"@
}

/// Checks the device to switch to: not the current Personal Mix device, and
/// an active physical output; gives its name.
pub fn check_probe_target(target: &str, personal_before: &StreamRedirection, outputs: &Vec<AudioDevice>) -> (name: Result<String, String>)
    ensures
        target@ == personal_before.device_id@ ==> (name matches Err(text)
            && text@ == "대상 장치가 현재 Personal Mix 장치와 같습니다"@),
        target@ != personal_before.device_id@ && !offers_target(outputs@, target@) ==> (name matches Err(text)
            && text@ == "대상은 활성 물리 재생 장치여야 합니다"@),
        target@ != personal_before.device_id@ && offers_target(outputs@, target@) ==> name is Ok,
        name matches Ok(found) ==> exists|i: int| 0 <= i < outputs@.len() && #[trigger] outputs@[i].id@ == target@
            && outputs@[i].state@ == "active"@ && outputs@[i].name@ == found@,
{
    if same_text(target, personal_before.device_id.as_str()) {
        return Err(owned("대상 장치가 현재 Personal Mix 장치와 같습니다"));
    }
    let mut i: usize = 0;
    while i < outputs.len()
        invariant
            i <= outputs@.len(),
            target@ != personal_before.device_id@,
            forall|j: int| 0 <= j < i ==> !(#[trigger] outputs@[j].id@ == target@ && outputs@[j].state@ == "active"@),
        decreases outputs.len() - i,
    {
        if same_text(outputs[i].id.as_str(), target) && same_text(outputs[i].state.as_str(), "active") {
            let found = outputs[i].name.clone();
            assert(outputs@[i as int].id@ == target@ && outputs@[i as int].name@ == found@);
            return Ok(found);
        }
        i = i + 1;
    }
    Err(owned("대상은 활성 물리 재생 장치여야 합니다"))
}

/// Outside work of the probe's round trip.
#[derive(Debug)]
pub enum ProbeRequest {
    /// `PUT` the URL: route the Personal Mix.
    Put { url: String },
    /// Wait this many milliseconds.
    Pause { millis: u64 },
    /// `GET` the URL: read the redirections.
    ReadRedirections { url: String },
}

/// The outcome of outside work of the round trip.
#[derive(Debug)]
pub enum ProbeReply {
    Done,
    Redirections(Vec<StreamRedirection>),
    Failed(String),
}

/// What the round trip does next.
#[derive(Debug)]
pub enum ProbeStep {
    Request(ProbeRequest),
    Finished(Result<(), String>),
}

/// Where the round trip stands.
#[derive(Debug)]
pub enum RoundTripStage {
    Switching,
    SettlingSwitch,
    ReadingSwitched,
    Restoring,
    SettlingRestore,
    ReadingRestored,
    /// The switch did not check out; the previous device is being put back
    /// before failing.
    Undoing,
    Finished,
}

/// The URL that routes the Personal Mix to a device.
pub open spec fn monitoring_url(base: Seq<char>, device_id: Seq<char>) -> Seq<char> {
    base + "/streamRedirections/monitoring/deviceId/"@ + percent_encoded(device_id)
}

/// The probe's round trip: switch the Personal Mix to the target, check it,
/// put the previous device back, check again. Besides its stage it records,
/// for the proofs only, whether the target was written and whether the
/// previous device was written back.
pub struct ProbeRoundTrip {
    base: String,
    target: String,
    personal_before: StreamRedirection,
    stream_before: StreamRedirection,
    stage: RoundTripStage,
    switched: Ghost<bool>,
    restored: Ghost<bool>,
}

impl ProbeRoundTrip {
    pub closed spec fn stage(&self) -> RoundTripStage {
        self.stage
    }

    pub closed spec fn target(&self) -> Seq<char> {
        self.target@
    }

    pub closed spec fn base(&self) -> Seq<char> {
        self.base@
    }

    pub closed spec fn personal_before(&self) -> StreamRedirection {
        self.personal_before
    }

    pub closed spec fn stream_before(&self) -> StreamRedirection {
        self.stream_before
    }

    /// The target write was accepted.
    pub closed spec fn switched(&self) -> bool {
        self.switched@
    }

    /// Writing the previous device back was asked for.
    pub closed spec fn restored(&self) -> bool {
        self.restored@
    }

    #[verifier::type_invariant]
    closed spec fn well_formed(&self) -> bool {
        match self.stage {
            RoundTripStage::Switching => !self.switched@ && !self.restored@,
            RoundTripStage::SettlingSwitch | RoundTripStage::ReadingSwitched => self.switched@ && !self.restored@,
            RoundTripStage::Restoring | RoundTripStage::SettlingRestore | RoundTripStage::ReadingRestored
            | RoundTripStage::Undoing => self.switched@ && self.restored@,
            RoundTripStage::Finished => true,
        }
    }

    /// A round trip to the target, and its first request: writing the target.
    pub fn new(base: String, target: String, personal_before: StreamRedirection, stream_before: StreamRedirection) -> (started: (Self, ProbeRequest))
        ensures
            started.0.base() == base@,
            started.0.target() == target@,
            started.0.personal_before() == personal_before,
            started.0.stream_before() == stream_before,
            started.0.stage() is Switching,
            started.1 matches ProbeRequest::Put { url } && url@ == monitoring_url(base@, target@),
    {
        let url = joined3(base.as_str(), "/streamRedirections/monitoring/deviceId/", percent_encode(target.as_str()).as_str());
        let trip = ProbeRoundTrip {
            base,
            target,
            personal_before,
            stream_before,
            stage: RoundTripStage::Switching,
            switched: Ghost(false),
            restored: Ghost(false),
        };
        (trip, ProbeRequest::Put { url })
    }

    /// Whether the switch checked out and the previous device is being
    /// written back.
    pub fn is_restoring(&self) -> (yes: bool)
        ensures
            yes == (self.stage() is Restoring),
    {
        matches!(self.stage, RoundTripStage::Restoring)
    }

    /// The request that writes the previous device back.
    fn restore_request(&self) -> (request: ProbeRequest)
        ensures
            request matches ProbeRequest::Put { url } && url@ == monitoring_url(self.base(), self.personal_before().device_id@),
    {
        let encoded = percent_encode(self.personal_before.device_id.as_str());
        ProbeRequest::Put { url: joined3(self.base.as_str(), "/streamRedirections/monitoring/deviceId/", encoded.as_str()) }
    }

    /// Takes the outcome of the pending work and says what comes next. Once
    /// the target was written and the redirections read back, the round trip
    /// writes the previous device back before it finishes, whether or not
    /// the switch checked out.
    pub fn step(&mut self, reply: ProbeReply) -> (next: ProbeStep)
        ensures
            final(self).base() == old(self).base(),
            final(self).target() == old(self).target(),
            final(self).personal_before() == old(self).personal_before(),
            final(self).stream_before() == old(self).stream_before(),
            next matches ProbeStep::Finished(Ok(())) ==> old(self).stage() is ReadingRestored && final(self).restored(),
            match (old(self).stage(), reply) {
                (RoundTripStage::Switching, ProbeReply::Done) => final(self).switched()
                    && next == ProbeStep::Request(ProbeRequest::Pause { millis: 250 }),
                (RoundTripStage::SettlingSwitch, ProbeReply::Done) | (RoundTripStage::SettlingRestore, ProbeReply::Done) =>
                    next matches ProbeStep::Request(ProbeRequest::ReadRedirections { url })
                    && url@ == old(self).base() + "/streamRedirections"@,
                (RoundTripStage::ReadingSwitched, ProbeReply::Redirections(changed)) => match (find_entry(changed@, "monitoring"@), find_entry(changed@, "streaming"@)) {
                    (None, _) => next matches ProbeStep::Finished(Err(text)) && text@ == missing_entry_text("monitoring"@),
                    (Some(_), None) => next matches ProbeStep::Finished(Err(text)) && text@ == missing_entry_text("streaming"@),
                    (Some(personal), Some(stream)) => final(self).restored()
                        && (next matches ProbeStep::Request(ProbeRequest::Put { url })
                        && url@ == monitoring_url(old(self).base(), old(self).personal_before().device_id@))
                        && if personal.device_id@ == old(self).target() && same_entry(stream, old(self).stream_before()) {
                            final(self).stage() is Restoring
                        } else {
                            final(self).stage() is Undoing
                        },
                },
                (RoundTripStage::Restoring, ProbeReply::Done) => next == ProbeStep::Request(ProbeRequest::Pause { millis: 250 }),
                (RoundTripStage::Undoing, _) => next matches ProbeStep::Finished(Err(text))
                    && text@ == "전환 검증 실패: Personal 또는 Stream Mix 상태가 예상과 다릅니다"@,
                (RoundTripStage::ReadingRestored, ProbeReply::Redirections(restored)) => match (find_entry(restored@, "monitoring"@), find_entry(restored@, "streaming"@)) {
                    (None, _) => next matches ProbeStep::Finished(Err(text)) && text@ == missing_entry_text("monitoring"@),
                    (Some(personal), _) => if !same_entry(personal, old(self).personal_before()) {
                        next matches ProbeStep::Finished(Err(text)) && text@ == "Personal Mix 원복 검증 실패"@
                    } else {
                        match find_entry(restored@, "streaming"@) {
                            None => next matches ProbeStep::Finished(Err(text)) && text@ == missing_entry_text("streaming"@),
                            Some(stream) => if !same_entry(stream, old(self).stream_before()) {
                                next matches ProbeStep::Finished(Err(text)) && text@ == "Stream Mix가 변경되었습니다"@
                            } else {
                                next == ProbeStep::Finished(Ok(()))
                            },
                        }
                    },
                },
                (_, ProbeReply::Failed(text)) => next == ProbeStep::Finished(Err(text)),
                (RoundTripStage::Finished, _) => next is Finished,
                _ => next is Finished && next->Finished_0 is Err,
            },
    {
        proof {
            use_type_invariant(&*self);
        }
        let mut stage = RoundTripStage::Finished;
        std::mem::swap(&mut stage, &mut self.stage);
        match (stage, reply) {
            (RoundTripStage::Undoing, _) => {
                ProbeStep::Finished(Err(owned("전환 검증 실패: Personal 또는 Stream Mix 상태가 예상과 다릅니다")))
            },
            (_, ProbeReply::Failed(text)) => ProbeStep::Finished(Err(text)),
            (RoundTripStage::Switching, ProbeReply::Done) => {
                self.switched = Ghost(true);
                self.stage = RoundTripStage::SettlingSwitch;
                ProbeStep::Request(ProbeRequest::Pause { millis: 250 })
            },
            (RoundTripStage::SettlingSwitch, ProbeReply::Done) => {
                self.stage = RoundTripStage::ReadingSwitched;
                ProbeStep::Request(ProbeRequest::ReadRedirections { url: joined(self.base.as_str(), "/streamRedirections") })
            },
            (RoundTripStage::ReadingSwitched, ProbeReply::Redirections(changed)) => {
                let personal = match redirection(changed.as_slice(), "monitoring") {
                    Ok(entry) => entry,
                    Err(text) => return ProbeStep::Finished(Err(text)),
                };
                let stream = match redirection(changed.as_slice(), "streaming") {
                    Ok(entry) => entry,
                    Err(text) => return ProbeStep::Finished(Err(text)),
                };
                let personal_ok = same_text(personal.device_id.as_str(), self.target.as_str());
                let stream_ok = same_stream_redirection(&stream, &self.stream_before);
                let request = self.restore_request();
                self.restored = Ghost(true);
                if personal_ok && stream_ok {
                    self.stage = RoundTripStage::Restoring;
                } else {
                    self.stage = RoundTripStage::Undoing;
                }
                ProbeStep::Request(request)
            },
            (RoundTripStage::Restoring, ProbeReply::Done) => {
                self.stage = RoundTripStage::SettlingRestore;
                ProbeStep::Request(ProbeRequest::Pause { millis: 250 })
            },
            (RoundTripStage::SettlingRestore, ProbeReply::Done) => {
                self.stage = RoundTripStage::ReadingRestored;
                ProbeStep::Request(ProbeRequest::ReadRedirections { url: joined(self.base.as_str(), "/streamRedirections") })
            },
            (RoundTripStage::ReadingRestored, ProbeReply::Redirections(restored)) => {
                let personal = match redirection(restored.as_slice(), "monitoring") {
                    Ok(entry) => entry,
                    Err(text) => return ProbeStep::Finished(Err(text)),
                };
                if !same_stream_redirection(&personal, &self.personal_before) {
                    return ProbeStep::Finished(Err(owned("Personal Mix 원복 검증 실패")));
                }
                let stream = match redirection(restored.as_slice(), "streaming") {
                    Ok(entry) => entry,
                    Err(text) => return ProbeStep::Finished(Err(text)),
                };
                if !same_stream_redirection(&stream, &self.stream_before) {
                    return ProbeStep::Finished(Err(owned("Stream Mix가 변경되었습니다")));
                }
                ProbeStep::Finished(Ok(()))
            },
            (RoundTripStage::Finished, _) => ProbeStep::Finished(Err(String::new())),
            _ => ProbeStep::Finished(Err(String::new())),
        }
    }
}

} // verus!
