//! Auto-repeat of a held volume key: a press starts one repeat per action,
//! a release stops it, and a stopped repeat never resumes.

use vstd::prelude::*;
use crate::sonar::types::PersonalVolumeAction;

verus! {

/// The repeats under way, one slot per volume action. A repeat is known by
/// the token its start handed out; tokens only grow.
#[derive(Debug)]
pub struct MediaKeyRepeatState {
    toggle_mute: Option<u64>,
    step_down: Option<u64>,
    step_up: Option<u64>,
    next_token: u64,
}

impl MediaKeyRepeatState {
    /// The token of the repeat under way for the action, if any.
    pub closed spec fn slot(&self, action: PersonalVolumeAction) -> Option<u64> {
        match action {
            PersonalVolumeAction::ToggleMute => self.toggle_mute,
            PersonalVolumeAction::StepDown => self.step_down,
            PersonalVolumeAction::StepUp => self.step_up,
        }
    }

    /// The token the next start hands out.
    pub closed spec fn next_token(&self) -> u64 {
        self.next_token
    }

    /// Every token under way was handed out before the next one.
    #[verifier::type_invariant]
    closed spec fn well_formed(&self) -> bool {
        &&& self.toggle_mute matches Some(t) ==> t < self.next_token
        &&& self.step_down matches Some(t) ==> t < self.next_token
        &&& self.step_up matches Some(t) ==> t < self.next_token
    }

    /// No repeat under way.
    pub fn new() -> (state: Self)
        ensures
            forall|action: PersonalVolumeAction| #[trigger] state.slot(action) is None,
            state.next_token() == 0,
    {
        MediaKeyRepeatState { toggle_mute: None, step_down: None, step_up: None, next_token: 0 }
    }

    /// Starts a repeat for the action and hands out its token; `None` when a
    /// repeat for it is already under way, or when all tokens are used up.
    /// A new token differs from every token under way, so a stopped repeat
    /// never resumes through a later press.
    pub fn start(&mut self, action: PersonalVolumeAction) -> (held: Option<u64>)
        ensures
            held matches Some(t) ==> forall|any: PersonalVolumeAction| #[trigger] old(self).slot(any) matches Some(u) ==> u < t,
            final(self).next_token() >= old(self).next_token(),
            old(self).slot(action) is Some ==> held is None && *final(self) == *old(self),
            old(self).slot(action) is None && old(self).next_token() < u64::MAX ==> {
                &&& held == Some(old(self).next_token())
                &&& final(self).slot(action) == held
                &&& final(self).next_token() == old(self).next_token() + 1
                &&& forall|other: PersonalVolumeAction| other != action ==> #[trigger] final(self).slot(other) == old(self).slot(other)
            },
            old(self).slot(action) is None && old(self).next_token() == u64::MAX ==> held is None && *final(self) == *old(self),
    {
        proof {
            use_type_invariant(&*self);
        }
        let current = match action {
            PersonalVolumeAction::ToggleMute => self.toggle_mute,
            PersonalVolumeAction::StepDown => self.step_down,
            PersonalVolumeAction::StepUp => self.step_up,
        };
        if current.is_some() || self.next_token == u64::MAX {
            return None;
        }
        let token = self.next_token;
        let next_token = token + 1;
        let (toggle_mute, step_down, step_up) = match action {
            PersonalVolumeAction::ToggleMute => (Some(token), self.step_down, self.step_up),
            PersonalVolumeAction::StepDown => (self.toggle_mute, Some(token), self.step_up),
            PersonalVolumeAction::StepUp => (self.toggle_mute, self.step_down, Some(token)),
        };
        *self = MediaKeyRepeatState { toggle_mute, step_down, step_up, next_token };
        Some(token)
    }

    /// Stops the repeat for the action.
    pub fn stop(&mut self, action: PersonalVolumeAction)
        ensures
            final(self).slot(action) is None,
            final(self).next_token() == old(self).next_token(),
            forall|other: PersonalVolumeAction| other != action ==> #[trigger] final(self).slot(other) == old(self).slot(other),
    {
        proof {
            use_type_invariant(&*self);
        }
        let (toggle_mute, step_down, step_up) = match action {
            PersonalVolumeAction::ToggleMute => (None, self.step_down, self.step_up),
            PersonalVolumeAction::StepDown => (self.toggle_mute, None, self.step_up),
            PersonalVolumeAction::StepUp => (self.toggle_mute, self.step_down, None),
        };
        let next_token = self.next_token;
        *self = MediaKeyRepeatState { toggle_mute, step_down, step_up, next_token };
    }

    /// Whether the repeat with this token is still under way for the action.
    pub fn is_held(&self, action: PersonalVolumeAction, token: u64) -> (held: bool)
        ensures
            held == (self.slot(action) == Some(token)),
    {
        let current = match action {
            PersonalVolumeAction::ToggleMute => self.toggle_mute,
            PersonalVolumeAction::StepDown => self.step_down,
            PersonalVolumeAction::StepUp => self.step_up,
        };
        match current {
            Some(t) => t == token,
            None => false,
        }
    }
}

impl Default for MediaKeyRepeatState {
    fn default() -> (state: Self)
        ensures
            forall|action: PersonalVolumeAction| #[trigger] state.slot(action) is None,
            state.next_token() == 0,
    {
        MediaKeyRepeatState::new()
    }
}

/// What a press of a volume key does.
#[derive(Clone, Copy, Debug, PartialEq, Eq, Structural)]
pub enum PressPlan {
    /// Run the action once: the mute toggle does not repeat.
    RunOnce,
    /// Run the action and keep repeating it while the token is held.
    Repeat(u64),
    /// A repeat for the key is already under way.
    Ignore,
}

/// Handles a press of a volume key: the mute toggle runs once; a step starts
/// a repeat unless one is under way.
pub fn plan_press(repeats: &mut MediaKeyRepeatState, action: PersonalVolumeAction) -> (plan: PressPlan)
    ensures
        action == PersonalVolumeAction::ToggleMute ==> plan == PressPlan::RunOnce && *final(repeats) == *old(repeats),
        action != PersonalVolumeAction::ToggleMute ==> {
            &&& old(repeats).slot(action) is Some ==> plan == PressPlan::Ignore
            &&& plan matches PressPlan::Repeat(token) ==> final(repeats).slot(action) == Some(token)
                && token == old(repeats).next_token()
            &&& old(repeats).slot(action) is None && old(repeats).next_token() < u64::MAX ==> plan is Repeat
        },
{
    if action == PersonalVolumeAction::ToggleMute {
        return PressPlan::RunOnce;
    }
    match repeats.start(action) {
        Some(token) => PressPlan::Repeat(token),
        None => PressPlan::Ignore,
    }
}

/// Outside work of a repeat.
#[derive(Clone, Copy, Debug, PartialEq, Eq, Structural)]
pub enum RepeatRequest {
    /// Apply the volume action once.
    Run,
    /// Wait this many milliseconds, then say whether the key is still held.
    Pause { millis: u64 },
    /// The repeat is over.
    Stop,
}

/// The outcome of outside work of a repeat.
#[derive(Clone, Copy, Debug, PartialEq, Eq, Structural)]
pub enum RepeatReply {
    /// The action ran; `applied` is whether it succeeded.
    Ran { applied: bool },
    /// The pause is over; `held` is whether the key is still held.
    Paused { held: bool },
}

/// Where a repeat stands.
#[derive(Clone, Copy, Debug, PartialEq, Eq, Structural)]
pub enum RepeatStage {
    FirstRun,
    FirstPause,
    Running,
    Pausing,
    Stopped,
}

/// The repeat of a held volume key: run once; after 350 ms, while the key is
/// held, run again every 90 ms; stop at the first failure or release.
#[derive(Clone, Copy, Debug, PartialEq, Eq, Structural)]
pub struct VolumeRepeat {
    pub stage: RepeatStage,
}

impl VolumeRepeat {
    /// A repeat, and its first request: running the action.
    pub fn new() -> (started: (Self, RepeatRequest))
        ensures
            started.0.stage == RepeatStage::FirstRun,
            started.1 == RepeatRequest::Run,
    {
        (VolumeRepeat { stage: RepeatStage::FirstRun }, RepeatRequest::Run)
    }

    /// Takes the outcome of the pending work and says what comes next.
    pub fn step(&mut self, reply: RepeatReply) -> (next: RepeatRequest)
        ensures
            match (old(self).stage, reply) {
                (RepeatStage::FirstRun, RepeatReply::Ran { applied: true }) => final(self).stage == RepeatStage::FirstPause
                    && next == (RepeatRequest::Pause { millis: 350 }),
                (RepeatStage::Running, RepeatReply::Ran { applied: true }) => final(self).stage == RepeatStage::Pausing
                    && next == (RepeatRequest::Pause { millis: 90 }),
                (RepeatStage::FirstPause, RepeatReply::Paused { held: true })
                | (RepeatStage::Pausing, RepeatReply::Paused { held: true }) => final(self).stage == RepeatStage::Running
                    && next == RepeatRequest::Run,
                _ => final(self).stage == RepeatStage::Stopped && next == RepeatRequest::Stop,
            },
    {
        match (self.stage, reply) {
            (RepeatStage::FirstRun, RepeatReply::Ran { applied: true }) => {
                self.stage = RepeatStage::FirstPause;
                RepeatRequest::Pause { millis: 350 }
            },
            (RepeatStage::Running, RepeatReply::Ran { applied: true }) => {
                self.stage = RepeatStage::Pausing;
                RepeatRequest::Pause { millis: 90 }
            },
            (RepeatStage::FirstPause, RepeatReply::Paused { held: true })
            | (RepeatStage::Pausing, RepeatReply::Paused { held: true }) => {
                self.stage = RepeatStage::Running;
                RepeatRequest::Run
            },
            _ => {
                self.stage = RepeatStage::Stopped;
                RepeatRequest::Stop
            },
        }
    }
}

} // verus!
