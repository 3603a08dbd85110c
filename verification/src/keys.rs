//! Registering shortcuts with the system: the three volume media keys as a
//! whole, and the replacement of the user's toggle shortcut. A failure part
//! way undoes what the flow already did.

use vstd::prelude::*;
use crate::shortcuts::unregistrable_text;
use crate::text::{joined, joined3};

verus! {

/// A volume media key, in the order the keys are registered.
#[derive(Clone, Copy, Debug, PartialEq, Eq, Structural)]
pub enum MediaKey {
    VolumeMute,
    VolumeDown,
    VolumeUp,
}

/// The media key at a position of the registration order.
pub open spec fn media_key_at(position: int) -> MediaKey {
    if position == 0 {
        MediaKey::VolumeMute
    } else if position == 1 {
        MediaKey::VolumeDown
    } else {
        MediaKey::VolumeUp
    }
}

/// The name of a media key, as key codes are written.
pub open spec fn media_key_name(key: MediaKey) -> Seq<char> {
    match key {
        MediaKey::VolumeMute => "AudioVolumeMute"@,
        MediaKey::VolumeDown => "AudioVolumeDown"@,
        MediaKey::VolumeUp => "AudioVolumeUp"@,
    }
}

impl MediaKey {
    /// The name of the key, as key codes are written.
    pub fn name(self) -> (name: &'static str)
        ensures
            name@ == media_key_name(self),
    {
        match self {
            MediaKey::VolumeMute => "AudioVolumeMute",
            MediaKey::VolumeDown => "AudioVolumeDown",
            MediaKey::VolumeUp => "AudioVolumeUp",
        }
    }
}

/// The media key at a position of the registration order.
fn key_at(position: u8) -> (key: MediaKey)
    ensures
        key == media_key_at(position as int),
{
    if position == 0 {
        MediaKey::VolumeMute
    } else if position == 1 {
        MediaKey::VolumeDown
    } else {
        MediaKey::VolumeUp
    }
}

/// Whether the media keys are being registered or released.
#[derive(Clone, Copy, Debug, PartialEq, Eq, Structural)]
pub enum SwitchDirection {
    Enable,
    Disable,
}

/// The switch a change of the media-key setting asks for, if any.
pub fn media_keys_change(old_enabled: bool, new_enabled: bool) -> (change: Option<SwitchDirection>)
    ensures
        old_enabled == new_enabled ==> change is None,
        old_enabled != new_enabled && new_enabled ==> change == Some(SwitchDirection::Enable),
        old_enabled != new_enabled && !new_enabled ==> change == Some(SwitchDirection::Disable),
{
    if old_enabled == new_enabled {
        None
    } else if new_enabled {
        Some(SwitchDirection::Enable)
    } else {
        Some(SwitchDirection::Disable)
    }
}

/// Registering or releasing one key with the system.
#[derive(Clone, Copy, Debug, PartialEq, Eq, Structural)]
pub enum KeyRequest {
    Register(MediaKey),
    Unregister(MediaKey),
}

/// The system's answer to a registration request.
#[derive(Clone, Debug, PartialEq, Eq)]
pub enum KeyReply {
    Accepted,
    /// Refused, with the system's error text.
    Refused(String),
}

/// What a switch does next.
#[derive(Debug)]
pub enum KeyStep {
    Request(KeyRequest),
    Finished(Result<(), String>),
}

/// The request that applies the switch to a key.
pub open spec fn apply_request(direction: SwitchDirection, key: MediaKey) -> KeyRequest {
    match direction {
        SwitchDirection::Enable => KeyRequest::Register(key),
        SwitchDirection::Disable => KeyRequest::Unregister(key),
    }
}

/// The request that undoes the switch on a key.
pub open spec fn undo_request(direction: SwitchDirection, key: MediaKey) -> KeyRequest {
    match direction {
        SwitchDirection::Enable => KeyRequest::Unregister(key),
        SwitchDirection::Disable => KeyRequest::Register(key),
    }
}

/// The error text of a key the system refused.
pub open spec fn refused_key_text(direction: SwitchDirection, key: MediaKey, detail: Seq<char>) -> Seq<char> {
    match direction {
        SwitchDirection::Enable => media_key_name(key) + " 미디어 키를 등록하지 못했습니다. 다른 앱과의 글로벌 키 충돌일 수 있습니다: "@ + detail,
        SwitchDirection::Disable => media_key_name(key) + " 미디어 키 등록을 해제하지 못했습니다: "@ + detail,
    }
}

/// Where a switch stands.
#[derive(Clone, Copy, Debug, PartialEq, Eq, Structural)]
pub enum SwitchStage {
    Applying,
    Undoing,
    Finished,
}

/// The switch of all three media keys: apply it to each key in order; when
/// the system refuses one, undo it on the keys already done, in the same
/// order, and fail.
pub struct MediaKeySwitch {
    direction: SwitchDirection,
    stage: SwitchStage,
    applied: u8,
    undone: u8,
    error: String,
}

impl MediaKeySwitch {
    pub closed spec fn direction(&self) -> SwitchDirection {
        self.direction
    }

    pub closed spec fn stage(&self) -> SwitchStage {
        self.stage
    }

    /// How many keys the system accepted the switch for.
    pub closed spec fn applied(&self) -> nat {
        self.applied as nat
    }

    /// How many of those the switch asked to undo.
    pub closed spec fn undone(&self) -> nat {
        self.undone as nat
    }

    /// The text the switch fails with once the keys already switched are
    /// undone.
    pub closed spec fn pending_error(&self) -> Seq<char> {
        self.error@
    }

    #[verifier::type_invariant]
    closed spec fn well_formed(&self) -> bool {
        &&& self.applied <= 3
        &&& self.undone <= self.applied
        &&& self.stage == SwitchStage::Applying ==> self.applied < 3 && self.undone == 0
        &&& self.stage == SwitchStage::Undoing ==> 0 < self.undone
    }

    /// A switch in this direction, and its first request: the first key.
    pub fn new(direction: SwitchDirection) -> (started: (Self, KeyRequest))
        ensures
            started.0.direction() == direction,
            started.0.stage() == SwitchStage::Applying,
            started.0.applied() == 0,
            started.0.undone() == 0,
            started.1 == apply_request(direction, media_key_at(0)),
    {
        let request = match direction {
            SwitchDirection::Enable => KeyRequest::Register(MediaKey::VolumeMute),
            SwitchDirection::Disable => KeyRequest::Unregister(MediaKey::VolumeMute),
        };
        (MediaKeySwitch { direction, stage: SwitchStage::Applying, applied: 0, undone: 0, error: String::new() }, request)
    }

    /// Takes the system's answer to the pending request and says what comes
    /// next. Answers to undo requests are not looked at.
    pub fn step(&mut self, reply: KeyReply) -> (next: KeyStep)
        ensures
            final(self).direction() == old(self).direction(),
            // All three keys switched, or every key already switched undone.
            old(self).stage() != SwitchStage::Finished ==> {
                &&& next matches KeyStep::Finished(Ok(())) ==> final(self).applied() == 3 && final(self).undone() == 0
                &&& next matches KeyStep::Finished(Err(_)) ==> final(self).undone() == final(self).applied()
            },
            match old(self).stage() {
                SwitchStage::Applying => match reply {
                    KeyReply::Accepted => final(self).applied() == old(self).applied() + 1 && if final(self).applied() < 3 {
                        final(self).stage() == SwitchStage::Applying
                            && next == KeyStep::Request(apply_request(old(self).direction(), media_key_at(final(self).applied() as int)))
                    } else {
                        final(self).stage() == SwitchStage::Finished && next == KeyStep::Finished(Ok(()))
                    },
                    KeyReply::Refused(detail) => final(self).applied() == old(self).applied() && if old(self).applied() == 0 {
                        final(self).stage() == SwitchStage::Finished && (next matches KeyStep::Finished(Err(text))
                            && text@ == refused_key_text(old(self).direction(), media_key_at(0), detail@))
                    } else {
                        final(self).stage() == SwitchStage::Undoing && final(self).undone() == 1
                            && final(self).pending_error() == refused_key_text(old(self).direction(),
                            media_key_at(old(self).applied() as int), detail@)
                            && next == KeyStep::Request(undo_request(old(self).direction(), media_key_at(0)))
                    },
                },
                SwitchStage::Undoing => final(self).applied() == old(self).applied() && if old(self).undone() < old(self).applied() {
                    final(self).stage() == SwitchStage::Undoing && final(self).undone() == old(self).undone() + 1
                        && final(self).pending_error() == old(self).pending_error()
                        && next == KeyStep::Request(undo_request(old(self).direction(), media_key_at(old(self).undone() as int)))
                } else {
                    final(self).stage() == SwitchStage::Finished
                        && (next matches KeyStep::Finished(Err(text)) && text@ == old(self).pending_error())
                },
                SwitchStage::Finished => final(self).stage() == SwitchStage::Finished && *final(self) == *old(self)
                    && next is Finished && next->Finished_0 is Err,
            },
    {
        proof {
            use_type_invariant(&*self);
        }
        let direction = self.direction;
        match self.stage {
            SwitchStage::Applying => match reply {
                KeyReply::Accepted => {
                    let applied = self.applied + 1;
                    if applied < 3 {
                        let key = key_at(applied);
                        let error = String::new();
                        *self = MediaKeySwitch { direction, stage: SwitchStage::Applying, applied, undone: 0, error };
                        KeyStep::Request(match direction {
                            SwitchDirection::Enable => KeyRequest::Register(key),
                            SwitchDirection::Disable => KeyRequest::Unregister(key),
                        })
                    } else {
                        let error = String::new();
                        *self = MediaKeySwitch { direction, stage: SwitchStage::Finished, applied, undone: 0, error };
                        KeyStep::Finished(Ok(()))
                    }
                },
                KeyReply::Refused(detail) => {
                    let key = key_at(self.applied);
                    let text = match direction {
                        SwitchDirection::Enable => joined3(key.name(), " 미디어 키를 등록하지 못했습니다. 다른 앱과의 글로벌 키 충돌일 수 있습니다: ", detail.as_str()),
                        SwitchDirection::Disable => joined3(key.name(), " 미디어 키 등록을 해제하지 못했습니다: ", detail.as_str()),
                    };
                    let applied = self.applied;
                    if applied == 0 {
                        *self = MediaKeySwitch { direction, stage: SwitchStage::Finished, applied, undone: 0, error: String::new() };
                        KeyStep::Finished(Err(text))
                    } else {
                        *self = MediaKeySwitch { direction, stage: SwitchStage::Undoing, applied, undone: 1, error: text };
                        KeyStep::Request(match direction {
                            SwitchDirection::Enable => KeyRequest::Unregister(MediaKey::VolumeMute),
                            SwitchDirection::Disable => KeyRequest::Register(MediaKey::VolumeMute),
                        })
                    }
                },
            },
            SwitchStage::Undoing => {
                let applied = self.applied;
                let undone = self.undone;
                if undone < applied {
                    let key = key_at(undone);
                    let error = self.error.clone();
                    *self = MediaKeySwitch { direction, stage: SwitchStage::Undoing, applied, undone: undone + 1, error };
                    KeyStep::Request(match direction {
                        SwitchDirection::Enable => KeyRequest::Unregister(key),
                        SwitchDirection::Disable => KeyRequest::Register(key),
                    })
                } else {
                    let error = self.error.clone();
                    *self = MediaKeySwitch { direction, stage: SwitchStage::Finished, applied, undone, error: String::new() };
                    KeyStep::Finished(Err(error))
                }
            },
            SwitchStage::Finished => KeyStep::Finished(Err(self.error.clone())),
        }
    }
}

/// Outside work of replacing the user's toggle shortcut.
#[derive(Clone, Copy, Debug, PartialEq, Eq, Structural)]
pub enum ShortcutRequest {
    RegisterNew,
    UnregisterOld,
    UnregisterNew,
}

/// What a replacement does next.
#[derive(Debug)]
pub enum ShortcutStep {
    Request(ShortcutRequest),
    Finished(Result<(), String>),
}

/// Where a replacement stands.
#[derive(Clone, Copy, Debug, PartialEq, Eq, Structural)]
pub enum ReplacementStage {
    RegisteringNew,
    UnregisteringOld,
    UndoingNew,
    Finished,
}

/// The text of an old shortcut that could not be released.
pub open spec fn unreleased_old_text(detail: Seq<char>) -> Seq<char> {
    "이전 단축키 등록을 해제하지 못했습니다: "@ + detail
}

/// The replacement of the user's toggle shortcut: register the new one, then
/// release the old one; if the old one cannot be released, release the new
/// one again and fail. Besides its stage it records, for the proofs only,
/// which of the two shortcuts the system holds as far as its answers show.
pub struct ShortcutReplacement {
    stage: ReplacementStage,
    error: String,
    old_registered: Ghost<bool>,
    new_registered: Ghost<bool>,
}

impl ShortcutReplacement {
    pub closed spec fn stage(&self) -> ReplacementStage {
        self.stage
    }

    /// The old shortcut is still registered.
    pub closed spec fn old_registered(&self) -> bool {
        self.old_registered@
    }

    /// The new shortcut is registered.
    pub closed spec fn new_registered(&self) -> bool {
        self.new_registered@
    }

    #[verifier::type_invariant]
    closed spec fn well_formed(&self) -> bool {
        &&& self.stage == ReplacementStage::RegisteringNew ==> self.old_registered@ && !self.new_registered@
        &&& self.stage == ReplacementStage::UnregisteringOld ==> self.old_registered@ && self.new_registered@
        &&& self.stage == ReplacementStage::UndoingNew ==> self.old_registered@ && self.new_registered@
    }

    /// A replacement, given whether each shortcut was accepted and whether
    /// they are the same. It ends at once when one was refused (the old one's
    /// refusal first) or when they are the same; otherwise its first request
    /// registers the new shortcut.
    pub fn new(old_checked: Result<(), String>, new_checked: Result<(), String>, same: bool) -> (started: (Self, ShortcutStep))
        ensures
            started.0.old_registered(),
            !started.0.new_registered(),
            old_checked matches Err(detail) ==> started.0.stage() == ReplacementStage::Finished
                && started.1 == ShortcutStep::Finished(Err(detail)),
            old_checked is Ok ==> (new_checked matches Err(detail) ==> started.0.stage() == ReplacementStage::Finished
                && started.1 == ShortcutStep::Finished(Err(detail))),
            old_checked is Ok && new_checked is Ok && same ==> started.0.stage() == ReplacementStage::Finished
                && started.1 == ShortcutStep::Finished(Ok(())),
            old_checked is Ok && new_checked is Ok && !same ==> started.0.stage() == ReplacementStage::RegisteringNew
                && started.1 == ShortcutStep::Request(ShortcutRequest::RegisterNew),
    {
        let finished = ShortcutReplacement {
            stage: ReplacementStage::Finished,
            error: String::new(),
            old_registered: Ghost(true),
            new_registered: Ghost(false),
        };
        match old_checked {
            Err(detail) => return (finished, ShortcutStep::Finished(Err(detail))),
            Ok(()) => {},
        }
        match new_checked {
            Err(detail) => return (finished, ShortcutStep::Finished(Err(detail))),
            Ok(()) => {},
        }
        if same {
            return (finished, ShortcutStep::Finished(Ok(())));
        }
        (
            ShortcutReplacement {
                stage: ReplacementStage::RegisteringNew,
                error: String::new(),
                old_registered: Ghost(true),
                new_registered: Ghost(false),
            },
            ShortcutStep::Request(ShortcutRequest::RegisterNew),
        )
    }

    /// Takes the system's answer to the pending request and says what comes
    /// next. A failure leaves the old shortcut registered and the new one
    /// released, unless the system refuses that release too.
    pub fn step(&mut self, reply: KeyReply) -> (next: ShortcutStep)
        ensures
            old(self).stage() != ReplacementStage::Finished ==> {
                &&& next matches ShortcutStep::Finished(Ok(())) ==> old(self).stage() == ReplacementStage::UnregisteringOld
                    && !final(self).old_registered() && final(self).new_registered()
                &&& next matches ShortcutStep::Finished(Err(_)) ==> final(self).old_registered()
                    && (final(self).new_registered() ==> old(self).stage() == ReplacementStage::UndoingNew && reply is Refused)
            },
            match old(self).stage() {
                ReplacementStage::RegisteringNew => match reply {
                    KeyReply::Accepted => final(self).stage() == ReplacementStage::UnregisteringOld
                        && final(self).new_registered()
                        && next == ShortcutStep::Request(ShortcutRequest::UnregisterOld),
                    KeyReply::Refused(detail) => final(self).stage() == ReplacementStage::Finished
                        && (next matches ShortcutStep::Finished(Err(text)) && text@ == unregistrable_text(detail@)),
                },
                ReplacementStage::UnregisteringOld => match reply {
                    KeyReply::Accepted => final(self).stage() == ReplacementStage::Finished
                        && next == ShortcutStep::Finished(Ok(())),
                    KeyReply::Refused(detail) => final(self).stage() == ReplacementStage::UndoingNew
                        && next == ShortcutStep::Request(ShortcutRequest::UnregisterNew),
                },
                ReplacementStage::UndoingNew => final(self).stage() == ReplacementStage::Finished
                    && (next matches ShortcutStep::Finished(Err(text)) && text@ == unreleased_old_text(old(self).pending_detail())),
                ReplacementStage::Finished => *final(self) == *old(self) && next is Finished && next->Finished_0 is Err,
            },
    {
        proof {
            use_type_invariant(&*self);
        }
        match self.stage {
            ReplacementStage::RegisteringNew => match reply {
                KeyReply::Accepted => {
                    *self = ShortcutReplacement {
                        stage: ReplacementStage::UnregisteringOld,
                        error: String::new(),
                        old_registered: Ghost(true),
                        new_registered: Ghost(true),
                    };
                    ShortcutStep::Request(ShortcutRequest::UnregisterOld)
                },
                KeyReply::Refused(detail) => {
                    *self = ShortcutReplacement {
                        stage: ReplacementStage::Finished,
                        error: String::new(),
                        old_registered: Ghost(true),
                        new_registered: Ghost(false),
                    };
                    ShortcutStep::Finished(Err(joined("다른 앱이 사용 중인 단축키이거나 등록할 수 없습니다: ", detail.as_str())))
                },
            },
            ReplacementStage::UnregisteringOld => match reply {
                KeyReply::Accepted => {
                    *self = ShortcutReplacement {
                        stage: ReplacementStage::Finished,
                        error: String::new(),
                        old_registered: Ghost(false),
                        new_registered: Ghost(true),
                    };
                    ShortcutStep::Finished(Ok(()))
                },
                KeyReply::Refused(detail) => {
                    *self = ShortcutReplacement {
                        stage: ReplacementStage::UndoingNew,
                        error: detail,
                        old_registered: Ghost(true),
                        new_registered: Ghost(true),
                    };
                    ShortcutStep::Request(ShortcutRequest::UnregisterNew)
                },
            },
            ReplacementStage::UndoingNew => {
                let released = match reply {
                    KeyReply::Accepted => true,
                    KeyReply::Refused(_) => false,
                };
                let text = joined("이전 단축키 등록을 해제하지 못했습니다: ", self.error.as_str());
                *self = ShortcutReplacement {
                    stage: ReplacementStage::Finished,
                    error: String::new(),
                    old_registered: Ghost(true),
                    new_registered: Ghost(!released),
                };
                ShortcutStep::Finished(Err(text))
            },
            ReplacementStage::Finished => ShortcutStep::Finished(Err(self.error.clone())),
        }
    }

    /// The system's refusal text kept while the new shortcut is released again.
    pub closed spec fn pending_detail(&self) -> Seq<char> {
        self.error@
    }
}

} // verus!
