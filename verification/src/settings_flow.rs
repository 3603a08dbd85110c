//! Saving the settings the user edited: the toggle shortcut, autostart and
//! the saved file change together, or the shortcut and autostart go back to
//! what they were.

use vstd::prelude::*;
use crate::models::AppSettings;
use crate::text::same_text;

verus! {

/// Outside work of saving settings.
#[derive(Debug)]
pub enum SettingsRequest {
    /// Make this the registered toggle shortcut.
    ApplyShortcut(String),
    /// Turn launching at login on or off.
    SetAutostart(bool),
    /// Write the new settings and refresh the snapshot.
    Persist,
    /// Register (`true`) or release (`false`) the volume media keys.
    SwitchMediaKeys(bool),
    /// Tell the user that the volume media keys could not be switched; the
    /// settings stay saved.
    ReportMediaKeyError(String),
}

/// The outcome of outside work of saving settings.
#[derive(Clone, Debug, PartialEq, Eq)]
pub enum SettingsReply {
    Done,
    Failed(String),
}

/// What saving settings does next.
#[derive(Debug)]
pub enum SettingsStep {
    Request(SettingsRequest),
    Finished(Result<(), String>),
}

/// Where saving settings stands.
#[derive(Debug)]
pub enum SaveStage {
    ApplyingShortcut,
    SettingAutostart,
    Persisting,
    SwitchingMediaKeys,
    ReportingMediaKeyError,
    /// Putting the old shortcut back after the failure, then autostart too
    /// when `restore_autostart`.
    RestoringShortcut { error: String, restore_autostart: bool },
    RestoringAutostart { error: String },
    Finished,
}

/// Saving edited settings. Besides its stage it records, for the proofs only,
/// the shortcut and the autostart state it last asked for.
pub struct SettingsSave {
    old: AppSettings,
    new: AppSettings,
    stage: SaveStage,
    shortcut_asked: Ghost<Seq<char>>,
    autostart_asked: Ghost<bool>,
    persisted: Ghost<bool>,
}

impl SettingsSave {
    pub closed spec fn old_settings(&self) -> AppSettings {
        self.old
    }

    pub closed spec fn new_settings(&self) -> AppSettings {
        self.new
    }

    pub closed spec fn stage(&self) -> SaveStage {
        self.stage
    }

    /// The toggle shortcut last asked for: the old one until a change is asked.
    pub closed spec fn shortcut_asked(&self) -> Seq<char> {
        self.shortcut_asked@
    }

    /// The autostart state last asked for and not refused.
    pub closed spec fn autostart_asked(&self) -> bool {
        self.autostart_asked@
    }

    /// The new settings were written.
    pub closed spec fn persisted(&self) -> bool {
        self.persisted@
    }

    /// What holds at each stage of every reachable save.
    #[verifier::type_invariant]
    closed spec fn well_formed(&self) -> bool {
        match self.stage {
            SaveStage::ApplyingShortcut => self.shortcut_asked@ == self.new.shortcut@
                && self.autostart_asked@ == self.old.autostart && !self.persisted@,
            SaveStage::SettingAutostart => self.shortcut_asked@ == self.new.shortcut@
                && self.autostart_asked@ == self.new.autostart && !self.persisted@,
            SaveStage::Persisting => self.shortcut_asked@ == self.new.shortcut@
                && self.autostart_asked@ == self.new.autostart && !self.persisted@,
            SaveStage::SwitchingMediaKeys | SaveStage::ReportingMediaKeyError => self.persisted@,
            SaveStage::RestoringShortcut { restore_autostart, .. } => self.shortcut_asked@ == self.old.shortcut@
                && !self.persisted@ && (restore_autostart || self.autostart_asked@ == self.old.autostart),
            SaveStage::RestoringAutostart { .. } => self.shortcut_asked@ == self.old.shortcut@
                && self.autostart_asked@ == self.old.autostart && !self.persisted@,
            SaveStage::Finished => true,
        }
    }

    /// A save of `new` over `old`, and its first request: the new shortcut
    /// when it changed, else autostart when it changed, else writing.
    pub fn new(old: AppSettings, new: AppSettings) -> (started: (Self, SettingsStep))
        ensures
            started.0.old_settings() == old,
            started.0.new_settings() == new,
            !started.0.persisted(),
            old.shortcut@ != new.shortcut@ ==> (started.1 matches SettingsStep::Request(SettingsRequest::ApplyShortcut(value))
                && value@ == new.shortcut@),
            old.shortcut@ == new.shortcut@ && old.autostart != new.autostart
                ==> started.1 == SettingsStep::Request(SettingsRequest::SetAutostart(new.autostart)),
            old.shortcut@ == new.shortcut@ && old.autostart == new.autostart
                ==> started.1 == SettingsStep::Request(SettingsRequest::Persist),
    {
        let shortcut_changed = !same_text(old.shortcut.as_str(), new.shortcut.as_str());
        let autostart_changed = old.autostart != new.autostart;
        if shortcut_changed {
            let value = new.shortcut.clone();
            let save = SettingsSave {
                shortcut_asked: Ghost(new.shortcut@),
                autostart_asked: Ghost(old.autostart),
                persisted: Ghost(false),
                old,
                new,
                stage: SaveStage::ApplyingShortcut,
            };
            (save, SettingsStep::Request(SettingsRequest::ApplyShortcut(value)))
        } else if autostart_changed {
            let value = new.autostart;
            let save = SettingsSave {
                shortcut_asked: Ghost(new.shortcut@),
                autostart_asked: Ghost(new.autostart),
                persisted: Ghost(false),
                old,
                new,
                stage: SaveStage::SettingAutostart,
            };
            (save, SettingsStep::Request(SettingsRequest::SetAutostart(value)))
        } else {
            let save = SettingsSave {
                shortcut_asked: Ghost(new.shortcut@),
                autostart_asked: Ghost(new.autostart),
                persisted: Ghost(false),
                old,
                new,
                stage: SaveStage::Persisting,
            };
            (save, SettingsStep::Request(SettingsRequest::Persist))
        }
    }

    /// Takes the outcome of the pending work and says what comes next.
    /// After the shortcut, autostart when it changed; after autostart,
    /// writing; after writing, the media keys when that setting changed. A
    /// failure before writing puts the old shortcut back; a failed write puts
    /// back the old shortcut and the old autostart state; the outcome of
    /// putting things back is not looked at. A failed media-key switch comes
    /// after the settings were written: it is reported to the user and the
    /// save still succeeds. A finished save
    /// answers any further outcome with an error of empty text.
    pub fn step(&mut self, reply: SettingsReply) -> (next: SettingsStep)
        ensures
            final(self).old_settings() == old(self).old_settings(),
            final(self).new_settings() == old(self).new_settings(),
            // A save that fails has not written its settings and leaves the
            // old shortcut and autostart state asked for; one that succeeds
            // has written them.
            !(old(self).stage() is Finished) && (next matches SettingsStep::Finished(Err(_))) ==> {
                &&& !final(self).persisted()
                &&& final(self).shortcut_asked() == final(self).old_settings().shortcut@
                &&& final(self).autostart_asked() == final(self).old_settings().autostart
            },
            next matches SettingsStep::Finished(Ok(())) ==> final(self).persisted(),
            next matches SettingsStep::Request(SettingsRequest::ApplyShortcut(value)) ==> value@ == final(self).shortcut_asked(),
            next matches SettingsStep::Request(SettingsRequest::SetAutostart(value)) ==> value == final(self).autostart_asked(),
            match (old(self).stage(), reply) {
                (SaveStage::ApplyingShortcut, SettingsReply::Done) => if old(self).old_settings().autostart != old(self).new_settings().autostart {
                    final(self).stage() is SettingAutostart
                        && next == SettingsStep::Request(SettingsRequest::SetAutostart(old(self).new_settings().autostart))
                } else {
                    final(self).stage() is Persisting && next == SettingsStep::Request(SettingsRequest::Persist)
                },
                (SaveStage::ApplyingShortcut, SettingsReply::Failed(error)) => final(self).stage() == (SaveStage::RestoringShortcut { error, restore_autostart: false })
                    && next is Request && next->Request_0 is ApplyShortcut,
                (SaveStage::SettingAutostart, SettingsReply::Done) => final(self).stage() is Persisting
                    && next == SettingsStep::Request(SettingsRequest::Persist),
                (SaveStage::SettingAutostart, SettingsReply::Failed(error)) => final(self).stage() == (SaveStage::RestoringShortcut { error, restore_autostart: false })
                    && next is Request && next->Request_0 is ApplyShortcut,
                (SaveStage::Persisting, SettingsReply::Done) => final(self).persisted() && if old(self).old_settings().media_keys_enabled != old(self).new_settings().media_keys_enabled {
                    final(self).stage() is SwitchingMediaKeys
                        && next == SettingsStep::Request(SettingsRequest::SwitchMediaKeys(old(self).new_settings().media_keys_enabled))
                } else {
                    final(self).stage() is Finished && next == SettingsStep::Finished(Ok(()))
                },
                (SaveStage::Persisting, SettingsReply::Failed(error)) => final(self).stage() == (SaveStage::RestoringShortcut { error, restore_autostart: true })
                    && next is Request && next->Request_0 is ApplyShortcut,
                (SaveStage::SwitchingMediaKeys, SettingsReply::Done) => final(self).stage() is Finished
                    && next == SettingsStep::Finished(Ok(())),
                (SaveStage::SwitchingMediaKeys, SettingsReply::Failed(error)) => final(self).stage() is ReportingMediaKeyError
                    && next == SettingsStep::Request(SettingsRequest::ReportMediaKeyError(error)),
                (SaveStage::ReportingMediaKeyError, _) => final(self).stage() is Finished
                    && next == SettingsStep::Finished(Ok(())),
                (SaveStage::RestoringShortcut { error, restore_autostart }, _) => if restore_autostart {
                    final(self).stage() == (SaveStage::RestoringAutostart { error })
                        && next == SettingsStep::Request(SettingsRequest::SetAutostart(old(self).old_settings().autostart))
                } else {
                    next == SettingsStep::Finished(Err(error))
                },
                (SaveStage::RestoringAutostart { error }, _) => next == SettingsStep::Finished(Err(error)),
                (SaveStage::Finished, _) => next is Finished && next->Finished_0 is Err,
            },
    {
        proof {
            use_type_invariant(&*self);
        }
        let mut stage = SaveStage::Finished;
        std::mem::swap(&mut stage, &mut self.stage);
        match (stage, reply) {
            (SaveStage::ApplyingShortcut, SettingsReply::Done) => {
                if self.old.autostart != self.new.autostart {
                    self.autostart_asked = Ghost(self.new.autostart);
                    self.stage = SaveStage::SettingAutostart;
                    SettingsStep::Request(SettingsRequest::SetAutostart(self.new.autostart))
                } else {
                    self.stage = SaveStage::Persisting;
                    SettingsStep::Request(SettingsRequest::Persist)
                }
            },
            (SaveStage::SettingAutostart, SettingsReply::Done) => {
                self.stage = SaveStage::Persisting;
                SettingsStep::Request(SettingsRequest::Persist)
            },
            (SaveStage::ApplyingShortcut, SettingsReply::Failed(error)) => {
                self.shortcut_asked = Ghost(self.old.shortcut@);
                self.stage = SaveStage::RestoringShortcut { error, restore_autostart: false };
                SettingsStep::Request(SettingsRequest::ApplyShortcut(self.old.shortcut.clone()))
            },
            (SaveStage::SettingAutostart, SettingsReply::Failed(error)) => {
                self.shortcut_asked = Ghost(self.old.shortcut@);
                self.autostart_asked = Ghost(self.old.autostart);
                self.stage = SaveStage::RestoringShortcut { error, restore_autostart: false };
                SettingsStep::Request(SettingsRequest::ApplyShortcut(self.old.shortcut.clone()))
            },
            (SaveStage::Persisting, SettingsReply::Done) => {
                self.persisted = Ghost(true);
                if self.old.media_keys_enabled != self.new.media_keys_enabled {
                    self.stage = SaveStage::SwitchingMediaKeys;
                    SettingsStep::Request(SettingsRequest::SwitchMediaKeys(self.new.media_keys_enabled))
                } else {
                    SettingsStep::Finished(Ok(()))
                }
            },
            (SaveStage::Persisting, SettingsReply::Failed(error)) => {
                self.shortcut_asked = Ghost(self.old.shortcut@);
                self.stage = SaveStage::RestoringShortcut { error, restore_autostart: true };
                SettingsStep::Request(SettingsRequest::ApplyShortcut(self.old.shortcut.clone()))
            },
            (SaveStage::SwitchingMediaKeys, SettingsReply::Done) => SettingsStep::Finished(Ok(())),
            (SaveStage::SwitchingMediaKeys, SettingsReply::Failed(error)) => {
                self.stage = SaveStage::ReportingMediaKeyError;
                SettingsStep::Request(SettingsRequest::ReportMediaKeyError(error))
            },
            (SaveStage::ReportingMediaKeyError, _) => SettingsStep::Finished(Ok(())),
            (SaveStage::RestoringShortcut { error, restore_autostart }, _) => {
                if restore_autostart {
                    self.autostart_asked = Ghost(self.old.autostart);
                    self.stage = SaveStage::RestoringAutostart { error };
                    SettingsStep::Request(SettingsRequest::SetAutostart(self.old.autostart))
                } else {
                    SettingsStep::Finished(Err(error))
                }
            },
            (SaveStage::RestoringAutostart { error }, _) => SettingsStep::Finished(Err(error)),
            (SaveStage::Finished, _) => SettingsStep::Finished(Err(String::new())),
        }
    }
}

} // verus!
