//! How the program was launched, and the autostart entry it was launched by.

use vstd::prelude::*;
use crate::models::AppSettings;
use crate::text::same_text;

verus! {

/// The argument the autostart entry launches the program with.
pub open spec fn autostart_arg() -> Seq<char> {
    "--autostart"@
}

/// Whether the program was launched by the autostart entry.
pub fn has_autostart_arg(args: &[&str]) -> (found: bool)
    ensures
        found == exists|i: int| 0 <= i < args@.len() && #[trigger] args@[i]@ == autostart_arg(),
{
    let mut i: usize = 0;
    while i < args.len()
        invariant
            i <= args@.len(),
            forall|j: int| 0 <= j < i ==> #[trigger] args@[j]@ != autostart_arg(),
        decreases args.len() - i,
    {
        if same_text(args[i], "--autostart") {
            return true;
        }
        i = i + 1;
    }
    false
}

/// What to do at start-up once the system says whether autostart is on.
#[derive(Clone, Copy, Debug, PartialEq, Eq, Structural)]
pub struct AutostartReconciliation {
    /// Register the entry again, so that one written without the argument
    /// by an older version gets it.
    pub rewrite_entry: bool,
    /// Save the settings, whose autostart state was corrected.
    pub save_settings: bool,
}

/// Makes the saved autostart state follow the system's: the settings take
/// the system's state, are saved when that changed them, and a present
/// entry is registered again.
pub fn reconcile_autostart(settings: &mut AppSettings, actual: bool) -> (plan: AutostartReconciliation)
    ensures
        final(settings).autostart == actual,
        final(settings).headset_device_id == old(settings).headset_device_id,
        final(settings).speaker_device_id == old(settings).speaker_device_id,
        final(settings).shortcut == old(settings).shortcut,
        final(settings).media_keys_enabled == old(settings).media_keys_enabled,
        plan.rewrite_entry == actual,
        plan.save_settings == (old(settings).autostart != actual),
{
    let save_settings = settings.autostart != actual;
    settings.autostart = actual;
    AutostartReconciliation { rewrite_entry: actual, save_settings }
}

} // verus!
