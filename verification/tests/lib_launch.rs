use better_sonar::launch::{has_autostart_arg, reconcile_autostart};
use better_sonar::models::AppSettings;

#[test]
fn detects_autostart_launch_argument() {
    assert!(has_autostart_arg(&["better-sonar", "--autostart"]));
    assert!(!has_autostart_arg(&["better-sonar"]));
    assert!(!has_autostart_arg(&["better-sonar", "--other"]));
}

#[test]
fn autostart_argument_counts_anywhere_and_exactly() {
    assert!(has_autostart_arg(&["--autostart", "better-sonar"]));
    assert!(!has_autostart_arg(&["better-sonar", "--autostart=1"]));
    assert!(!has_autostart_arg(&[]));
}

#[test]
fn saved_autostart_follows_the_system() {
    let mut settings = AppSettings::default();
    let plan = reconcile_autostart(&mut settings, true);
    assert!(plan.rewrite_entry && plan.save_settings);
    assert!(settings.autostart);
    assert_eq!(settings.shortcut, "Ctrl+Alt+F9");

    let plan = reconcile_autostart(&mut settings, true);
    assert!(plan.rewrite_entry && !plan.save_settings);

    let plan = reconcile_autostart(&mut settings, false);
    assert!(!plan.rewrite_entry && plan.save_settings);
    assert!(!settings.autostart);
}
