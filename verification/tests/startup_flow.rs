use stassh::model::{Config, DbOpenStatus};
use stassh::startup::{
    asks_telemetry_first, esc_exits, init_failure_message, load_failure_message, onboarding_passphrase_error,
    prepare_telemetry_report, start_screen, telemetry_due, usable_secret, StartScreen,
};

#[test]
fn start_screens() {
    assert_eq!(start_screen(DbOpenStatus::Plain), StartScreen::Dashboard);
    assert_eq!(start_screen(DbOpenStatus::PassphraseRequired), StartScreen::AskPassphrase);
    assert_eq!(start_screen(DbOpenStatus::Missing), StartScreen::OnboardEncryption);
    let mut c = Config::default();
    assert!(asks_telemetry_first(&c));
    c.enable_telemetry = Some(false);
    assert!(!asks_telemetry_first(&c));
}

#[test]
fn reports_every_six_hours() {
    let mut c = Config::default();
    assert!(!telemetry_due(&c, 10));
    c.enable_telemetry = Some(true);
    assert!(telemetry_due(&c, 10));
    let id = prepare_telemetry_report(&mut c, 1_000).unwrap();
    assert_eq!(id.len(), 36);
    let cs: Vec<char> = id.chars().collect();
    for (i, c) in cs.iter().enumerate() {
        if [8, 13, 18, 23].contains(&i) {
            assert_eq!(*c, '-');
        } else {
            assert!(c.is_ascii_digit() || ('a'..='f').contains(c));
        }
    }
    assert_eq!(cs[14], '4');
    assert!(['8', '9', 'a', 'b'].contains(&cs[19]));
    assert_eq!(c.telemetry_uuid.as_deref(), Some(id.as_str()));
    assert_eq!(c.last_telemetry_report_at_unix_ms, Some(1_000));
    assert!(prepare_telemetry_report(&mut c, 1_000 + 21_599_999).is_none());
    assert_eq!(prepare_telemetry_report(&mut c, 1_000 + 21_600_000).as_deref(), Some(id.as_str()));
    c.last_telemetry_report_at_unix_ms = Some(u64::MAX);
    assert!(!telemetry_due(&c, 5));
}

#[test]
fn onboarding_messages() {
    assert_eq!(onboarding_passphrase_error(" \t").as_deref(), Some("Passphrase cannot be empty"));
    assert_eq!(onboarding_passphrase_error(" x "), None);
    assert_eq!(init_failure_message("locked"), "Failed to initialize encrypted database: locked");
    assert_eq!(load_failure_message("bad"), "Failed to load database with provided passphrase: bad");
    assert!(usable_secret(" s "));
    assert!(!usable_secret("   "));
}

#[test]
fn second_esc_within_a_second_exits() {
    assert!(!esc_exits(None, 5_000));
    assert!(esc_exits(Some(5_000), 5_999));
    assert!(!esc_exits(Some(5_000), 6_000));
    assert!(!esc_exits(Some(7_000), 5_000));
}
