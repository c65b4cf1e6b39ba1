//! The start of the program and its onboarding: which screen opens, what
//! the passphrase screens answer, and when the anonymous usage report is
//! due; and the double Esc that ends it.

use vstd::prelude::*;
use crate::db_crypto::random_bytes;
use crate::model::{Config, DbOpenStatus};
use crate::text::{concat_str, is_blank_str, trim};

verus! {

/// How long after one usage report the next is due, in milliseconds (six
/// hours).
pub const TELEMETRY_REPORT_INTERVAL_MS: u64 = 21_600_000;

/// The screen the program opens on.
#[derive(Clone, Copy, Debug, PartialEq, Eq, Structural)]
pub enum StartScreen {
    /// The dashboard, over a database that opened without a passphrase.
    Dashboard,
    /// The question for the database passphrase.
    AskPassphrase,
    /// The onboarding question whether to encrypt a new database.
    OnboardEncryption,
}

/// The screen the program opens on for the state of its database.
pub fn start_screen(status: DbOpenStatus) -> (r: StartScreen)
    ensures
        r == (match status {
            DbOpenStatus::Plain => StartScreen::Dashboard,
            DbOpenStatus::PassphraseRequired => StartScreen::AskPassphrase,
            DbOpenStatus::Missing => StartScreen::OnboardEncryption,
        }),
{
    match status {
        DbOpenStatus::Plain => StartScreen::Dashboard,
        DbOpenStatus::PassphraseRequired => StartScreen::AskPassphrase,
        DbOpenStatus::Missing => StartScreen::OnboardEncryption,
    }
}

/// Whether going to the dashboard first asks about the usage report (it
/// does while that choice was never made).
pub fn asks_telemetry_first(config: &Config) -> (r: bool)
    ensures
        r == (config.enable_telemetry is None),
{
    config.enable_telemetry.is_none()
}

/// Whether a usage report is due at time `now` (milliseconds): reports are
/// on and none was sent in the last six hours.
pub open spec fn telemetry_due_spec(config: Config, now: u64) -> bool {
    &&& config.enable_telemetry == Some(true)
    &&& match config.last_telemetry_report_at_unix_ms {
        Some(last) => (if now >= last { now - last } else { 0 }) >= TELEMETRY_REPORT_INTERVAL_MS,
        None => true,
    }
}

/// Whether a usage report is due at time `now`.
pub fn telemetry_due(config: &Config, now: u64) -> (r: bool)
    ensures
        r == telemetry_due_spec(*config, now),
{
    if config.enable_telemetry != Some(true) {
        return false;
    }
    match config.last_telemetry_report_at_unix_ms {
        Some(last) => now.saturating_sub(last) >= TELEMETRY_REPORT_INTERVAL_MS,
        None => true,
    }
}

/// Whether a character is a lower-case hexadecimal digit.
pub open spec fn is_lower_hex(c: char) -> bool {
    ('0' <= c && c <= '9') || ('a' <= c && c <= 'f')
}

/// Whether `s` is the hyphenated text of a random (version 4) UUID: groups
/// of 8, 4, 4, 4 and 12 lower-case hexadecimal digits joined by hyphens,
/// the version digit `4`, and the variant digit one of `8`, `9`, `a`, `b`.
pub open spec fn is_v4_text(s: Seq<char>) -> bool {
    &&& s.len() == 36
    &&& forall|i: int| 0 <= i < 36 ==> (if i == 8 || i == 13 || i == 18 || i == 23 {
        s[i] == '-'
    } else {
        is_lower_hex(#[trigger] s[i])
    })
    &&& s[14] == '4'
    &&& (s[19] == '8' || s[19] == '9' || s[19] == 'a' || s[19] == 'b')
}

/// The lower-case hexadecimal digits, by value.
pub open spec fn hex_digits() -> Seq<char> {
    seq!['0', '1', '2', '3', '4', '5', '6', '7', '8', '9', 'a', 'b', 'c', 'd', 'e', 'f']
}

/// Sixteen random bytes with the version (4) and variant (RFC 4122) bits
/// of a random UUID set: the high half of byte 6 becomes 4, and the top
/// two bits of byte 8 become `10`.
pub open spec fn v4_stamped(b: Seq<u8>) -> Seq<u8> {
    b.update(6, (b[6] & 0x0f) | 0x40).update(8, (b[8] & 0x3f) | 0x80)
}

/// Which of the 32 hexadecimal digits stands at position `i` of the
/// hyphenated text (hyphens after the 8th, 12th, 16th and 20th digit).
pub open spec fn digit_index(i: int) -> int {
    if i < 8 {
        i
    } else if i < 13 {
        i - 1
    } else if i < 18 {
        i - 2
    } else if i < 23 {
        i - 3
    } else {
        i - 4
    }
}

/// The hyphenated lower-case text of a UUID with bytes `b`: two digits per
/// byte, high half first, in groups of 8, 4, 4, 4 and 12.
pub open spec fn uuid_text(b: Seq<u8>) -> Seq<char> {
    Seq::new(
        36,
        |i: int|
            if i == 8 || i == 13 || i == 18 || i == 23 {
                '-'
            } else {
                let j = digit_index(i);
                let byte = b[j / 2];
                hex_digits()[(if j % 2 == 0 { byte >> 4 } else { byte & 0x0f }) as int]
            },
    )
}

/// The text of the random UUID that `uuid::Builder::from_random_bytes`
/// builds from sixteen bytes (it sets the version and variant bits), as
/// `Display` writes it: hyphenated, lower case.
#[verifier::external_body]
fn uuid_text_from_random(bytes: &[u8]) -> (r: String)
    requires
        bytes@.len() == 16,
    ensures
        r@ == uuid_text(v4_stamped(bytes@)),
{
    let mut raw = [0u8; 16];
    raw.copy_from_slice(bytes);
    uuid::Builder::from_random_bytes(raw).into_uuid().to_string()
}

proof fn lemma_hex_digits()
    ensures
        forall|k: int| 0 <= k < 16 ==> is_lower_hex(#[trigger] hex_digits()[k]),
        hex_digits()[4] == '4',
        hex_digits()[8] == '8',
        hex_digits()[9] == '9',
        hex_digits()[10] == 'a',
        hex_digits()[11] == 'b',
{
    assert forall|k: int| 0 <= k < 16 implies is_lower_hex(#[trigger] hex_digits()[k]) by {
        assert(k == 0 || k == 1 || k == 2 || k == 3 || k == 4 || k == 5 || k == 6 || k == 7 || k == 8 || k == 9
            || k == 10 || k == 11 || k == 12 || k == 13 || k == 14 || k == 15);
    }
}

/// Every text built from sixteen stamped bytes is a version 4 UUID's.
proof fn lemma_stamped_text_is_v4(b: Seq<u8>)
    requires
        b.len() == 16,
    ensures
        is_v4_text(uuid_text(v4_stamped(b))),
{
    lemma_hex_digits();
    let s = v4_stamped(b);
    let t = uuid_text(s);
    assert forall|i: int| 0 <= i < 36 implies (if i == 8 || i == 13 || i == 18 || i == 23 {
        t[i] == '-'
    } else {
        is_lower_hex(#[trigger] t[i])
    }) by {
        if !(i == 8 || i == 13 || i == 18 || i == 23) {
            let j = digit_index(i);
            let byte = s[j / 2];
            assert(byte >> 4 < 16) by (bit_vector);
            assert(byte & 0x0f < 16) by (bit_vector);
        }
    }
    let b6 = b[6];
    let b8 = b[8];
    assert(((b6 & 0x0f) | 0x40) >> 4 == 4) by (bit_vector);
    let v = ((b8 & 0x3f) | 0x80) >> 4;
    assert(v == 8 || v == 9 || v == 10 || v == 11) by (bit_vector)
        requires
            v == ((b8 & 0x3f) | 0x80) >> 4,
    ;
    assert(s[6] == (b6 & 0x0f) | 0x40);
    assert(s[8] == (b8 & 0x3f) | 0x80);
    assert(t[14] == '4');
    assert(t[19] == hex_digits()[v as int]);
}

/// Prepares a usage report at time `now` when one is due: the report's
/// identifier is made once and kept, and the time of the report recorded.
/// A new identifier is a random UUID built from sixteen bytes of the
/// operating system's random source; when the source fails, no report is
/// made and the settings stay as they were. Returns the identifier to
/// report under, or nothing.
pub fn prepare_telemetry_report(config: &mut Config, now: u64) -> (r: Option<String>)
    ensures
        !telemetry_due_spec(*old(config), now) ==> r is None && *final(config) == *old(config),
        r is None ==> *final(config) == *old(config),
        telemetry_due_spec(*old(config), now) && old(config).telemetry_uuid is Some ==> r is Some,
        r is Some ==> {
            &&& telemetry_due_spec(*old(config), now)
            &&& final(config).telemetry_uuid == r
            &&& (old(config).telemetry_uuid matches Some(u) ==> r == Some(u))
            &&& (old(config).telemetry_uuid is None ==> {
                &&& exists|b: Seq<u8>| b.len() == 16 && r->0@ == #[trigger] uuid_text(v4_stamped(b))
                &&& is_v4_text(r->0@)
            })
            &&& final(config).last_telemetry_report_at_unix_ms == Some(now)
            &&& final(config).enable_telemetry == old(config).enable_telemetry
            &&& final(config).db_encryption == old(config).db_encryption
            &&& final(config).ssh_idle_timeout_seconds == old(config).ssh_idle_timeout_seconds
            &&& final(config).ssh_connect_timeout_seconds == old(config).ssh_connect_timeout_seconds
            &&& final(config).show_debug_panel == old(config).show_debug_panel
        },
{
    if !telemetry_due(config, now) {
        return None;
    }
    let id = match &config.telemetry_uuid {
        Some(u) => u.clone(),
        None => match random_bytes(16) {
            Some(bytes) => {
                let id = uuid_text_from_random(&bytes);
                proof {
                    lemma_stamped_text_is_v4(bytes@);
                }
                id
            },
            None => return None,
        },
    };
    config.telemetry_uuid = Some(id.clone());
    config.last_telemetry_report_at_unix_ms = Some(now);
    Some(id)
}

/// Whether a configured report secret can be used: it is not blank.
pub fn usable_secret(secret: &str) -> (r: bool)
    ensures
        r == (trim(secret@).len() > 0),
{
    !is_blank_str(secret)
}

/// The error the onboarding passphrase screen shows for a blank passphrase,
/// or nothing when the passphrase can be used.
pub fn onboarding_passphrase_error(text: &str) -> (r: Option<String>)
    ensures
        trim(text@).len() == 0 ==> (r matches Some(e) && e@ == "Passphrase cannot be empty"@),
        trim(text@).len() > 0 ==> r is None,
{
    if is_blank_str(text) {
        Some("Passphrase cannot be empty".to_string())
    } else {
        None
    }
}

/// The error shown when a new encrypted database could not be set up.
pub fn init_failure_message(error: &str) -> (r: String)
    ensures
        r@ == "Failed to initialize encrypted database: "@ + error@,
{
    concat_str("Failed to initialize encrypted database: ", error)
}

/// The error shown when the database did not open with the passphrase.
pub fn load_failure_message(error: &str) -> (r: String)
    ensures
        r@ == "Failed to load database with provided passphrase: "@ + error@,
{
    concat_str("Failed to load database with provided passphrase: ", error)
}

/// How long a first Esc waits for the second that exits, in milliseconds.
pub const EXIT_CONFIRM_WINDOW_MS: u64 = 1000;

/// Whether an Esc at time `now` (milliseconds) exits: a first Esc came less
/// than a second before. A first Esc only asks to press it again.
pub fn esc_exits(first_press_at: Option<u64>, now: u64) -> (r: bool)
    ensures
        r == (match first_press_at {
            Some(t) => t <= now && now - t < EXIT_CONFIRM_WINDOW_MS,
            None => false,
        }),
{
    match first_press_at {
        Some(t) => t <= now && now - t < EXIT_CONFIRM_WINDOW_MS,
        None => false,
    }
}

} // verus!
