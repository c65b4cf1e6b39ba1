//! Database backups as text: the base64 token shown for copying, reading a
//! pasted token back, and the steps of the restore dialog.

use vstd::prelude::*;
use base64::Engine;
use crate::input::{edit_entry, entry_text_after_key, handle_yes_no_input, KeyCode, KeyEvent};
use crate::navigation::{
    SettingsBackupAction, SettingsBackupField, SettingsBackupModalState, SettingsBackupRestoreStage,
};
use crate::text::{char_is_ws, chars_of, concat_str, is_blank_str, is_ws, push_char, string_of, trim};

verus! {

/// The width at which a backup token is broken into lines for display.
pub const BACKUP_TOKEN_WIDTH: usize = 96;

/// `s` without its whitespace.
pub open spec fn compact_spec(s: Seq<char>) -> Seq<char>
    decreases s.len(),
{
    if s.len() == 0 {
        Seq::empty()
    } else if is_ws(s[0]) {
        compact_spec(s.drop_first())
    } else {
        seq![s[0]] + compact_spec(s.drop_first())
    }
}

/// A token without its whitespace (line breaks included).
pub fn compact_token(value: &str) -> (r: String)
    ensures
        r@ == compact_spec(value@),
{
    let cs = chars_of(value);
    let n = cs.len();
    let mut out: Vec<char> = Vec::new();
    let mut i: usize = 0;
    assert(cs@.subrange(0, n as int) =~= cs@);
    while i < n
        invariant
            n == cs@.len(),
            i <= n,
            out@ + compact_spec(cs@.subrange(i as int, n as int)) == compact_spec(cs@),
        decreases n - i,
    {
        let ghost rest = cs@.subrange(i as int, n as int);
        assert(rest.drop_first() =~= cs@.subrange(i + 1, n as int));
        if !char_is_ws(cs[i]) {
            out.push(cs[i]);
            assert(out@ + compact_spec(cs@.subrange(i + 1, n as int)) =~= (out@.drop_last() + seq![cs@[i as int]]) + compact_spec(
                cs@.subrange(i + 1, n as int),
            ));
        }
        i = i + 1;
    }
    assert(cs@.subrange(n as int, n as int) =~= Seq::<char>::empty());
    assert(out@ + Seq::<char>::empty() =~= out@);
    string_of(&out)
}

/// The characters of `s` with a line feed after every `w`-th character,
/// the first line already holding `count` characters.
pub open spec fn wrap_from(s: Seq<char>, w: nat, count: nat) -> Seq<char>
    decreases s.len(),
{
    if s.len() == 0 {
        Seq::empty()
    } else if count + 1 >= w {
        seq![s[0], '\n'] + wrap_from(s.drop_first(), w, 0)
    } else {
        seq![s[0]] + wrap_from(s.drop_first(), w, count + 1)
    }
}

/// A token broken into lines of `w` characters for display, without a
/// line feed at the very end.
pub open spec fn wrap_spec(s: Seq<char>, w: nat) -> Seq<char> {
    if w == 0 {
        s
    } else {
        let raw = wrap_from(s, w, 0);
        if raw.len() > 0 && raw.last() == '\n' {
            raw.drop_last()
        } else {
            raw
        }
    }
}

/// Breaks a token into lines of `width` characters for display.
pub fn wrap_token_for_display(value: &str, width: usize) -> (r: String)
    ensures
        r@ == wrap_spec(value@, width as nat),
{
    if width == 0 {
        return value.to_string();
    }
    let cs = chars_of(value);
    let n = cs.len();
    let mut out: Vec<char> = Vec::new();
    let mut count: usize = 0;
    let mut i: usize = 0;
    assert(cs@.subrange(0, n as int) =~= cs@);
    while i < n
        invariant
            n == cs@.len(),
            i <= n,
            width > 0,
            count < width,
            out@ + wrap_from(cs@.subrange(i as int, n as int), width as nat, count as nat) == wrap_from(
                cs@,
                width as nat,
                0,
            ),
        decreases n - i,
    {
        let ghost rest = cs@.subrange(i as int, n as int);
        let ghost before = out@;
        assert(rest.drop_first() =~= cs@.subrange(i + 1, n as int));
        out.push(cs[i]);
        count = count + 1;
        if count >= width {
            out.push('\n');
            count = 0;
            assert(out@ =~= before + seq![cs@[i as int], '\n']);
        } else {
            assert(out@ =~= before + seq![cs@[i as int]]);
        }
        i = i + 1;
    }
    assert(cs@.subrange(n as int, n as int) =~= Seq::<char>::empty());
    assert(out@ + Seq::<char>::empty() =~= out@);
    let len = out.len();
    if len > 0 && out[len - 1] == '\n' {
        out.pop();
    }
    string_of(&out)
}

proof fn lemma_compact_append(a: Seq<char>, b: Seq<char>)
    ensures
        compact_spec(a + b) == compact_spec(a) + compact_spec(b),
    decreases a.len(),
{
    if a.len() == 0 {
        assert(a + b =~= b);
        assert(compact_spec(a) + compact_spec(b) =~= compact_spec(b));
    } else {
        assert((a + b).drop_first() =~= a.drop_first() + b);
        lemma_compact_append(a.drop_first(), b);
        if !is_ws(a[0]) {
            assert(seq![a[0]] + (compact_spec(a.drop_first()) + compact_spec(b)) =~= (seq![a[0]] + compact_spec(
                a.drop_first(),
            )) + compact_spec(b));
        }
    }
}

proof fn lemma_compact_single(c: char)
    ensures
        compact_spec(seq![c]) == (if is_ws(c) { Seq::<char>::empty() } else { seq![c] }),
{
    let e = Seq::<char>::empty();
    assert(seq![c].drop_first() =~= e);
    assert(compact_spec(e) == e);
    assert(seq![c] + e =~= seq![c]);
}

proof fn lemma_compact_wrap_from(s: Seq<char>, w: nat, count: nat)
    ensures
        compact_spec(wrap_from(s, w, count)) == compact_spec(s),
    decreases s.len(),
{
    if s.len() > 0 {
        let tail_count: nat = if count + 1 >= w { 0 } else { count + 1 };
        let rest = wrap_from(s.drop_first(), w, tail_count);
        lemma_compact_wrap_from(s.drop_first(), w, tail_count);
        lemma_compact_single(s[0]);
        lemma_compact_single('\n');
        if count + 1 >= w {
            let head = seq![s[0], '\n'];
            assert(head =~= seq![s[0]] + seq!['\n']);
            lemma_compact_append(seq![s[0]], seq!['\n']);
            lemma_compact_append(head, rest);
            assert(wrap_from(s, w, count) == head + rest);
            assert(compact_spec(seq![s[0]]) + Seq::<char>::empty() =~= compact_spec(seq![s[0]]));
        } else {
            let head = seq![s[0]];
            lemma_compact_append(head, rest);
            assert(wrap_from(s, w, count) == head + rest);
        }
        assert(compact_spec(s) == compact_spec(seq![s[0]]) + compact_spec(s.drop_first())) by {
            lemma_compact_append(seq![s[0]], s.drop_first());
            assert(seq![s[0]] + s.drop_first() =~= s);
        }
    }
}

/// Breaking a token into lines for display loses nothing: removing the
/// whitespace of the displayed text gives the token without whitespace.
pub proof fn wrapped_token_compacts_back(value: Seq<char>, width: nat)
    ensures
        compact_spec(wrap_spec(value, width)) == compact_spec(value),
{
    if width > 0 {
        let raw = wrap_from(value, width, 0);
        lemma_compact_wrap_from(value, width, 0);
        if raw.len() > 0 && raw.last() == '\n' {
            assert(raw =~= raw.drop_last() + seq!['\n']);
            lemma_compact_append(raw.drop_last(), seq!['\n']);
            lemma_compact_single('\n');
            assert(compact_spec(raw.drop_last()) + Seq::<char>::empty() =~= compact_spec(raw.drop_last()));
        }
    }
}

/// The characters of the standard base64 alphabet, with the padding `=`.
pub open spec fn is_base64_char(c: char) -> bool {
    ('A' <= c && c <= 'Z') || ('a' <= c && c <= 'z') || ('0' <= c && c <= '9') || c == '+' || c == '/' || c == '='
}

/// The standard base64 alphabet, by value.
pub open spec fn base64_alphabet() -> Seq<char> {
    seq![
        'A', 'B', 'C', 'D', 'E', 'F', 'G', 'H', 'I', 'J', 'K', 'L', 'M', 'N', 'O', 'P', 'Q', 'R', 'S', 'T',
        'U', 'V', 'W', 'X', 'Y', 'Z', 'a', 'b', 'c', 'd', 'e', 'f', 'g', 'h', 'i', 'j', 'k', 'l', 'm', 'n',
        'o', 'p', 'q', 'r', 's', 't', 'u', 'v', 'w', 'x', 'y', 'z', '0', '1', '2', '3', '4', '5', '6', '7',
        '8', '9', '+', '/',
    ]
}

/// The character of a six-bit value.
pub open spec fn sextet(n: u8) -> char {
    base64_alphabet()[n as int]
}

/// Standard base64 with `=` padding: each group of three bytes becomes
/// four characters, six bits each, high bits first; a last group of one or
/// two bytes is padded with zero bits and ends in `==` or `=`.
pub open spec fn base64_encode(data: Seq<u8>) -> Seq<char>
    decreases data.len(),
{
    if data.len() == 0 {
        Seq::empty()
    } else if data.len() == 1 {
        let a = data[0];
        seq![sextet(a >> 2), sextet((a & 3) << 4), '=', '=']
    } else if data.len() == 2 {
        let a = data[0];
        let b = data[1];
        seq![sextet(a >> 2), sextet(((a & 3) << 4) | (b >> 4)), sextet((b & 15) << 2), '=']
    } else {
        let a = data[0];
        let b = data[1];
        let c = data[2];
        seq![sextet(a >> 2), sextet(((a & 3) << 4) | (b >> 4)), sextet(((b & 15) << 2) | (c >> 6)), sextet(c & 63)]
            + base64_encode(data.subrange(3, data.len() as int))
    }
}

/// What the standard base64 engine decodes a text to, if it is valid.
pub uninterp spec fn base64_decode(text: Seq<char>) -> Option<Seq<u8>>;

/// Encodes bytes with `base64::engine::general_purpose::STANDARD.encode`.
///
/// The contract states the encoding (`base64_encode`), and what the crate
/// documents of its standard engine: the text uses the standard alphabet
/// with `=` padding, is empty only for no bytes, and decodes back to the
/// same bytes (decoding itself is named, not restated).
#[verifier::external_body]
pub(crate) fn encode_base64(data: &[u8]) -> (r: String)
    ensures
        r@ == base64_encode(data@),
        forall|i: int| 0 <= i < r@.len() ==> is_base64_char(#[trigger] r@[i]),
        data@.len() > 0 ==> r@.len() > 0,
        base64_decode(r@) == Some(data@),
{
    base64::engine::general_purpose::STANDARD.encode(data)
}

/// Decodes a text with `base64::engine::general_purpose::STANDARD.decode`;
/// `None` where the crate reports an error.
#[verifier::external_body]
pub(crate) fn decode_base64(text: &str) -> (r: Option<Vec<u8>>)
    ensures
        match r {
            Some(v) => base64_decode(text@) == Some(v@),
            None => base64_decode(text@) is None,
        },
{
    base64::engine::general_purpose::STANDARD.decode(text).ok()
}

/// What reading a pasted backup token gives: the bytes it encodes, or why
/// it cannot be read.
pub open spec fn decode_backup_spec(text: Seq<char>) -> Result<Seq<u8>, Seq<char>> {
    let token = compact_spec(text);
    if token.len() == 0 {
        Err("Backup blob cannot be empty"@)
    } else {
        match base64_decode(token) {
            Some(b) => Ok(b),
            None => Err("Backup blob is not valid base64"@),
        }
    }
}

/// Reads a pasted backup token (line breaks and spaces ignored).
pub fn decode_backup_blob(text: &str) -> (r: Result<Vec<u8>, String>)
    ensures
        match r {
            Ok(b) => decode_backup_spec(text@) == Ok::<Seq<u8>, Seq<char>>(b@),
            Err(e) => decode_backup_spec(text@) == Err::<Seq<u8>, Seq<char>>(e@),
        },
{
    let token = compact_token(text);
    if token.as_str().unicode_len() == 0 {
        return Err("Backup blob cannot be empty".to_string());
    }
    match decode_base64(token.as_str()) {
        Some(b) => Ok(b),
        None => Err("Backup blob is not valid base64".to_string()),
    }
}

/// The text shown for copying a backup: its base64 form broken into lines.
pub open spec fn backup_display_spec(blob: Seq<u8>) -> Seq<char> {
    wrap_spec(base64_encode(blob), BACKUP_TOKEN_WIDTH as nat)
}

/// The text shown for copying a backup of the database bytes `blob`.
pub fn backup_token_for_display(blob: &[u8]) -> (r: String)
    ensures
        r@ == backup_display_spec(blob@),
        blob@.len() > 0 ==> decode_backup_spec(r@) == Ok::<Seq<u8>, Seq<char>>(blob@),
{
    let encoded = encode_base64(blob);
    let r = wrap_token_for_display(encoded.as_str(), BACKUP_TOKEN_WIDTH);
    proof {
        if blob@.len() > 0 {
            backup_round_trip_from(encoded@, blob@);
        }
    }
    r
}

proof fn lemma_compact_keeps_non_ws(s: Seq<char>)
    requires
        forall|i: int| 0 <= i < s.len() ==> !is_ws(#[trigger] s[i]),
    ensures
        compact_spec(s) == s,
    decreases s.len(),
{
    if s.len() > 0 {
        assert forall|i: int| 0 <= i < s.drop_first().len() implies !is_ws(#[trigger] s.drop_first()[i]) by {
            assert(s.drop_first()[i] == s[i + 1]);
        }
        lemma_compact_keeps_non_ws(s.drop_first());
        assert(seq![s[0]] + s.drop_first() =~= s);
    }
}

proof fn backup_round_trip_from(encoded: Seq<char>, blob: Seq<u8>)
    requires
        encoded == base64_encode(blob),
        forall|i: int| 0 <= i < encoded.len() ==> is_base64_char(#[trigger] encoded[i]),
        encoded.len() > 0,
        base64_decode(encoded) == Some(blob),
    ensures
        decode_backup_spec(wrap_spec(encoded, BACKUP_TOKEN_WIDTH as nat)) == Ok::<Seq<u8>, Seq<char>>(blob),
{
    wrapped_token_compacts_back(encoded, BACKUP_TOKEN_WIDTH as nat);
    assert forall|i: int| 0 <= i < encoded.len() implies !is_ws(#[trigger] encoded[i]) by {
        assert(is_base64_char(encoded[i]));
    }
    lemma_compact_keeps_non_ws(encoded);
}

/// A backup shown for copying reads back as the same bytes: pasting the
/// displayed text into the restore dialog gives the database bytes that
/// were backed up (the backup of no bytes aside, which reads as empty).
pub proof fn backup_token_round_trip(blob: Seq<u8>, encoded: Seq<char>)
    requires
        blob.len() > 0,
        encoded == base64_encode(blob),
        forall|i: int| 0 <= i < encoded.len() ==> is_base64_char(#[trigger] encoded[i]),
        encoded.len() > 0,
        base64_decode(encoded) == Some(blob),
    ensures
        decode_backup_spec(backup_display_spec(blob)) == Ok::<Seq<u8>, Seq<char>>(blob),
{
    backup_round_trip_from(encoded, blob);
}

/// The escape sequence that asks the terminal to put a text on the
/// clipboard (OSC 52), for a token without its whitespace.
pub open spec fn osc52_spec(text: Seq<char>, encoded: Seq<char>) -> Seq<char> {
    seq!['\u{1b}', ']', '5', '2', ';', 'c', ';'] + encoded + seq!['\u{7}']
}

/// The OSC 52 sequence that copies a token (without its whitespace) to the
/// terminal's clipboard; an empty token is refused.
pub fn osc52_sequence(text: &str) -> (r: Result<String, String>)
    ensures
        compact_spec(text@).len() == 0 ==> (r matches Err(e) && e@ == "backup token is empty"@),
        compact_spec(text@).len() > 0 ==> (r matches Ok(s) && s@ == osc52_spec(
            text@,
            base64_encode(vstd::utf8::encode_utf8(compact_spec(text@))),
        )),
{
    let payload = compact_token(text);
    if payload.as_str().unicode_len() == 0 {
        return Err("backup token is empty".to_string());
    }
    let encoded = encode_base64(payload.as_str().as_bytes());
    let mut s = String::new();
    push_char(&mut s, '\u{1b}');
    push_char(&mut s, ']');
    push_char(&mut s, '5');
    push_char(&mut s, '2');
    push_char(&mut s, ';');
    push_char(&mut s, 'c');
    push_char(&mut s, ';');
    s.append(encoded.as_str());
    push_char(&mut s, '\u{7}');
    assert(s@ =~= osc52_spec(text@, encoded@));
    Ok(s)
}

/// The feedback shown after copying a backup token.
pub fn copy_feedback(result: Result<(), String>) -> (r: String)
    ensures
        match result {
            Ok(()) => r@ == "Copied to clipboard"@,
            Err(e) => r@ == "Copy failed: "@ + e@,
        },
{
    match result {
        Ok(()) => "Copied to clipboard".to_string(),
        Err(e) => concat_str("Copy failed: ", e.as_str()),
    }
}

/// Whether the entries of a backup dialog are in order.
pub open spec fn backup_modal_ok(m: SettingsBackupModalState) -> bool {
    m.blob.caret_position <= m.blob.text@.len() && m.passphrase.caret_position <= m.passphrase.text@.len()
}

/// What a key in a backup dialog leads to.
#[derive(Clone, Copy, Debug, PartialEq, Eq, Structural)]
pub enum BackupKeyOutcome {
    /// The dialog stays open.
    Stay,
    /// The dialog closes.
    Close,
    /// The shown token is to be copied to the clipboard.
    Copy,
    /// The restore is to go on to its next step.
    Advance,
}

/// Handles a key in a backup dialog. Esc closes it. When copying, `c`
/// copies and Enter closes. When restoring, Enter goes on to the next step;
/// otherwise the key edits the blob or the passphrase, or, at the last
/// step, goes to the yes/no confirmation.
pub fn handle_backup_modal_key(modal: &mut SettingsBackupModalState, key: KeyEvent) -> (r: BackupKeyOutcome)
    requires
        backup_modal_ok(*old(modal)),
    ensures
        backup_modal_ok(*final(modal)),
        final(modal).action == old(modal).action,
        final(modal).restore_stage == old(modal).restore_stage,
        final(modal).requires_passphrase == old(modal).requires_passphrase,
        key.code == KeyCode::Esc ==> r == BackupKeyOutcome::Close && *final(modal) == *old(modal),
        key.code != KeyCode::Esc && old(modal).action == SettingsBackupAction::CopyDbBlob ==> {
            &&& *final(modal) == *old(modal)
            &&& r == (if key.code == KeyCode::Char('c') {
                BackupKeyOutcome::Copy
            } else if key.code == KeyCode::Enter {
                BackupKeyOutcome::Close
            } else {
                BackupKeyOutcome::Stay
            })
        },
        key.code != KeyCode::Esc && old(modal).action == SettingsBackupAction::RestoreDbBlob ==> {
            let stage = old(modal).restore_stage;
            &&& (stage != SettingsBackupRestoreStage::Confirm && key.code == KeyCode::Enter) ==> r
                == BackupKeyOutcome::Advance && *final(modal) == *old(modal)
            &&& (stage == SettingsBackupRestoreStage::Blob && key.code != KeyCode::Enter) ==> {
                &&& r == BackupKeyOutcome::Stay
                &&& final(modal).blob.text@ == entry_text_after_key(old(modal).blob.text@, old(modal).blob.caret_position as int, key.code)
                &&& final(modal).passphrase == old(modal).passphrase
                &&& final(modal).error is None
            }
            &&& (stage == SettingsBackupRestoreStage::Passphrase && key.code != KeyCode::Enter) ==> {
                &&& r == BackupKeyOutcome::Stay
                &&& final(modal).passphrase.text@ == entry_text_after_key(
                    old(modal).passphrase.text@,
                    old(modal).passphrase.caret_position as int,
                    key.code,
                )
                &&& final(modal).blob == old(modal).blob
                &&& final(modal).error is None
            }
            &&& stage == SettingsBackupRestoreStage::Confirm ==> {
                let toggles = key.code == KeyCode::Left || key.code == KeyCode::Right || key.code == KeyCode::Tab;
                &&& final(modal).danger_confirm.selected == (if toggles {
                    !old(modal).danger_confirm.selected
                } else {
                    old(modal).danger_confirm.selected
                })
                &&& r == (if key.code == KeyCode::Enter { BackupKeyOutcome::Advance } else { BackupKeyOutcome::Stay })
                &&& key.code != KeyCode::Enter ==> final(modal).error is None
                &&& key.code == KeyCode::Enter ==> final(modal).error == old(modal).error
                &&& final(modal).blob == old(modal).blob
                &&& final(modal).passphrase == old(modal).passphrase
            }
        },
{
    let code = key.code;
    if code == KeyCode::Esc {
        return BackupKeyOutcome::Close;
    }
    match modal.action {
        SettingsBackupAction::CopyDbBlob => {
            if code == KeyCode::Char('c') {
                BackupKeyOutcome::Copy
            } else if code == KeyCode::Enter {
                BackupKeyOutcome::Close
            } else {
                BackupKeyOutcome::Stay
            }
        },
        SettingsBackupAction::RestoreDbBlob => {
            match modal.restore_stage {
                SettingsBackupRestoreStage::Blob => {
                    if code == KeyCode::Enter {
                        return BackupKeyOutcome::Advance;
                    }
                    edit_entry(&mut modal.blob, code);
                    modal.error = None;
                },
                SettingsBackupRestoreStage::Passphrase => {
                    if code == KeyCode::Enter {
                        return BackupKeyOutcome::Advance;
                    }
                    edit_entry(&mut modal.passphrase, code);
                    modal.error = None;
                },
                SettingsBackupRestoreStage::Confirm => {
                    let _ = handle_yes_no_input(&mut modal.danger_confirm, code);
                    if code == KeyCode::Enter {
                        return BackupKeyOutcome::Advance;
                    }
                    modal.error = None;
                },
            }
            BackupKeyOutcome::Stay
        },
    }
}

/// The outside work the next restore step needs.
#[derive(Clone, Debug)]
pub enum RestoreStep {
    /// Find out whether the backup is encrypted.
    Inspect { blob: Vec<u8> },
    /// Check the passphrase against the encrypted backup.
    CheckPassphrase { blob: Vec<u8>, passphrase: String },
    /// Replace the database with the backup.
    Restore { blob: Vec<u8>, passphrase: Option<String> },
}

/// The mathematical value of a `RestoreStep`.
pub enum RestoreStepView {
    Inspect { blob: Seq<u8> },
    CheckPassphrase { blob: Seq<u8>, passphrase: Seq<char> },
    Restore { blob: Seq<u8>, passphrase: Option<Seq<char>> },
}

impl View for RestoreStep {
    type V = RestoreStepView;

    open spec fn view(&self) -> RestoreStepView {
        match self {
            RestoreStep::Inspect { blob } => RestoreStepView::Inspect { blob: blob@ },
            RestoreStep::CheckPassphrase { blob, passphrase } => RestoreStepView::CheckPassphrase {
                blob: blob@,
                passphrase: passphrase@,
            },
            RestoreStep::Restore { blob, passphrase } => RestoreStepView::Restore {
                blob: blob@,
                passphrase: match passphrase {
                    Some(p) => Some(p@),
                    None => None,
                },
            },
        }
    }
}

/// What the restore dialog's next step needs, or why it cannot go on.
pub open spec fn restore_step_spec(m: SettingsBackupModalState) -> Result<RestoreStepView, Seq<char>> {
    match decode_backup_spec(m.blob.text@) {
        Err(e) => Err(e),
        Ok(blob) => match m.restore_stage {
            SettingsBackupRestoreStage::Blob => Ok(RestoreStepView::Inspect { blob }),
            SettingsBackupRestoreStage::Passphrase => if trim(m.passphrase.text@).len() == 0 {
                Err("Backup is encrypted. Enter its passphrase to continue"@)
            } else {
                Ok(RestoreStepView::CheckPassphrase { blob, passphrase: m.passphrase.text@ })
            },
            SettingsBackupRestoreStage::Confirm => if !m.danger_confirm.selected {
                Err("Set confirmation to YES to restore"@)
            } else {
                Ok(RestoreStepView::Restore {
                    blob,
                    passphrase: if m.requires_passphrase { Some(m.passphrase.text@) } else { None },
                })
            },
        },
    }
}

/// What the restore dialog's next step needs: the blob is read first, then
/// the step's own condition (a passphrase entered, the restore confirmed).
pub fn restore_step(modal: &SettingsBackupModalState) -> (r: Result<RestoreStep, String>)
    ensures
        match r {
            Ok(s) => restore_step_spec(*modal) == Ok::<RestoreStepView, Seq<char>>(s@),
            Err(e) => restore_step_spec(*modal) == Err::<RestoreStepView, Seq<char>>(e@),
        },
{
    let blob = match decode_backup_blob(modal.blob.text.as_str()) {
        Ok(b) => b,
        Err(e) => return Err(e),
    };
    match modal.restore_stage {
        SettingsBackupRestoreStage::Blob => Ok(RestoreStep::Inspect { blob }),
        SettingsBackupRestoreStage::Passphrase => {
            if is_blank_str(modal.passphrase.text.as_str()) {
                Err("Backup is encrypted. Enter its passphrase to continue".to_string())
            } else {
                Ok(RestoreStep::CheckPassphrase { blob, passphrase: modal.passphrase.text.clone() })
            }
        },
        SettingsBackupRestoreStage::Confirm => {
            if !modal.danger_confirm.is_yes() {
                Err("Set confirmation to YES to restore".to_string())
            } else {
                let passphrase = if modal.requires_passphrase {
                    Some(modal.passphrase.text.clone())
                } else {
                    None
                };
                Ok(RestoreStep::Restore { blob, passphrase })
            }
        },
    }
}

/// The dialog once the backup is known to need a passphrase or not: it
/// asks for the passphrase, or goes straight to the confirmation (on no).
pub fn after_inspection(modal: &mut SettingsBackupModalState, requires_passphrase: bool)
    ensures
        final(modal).requires_passphrase == requires_passphrase,
        final(modal).restore_stage == (if requires_passphrase {
            SettingsBackupRestoreStage::Passphrase
        } else {
            SettingsBackupRestoreStage::Confirm
        }),
        final(modal).focus == (if requires_passphrase {
            SettingsBackupField::Passphrase
        } else {
            SettingsBackupField::DangerConfirm
        }),
        !final(modal).danger_confirm.selected,
        final(modal).error is None,
        final(modal).action == old(modal).action,
        final(modal).blob == old(modal).blob,
        final(modal).passphrase == old(modal).passphrase,
        final(modal).copy_feedback == old(modal).copy_feedback,
{
    modal.error = None;
    modal.requires_passphrase = requires_passphrase;
    if requires_passphrase {
        modal.restore_stage = SettingsBackupRestoreStage::Passphrase;
        modal.focus = SettingsBackupField::Passphrase;
    } else {
        modal.restore_stage = SettingsBackupRestoreStage::Confirm;
        modal.focus = SettingsBackupField::DangerConfirm;
    }
    modal.danger_confirm.selected = false;
}

/// The dialog once the passphrase is accepted: the confirmation, on no.
pub fn after_passphrase_accepted(modal: &mut SettingsBackupModalState)
    ensures
        final(modal).restore_stage == SettingsBackupRestoreStage::Confirm,
        final(modal).focus == SettingsBackupField::DangerConfirm,
        !final(modal).danger_confirm.selected,
        final(modal).error is None,
        final(modal).action == old(modal).action,
        final(modal).requires_passphrase == old(modal).requires_passphrase,
        final(modal).blob == old(modal).blob,
        final(modal).passphrase == old(modal).passphrase,
        final(modal).copy_feedback == old(modal).copy_feedback,
{
    modal.error = None;
    modal.restore_stage = SettingsBackupRestoreStage::Confirm;
    modal.focus = SettingsBackupField::DangerConfirm;
    modal.danger_confirm.selected = false;
}

/// The status line once a backup is restored.
pub fn restore_done_status() -> (r: &'static str)
    ensures
        r@ == "Database restored from backup blob. Restarting..."@,
{
    "Database restored from backup blob. Restarting..."
}

} // verus!
