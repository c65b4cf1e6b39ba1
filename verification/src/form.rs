//! The host dialog: which field a key edits, how the authentication mode
//! cycles, checking the form, and filling it from a stored host.

use vstd::prelude::*;
use crate::endpoints::{
    all_digits, dec_value, digit_value, is_digit, is_endpoint_sep, last_colon, lemma_split_pieces_nonempty,
    parse_endpoints, parse_endpoints_spec, parse_item, parse_pieces, parse_u16_spec, split_pieces,
};
use crate::input::{KeyCode, KeyEvent};
use crate::model::{endpoints_view, EndpointView, HostAuth, HostAuthView, SshEndpoint, SshHost};
use crate::navigation::{HostAuthMode, HostFormField, HostFormState, HostKeyInputMode};
use crate::text::{
    char_count, concat_str, decimal, digit_char, insert_char, is_ws, trim_end, trim_start, insert_seq, remove_char, string_insert_char,
    string_insert_str, string_remove_char, trim, trim_str, u64_to_decimal, with_char,
};

verus! {

/// The three ways a host can authenticate, as the dialog offers them.
#[derive(Clone, Copy, Debug, PartialEq, Eq, Structural)]
pub enum AuthSelection {
    KeyPath,
    KeyInline,
    Password,
}

/// The position of a selection in the cycle path key, database key, password.
pub open spec fn selection_index(s: AuthSelection) -> int {
    match s {
        AuthSelection::KeyPath => 0,
        AuthSelection::KeyInline => 1,
        AuthSelection::Password => 2,
    }
}

/// The selection a form stands for.
pub open spec fn selection_of(form: HostFormState) -> AuthSelection {
    match (form.auth_mode, form.key_input_mode) {
        (HostAuthMode::Password, _) => AuthSelection::Password,
        (HostAuthMode::Key, HostKeyInputMode::Path) => AuthSelection::KeyPath,
        (HostAuthMode::Key, HostKeyInputMode::Inline) => AuthSelection::KeyInline,
    }
}

/// The authentication selection of a form.
pub fn auth_selection(form: &HostFormState) -> (r: AuthSelection)
    ensures
        r == selection_of(*form),
{
    match (form.auth_mode, form.key_input_mode) {
        (HostAuthMode::Password, _) => AuthSelection::Password,
        (HostAuthMode::Key, HostKeyInputMode::Path) => AuthSelection::KeyPath,
        (HostAuthMode::Key, HostKeyInputMode::Inline) => AuthSelection::KeyInline,
    }
}

/// Whether two forms agree on everything but the authentication modes.
pub open spec fn same_but_auth_modes(a: HostFormState, b: HostFormState) -> bool {
    &&& a.focus == b.focus
    &&& a.name == b.name
    &&& a.user == b.user
    &&& a.endpoints == b.endpoints
    &&& a.key_path == b.key_path
    &&& a.key_inline == b.key_inline
    &&& a.password == b.password
    &&& a.caret == b.caret
    &&& a.error == b.error
}

/// Makes the form use `selection`; choosing password keeps the key source.
pub fn set_auth_selection(form: &mut HostFormState, selection: AuthSelection)
    ensures
        selection_of(*final(form)) == selection,
        selection == AuthSelection::Password ==> final(form).key_input_mode == old(
            form,
        ).key_input_mode,
        same_but_auth_modes(*final(form), *old(form)),
{
    match selection {
        AuthSelection::KeyPath => {
            form.auth_mode = HostAuthMode::Key;
            form.key_input_mode = HostKeyInputMode::Path;
        },
        AuthSelection::KeyInline => {
            form.auth_mode = HostAuthMode::Key;
            form.key_input_mode = HostKeyInputMode::Inline;
        },
        AuthSelection::Password => {
            form.auth_mode = HostAuthMode::Password;
        },
    }
}

/// Moves the authentication selection one step through path key, database
/// key, password (backwards when `reverse`), wrapping around.
pub fn cycle_auth_mode(form: &mut HostFormState, reverse: bool)
    ensures
        selection_index(selection_of(*final(form))) == (if reverse {
            (selection_index(selection_of(*old(form))) + 2) % 3
        } else {
            (selection_index(selection_of(*old(form))) + 1) % 3
        }),
        same_but_auth_modes(*final(form), *old(form)),
        selection_of(*final(form)) == AuthSelection::Password ==> final(form).key_input_mode == old(
            form,
        ).key_input_mode,
{
    let current = auth_selection(form);
    let next = if reverse {
        match current {
            AuthSelection::KeyPath => AuthSelection::Password,
            AuthSelection::KeyInline => AuthSelection::KeyPath,
            AuthSelection::Password => AuthSelection::KeyInline,
        }
    } else {
        match current {
            AuthSelection::KeyPath => AuthSelection::KeyInline,
            AuthSelection::KeyInline => AuthSelection::Password,
            AuthSelection::Password => AuthSelection::KeyPath,
        }
    };
    set_auth_selection(form, next);
}

/// Cycling the authentication mode forward and then backward gives back the
/// selection the form had.
pub proof fn auth_cycle_round_trip(a: AuthSelection, b: AuthSelection, c: AuthSelection)
    requires
        selection_index(b) == (selection_index(a) + 1) % 3,
        selection_index(c) == (selection_index(b) + 2) % 3,
    ensures
        c == a,
{
}

/// The text fields a key can edit.
#[derive(Clone, Copy, Debug, PartialEq, Eq, Structural)]
pub enum FormSlot {
    Name,
    User,
    Endpoints,
    KeyInline,
    Password,
}

/// The field typing edits: none on the mode selector and on a key path,
/// which is chosen with the file picker.
pub open spec fn edit_slot(form: HostFormState) -> Option<FormSlot> {
    match form.focus {
        HostFormField::Name => Some(FormSlot::Name),
        HostFormField::User => Some(FormSlot::User),
        HostFormField::Endpoints => Some(FormSlot::Endpoints),
        HostFormField::AuthValue => match form.auth_mode {
            HostAuthMode::Key => match form.key_input_mode {
                HostKeyInputMode::Path => None,
                HostKeyInputMode::Inline => Some(FormSlot::KeyInline),
            },
            HostAuthMode::Password => Some(FormSlot::Password),
        },
        HostFormField::AuthMode => None,
    }
}

/// The text of a field.
pub open spec fn slot_text(form: HostFormState, slot: FormSlot) -> Seq<char> {
    match slot {
        FormSlot::Name => form.name@,
        FormSlot::User => form.user@,
        FormSlot::Endpoints => form.endpoints@,
        FormSlot::KeyInline => form.key_inline@,
        FormSlot::Password => form.password@,
    }
}

/// Whether the fields other than `slot` are the same in both forms.
pub open spec fn others_unchanged(a: HostFormState, b: HostFormState, slot: FormSlot) -> bool {
    &&& a.focus == b.focus
    &&& a.auth_mode == b.auth_mode
    &&& a.key_input_mode == b.key_input_mode
    &&& a.key_path == b.key_path
    &&& a.error == b.error
    &&& (slot != FormSlot::Name ==> a.name == b.name)
    &&& (slot != FormSlot::User ==> a.user == b.user)
    &&& (slot != FormSlot::Endpoints ==> a.endpoints == b.endpoints)
    &&& (slot != FormSlot::KeyInline ==> a.key_inline == b.key_inline)
    &&& (slot != FormSlot::Password ==> a.password == b.password)
}

/// The text of the focused field (the key path on a path key, nothing on
/// the mode selector).
pub open spec fn focused_text(form: HostFormState) -> Seq<char> {
    match form.focus {
        HostFormField::Name => form.name@,
        HostFormField::User => form.user@,
        HostFormField::Endpoints => form.endpoints@,
        HostFormField::AuthMode => Seq::empty(),
        HostFormField::AuthValue => match form.auth_mode {
            HostAuthMode::Key => match form.key_input_mode {
                HostKeyInputMode::Path => form.key_path@,
                HostKeyInputMode::Inline => form.key_inline@,
            },
            HostAuthMode::Password => form.password@,
        },
    }
}

/// The text of the focused field.
pub fn current_field_value(form: &HostFormState) -> (r: String)
    ensures
        r@ == focused_text(*form),
{
    match form.focus {
        HostFormField::Name => form.name.clone(),
        HostFormField::User => form.user.clone(),
        HostFormField::Endpoints => form.endpoints.clone(),
        HostFormField::AuthMode => String::new(),
        HostFormField::AuthValue => match form.auth_mode {
            HostAuthMode::Key => match form.key_input_mode {
                HostKeyInputMode::Path => form.key_path.clone(),
                HostKeyInputMode::Inline => form.key_inline.clone(),
            },
            HostAuthMode::Password => form.password.clone(),
        },
    }
}

/// Which field typing edits.
fn target_slot(form: &HostFormState) -> (r: Option<FormSlot>)
    ensures
        r == edit_slot(*form),
{
    match form.focus {
        HostFormField::Name => Some(FormSlot::Name),
        HostFormField::User => Some(FormSlot::User),
        HostFormField::Endpoints => Some(FormSlot::Endpoints),
        HostFormField::AuthValue => match form.auth_mode {
            HostAuthMode::Key => match form.key_input_mode {
                HostKeyInputMode::Path => None,
                HostKeyInputMode::Inline => Some(FormSlot::KeyInline),
            },
            HostAuthMode::Password => Some(FormSlot::Password),
        },
        HostFormField::AuthMode => None,
    }
}

fn slot_value(form: &HostFormState, slot: FormSlot) -> (r: &String)
    ensures
        r@ == slot_text(*form, slot),
{
    match slot {
        FormSlot::Name => &form.name,
        FormSlot::User => &form.user,
        FormSlot::Endpoints => &form.endpoints,
        FormSlot::KeyInline => &form.key_inline,
        FormSlot::Password => &form.password,
    }
}

fn store_slot(form: &mut HostFormState, slot: FormSlot, value: String)
    ensures
        slot_text(*final(form), slot) == value@,
        others_unchanged(*final(form), *old(form), slot),
        final(form).caret == old(form).caret,
{
    match slot {
        FormSlot::Name => {
            form.name = value;
        },
        FormSlot::User => {
            form.user = value;
        },
        FormSlot::Endpoints => {
            form.endpoints = value;
        },
        FormSlot::KeyInline => {
            form.key_inline = value;
        },
        FormSlot::Password => {
            form.password = value;
        },
    }
}

/// `caret` but at most `len`.
pub open spec fn clamp(caret: int, len: int) -> int {
    if caret > len {
        len
    } else {
        caret
    }
}

/// Pastes `text` into the focused field at the caret (first brought within
/// the field), leaving the caret after it. An empty paste, or one on a field
/// that typing does not edit, changes nothing.
pub fn insert_pasted_text(form: &mut HostFormState, text: &str)
    requires
        edit_slot(*old(form)) matches Some(slot) ==> slot_text(*old(form), slot).len() + text@.len()
            <= usize::MAX,
    ensures
        (text@.len() == 0 || edit_slot(*old(form)) is None) ==> *final(form) == *old(form),
        text@.len() > 0 ==> (edit_slot(*old(form)) matches Some(slot) ==> {
            let old_text = slot_text(*old(form), slot);
            let at = clamp(old(form).caret as int, old_text.len() as int);
            &&& slot_text(*final(form), slot) == insert_seq(old_text, at, text@)
            &&& final(form).caret == at + text@.len()
            &&& others_unchanged(*final(form), *old(form), slot)
        }),
{
    let n = text.unicode_len();
    if n == 0 {
        return;
    }
    let slot = match target_slot(form) {
        Some(s) => s,
        None => {
            return;
        },
    };
    let value = slot_value(form, slot);
    let len = char_count(value);
    let at = if form.caret > len { len } else { form.caret };
    let updated = string_insert_str(value, at, text);
    store_slot(form, slot, updated);
    form.caret = at + n;
}

/// What an editing key does to a field's text and caret, the caret being
/// first brought within the text.
pub open spec fn edit_text(text: Seq<char>, caret0: int, key: KeyCode) -> (Seq<char>, int) {
    let caret = clamp(caret0, text.len() as int);
    match key {
        KeyCode::Char(c) => (insert_char(text, caret, c), caret + 1),
        KeyCode::Backspace => if caret > 0 {
            (remove_char(text, caret - 1), caret - 1)
        } else {
            (text, caret)
        },
        KeyCode::Delete => if caret < text.len() {
            (remove_char(text, caret), caret)
        } else {
            (text, caret)
        },
        KeyCode::Left => if caret > 0 {
            (text, caret - 1)
        } else {
            (text, caret)
        },
        KeyCode::Right => if caret < text.len() {
            (text, caret + 1)
        } else {
            (text, caret)
        },
        KeyCode::Home => (text, 0),
        KeyCode::End => (text, text.len() as int),
        _ => (text, caret),
    }
}

/// Edits the focused field with one key. Keys held with Control, Alt or
/// Super, and keys on a field that typing does not edit, change nothing.
pub fn edit_form_field(form: &mut HostFormState, key: KeyEvent)
    requires
        edit_slot(*old(form)) matches Some(slot) ==> slot_text(*old(form), slot).len() < usize::MAX,
    ensures
        (key.modifiers.control || key.modifiers.alt || key.modifiers.super_key || edit_slot(
            *old(form),
        ) is None) ==> *final(form) == *old(form),
        !(key.modifiers.control || key.modifiers.alt || key.modifiers.super_key) ==> (edit_slot(
            *old(form),
        ) matches Some(slot) ==> {
            let e = edit_text(slot_text(*old(form), slot), old(form).caret as int, key.code);
            &&& slot_text(*final(form), slot) == e.0
            &&& final(form).caret == e.1
            &&& others_unchanged(*final(form), *old(form), slot)
        }),
{
    if key.modifiers.control || key.modifiers.alt || key.modifiers.super_key {
        return;
    }
    let slot = match target_slot(form) {
        Some(s) => s,
        None => {
            return;
        },
    };
    let value = slot_value(form, slot);
    let len = char_count(value);
    let caret = if form.caret > len { len } else { form.caret };
    match key.code {
        KeyCode::Char(c) => {
            let updated = string_insert_char(value, caret, c);
            store_slot(form, slot, updated);
            form.caret = caret + 1;
        },
        KeyCode::Backspace => {
            if caret > 0 {
                let updated = string_remove_char(value, caret - 1);
                store_slot(form, slot, updated);
                form.caret = caret - 1;
            } else {
                form.caret = caret;
            }
        },
        KeyCode::Delete => {
            if caret < len {
                let updated = string_remove_char(value, caret);
                store_slot(form, slot, updated);
            }
            form.caret = caret;
        },
        KeyCode::Left => {
            form.caret = if caret > 0 { caret - 1 } else { caret };
        },
        KeyCode::Right => {
            form.caret = if caret < len { caret + 1 } else { caret };
        },
        KeyCode::Home => {
            form.caret = 0;
        },
        KeyCode::End => {
            form.caret = len;
        },
        _ => {
            form.caret = caret;
        },
    }
}

} // verus!

verus! {

/// What checking the form gives: the trimmed name and user, the parsed
/// endpoints and the trimmed authentication value, or the first problem in
/// the order name, endpoints, user, authentication value.
pub open spec fn validate_spec(form: HostFormState) -> Result<
    (Seq<char>, Seq<char>, Seq<EndpointView>, HostAuthView),
    Seq<char>,
> {
    let name = trim(form.name@);
    if name.len() == 0 {
        Err("Name is required"@)
    } else {
        match parse_endpoints_spec(form.endpoints@) {
            Err(e) => Err(e),
            Ok(eps) => if eps.len() == 0 {
                Err("At least one endpoint is required"@)
            } else {
                let user = trim(form.user@);
                if user.len() == 0 {
                    Err("User is required"@)
                } else {
                    match form.auth_mode {
                        HostAuthMode::Key => match form.key_input_mode {
                            HostKeyInputMode::Path => {
                                let key_path = trim(form.key_path@);
                                if key_path.len() == 0 {
                                    Err("Key path is required"@)
                                } else {
                                    Ok((name, user, eps, HostAuthView::KeyPath { key_path }))
                                }
                            },
                            HostKeyInputMode::Inline => {
                                let private_key = trim(form.key_inline@);
                                if private_key.len() == 0 {
                                    Err("Inline private key is required"@)
                                } else {
                                    Ok((name, user, eps, HostAuthView::KeyInline { private_key }))
                                }
                            },
                        },
                        HostAuthMode::Password => {
                            let password = trim(form.password@);
                            if password.len() == 0 {
                                Err("Password is required"@)
                            } else {
                                Ok((name, user, eps, HostAuthView::Password { password }))
                            }
                        },
                    }
                }
            },
        }
    }
}

/// Checks the host form and gives the host's name, user, endpoints and
/// authentication, or the message for the first problem.
pub fn validate_form(form: &HostFormState) -> (r: Result<
    (String, String, Vec<SshEndpoint>, HostAuth),
    String,
>)
    ensures
        match (r, validate_spec(*form)) {
            (Ok(v), Ok(s)) => v.0@ == s.0 && v.1@ == s.1 && endpoints_view(v.2@) == s.2 && v.3@
                == s.3,
            (Err(e), Err(m)) => e@ == m,
            _ => false,
        },
{
    let name = trim_str(form.name.as_str());
    if name.as_str().unicode_len() == 0 {
        return Err(String::from_str("Name is required"));
    }
    let endpoints = match parse_endpoints(form.endpoints.as_str()) {
        Ok(v) => v,
        Err(e) => {
            return Err(e);
        },
    };
    if endpoints.len() == 0 {
        return Err(String::from_str("At least one endpoint is required"));
    }
    let user = trim_str(form.user.as_str());
    if user.as_str().unicode_len() == 0 {
        return Err(String::from_str("User is required"));
    }
    let auth = match form.auth_mode {
        HostAuthMode::Key => match form.key_input_mode {
            HostKeyInputMode::Path => {
                let key_path = trim_str(form.key_path.as_str());
                if key_path.as_str().unicode_len() == 0 {
                    return Err(String::from_str("Key path is required"));
                }
                HostAuth::KeyPath { key_path }
            },
            HostKeyInputMode::Inline => {
                let private_key = trim_str(form.key_inline.as_str());
                if private_key.as_str().unicode_len() == 0 {
                    return Err(String::from_str("Inline private key is required"));
                }
                HostAuth::KeyInline { private_key }
            },
        },
        HostAuthMode::Password => {
            let password = trim_str(form.password.as_str());
            if password.as_str().unicode_len() == 0 {
                return Err(String::from_str("Password is required"));
            }
            HostAuth::Password { password }
        },
    };
    Ok((name, user, endpoints, auth))
}

/// How an endpoint is written in the form: `host:port`.
pub open spec fn endpoint_text(e: EndpointView) -> Seq<char> {
    e.host.push(':') + decimal(e.port as nat)
}

/// Endpoints written in the form: `host:port` items joined by `", "`.
pub open spec fn endpoint_list_text(eps: Seq<EndpointView>) -> Seq<char>
    decreases eps.len(),
{
    if eps.len() == 0 {
        Seq::empty()
    } else if eps.len() == 1 {
        endpoint_text(eps[0])
    } else {
        endpoint_list_text(eps.drop_last()) + ", "@ + endpoint_text(eps.last())
    }
}

/// The form text of a list of endpoints.
pub fn endpoints_to_text(eps: &Vec<SshEndpoint>) -> (r: String)
    ensures
        r@ == endpoint_list_text(endpoints_view(eps@)),
{
    let ghost all = endpoints_view(eps@);
    let mut out = String::new();
    let mut i: usize = 0;
    while i < eps.len()
        invariant
            i <= eps@.len(),
            all == endpoints_view(eps@),
            out@ == endpoint_list_text(all.subrange(0, i as int)),
        decreases eps@.len() - i,
    {
        let ghost part = all.subrange(0, i as int + 1);
        proof {
            assert(part.drop_last() =~= all.subrange(0, i as int));
            assert(part.last() == eps@[i as int]@);
        }
        if i > 0 {
            out = concat_str(out.as_str(), ", ");
        } else {
            assert(part =~= seq![eps@[0]@]);
        }
        let item = with_char(eps[i].host.clone(), ':');
        let port = u64_to_decimal(eps[i].port as u64);
        out = concat_str(out.as_str(), item.as_str());
        out = concat_str(out.as_str(), port.as_str());
        proof {
            if i == 0 {
                assert(out@ =~= endpoint_text(eps@[0]@));
            } else {
                assert(out@ =~= endpoint_list_text(all.subrange(0, i as int)) + ", "@
                    + endpoint_text(eps@[i as int]@));
            }
        }
        i = i + 1;
    }
    assert(all.subrange(0, eps@.len() as int) =~= all);
    out
}

/// Whether `form` is the host dialog filled in from `host`: focused on the
/// name with the caret at its start and no error; name, user, the endpoints
/// as text, and the authentication of the host (the other secrets empty).
pub open spec fn filled_from(form: HostFormState, host: SshHost) -> bool {
    &&& form.focus == HostFormField::Name
    &&& form.name@ == host.name@
    &&& form.user@ == host.user@
    &&& form.endpoints@ == endpoint_list_text(endpoints_view(host.endpoints@))
    &&& form.caret == 0
    &&& form.error is None
    &&& match host.auth@ {
        HostAuthView::KeyPath { key_path } => form.auth_mode == HostAuthMode::Key
            && form.key_input_mode == HostKeyInputMode::Path && form.key_path@ == key_path
            && form.key_inline@.len() == 0 && form.password@.len() == 0,
        HostAuthView::KeyInline { private_key } => form.auth_mode == HostAuthMode::Key
            && form.key_input_mode == HostKeyInputMode::Inline && form.key_inline@
            == private_key && form.key_path@.len() == 0 && form.password@.len() == 0,
        HostAuthView::Password { password } => form.auth_mode == HostAuthMode::Password
            && form.key_input_mode == HostKeyInputMode::Path && form.password@ == password
            && form.key_path@.len() == 0 && form.key_inline@.len() == 0,
    }
}

/// The host dialog filled in from a stored host, focused on its name.
pub fn form_from_host(host: &SshHost) -> (form: HostFormState)
    ensures
        filled_from(form, *host),
        form.focus == HostFormField::Name,
        form.name@ == host.name@,
        form.user@ == host.user@,
        form.endpoints@ == endpoint_list_text(endpoints_view(host.endpoints@)),
        form.caret == 0,
        form.error is None,
        match host.auth@ {
            HostAuthView::KeyPath { key_path } => form.auth_mode == HostAuthMode::Key
                && form.key_input_mode == HostKeyInputMode::Path && form.key_path@ == key_path
                && form.key_inline@.len() == 0 && form.password@.len() == 0,
            HostAuthView::KeyInline { private_key } => form.auth_mode == HostAuthMode::Key
                && form.key_input_mode == HostKeyInputMode::Inline && form.key_inline@
                == private_key && form.key_path@.len() == 0 && form.password@.len() == 0,
            HostAuthView::Password { password } => form.auth_mode == HostAuthMode::Password
                && form.key_input_mode == HostKeyInputMode::Path && form.password@ == password
                && form.key_path@.len() == 0 && form.key_inline@.len() == 0,
        },
{
    let mut form = HostFormState::new();
    form.name = host.name.clone();
    form.user = host.user.clone();
    form.endpoints = endpoints_to_text(&host.endpoints);
    match &host.auth {
        HostAuth::KeyPath { key_path } => {
            form.auth_mode = HostAuthMode::Key;
            form.key_path = key_path.clone();
        },
        HostAuth::KeyInline { private_key } => {
            form.auth_mode = HostAuthMode::Key;
            form.key_input_mode = HostKeyInputMode::Inline;
            form.key_inline = private_key.clone();
        },
        HostAuth::Password { password } => {
            form.auth_mode = HostAuthMode::Password;
            form.password = password.clone();
        },
    }
    form
}

/// An endpoint the dialog can write out and read back: its host is not
/// blank at either end and holds no comma or line break, and its port is
/// not 0.
pub open spec fn plain_endpoint(e: EndpointView) -> bool {
    &&& e.host.len() > 0
    &&& !is_ws(e.host[0])
    &&& !is_ws(e.host.last())
    &&& forall|k: int| 0 <= k < e.host.len() ==> !is_endpoint_sep(#[trigger] e.host[k])
    &&& e.port != 0
}

/// Whether no character of `s` separates endpoint items.
spec fn sep_free(s: Seq<char>) -> bool {
    forall|k: int| 0 <= k < s.len() ==> !is_endpoint_sep(#[trigger] s[k])
}

/// The pieces the endpoint list text of `eps` splits into: the first item,
/// then each further item after the blank that follows its comma.
spec fn list_pieces(eps: Seq<EndpointView>) -> Seq<Seq<char>>
    decreases eps.len(),
{
    if eps.len() <= 1 {
        seq![endpoint_text(eps[0])]
    } else {
        list_pieces(eps.drop_last()).push(seq![' '] + endpoint_text(eps.last()))
    }
}

proof fn lemma_digit_char(k: nat)
    requires
        k < 10,
    ensures
        is_digit(digit_char(k)),
        digit_value(digit_char(k)) == k,
{
}

proof fn lemma_decimal_digits(n: nat)
    ensures
        decimal(n).len() > 0,
        all_digits(decimal(n)),
        dec_value(decimal(n)) == n,
    decreases n,
{
    let d = decimal(n);
    if n < 10 {
        lemma_digit_char(n);
        assert(d.drop_last() =~= Seq::<char>::empty());
        assert(dec_value(d) == dec_value(d.drop_last()) * 10 + digit_value(d.last()));
    } else {
        lemma_decimal_digits(n / 10);
        lemma_digit_char(n % 10);
        let p = decimal(n / 10);
        assert(d.drop_last() =~= p);
        assert(d.last() == digit_char(n % 10));
        assert(dec_value(d) == dec_value(p) * 10 + digit_value(digit_char(n % 10)));
        assert(n == (n / 10) * 10 + n % 10);
        assert forall|k: int| 0 <= k < d.len() implies is_digit(#[trigger] d[k]) by {
            if k < d.len() - 1 {
                assert(d[k] == p[k]);
            }
        }
    }
}

proof fn lemma_split_append(a: Seq<char>, b: Seq<char>)
    requires
        sep_free(b),
    ensures
        split_pieces(a + b) == split_pieces(a).update(
            split_pieces(a).len() - 1,
            split_pieces(a).last() + b,
        ),
    decreases b.len(),
{
    lemma_split_pieces_nonempty(a);
    if b.len() == 0 {
        assert(a + b =~= a);
        assert(split_pieces(a).last() + b =~= split_pieces(a).last());
        assert(split_pieces(a).update(split_pieces(a).len() - 1, split_pieces(a).last())
            =~= split_pieces(a));
    } else {
        let b0 = b.drop_last();
        assert(sep_free(b0)) by {
            assert forall|k: int| 0 <= k < b0.len() implies !is_endpoint_sep(#[trigger] b0[k]) by {
                assert(b0[k] == b[k]);
            }
        }
        lemma_split_append(a, b0);
        assert((a + b).drop_last() =~= a + b0);
        assert((a + b).last() == b.last());
        assert(!is_endpoint_sep(b[b.len() - 1]));
        assert((split_pieces(a).last() + b0).push(b.last()) =~= split_pieces(a).last() + b);
        assert(split_pieces(a + b) =~= split_pieces(a).update(
            split_pieces(a).len() - 1,
            split_pieces(a).last() + b,
        ));
    }
}

proof fn lemma_last_colon_skips(p: Seq<char>, d: Seq<char>)
    requires
        forall|k: int| 0 <= k < d.len() ==> #[trigger] d[k] != ':',
    ensures
        last_colon(p + d) == last_colon(p),
    decreases d.len(),
{
    if d.len() == 0 {
        assert(p + d =~= p);
    } else {
        let d0 = d.drop_last();
        assert((p + d).drop_last() =~= p + d0);
        assert((p + d).last() == d[d.len() - 1]);
        lemma_last_colon_skips(p, d0);
    }
}

proof fn lemma_item_reads_back(e: EndpointView)
    requires
        plain_endpoint(e),
    ensures
        sep_free(endpoint_text(e)),
        trim(endpoint_text(e)) == endpoint_text(e),
        trim(seq![' '] + endpoint_text(e)) == endpoint_text(e),
        parse_item(endpoint_text(e)) == Ok::<EndpointView, Seq<char>>(e),
{
    let h = e.host;
    let d = decimal(e.port as nat);
    lemma_decimal_digits(e.port as nat);
    let t = endpoint_text(e);
    assert(t =~= h.push(':') + d);
    assert(forall|k: int| 0 <= k < d.len() ==> is_digit(#[trigger] d[k]));
    assert(sep_free(t)) by {
        assert forall|k: int| 0 <= k < t.len() implies !is_endpoint_sep(#[trigger] t[k]) by {
            if k < h.len() {
                assert(t[k] == h[k]);
            } else if k > h.len() {
                assert(t[k] == d[k - h.len() - 1]);
                assert(is_digit(d[k - h.len() - 1]));
            }
        }
    }
    assert(t[0] == h[0]);
    assert(t.last() == d.last());
    assert(is_digit(d[d.len() - 1]));
    assert(trim_start(t) == t);
    assert(trim_end(t) == t);
    let st = seq![' '] + t;
    assert(st.drop_first() =~= t);
    assert(trim_start(st) == trim_start(t));
    // The item splits at the colon before the port.
    assert(forall|k: int| 0 <= k < d.len() ==> #[trigger] d[k] != ':') by {
        assert forall|k: int| 0 <= k < d.len() implies #[trigger] d[k] != ':' by {
            assert(is_digit(d[k]));
        }
    }
    lemma_last_colon_skips(h.push(':'), d);
    assert(last_colon(h.push(':')) == Some(h.len() as int));
    assert(t.subrange((h.len() + 1) as int, t.len() as int) =~= d);
    assert(t.subrange(0, h.len() as int) =~= h);
    // The port reads back.
    assert(d[0] != '+') by {
        assert(is_digit(d[0]));
    }
    assert(trim_start(d) == d) by {
        assert(is_digit(d[0]));
    }
    assert(trim_end(d) == d);
    assert(parse_u16_spec(d) == Some(e.port));
    // The host reads back.
    assert(trim_start(h) == h);
    assert(trim_end(h) == h);
}

proof fn lemma_list_splits(eps: Seq<EndpointView>)
    requires
        eps.len() >= 1,
        forall|i: int| 0 <= i < eps.len() ==> plain_endpoint(#[trigger] eps[i]),
    ensures
        split_pieces(endpoint_list_text(eps)) == list_pieces(eps),
    decreases eps.len(),
{
    let last = eps.last();
    lemma_item_reads_back(last);
    if eps.len() == 1 {
        let t = endpoint_text(eps[0]);
        lemma_split_append(Seq::empty(), t);
        assert(Seq::<char>::empty() + t =~= t);
        assert(split_pieces(Seq::<char>::empty()) == seq![Seq::<char>::empty()]);
        assert(seq![Seq::<char>::empty()].update(0, Seq::<char>::empty() + t) =~= seq![t]);
    } else {
        let rest = eps.drop_last();
        assert forall|i: int| 0 <= i < rest.len() implies plain_endpoint(#[trigger] rest[i]) by {
            assert(rest[i] == eps[i]);
        }
        lemma_list_splits(rest);
        let head = endpoint_list_text(rest);
        let tail = seq![' '] + endpoint_text(last);
        assert(sep_free(tail)) by {
            assert forall|k: int| 0 <= k < tail.len() implies !is_endpoint_sep(#[trigger] tail[k]) by {
                if k > 0 {
                    assert(tail[k] == endpoint_text(last)[k - 1]);
                }
            }
        }
        let a = head.push(',');
        reveal_strlit(", ");
        assert(endpoint_list_text(eps) == head + ", "@ + endpoint_text(last));
        assert(endpoint_list_text(eps) =~= a + tail);
        assert(a.drop_last() =~= head);
        assert(split_pieces(a) == split_pieces(head).push(Seq::<char>::empty()));
        lemma_split_append(a, tail);
        assert(Seq::<char>::empty() + tail =~= tail);
        assert(split_pieces(a + tail) =~= split_pieces(head).push(tail));
    }
}

proof fn lemma_pieces_read_back(eps: Seq<EndpointView>)
    requires
        eps.len() >= 1,
        forall|i: int| 0 <= i < eps.len() ==> plain_endpoint(#[trigger] eps[i]),
    ensures
        parse_pieces(list_pieces(eps)) == Ok::<Seq<EndpointView>, Seq<char>>(eps),
    decreases eps.len(),
{
    let last = eps.last();
    lemma_item_reads_back(last);
    let t = endpoint_text(last);
    assert(t.len() > 0) by {
        assert(t =~= last.host.push(':') + decimal(last.port as nat));
    }
    let ps = list_pieces(eps);
    if eps.len() == 1 {
        assert(eps[0] == last);
        assert(ps == seq![t]);
        assert(ps.drop_last() =~= Seq::<Seq<char>>::empty());
        assert(parse_pieces(ps.drop_last()) == Ok::<Seq<EndpointView>, Seq<char>>(Seq::empty()));
        assert(ps.last() == t);
        assert(Seq::<EndpointView>::empty().push(last) =~= eps);
    } else {
        let rest = eps.drop_last();
        assert forall|i: int| 0 <= i < rest.len() implies plain_endpoint(#[trigger] rest[i]) by {
            assert(rest[i] == eps[i]);
        }
        lemma_pieces_read_back(rest);
        assert(ps == list_pieces(rest).push(seq![' '] + t));
        assert(ps.drop_last() =~= list_pieces(rest));
        assert(ps.last() == seq![' '] + t);
        assert(rest.push(last) =~= eps);
    }
}

/// What the host dialog writes for a host's endpoints reads back as the
/// same endpoints, as long as each host is not blank at either end and
/// holds no comma or line break, and no port is 0.
pub proof fn endpoint_text_round_trip(eps: Seq<EndpointView>)
    requires
        forall|i: int| 0 <= i < eps.len() ==> plain_endpoint(#[trigger] eps[i]),
    ensures
        parse_endpoints_spec(endpoint_list_text(eps)) == Ok::<Seq<EndpointView>, Seq<char>>(eps),
{
    if eps.len() == 0 {
        let e = Seq::<char>::empty();
        assert(endpoint_list_text(eps) == e);
        let ps = split_pieces(e);
        assert(ps == seq![e]);
        assert(ps.drop_last() =~= Seq::<Seq<char>>::empty());
        assert(parse_pieces(ps.drop_last()) == Ok::<Seq<EndpointView>, Seq<char>>(Seq::empty()));
        assert(trim_start(e) == e);
        assert(trim_end(e) == e);
        assert(trim(ps.last()).len() == 0);
        assert(eps =~= Seq::<EndpointView>::empty());
    } else {
        lemma_list_splits(eps);
        lemma_pieces_read_back(eps);
    }
}

} // verus!
