//! Keys in the host dialog, saving the dialog into the database, and the
//! dialog that picks one of a host's endpoints.

use vstd::prelude::*;
use crate::form::{
    current_field_value, cycle_auth_mode, edit_form_field, edit_slot, edit_text, focused_text,
    others_unchanged, same_but_auth_modes, selection_index, selection_of, slot_text, validate_form,
    validate_spec, AuthSelection, FormSlot,
};
use crate::input::{KeyCode, KeyEvent, KeyEventKind};
use crate::model::{endpoints_view, Database, EndpointView, HostAuth, SshEndpoint, SshHost};
use crate::navigation::{
    field_index, EndpointPickerState, HostAuthMode, HostFormField, HostFormState, HostKeyInputMode, HostModalMode,
};
use crate::text::{char_count, concat_str, decimal, u64_to_decimal};

verus! {

/// Puts what the key picker chose into the form: the file's path for a
/// key path, the file's text for an inline key. The caret goes to the end
/// of it and the error is cleared.
pub fn apply_key_file(form: &mut HostFormState, mode: HostKeyInputMode, value: String)
    ensures
        mode == HostKeyInputMode::Path ==> *final(form) == (HostFormState {
            key_path: value,
            caret: value@.len() as usize,
            error: None,
            ..*old(form)
        }),
        mode == HostKeyInputMode::Inline ==> *final(form) == (HostFormState {
            key_inline: value,
            caret: value@.len() as usize,
            error: None,
            ..*old(form)
        }),
{
    let n = char_count(&value);
    match mode {
        HostKeyInputMode::Path => form.key_path = value,
        HostKeyInputMode::Inline => form.key_inline = value,
    }
    form.caret = n;
    form.error = None;
}

/// What a key in the host dialog leads to.
#[derive(Clone, Copy, Debug, PartialEq, Eq, Structural)]
pub enum HostFormKeyOutcome {
    /// The dialog stays open.
    Stay,
    /// The dialog closes without saving.
    Close,
    /// The key file picker is to open.
    OpenKeyPicker,
    /// The dialog is to be saved.
    Save,
}

/// Whether the focus is on a key path, which the file picker fills in.
pub open spec fn on_key_path(form: HostFormState) -> bool {
    form.focus == HostFormField::AuthValue && form.auth_mode == HostAuthMode::Key && form.key_input_mode
        == HostKeyInputMode::Path
}

proof fn lemma_slot_is_focused(form: HostFormState)
    ensures
        edit_slot(form) matches Some(slot) ==> slot_text(form, slot) == focused_text(form),
{
}

/// Handles a key in the host dialog (its key picker closed). Esc closes
/// the dialog; Tab/Down and BackTab/Up move the focus, the caret going to
/// the end of the newly focused field; Left/Right on the mode selector
/// cycle the authentication mode; Enter/Right on a key path open the key
/// picker; Ctrl+S saves; other keys edit the focused field.
pub fn host_form_key(form: &mut HostFormState, key: KeyEvent) -> (r: HostFormKeyOutcome)
    ensures
        key.code == KeyCode::Esc ==> r == HostFormKeyOutcome::Close && *final(form) == (HostFormState {
            error: None,
            ..*old(form)
        }),
        key.code == KeyCode::Tab || key.code == KeyCode::Down ==> {
            &&& r == HostFormKeyOutcome::Stay
            &&& field_index(final(form).focus) == (field_index(old(form).focus) + 1) % 5
            &&& final(form).caret == focused_text(*final(form)).len()
            &&& *final(form) == (HostFormState {
                focus: final(form).focus,
                caret: final(form).caret,
                error: None,
                ..*old(form)
            })
        },
        key.code == KeyCode::BackTab || key.code == KeyCode::Up ==> {
            &&& r == HostFormKeyOutcome::Stay
            &&& field_index(final(form).focus) == (field_index(old(form).focus) + 4) % 5
            &&& final(form).caret == focused_text(*final(form)).len()
            &&& *final(form) == (HostFormState {
                focus: final(form).focus,
                caret: final(form).caret,
                error: None,
                ..*old(form)
            })
        },
        !(key.code == KeyCode::Esc || key.code == KeyCode::Tab || key.code == KeyCode::Down || key.code
            == KeyCode::BackTab || key.code == KeyCode::Up) ==> {
            if old(form).focus == HostFormField::AuthMode && (key.code == KeyCode::Left || key.code
                == KeyCode::Right) {
                &&& r == HostFormKeyOutcome::Stay
                &&& selection_index(selection_of(*final(form))) == (if key.code == KeyCode::Left {
                    (selection_index(selection_of(*old(form))) + 2) % 3
                } else {
                    (selection_index(selection_of(*old(form))) + 1) % 3
                })
                &&& (selection_of(*final(form)) == AuthSelection::Password ==> final(form).key_input_mode
                    == old(form).key_input_mode)
                &&& *final(form) == (HostFormState {
                    auth_mode: final(form).auth_mode,
                    key_input_mode: final(form).key_input_mode,
                    error: None,
                    ..*old(form)
                })
            } else if on_key_path(*old(form)) && (key.code == KeyCode::Enter || key.code == KeyCode::Right) {
                r == HostFormKeyOutcome::OpenKeyPicker && *final(form) == (HostFormState {
                    error: None,
                    ..*old(form)
                })
            } else if key.code == KeyCode::Char('s') && key.modifiers.control {
                r == HostFormKeyOutcome::Save && *final(form) == *old(form)
            } else {
                &&& r == HostFormKeyOutcome::Stay
                &&& (key.modifiers.control || key.modifiers.alt || key.modifiers.super_key || edit_slot(
                    *old(form),
                ) is None) ==> *final(form) == *old(form)
                &&& !(key.modifiers.control || key.modifiers.alt || key.modifiers.super_key) ==> (edit_slot(
                    *old(form),
                ) matches Some(slot) ==> slot_text(*old(form), slot).len() < usize::MAX ==> {
                    let e = edit_text(slot_text(*old(form), slot), old(form).caret as int, key.code);
                    &&& slot_text(*final(form), slot) == e.0
                    &&& final(form).caret == e.1
                    &&& others_unchanged(*final(form), *old(form), slot)
                })
            }
        },
{
    let code = key.code;
    if code == KeyCode::Esc {
        form.error = None;
        return HostFormKeyOutcome::Close;
    }
    if code == KeyCode::Tab || code == KeyCode::Down {
        form.focus = form.focus.next();
        let v = current_field_value(form);
        form.caret = char_count(&v);
        form.error = None;
        return HostFormKeyOutcome::Stay;
    }
    if code == KeyCode::BackTab || code == KeyCode::Up {
        form.focus = form.focus.prev();
        let v = current_field_value(form);
        form.caret = char_count(&v);
        form.error = None;
        return HostFormKeyOutcome::Stay;
    }
    if form.focus == HostFormField::AuthMode && (code == KeyCode::Left || code == KeyCode::Right) {
        cycle_auth_mode(form, code == KeyCode::Left);
        form.error = None;
        return HostFormKeyOutcome::Stay;
    }
    if form.focus == HostFormField::AuthValue && form.auth_mode == HostAuthMode::Key && form.key_input_mode
        == HostKeyInputMode::Path && (code == KeyCode::Enter || code == KeyCode::Right) {
        form.error = None;
        return HostFormKeyOutcome::OpenKeyPicker;
    }
    if code == KeyCode::Char('s') && key.modifiers.control {
        return HostFormKeyOutcome::Save;
    }
    proof {
        lemma_slot_is_focused(*form);
    }
    let v = current_field_value(form);
    if char_count(&v) < usize::MAX {
        edit_form_field(form, key);
    }
    HostFormKeyOutcome::Stay
}

/// What saving the host dialog did.
#[derive(Clone, Copy, Debug, PartialEq, Eq, Structural)]
pub enum SavedHost {
    /// A host was added with this id, at this index of the host list.
    Created { id: u32, index: usize, endpoint_count: usize },
    /// The host with this id was updated (if it still exists), now with
    /// this many endpoints.
    Edited { host_id: u32, endpoint_count: Option<usize> },
}

/// The index of the first host with id `id`, if any.
pub open spec fn host_position(hosts: Seq<SshHost>, id: u32) -> Option<int> {
    if exists|i: int| 0 <= i < hosts.len() && hosts[i].id == id {
        Some(choose|i: int| 0 <= i < hosts.len() && hosts[i].id == id && forall|j: int| 0 <= j < i ==> hosts[j].id != id)
    } else {
        None
    }
}

/// The index of the first host with id `id`.
pub fn find_host_index(hosts: &Vec<SshHost>, id: u32) -> (r: Option<usize>)
    ensures
        match r {
            Some(i) => i < hosts@.len() && hosts@[i as int].id == id && forall|j: int| 0 <= j < i ==> hosts@[j].id != id,
            None => forall|j: int| 0 <= j < hosts@.len() ==> hosts@[j].id != id,
        },
        r matches Some(i) ==> host_position(hosts@, id) == Some(i as int),
        r is None ==> host_position(hosts@, id) is None,
{
    let mut i: usize = 0;
    while i < hosts.len()
        invariant
            i <= hosts@.len(),
            forall|j: int| 0 <= j < i ==> hosts@[j].id != id,
        decreases hosts@.len() - i,
    {
        if hosts[i].id == id {
            proof {
                let k = choose|k: int| 0 <= k < hosts@.len() && hosts@[k].id == id && forall|j: int| 0 <= j < k ==> hosts@[j].id != id;
                assert(0 <= i < hosts@.len() && hosts@[i as int].id == id && forall|j: int| 0 <= j < i ==> hosts@[j].id != id);
                if k < i {
                } else if k > i {
                    assert(hosts@[i as int].id != id);
                }
            }
            return Some(i);
        }
        i = i + 1;
    }
    None
}

/// Saves the host dialog into the database: the form is checked first (an
/// error leaves the database as it was); a new host is added under a fresh
/// id with no group; an edited host keeps its id and group and takes the
/// form's name, user, endpoints and authentication.
pub fn save_host(db: &mut Database, mode: HostModalMode, form: &HostFormState) -> (r: Result<SavedHost, String>)
    ensures
        validate_spec(*form) matches Err(m) ==> (r matches Err(e) && e@ == m && *final(db) == *old(db)),
        validate_spec(*form) matches Ok((name, user, eps, auth)) ==> match mode {
            HostModalMode::Create => {
                let id = if old(db).next_host_id >= 1 { old(db).next_host_id } else { 1 };
                &&& r == Ok::<SavedHost, String>(SavedHost::Created { id, index: old(db).hosts@.len() as usize, endpoint_count: eps.len() as usize })
                &&& final(db).hosts@.len() == old(db).hosts@.len() + 1
                &&& forall|i: int| 0 <= i < old(db).hosts@.len() ==> final(db).hosts@[i] == old(db).hosts@[i]
                &&& final(db).hosts@.last().id == id
                &&& final(db).hosts@.last().name@ == name
                &&& final(db).hosts@.last().user@ == user
                &&& final(db).hosts@.last().group@.len() == 0
                &&& endpoints_view(final(db).hosts@.last().endpoints@) == eps
                &&& final(db).hosts@.last().auth@ == auth
                &&& final(db).next_host_id == crate::store::id_after(id)
                &&& final(db).trusted_host_keys == old(db).trusted_host_keys
            },
            HostModalMode::Edit { host_id } => {
                &&& final(db).next_host_id == old(db).next_host_id
                &&& final(db).trusted_host_keys == old(db).trusted_host_keys
                &&& final(db).hosts@.len() == old(db).hosts@.len()
                &&& match host_position(old(db).hosts@, host_id) {
                    None => {
                        &&& r == Ok::<SavedHost, String>(SavedHost::Edited { host_id, endpoint_count: None })
                        &&& final(db).hosts@ == old(db).hosts@
                    },
                    Some(i) => {
                        &&& r == Ok::<SavedHost, String>(SavedHost::Edited { host_id, endpoint_count: Some(eps.len() as usize) })
                        &&& forall|j: int| 0 <= j < old(db).hosts@.len() && j != i ==> final(db).hosts@[j] == old(db).hosts@[j]
                        &&& final(db).hosts@[i].id == host_id
                        &&& final(db).hosts@[i].group == old(db).hosts@[i].group
                        &&& final(db).hosts@[i].name@ == name
                        &&& final(db).hosts@[i].user@ == user
                        &&& endpoints_view(final(db).hosts@[i].endpoints@) == eps
                        &&& final(db).hosts@[i].auth@ == auth
                    },
                }
            },
        },
{
    let (name, user, endpoints, auth) = match validate_form(form) {
        Ok(v) => v,
        Err(e) => return Err(e),
    };
    let count = endpoints.len();
    match mode {
        HostModalMode::Create => {
            let index = db.hosts.len();
            let id = db.add_host(name, user, String::new(), endpoints, auth);
            Ok(SavedHost::Created { id, index, endpoint_count: count })
        },
        HostModalMode::Edit { host_id } => {
            match find_host_index(&db.hosts, host_id) {
                None => Ok(SavedHost::Edited { host_id, endpoint_count: None }),
                Some(i) => {
                    let old_host = &db.hosts[i];
                    let updated = SshHost {
                        id: old_host.id,
                        name,
                        user,
                        group: old_host.group.clone(),
                        endpoints,
                        auth,
                    };
                    db.hosts.set(i, updated);
                    Ok(SavedHost::Edited { host_id, endpoint_count: Some(count) })
                },
            }
        },
    }
}

/// What a key in the endpoint picker leads to.
#[derive(Clone, Copy, Debug, PartialEq, Eq, Structural)]
pub enum EndpointPickerOutcome {
    /// The picker stays open.
    Stay,
    /// The picker closes.
    Close,
    /// A session is to start on the endpoint at this index.
    Connect(usize),
}

/// Handles a key in the endpoint picker: Esc closes it, Up/k and Down/j
/// move the selection within the endpoints, Enter connects to the selected
/// endpoint; released keys do nothing.
pub fn handle_endpoint_picker_key(picker: &mut EndpointPickerState, key: KeyEvent) -> (r: EndpointPickerOutcome)
    ensures
        final(picker).host_id == old(picker).host_id,
        final(picker).endpoints == old(picker).endpoints,
        key.kind == KeyEventKind::Release ==> r == EndpointPickerOutcome::Stay && final(picker).selected == old(picker).selected,
        key.kind != KeyEventKind::Release ==> {
            let n = old(picker).endpoints@.len();
            let last = if n == 0 { 0 } else { n - 1 };
            let s = old(picker).selected;
            if key.code == KeyCode::Esc {
                r == EndpointPickerOutcome::Close && final(picker).selected == s
            } else if key.code == KeyCode::Up || key.code == KeyCode::Char('k') {
                r == EndpointPickerOutcome::Stay && final(picker).selected == (if s == 0 { 0 } else { s - 1 })
            } else if key.code == KeyCode::Down || key.code == KeyCode::Char('j') {
                r == EndpointPickerOutcome::Stay && final(picker).selected == (if s + 1 < last { s + 1 } else { last as int })
            } else if key.code == KeyCode::Enter {
                &&& final(picker).selected == s
                &&& r == (if n == 0 {
                    EndpointPickerOutcome::Stay
                } else {
                    EndpointPickerOutcome::Connect((if s < last { s as int } else { last }) as usize)
                })
            } else {
                r == EndpointPickerOutcome::Stay && final(picker).selected == s
            }
        },
        r matches EndpointPickerOutcome::Connect(i) ==> i < old(picker).endpoints@.len(),
{
    if key.kind == KeyEventKind::Release {
        return EndpointPickerOutcome::Stay;
    }
    let n = picker.endpoints.len();
    let last = if n == 0 { 0 } else { n - 1 };
    let code = key.code;
    if code == KeyCode::Esc {
        EndpointPickerOutcome::Close
    } else if code == KeyCode::Up || code == KeyCode::Char('k') {
        picker.selected = if picker.selected == 0 { 0 } else { picker.selected - 1 };
        EndpointPickerOutcome::Stay
    } else if code == KeyCode::Down || code == KeyCode::Char('j') {
        let s = picker.selected;
        picker.selected = if s < last && s + 1 < last { s + 1 } else { last };
        EndpointPickerOutcome::Stay
    } else if code == KeyCode::Enter {
        if n == 0 {
            EndpointPickerOutcome::Stay
        } else {
            let s = picker.selected;
            EndpointPickerOutcome::Connect(if s < last { s } else { last })
        }
    } else {
        EndpointPickerOutcome::Stay
    }
}

/// The title of an SSH tab: `name - user@host:port`.
pub open spec fn session_title_spec(name: Seq<char>, user: Seq<char>, e: EndpointView) -> Seq<char> {
    name + " - "@ + user + seq!['@'] + e.host + seq![':'] + decimal(e.port as nat)
}

/// The title of an SSH tab for a host's endpoint.
pub fn session_title(name: &str, user: &str, endpoint: &SshEndpoint) -> (r: String)
    ensures
        r@ == session_title_spec(name@, user@, endpoint@),
{
    let a = concat_str(name, " - ");
    let b = concat_str(a.as_str(), user);
    let c = concat_str(b.as_str(), "@");
    let d = concat_str(c.as_str(), endpoint.host.as_str());
    let e = concat_str(d.as_str(), ":");
    let port = u64_to_decimal(endpoint.port as u64);
    let r = concat_str(e.as_str(), port.as_str());
    proof {
        reveal_strlit("@");
        reveal_strlit(":");
    }
    assert(r@ =~= session_title_spec(name@, user@, endpoint@));
    r
}

} // verus!
