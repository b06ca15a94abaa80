//! Laws of the editor: what holds across several of its operations, each
//! stated over the models and proved.
use crate::dropdown::DropdownV;
use crate::form::applied;
use crate::form::form_hash;
use crate::form::opened_fields;
use crate::form::FormFieldV;
use crate::form::FormStateV;
use crate::json::lemma_with_get;
use crate::json::lemma_with_same;
use crate::json::JsonV;
use crate::keys::ActionV;
use crate::keys::Key;
use crate::providers::ProvidersV;
use crate::schema::FieldSchemaV;
use crate::scratch::base_document;
use crate::scratch::entries_json;
use crate::scratch::with_default_provider;
use crate::scratch::with_providers;
use crate::scratch::EntryV;
use crate::schema::array_or_empty;
use crate::validation::downloaded_ids;
use crate::validation::elements;
use crate::validation::model_ids;
use crate::dropdown::lemma_no_filter_shows_all;
use crate::providers::position_or_zero;
use crate::providers::entry_ids;
use crate::providers::numbered_id;
use crate::providers::lemma_first_free_number;
use crate::text::lemma_first_index_of;
use vstd::prelude::*;

verus! {

/// Two lists of fields with the same names and the same texts, position by
/// position, have the same hash, whatever else differs between them.
pub proof fn lemma_hash_deterministic(a: Seq<FormFieldV>, b: Seq<FormFieldV>)
    requires
        a.len() == b.len(),
        forall|i: int|
            0 <= i < a.len() ==> a[i].schema.name == b[i].schema.name && a[i].buffer == b[i].buffer,
    ensures
        form_hash(a) == form_hash(b),
    decreases a.len(),
{
    if a.len() > 0 {
        lemma_hash_deterministic(a.drop_last(), b.drop_last());
    }
}

/// Two texts that are equal after the same text was put behind each are
/// equal.
pub proof fn lemma_cancel_suffix(x: Seq<char>, y: Seq<char>, tail: Seq<char>)
    requires
        x + tail == y + tail,
    ensures
        x == y,
{
    assert(x.len() == y.len()) by {
        assert((x + tail).len() == x.len() + tail.len());
        assert((y + tail).len() == y.len() + tail.len());
    }
    assert forall|k: int| 0 <= k < x.len() implies x[k] == y[k] by {
        assert((x + tail)[k] == x[k]);
        assert((y + tail)[k] == y[k]);
    }
    assert(x =~= y);
}

/// Two texts that are equal after each was put behind the same text are
/// equal.
pub proof fn lemma_cancel_prefix(head: Seq<char>, x: Seq<char>, y: Seq<char>)
    requires
        head + x == head + y,
    ensures
        x == y,
{
    assert(x.len() == y.len()) by {
        assert((head + x).len() == head.len() + x.len());
        assert((head + y).len() == head.len() + y.len());
    }
    assert forall|k: int| 0 <= k < x.len() implies x[k] == y[k] by {
        assert((head + x)[head.len() + k] == x[k]);
        assert((head + y)[head.len() + k] == y[k]);
    }
    assert(x =~= y);
}

/// Two lists of fields with the same names that hold the same texts but in
/// one position have different hashes.
pub proof fn lemma_hash_tells_one_change(a: Seq<FormFieldV>, b: Seq<FormFieldV>, at: int)
    requires
        a.len() == b.len(),
        0 <= at < a.len(),
        forall|i: int| 0 <= i < a.len() ==> a[i].schema.name == b[i].schema.name,
        forall|i: int| 0 <= i < a.len() && i != at ==> a[i].buffer == b[i].buffer,
        a[at].buffer != b[at].buffer,
    ensures
        form_hash(a) != form_hash(b),
    decreases a.len(),
{
    let name = a.last().schema.name;
    let us = seq!['\u{1F}'];
    let eq = seq!['='];
    if at == a.len() - 1 {
        lemma_hash_deterministic(a.drop_last(), b.drop_last());
        let head = form_hash(a.drop_last()) + name + eq;
        if form_hash(a) == form_hash(b) {
            assert(form_hash(a) =~= head + (a.last().buffer + us));
            assert(form_hash(b) =~= head + (b.last().buffer + us));
            lemma_cancel_prefix(head, a.last().buffer + us, b.last().buffer + us);
            lemma_cancel_suffix(a.last().buffer, b.last().buffer, us);
        }
    } else {
        lemma_hash_tells_one_change(a.drop_last(), b.drop_last(), at);
        let tail = name + eq + a.last().buffer + us;
        if form_hash(a) == form_hash(b) {
            assert(form_hash(a) =~= form_hash(a.drop_last()) + tail);
            assert(form_hash(b) =~= form_hash(b.drop_last()) + tail);
            lemma_cancel_suffix(form_hash(a.drop_last()), form_hash(b.drop_last()), tail);
        }
    }
}

/// Writing fields into a configuration that already holds the value of each
/// changes nothing.
pub proof fn lemma_apply_same(fields: Seq<FormFieldV>, config: JsonV)
    requires
        forall|i: int|
            0 <= i < fields.len() ==> config.get(fields[i].schema.name) == Some(
                fields[i].coerced(),
            ),
    ensures
        applied(fields, config) == config,
    decreases fields.len(),
{
    if fields.len() > 0 {
        lemma_apply_same(fields.drop_last(), config);
        lemma_with_same(config, fields.last().schema.name, fields.last().coerced());
    }
}

/// Opening a form and saving it without an edit: the save gate lets the save
/// through, the hash that counts as saved stays the same, and the
/// configuration stays the same, provided that it holds, for each field of
/// the schema, the value that the field opens with. (A field that opens with
/// its default, or an integer kept as text, is written on the first save.)
pub proof fn lemma_open_save_idempotent(config: JsonV, schema: Seq<FieldSchemaV>, m: Seq<char>)
    requires
        forall|i: int|
            0 <= i < schema.len() ==> config.get(schema[i].name) == Some(
                (#[trigger] opened_fields(config, schema)[i]).coerced(),
            ),
    ensures
        FormStateV::opened(config, schema).can_save(),
        FormStateV::opened(config, schema).saved(m).initial_hash == FormStateV::opened(
            config,
            schema,
        ).initial_hash,
        applied(FormStateV::opened(config, schema).fields, config) == config,
{
    let fields = opened_fields(config, schema);
    assert forall|i: int| 0 <= i < fields.len() implies config.get(fields[i].schema.name) == Some(
        fields[i].coerced(),
    ) by {
        assert(fields[i].schema == schema[i]);
    }
    lemma_apply_same(fields, config);
}

/// Opening a form and saving it without an edit changes nothing where the
/// configuration holds a non-empty text for each field of the schema and no
/// field is of the integer kind.
pub proof fn lemma_open_save_idempotent_texts(config: JsonV, schema: Seq<FieldSchemaV>)
    requires
        forall|i: int|
            0 <= i < schema.len() ==> (#[trigger] schema[i]).ftype != "int"@ && (config.get(
                schema[i].name,
            ) matches Some(JsonV::Str(t)) && t.len() > 0),
    ensures
        applied(FormStateV::opened(config, schema).fields, config) == config,
{
    let fields = opened_fields(config, schema);
    assert forall|i: int| 0 <= i < schema.len() implies config.get(schema[i].name) == Some(
        (#[trigger] opened_fields(config, schema)[i]).coerced(),
    ) by {
        assert(schema[i].ftype != "int"@);
        assert(fields[i].schema == schema[i]);
    }
    lemma_open_save_idempotent(config, schema, Seq::empty());
}

/// The save gate lets a form through exactly when nothing was edited since
/// it was opened or saved, or the last successful test ran on the fields as
/// they stand.
pub proof fn lemma_save_gate(f: FormStateV)
    ensures
        f.can_save() <==> (form_hash(f.fields) == f.initial_hash || f.last_test_ok_hash == Some(
            form_hash(f.fields),
        )),
{
}

/// An edit that changes the text of a field leaves nothing verified: the
/// save gate then lets the form through only where the fields hash as they
/// did when the form was opened or saved.
pub proof fn lemma_edit_revokes_verification(f: FormStateV, key: Key)
    requires
        f.keyed(key).fields != f.fields,
        key is Char || key is Backspace || key is Delete,
    ensures
        f.keyed(key).last_test_ok_hash is None,
        f.keyed(key).can_save() <==> !f.keyed(key).dirty(),
{
    if f.edit_index() is None {
        assert(f.keyed(key) == f);
    } else {
        let i = f.edit_index()->0;
        let before = f.fields[i];
        let edited = f.keyed(key).fields[i];
        if edited.buffer == before.buffer {
            match key {
                Key::Char(c) => {
                    if before.buffer.len() < usize::MAX {
                        assert(before.inserted(c).buffer.len() == before.buffer.len() + 1);
                    }
                    assert(before.inserted(c) == before);
                },
                Key::Backspace => {
                    if before.pos() > 0 {
                        assert(before.backspaced().buffer.len() == before.buffer.len() - 1);
                    }
                    assert(before.backspaced() == before);
                },
                _ => {
                    if before.pos() < before.buffer.len() {
                        assert(before.deleted().buffer.len() == before.buffer.len() - 1);
                    }
                    assert(before.deleted() == before);
                },
            }
            assert(f.keyed(key).fields =~= f.fields);
        }
    }
}

/// A key that moves within the form, or an edit that keeps every text,
/// keeps what was verified and what counts as saved.
pub proof fn lemma_keys_keep_saved_hash(f: FormStateV, key: Key)
    ensures
        f.keyed(key).initial_hash == f.initial_hash,
        f.keyed(key).last_test_ok_hash is Some ==> f.keyed(key).last_test_ok_hash
            == f.last_test_ok_hash,
{
}

/// A validation run that starts with a form open and ends in success,
/// without an edit in between, opens the save gate; no run is under way
/// afterwards.
pub proof fn lemma_successful_test_opens_gate(s: ProvidersV, from_form: bool, m: Seq<char>)
    requires
        s.form is Some,
        s.has_selected(),
        !s.test_in_progress,
    ensures
        s.test_started(from_form).1 is RunTest,
        s.test_started(from_form).0.test_in_progress,
        s.test_started(from_form).0.verdict_applied(true, m).form->0.can_save(),
        !s.test_started(from_form).0.verdict_applied(true, m).test_in_progress,
        s.test_started(from_form).0.verdict_applied(true, m).pending_test_hash is None,
{
}

/// While a validation run is under way no other starts, from the form or
/// from the list.
pub proof fn lemma_one_test_at_a_time(s: ProvidersV, from_form: bool)
    requires
        s.test_in_progress,
    ensures
        s.test_started(from_form) == (s, ActionV::Nothing),
{
}

/// A validation run that ends in failure, a timeout among them, leaves no
/// run under way, nothing pending and nothing verified, and opens the log
/// window; the save gate then lets the form through only where nothing was
/// edited.
pub proof fn lemma_failed_test_closes_gate(s: ProvidersV, m: Seq<char>)
    requires
        s.test_in_progress,
    ensures
        !s.verdict_applied(false, m).test_in_progress,
        s.verdict_applied(false, m).pending_test_hash is None,
        s.verdict_applied(false, m).show_test_popup,
        s.verdict_applied(false, m).test_status == Some("Error: "@ + m),
        s.form matches Some(f) ==> {
            let after = s.verdict_applied(false, m).form->0;
            after.last_test_ok_hash is None && after.fields == f.fields && (after.can_save()
                <==> !after.dirty())
        },
{
}

/// The selection of a dropdown, once brought back among the rows shown,
/// lies among them; and moving down keeps it there.
pub proof fn lemma_dropdown_selection_in_range(d: DropdownV)
    requires
        0 <= d.selected,
    ensures
        d.reclamped().wf(),
        d.moved_down().wf(),
        d.visible().len() > 0 ==> d.chosen() is Some,
        d.visible().len() == 0 ==> d.chosen() is None,
{
}

/// Enter in a dropdown that shows no row only closes it.
pub proof fn lemma_confirm_without_rows(s: ProvidersV)
    requires
        s.dropdown matches Some(d) && d.visible().len() == 0,
    ensures
        s.confirmed() == (ProvidersV { dropdown: None, ..s }),
{
}

/// While the log window or the dropdown is open, a key changes nothing
/// below it: the list, the selection, the form and the run stay as they are,
/// but for what enter in the dropdown writes.
pub proof fn lemma_modal_takes_keys(s: ProvidersV, key: Key)
    requires
        s.modal(),
        !(s.dropdown is Some && !s.show_test_popup && key is Enter),
    ensures
        s.step(key).1 is Nothing,
        s.step(key).0.entries == s.entries,
        s.step(key).0.selected == s.selected,
        s.step(key).0.form == s.form,
        s.step(key).0.focus_right == s.focus_right,
        s.step(key).0.test_in_progress == s.test_in_progress,
{
}

/// Saving the providers keeps every other top-level key of the document
/// that was there, the default provider among them, and puts the providers
/// under their key.
pub proof fn lemma_save_keeps_other_keys(
    existing: Option<Seq<char>>,
    entries: Seq<EntryV>,
    key: Seq<char>,
)
    requires
        key != "providers"@,
    ensures
        with_providers(existing, entries).get(key) == base_document(existing).get(key),
        with_providers(existing, entries).get("providers"@) == Some(
            JsonV::Array(entries_json(entries)),
        ),
{
    lemma_with_get(
        base_document(existing),
        "providers"@,
        JsonV::Array(entries_json(entries)),
        key,
    );
}

/// Saving the default provider keeps every other top-level key of the
/// document that was there, the providers among them.
pub proof fn lemma_save_default_keeps_other_keys(
    existing: Option<Seq<char>>,
    id: Seq<char>,
    key: Seq<char>,
)
    requires
        key != "default_provider_id"@,
    ensures
        with_default_provider(existing, id).get(key) == base_document(existing).get(key),
        with_default_provider(existing, id).get("default_provider_id"@) == Some(JsonV::Str(id)),
{
    lemma_with_get(base_document(existing), "default_provider_id"@, JsonV::Str(id), key);
}

/// Up and down treat the three buttons as one group: down from the last
/// field, or from the type row of a form without fields, lands on the first
/// button; down on any button moves nothing; up from any button lands on the
/// last field, or on the type row of a form without fields.
pub proof fn lemma_group_jump(f: FormStateV)
    requires
        f.sized(),
    ensures
        f.selected == f.fields.len() ==> f.moved_down().selected == f.test_row(),
        f.on_buttons() ==> f.moved_down() == f,
        f.on_buttons() ==> f.moved_up().selected == f.fields.len(),
        f.wf() ==> f.moved_down().wf() && f.moved_up().wf(),
{
}

/// Tab and back-tab walk through all rows in a circle and undo each other.
pub proof fn lemma_tab_cycle(f: FormStateV)
    requires
        f.wf(),
        f.sized(),
    ensures
        f.tabbed().wf(),
        f.back_tabbed().wf(),
        f.tabbed().back_tabbed() == f,
        f.back_tabbed().tabbed() == f,
        f.selected == f.cancel_row() ==> f.tabbed().selected == 0,
        f.selected == 0 ==> f.back_tabbed().selected == f.cancel_row(),
{
}

/// A form as it opens is well formed.
pub proof fn lemma_opened_form_wf(config: JsonV, schema: Seq<FieldSchemaV>)
    ensures
        FormStateV::opened(config, schema).wf(),
{
}

/// A key in the form keeps it well formed: a row stays selected and every
/// caret stays within its text.
pub proof fn lemma_form_keys_preserve_wf(f: FormStateV, key: Key)
    requires
        f.wf(),
    ensures
        f.keyed(key).wf(),
{
    match f.edit_index() {
        Some(i) => {
            let before = f.fields[i];
            assert(before.wf());
            match key {
                Key::Char(c) => {
                    lemma_field_edits_keep_caret(before, c);
                },
                _ => {
                    lemma_field_edits_keep_caret(before, ' ');
                },
            }
            assert forall|j: int| 0 <= j < f.keyed(key).fields.len() implies (
            #[trigger] f.keyed(key).fields[j]).wf() by {
                if j != i {
                    assert(f.keyed(key).fields[j] == f.fields[j]);
                }
            }
        },
        None => {
            assert(f.keyed(key).fields == f.fields);
        },
    }
}

/// Every edit and every caret move leaves the caret within the text.
pub proof fn lemma_field_edits_keep_caret(f: FormFieldV, c: char)
    requires
        f.wf(),
    ensures
        f.inserted(c).wf(),
        f.backspaced().wf(),
        f.deleted().wf(),
        f.left().wf(),
        f.right().wf(),
        f.home().wf(),
        f.end().wf(),
        forall|t: Seq<char>| (#[trigger] f.replaced(t)).wf(),
{
}

/// A key in the dropdown keeps its selection among the rows shown.
pub proof fn lemma_dropdown_keys_preserve_wf(d: DropdownV, key: Key)
    requires
        d.wf(),
    ensures
        d.keyed(key).wf(),
{
}

/// A dropdown opened on the position of a string among its items, or on the
/// first where it is not among them, is well formed.
pub proof fn lemma_opened_dropdown_wf(
    items: Seq<Seq<char>>,
    s: Seq<char>,
    title: Seq<char>,
    target: Option<int>,
    downloaded: Option<Seq<Seq<char>>>,
)
    ensures
        DropdownV::opened(items, position_or_zero(items, s), title, target, downloaded).wf(),
{
    lemma_first_index_of(items, s);
    lemma_no_filter_shows_all(items);
}

/// A key keeps the page well formed: the selections stay within their
/// lists, and the form and the dropdown stay well formed.
pub proof fn lemma_step_preserves_wf(s: ProvidersV, key: Key)
    requires
        s.wf(),
    ensures
        s.step(key).0.wf(),
{
    if s.show_test_popup {
    } else if s.dropdown is Some {
        lemma_dropdown_key_wf(s, key);
    } else if s.focus_right {
        lemma_form_key_wf(s, key);
    } else {
        lemma_list_key_wf(s, key);
    }
}

/// A key in the dropdown keeps the page well formed.
proof fn lemma_dropdown_key_wf(s: ProvidersV, key: Key)
    requires
        s.wf(),
        s.dropdown is Some,
    ensures
        s.dropdown_key(key).wf(),
{
    let dd = s.dropdown->0;
    lemma_dropdown_keys_preserve_wf(dd, key);
    if key is Enter {
        let closed = ProvidersV { dropdown: None, ..s };
        match dd.chosen() {
            None => {},
            Some(choice) => match dd.target_field {
                None => {
                    if closed.has_selected() {
                        let e = closed.entries[closed.selected];
                        let changed = closed.with_entry(closed.selected, EntryV { ptype: choice, ..e });
                        lemma_opened_form_wf(
                            changed.entries[changed.selected].config,
                            changed.schema_for(changed.entries[changed.selected].ptype),
                        );
                    }
                },
                Some(fi) => {
                    match closed.form {
                        Some(f) => {
                            if 0 <= fi < f.fields.len() {
                                lemma_field_edits_keep_caret(f.fields[fi], ' ');
                                let after = f.with_choice(fi, choice);
                                assert forall|j: int| 0 <= j < after.fields.len() implies (
                                #[trigger] after.fields[j]).wf() by {
                                    if j != fi {
                                        assert(after.fields[j] == f.fields[j]);
                                    }
                                }
                            }
                        },
                        None => {},
                    }
                },
            },
        }
    }
}

/// A key in the form keeps the page well formed.
proof fn lemma_form_key_wf(s: ProvidersV, key: Key)
    requires
        s.wf(),
        s.dropdown is None,
    ensures
        s.form_key(key).0.wf(),
{
    let t = s.with_form_ensured();
    if s.has_selected() {
        lemma_opened_form_wf(s.entries[s.selected].config, s.schema_for(s.entries[s.selected].ptype));
    }
    match t.form {
        None => {},
        Some(f) => {
            lemma_form_keys_preserve_wf(f, key);
            if key is Enter {
                lemma_opened_dropdown_wf(
                    t.schema_types,
                    t.selected_type(),
                    "Select Provider Type"@,
                    None,
                    None,
                );
                if 1 <= f.selected <= f.fields.len() {
                    let ff = f.fields[f.selected - 1];
                    if ff.schema.options is Some {
                        lemma_opened_dropdown_wf(
                            ff.schema.options->0,
                            ff.buffer,
                            "Select "@ + ff.schema.name,
                            Some(f.selected - 1),
                            None,
                        );
                    }
                }
            }
        },
    }
}

/// A key in the list keeps the page well formed.
proof fn lemma_list_key_wf(s: ProvidersV, key: Key)
    requires
        s.wf(),
        s.dropdown is None,
    ensures
        s.list_key(key).0.wf(),
{
    let added = s.with_added();
    if added.has_selected() {
        lemma_opened_form_wf(
            added.entries[added.selected].config,
            added.schema_for(added.entries[added.selected].ptype),
        );
    }
    if s.has_selected() {
        lemma_opened_form_wf(s.entries[s.selected].config, s.schema_for(s.entries[s.selected].ptype));
    }
    if key is Tab || key is BackTab {
        lemma_form_key_wf(s.entered_by_tab(), key);
    }
}

/// What the caller reports keeps the page well formed: a verdict, a line
/// of the log, how a save went, and what a discovery run found.
pub proof fn lemma_reports_preserve_wf(
    s: ProvidersV,
    ok: bool,
    m: Seq<char>,
    error: Option<Seq<char>>,
    fi: int,
    response: Result<JsonV, Seq<char>>,
    downloads: Option<JsonV>,
)
    requires
        s.wf(),
        s.dropdown is None,
    ensures
        s.verdict_applied(ok, m).wf(),
        s.line_logged(m).wf(),
        s.save_finished(error).wf(),
        s.models_discovered(fi, response, downloads).wf(),
        s.paths_discovered(fi, response).wf(),
{
    match s.form {
        Some(f) => {
            if 0 <= fi < f.fields.len() {
                match response {
                    Ok(d) => {
                        let items = model_ids(array_or_empty(d, "models"@));
                        lemma_opened_dropdown_wf(
                            items,
                            f.fields[fi].buffer,
                            "Select model ("@ + s.selected_type() + "):"@,
                            Some(fi),
                            match downloads {
                                Some(l) => Some(downloaded_ids(elements(l))),
                                None => None,
                            },
                        );
                        lemma_opened_dropdown_wf(
                            items,
                            f.fields[fi].buffer,
                            "Select GGUF path"@,
                            Some(fi),
                            None,
                        );
                    },
                    Err(_) => {},
                }
            }
        },
        None => {},
    }
}

/// What counts as verified is never made up by a key: after a key the form
/// holds a verified hash only where it held the same one before.
pub proof fn lemma_keys_never_verify(s: ProvidersV, key: Key)
    ensures
        s.step(key).0.form is Some && s.step(key).0.form->0.last_test_ok_hash is Some ==> s.form
            is Some && s.form->0.last_test_ok_hash == s.step(key).0.form->0.last_test_ok_hash,
{
}

/// What counts as verified comes from a test alone: a run that starts
/// records the hash of the fields as they stand; a verdict makes verified
/// only the hash that its run recorded, or keeps what was verified; and a
/// save keeps what was verified and makes the fields as they stand what
/// counts as saved.
pub proof fn lemma_verified_hash_origin(
    s: ProvidersV,
    from_form: bool,
    ok: bool,
    m: Seq<char>,
    error: Option<Seq<char>>,
)
    ensures
        s.test_started(from_form).1 is RunTest ==> s.test_started(from_form).0.pending_test_hash
            == (match s.form {
            Some(f) => Some(form_hash(f.fields)),
            None => None,
        }),
        s.verdict_applied(ok, m).form is Some && s.verdict_applied(ok, m).form->0.last_test_ok_hash
            is Some ==> (ok && s.test_in_progress && s.pending_test_hash == s.verdict_applied(
            ok,
            m,
        ).form->0.last_test_ok_hash) || (s.form is Some && s.form->0.last_test_ok_hash
            == s.verdict_applied(ok, m).form->0.last_test_ok_hash),
        s.form is Some ==> s.save_finished(error).form is Some && s.save_finished(
            error,
        ).form->0.last_test_ok_hash == s.form->0.last_test_ok_hash && s.save_finished(
            error,
        ).form->0.initial_hash == form_hash(s.form->0.fields) && s.save_finished(
            error,
        ).form->0.fields == s.form->0.fields,
{
}

/// No two entries have one id.
pub open spec fn ids_apart(entries: Seq<EntryV>) -> bool {
    forall|i: int, j: int|
        0 <= i < j < entries.len() ==> (#[trigger] entries[i]).id != (#[trigger] entries[j]).id
}

/// Adding an entry keeps the ids apart: the new entry gets an id that no
/// entry has.
pub proof fn lemma_added_id_is_new(s: ProvidersV)
    requires
        ids_apart(s.entries),
    ensures
        ids_apart(s.with_added().entries),
        s.with_added().entries.len() == s.entries.len() + 1 ==> forall|i: int|
            0 <= i < s.entries.len() ==> s.entries[i].id != s.with_added().entries.last().id,
{
    let ids = entry_ids(s.entries);
    let after = s.with_added().entries;
    lemma_first_free_number(ids, (s.entries.len() + 1) as nat);
    if after.len() == s.entries.len() + 1 {
        let n = s.next_number()->0;
        assert(after == s.entries.push(s.new_entry(n)));
        assert(after.last().id == numbered_id(n));
        assert forall|i: int| 0 <= i < s.entries.len() implies s.entries[i].id
            != after.last().id by {
            assert(ids[i] == s.entries[i].id);
        }
        assert forall|i: int, j: int| 0 <= i < j < after.len() implies (#[trigger] after[i]).id != (
        #[trigger] after[j]).id by {
            assert(after[i] == s.entries[i]);
            if j < s.entries.len() {
                assert(after[j] == s.entries[j]);
            }
        }
    } else {
        assert(after == s.entries);
    }
}

/// A key keeps the ids of the entries apart: it adds an entry under an id
/// that no entry has, removes one, or changes one but for its id.
pub proof fn lemma_step_keeps_ids_apart(s: ProvidersV, key: Key)
    requires
        ids_apart(s.entries),
    ensures
        ids_apart(s.step(key).0.entries),
{
    lemma_added_id_is_new(s);
    let after = s.step(key).0;
    if after.entries.len() == s.entries.len() {
        assert forall|i: int| 0 <= i < s.entries.len() implies after.entries[i].id
            == s.entries[i].id by {}
    } else if after.entries.len() + 1 == s.entries.len() {
        assert(after.entries == s.entries.remove(s.selected));
    } else {
        assert(after.entries == s.with_added().entries);
    }
}

} // verus!
