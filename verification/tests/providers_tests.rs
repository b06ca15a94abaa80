use chi_tui::form::compute_form_hash;
use chi_tui::json::Json;
use chi_tui::keys::Action;
use chi_tui::keys::Key;
use chi_tui::providers::load_providers_page;
use chi_tui::providers::load_providers_state;
use chi_tui::providers::ProvidersState;

fn doc(text: &str) -> Json {
    Json::parse(text).expect("test document is JSON")
}

fn strings(items: &[&str]) -> Vec<String> {
    items.iter().map(|s| s.to_string()).collect()
}

const SCHEMA: &str = r#"{"providers":[
    {"type":"openai","fields":[
        {"name":"api_key","type":"secret","required":true},
        {"name":"model","type":"string"}]},
    {"type":"custom","fields":[
        {"name":"host","type":"string","default":"a"},
        {"name":"mode","type":"string","options":["fast","slow"]}]},
    {"type":"ollama","fields":[
        {"name":"host","type":"string"},
        {"name":"port","type":"int"},
        {"name":"model","type":"string"}]},
    {"type":"local-custom","fields":[{"name":"model_path","type":"string"}]},
    {"type":"local-zeroconfig","fields":[]}
]}"#;

const ONE_CUSTOM: &str = r#"{"providers":[
    {"id":"p1","name":"One","type":"custom","tags":["x"],
     "config":{"type":"custom","host":"a","mode":"fast"}}
],"default_provider_id":"p1"}"#;

const ONE_OPENAI: &str = r#"{"providers":[
    {"id":"p1","name":"Open","type":"openai","config":{"type":"openai","api_key":"k","model":"m1"}}
]}"#;

fn state(scratch: &str) -> ProvidersState {
    load_providers_state(&doc(SCHEMA), scratch)
}

fn press(st: &mut ProvidersState, keys: &[Key]) {
    for k in keys {
        let _ = st.handle_key(*k);
    }
}

fn type_text(st: &mut ProvidersState, text: &str) {
    for c in text.chars() {
        let _ = st.handle_key(Key::Char(c));
    }
}

fn buffers(st: &ProvidersState) -> Vec<String> {
    st.form.as_ref().expect("form is open").fields.iter().map(|f| f.buffer.clone()).collect()
}

fn message(st: &ProvidersState) -> Option<String> {
    st.form.as_ref().expect("form is open").message.clone()
}

fn row(st: &ProvidersState) -> usize {
    st.form.as_ref().expect("form is open").selected
}

#[test]
fn empty_page_has_nothing() {
    let st = ProvidersState::empty();
    assert!(st.entries.is_empty());
    assert_eq!(st.selected, 0);
    assert!(st.schema_types.is_empty());
    assert!(st.schema_map.is_empty());
    assert!(st.form.is_none());
    assert!(st.dropdown.is_none());
    assert!(!st.focus_right);
    assert!(!st.test_in_progress);
    assert!(st.test_log.is_empty());
    assert!(st.pending_test_hash.is_none());
    assert!(!st.show_test_popup);
    assert!(st.is_add_row());
    assert_eq!(st.len_with_add(), 1);
    assert!(!st.is_modal());
}

#[test]
fn load_reads_entries_and_schema() {
    let st = state(ONE_CUSTOM);
    assert_eq!(st.entries.len(), 1);
    assert_eq!(st.entries[0].id, "p1");
    assert_eq!(st.entries[0].name, "One");
    assert_eq!(st.entries[0].ptype, "custom");
    assert_eq!(
        st.schema_types,
        strings(&["custom", "local-custom", "local-zeroconfig", "ollama", "openai"])
    );
    assert_eq!(st.schema_map.len(), 5);
    assert_eq!(st.selected, 0);
    assert!(st.form.is_none());
    assert!(!st.focus_right);
    assert!(!st.is_add_row());
    assert_eq!(st.len_with_add(), 2);
    let fields: Vec<String> = st.schema_for("custom").iter().map(|f| f.name.clone()).collect();
    assert_eq!(fields, strings(&["host", "mode"]));
    assert!(st.schema_for("unknown").is_empty());
}

#[test]
fn load_of_a_broken_scratch_text_has_no_entries() {
    let st = state("{ broken");
    assert!(st.entries.is_empty());
    assert_eq!(st.schema_types.len(), 5);
}

#[test]
fn list_moves_between_entries_and_the_add_row() {
    let mut st = state(ONE_CUSTOM);
    press(&mut st, &[Key::Enter, Key::Esc]);
    assert!(st.form.is_some());
    assert!(!st.focus_right);
    press(&mut st, &[Key::Down]);
    assert_eq!(st.selected, 1);
    assert!(st.is_add_row());
    assert!(st.form.is_none());
    press(&mut st, &[Key::Down]);
    assert_eq!(st.selected, 1);
    press(&mut st, &[Key::Up]);
    assert_eq!(st.selected, 0);
    press(&mut st, &[Key::Up]);
    assert_eq!(st.selected, 0);
}

#[test]
fn enter_on_an_entry_opens_its_form() {
    let mut st = state(ONE_CUSTOM);
    let action = st.handle_key(Key::Enter);
    assert!(matches!(action, Action::Nothing));
    assert!(st.focus_right);
    assert_eq!(buffers(&st), strings(&["a", "fast"]));
    assert_eq!(row(&st), 0);
    assert_eq!(st.entries.len(), 1);
}

#[test]
fn enter_on_the_add_row_adds_an_entry_of_the_default_type() {
    let mut st = state(ONE_CUSTOM);
    press(&mut st, &[Key::Down, Key::Enter]);
    assert_eq!(st.entries.len(), 2);
    assert_eq!(st.selected, 1);
    assert_eq!(st.entries[1].id, "p2");
    assert_eq!(st.entries[1].name, "local-zeroconfig");
    assert_eq!(st.entries[1].ptype, "local-zeroconfig");
    assert!(st.entries[1].tags.is_empty());
    assert_eq!(st.entries[1].config.to_compact(), r#"{"type":"local-zeroconfig"}"#);
    assert!(st.focus_right);
    assert!(buffers(&st).is_empty());
}

#[test]
fn default_type_prefers_the_local_types() {
    let schema_of = |types: &[&str]| -> Json {
        let list: Vec<String> = types.iter().map(|t| format!("{{\"type\":\"{}\"}}", t)).collect();
        doc(&format!("{{\"providers\":[{}]}}", list.join(",")))
    };
    let mut a = load_providers_state(&schema_of(&["openai", "local", "local-zeroconfig"]), "{}");
    assert_eq!(a.default_type(), "local-zeroconfig");
    a.add_default();
    assert_eq!(a.entries[0].id, "p1");
    assert_eq!(a.entries[0].ptype, "local-zeroconfig");
    assert_eq!(a.selected, 0);
    let b = load_providers_state(&schema_of(&["openai", "local", "anthropic"]), "{}");
    assert_eq!(b.default_type(), "local");
    let c = load_providers_state(&schema_of(&["openai", "anthropic"]), "{}");
    assert_eq!(c.default_type(), "anthropic");
    let d = load_providers_state(&doc("{}"), "{}");
    assert_eq!(d.default_type(), "local");
}

#[test]
fn the_add_key_adds_and_the_delete_key_deletes() {
    let mut st = state(ONE_CUSTOM);
    press(&mut st, &[Key::Char('a')]);
    assert_eq!(st.entries.len(), 2);
    assert_eq!(st.selected, 1);
    assert!(st.focus_right);
    press(&mut st, &[Key::Esc, Key::Char('D')]);
    assert_eq!(st.entries.len(), 1);
    assert_eq!(st.entries[0].id, "p1");
    assert_eq!(st.selected, 0);
    assert!(st.form.is_none());
    press(&mut st, &[Key::Char('d')]);
    assert!(st.entries.is_empty());
    assert_eq!(st.selected, 0);
    press(&mut st, &[Key::Char('d')]);
    assert!(st.entries.is_empty());
}

#[test]
fn delete_moves_the_selection_up() {
    let mut st = state(r#"{"providers":[{"id":"a"},{"id":"b"},{"id":"c"}]}"#);
    st.selected = 1;
    st.delete_selected();
    assert_eq!(st.entries.iter().map(|e| e.id.as_str()).collect::<Vec<_>>(), vec!["a", "c"]);
    assert_eq!(st.selected, 0);
    st.delete_selected();
    assert_eq!(st.entries.iter().map(|e| e.id.as_str()).collect::<Vec<_>>(), vec!["c"]);
    assert_eq!(st.selected, 0);
    st.selected = 1;
    st.delete_selected();
    assert_eq!(st.entries.len(), 1);
}

#[test]
fn tab_from_the_list_enters_the_form_on_its_first_field() {
    let mut st = state(ONE_CUSTOM);
    press(&mut st, &[Key::Tab]);
    assert!(st.focus_right);
    assert_eq!(row(&st), 1);
    let mut back = state(ONE_CUSTOM);
    press(&mut back, &[Key::BackTab]);
    assert!(back.focus_right);
    assert_eq!(row(&back), 5);
}

#[test]
fn tab_in_the_form_walks_the_rows_in_a_circle() {
    let mut st = state(ONE_CUSTOM);
    press(&mut st, &[Key::Enter]);
    let mut rows = Vec::new();
    for _ in 0..7 {
        press(&mut st, &[Key::Tab]);
        assert!(st.focus_right);
        rows.push(row(&st));
    }
    assert_eq!(rows, vec![1, 2, 3, 4, 5, 0, 1]);
    press(&mut st, &[Key::BackTab, Key::BackTab]);
    assert_eq!(row(&st), 5);
}

#[test]
fn escape_leaves_editing_first_and_the_form_second() {
    let mut st = state(ONE_CUSTOM);
    press(&mut st, &[Key::Enter, Key::Down, Key::Enter]);
    assert!(st.form.as_ref().expect("form").editing);
    press(&mut st, &[Key::Esc]);
    assert!(!st.form.as_ref().expect("form").editing);
    assert!(st.focus_right);
    press(&mut st, &[Key::Esc]);
    assert!(!st.focus_right);
    assert!(st.form.is_some());
}

#[test]
fn group_jump_through_keys() {
    let mut st = state(ONE_CUSTOM);
    press(&mut st, &[Key::Enter, Key::Down, Key::Down]);
    assert_eq!(row(&st), 2);
    press(&mut st, &[Key::Down]);
    assert_eq!(row(&st), 3);
    press(&mut st, &[Key::Down]);
    assert_eq!(row(&st), 3);
    press(&mut st, &[Key::Up]);
    assert_eq!(row(&st), 2);
    press(&mut st, &[Key::Down, Key::Right, Key::Right]);
    assert_eq!(row(&st), 5);
    press(&mut st, &[Key::Down]);
    assert_eq!(row(&st), 5);
    press(&mut st, &[Key::Up]);
    assert_eq!(row(&st), 2);
}

#[test]
fn save_gate_closes_on_an_edit_and_opens_on_a_successful_test() {
    let mut st = state(ONE_CUSTOM);
    press(&mut st, &[Key::Enter, Key::Down, Key::Enter, Key::End, Key::Backspace]);
    type_text(&mut st, "b");
    assert_eq!(buffers(&st), strings(&["b", "fast"]));
    assert!(!st.form.as_ref().expect("form").can_save());
    assert_eq!(st.form.as_ref().expect("form").last_test_ok_hash, None);

    press(&mut st, &[Key::Esc, Key::Down, Key::Down]);
    assert_eq!(row(&st), 3);
    let action = st.handle_key(Key::Enter);
    match action {
        Action::RunTest { args, timeout_secs } => {
            assert_eq!(timeout_secs, 30);
            assert_eq!(
                args,
                strings(&["providers", "test", "--type", "custom", "--e2e", "--json", "--timeout", "30"])
            );
        },
        other => panic!("{:?}", other),
    }
    assert!(st.test_in_progress);
    assert_eq!(st.pending_test_hash, Some("host=b\u{1F}mode=fast\u{1F}".to_string()));
    assert_eq!(message(&st), Some("Testing connection… (L: logs)".to_string()));
    assert!(!st.form.as_ref().expect("form").can_save());

    st.apply_verdict(true, "connected");
    assert!(!st.test_in_progress);
    assert_eq!(st.pending_test_hash, None);
    assert_eq!(st.test_status, Some("connected".to_string()));
    assert_eq!(message(&st), Some("connected".to_string()));
    assert!(!st.show_test_popup);
    assert!(st.form.as_ref().expect("form").can_save());

    press(&mut st, &[Key::Up, Key::Up, Key::Enter, Key::Backspace]);
    type_text(&mut st, "c");
    assert_eq!(buffers(&st), strings(&["c", "fast"]));
    assert_eq!(st.form.as_ref().expect("form").last_test_ok_hash, None);
    assert!(!st.form.as_ref().expect("form").can_save());
}

#[test]
fn verified_hash_is_that_of_the_tested_fields() {
    let mut st = state(ONE_CUSTOM);
    press(&mut st, &[Key::Enter, Key::Down, Key::Enter]);
    type_text(&mut st, "x");
    press(&mut st, &[Key::Esc, Key::Esc]);
    assert!(!st.focus_right);
    let action = st.handle_key(Key::Char('t'));
    assert!(matches!(action, Action::RunTest { .. }));
    press(&mut st, &[Key::Enter]);
    assert_eq!(buffers(&st), strings(&["a", "fast"]));
    st.apply_verdict(true, "ok");
    let form = st.form.as_ref().expect("form");
    assert_eq!(form.last_test_ok_hash, Some("host=xa\u{1F}mode=fast\u{1F}".to_string()));
    assert!(form.can_save());
    assert!(!form.is_dirty());
}

#[test]
fn a_test_runs_on_the_fields_as_they_stand() {
    let scratch = r#"{"providers":[{"id":"p1","type":"ollama","config":{"type":"ollama","host":"old","port":11434,"model":"m"}}]}"#;
    let mut st = state(scratch);
    press(&mut st, &[Key::Enter, Key::Down, Key::Enter, Key::End]);
    for _ in 0..3 {
        press(&mut st, &[Key::Backspace]);
    }
    type_text(&mut st, "new");
    press(&mut st, &[Key::Esc, Key::Down, Key::Down, Key::Down]);
    assert_eq!(row(&st), 4);
    match st.handle_key(Key::Enter) {
        Action::RunTest { args, timeout_secs } => {
            assert_eq!(timeout_secs, 30);
            assert_eq!(
                args,
                strings(&[
                    "providers",
                    "test",
                    "--type",
                    "ollama",
                    "--e2e",
                    "--json",
                    "--host",
                    "new",
                    "--port",
                    "11434",
                    "--model",
                    "m",
                    "--timeout",
                    "30"
                ])
            );
        },
        other => panic!("{:?}", other),
    }
    assert_eq!(st.entries[0].config.to_compact(), r#"{"host":"old","model":"m","port":11434,"type":"ollama"}"#);
}

#[test]
fn only_one_test_at_a_time() {
    let mut st = state(ONE_CUSTOM);
    press(&mut st, &[Key::Enter, Key::Down, Key::Down, Key::Down]);
    assert!(matches!(st.handle_key(Key::Enter), Action::RunTest { .. }));
    st.push_log_line("line 1".to_string());
    assert!(matches!(st.handle_key(Key::Enter), Action::Nothing));
    assert!(st.test_in_progress);
    assert_eq!(st.test_log, strings(&["line 1"]));
    press(&mut st, &[Key::Esc]);
    assert!(matches!(st.handle_key(Key::Char('T')), Action::Nothing));
    assert!(matches!(st.start_test(false), Action::Nothing));
    assert!(matches!(st.start_test(true), Action::Nothing));
    st.apply_verdict(true, "ok");
    assert!(matches!(st.handle_key(Key::Char('t')), Action::RunTest { .. }));
    assert!(st.test_log.is_empty());
    assert_eq!(st.test_status, None);
}

#[test]
fn a_test_needs_a_selected_entry() {
    let mut st = state(ONE_CUSTOM);
    press(&mut st, &[Key::Down]);
    assert!(matches!(st.handle_key(Key::Char('t')), Action::Nothing));
    assert!(!st.test_in_progress);
}

#[test]
fn a_failed_test_clears_the_verified_hash_and_opens_the_log() {
    let mut st = state(ONE_CUSTOM);
    press(&mut st, &[Key::Enter, Key::Down, Key::Down, Key::Down]);
    let _ = st.handle_key(Key::Enter);
    st.apply_verdict(true, "ok");
    assert!(st.form.as_ref().expect("form").last_test_ok_hash.is_some());
    let _ = st.handle_key(Key::Enter);
    st.push_log_line("starting".to_string());
    st.apply_verdict(false, "chi-llm [\"providers\"] timed out after 30s");
    assert!(!st.test_in_progress);
    assert_eq!(st.pending_test_hash, None);
    assert_eq!(
        st.test_status,
        Some("Error: chi-llm [\"providers\"] timed out after 30s".to_string())
    );
    assert_eq!(message(&st), st.test_status);
    assert_eq!(st.form.as_ref().expect("form").last_test_ok_hash, None);
    assert!(st.show_test_popup);
    assert!(st.is_modal());
    assert_eq!(st.test_log, strings(&["starting"]));
}

#[test]
fn a_verdict_without_a_run_changes_nothing() {
    let mut st = state(ONE_CUSTOM);
    st.apply_verdict(false, "late");
    assert_eq!(st.test_status, None);
    assert!(!st.show_test_popup);
}

#[test]
fn the_zero_configuration_type_opens_the_log_at_once() {
    let mut st = state(r#"{"providers":[{"id":"p1","type":"local-zeroconfig"}]}"#);
    match st.handle_key(Key::Char('t')) {
        Action::RunTest { args, timeout_secs } => {
            assert_eq!(timeout_secs, 90);
            assert_eq!(args[args.len() - 1], "90");
        },
        other => panic!("{:?}", other),
    }
    assert!(st.show_test_popup);
    assert_eq!(st.pending_test_hash, None);
}

#[test]
fn the_log_window_takes_every_key() {
    let mut st = state(ONE_CUSTOM);
    st.push_log_line("a".to_string());
    press(&mut st, &[Key::Char('l')]);
    assert!(st.show_test_popup);
    for key in [Key::Down, Key::Enter, Key::Char('a'), Key::Char('d'), Key::Tab, Key::Char('q'), Key::Other] {
        assert!(matches!(st.handle_key(key), Action::Nothing));
        assert!(st.show_test_popup);
        assert_eq!(st.selected, 0);
        assert_eq!(st.entries.len(), 1);
        assert!(st.form.is_none());
        assert!(!st.focus_right);
    }
    press(&mut st, &[Key::Char('L')]);
    assert!(!st.show_test_popup);
    press(&mut st, &[Key::Char('l')]);
    assert!(st.show_test_popup);
    press(&mut st, &[Key::Esc]);
    assert!(!st.show_test_popup);
}

#[test]
fn the_log_key_needs_a_log_or_a_run() {
    let mut st = state(ONE_CUSTOM);
    press(&mut st, &[Key::Char('l')]);
    assert!(!st.show_test_popup);
    let _ = st.handle_key(Key::Char('t'));
    press(&mut st, &[Key::Char('l')]);
    assert!(st.show_test_popup);
}

#[test]
fn the_type_row_opens_the_dropdown_of_types() {
    let mut st = state(ONE_CUSTOM);
    press(&mut st, &[Key::Enter, Key::Enter]);
    let dd = st.dropdown.as_ref().expect("dropdown is open");
    assert_eq!(dd.items, st.schema_types);
    assert_eq!(dd.selected, 0);
    assert_eq!(dd.title, "Select Provider Type");
    assert_eq!(dd.target_field, None);
    assert_eq!(dd.filter, "");
    assert!(dd.downloaded.is_none());
    assert!(st.is_modal());
}

#[test]
fn picking_a_type_reopens_the_form_for_it() {
    let mut st = state(ONE_CUSTOM);
    press(&mut st, &[Key::Enter, Key::Enter, Key::Down, Key::Down, Key::Down, Key::Down, Key::Enter]);
    assert!(st.dropdown.is_none());
    assert_eq!(st.entries[0].ptype, "openai");
    assert_eq!(st.entries[0].config.to_compact(), r#"{"host":"a","mode":"fast","type":"custom"}"#);
    let form = st.form.as_ref().expect("form");
    assert_eq!(form.fields.iter().map(|f| f.schema.name.as_str()).collect::<Vec<_>>(), vec!["api_key", "model"]);
    assert_eq!(buffers(&st), strings(&["", ""]));
    assert_eq!(form.selected, 1);
    assert!(!form.editing);
    assert_eq!(form.message, Some("Type changed".to_string()));
    assert_eq!(form.initial_hash, compute_form_hash(&form.fields));
    assert_eq!(form.last_test_ok_hash, None);
}

#[test]
fn picking_a_type_without_fields_selects_the_type_row() {
    let mut st = state(ONE_CUSTOM);
    press(&mut st, &[Key::Enter, Key::Enter]);
    type_text(&mut st, "ZERO");
    press(&mut st, &[Key::Enter]);
    assert_eq!(st.entries[0].ptype, "local-zeroconfig");
    assert_eq!(row(&st), 0);
    assert!(buffers(&st).is_empty());
}

#[test]
fn the_dropdown_takes_every_key() {
    let mut st = state(ONE_CUSTOM);
    press(&mut st, &[Key::Enter, Key::Enter]);
    for key in [Key::Tab, Key::BackTab, Key::Left, Key::Right, Key::Home, Key::End, Key::Delete, Key::Other] {
        assert!(matches!(st.handle_key(key), Action::Nothing));
        assert!(st.dropdown.is_some());
        assert_eq!(row(&st), 0);
        assert!(st.focus_right);
    }
    type_text(&mut st, "qa");
    assert_eq!(st.dropdown.as_ref().expect("dropdown").filter, "qa");
    assert_eq!(st.entries.len(), 1);
    press(&mut st, &[Key::Backspace]);
    assert_eq!(st.dropdown.as_ref().expect("dropdown").filter, "q");
    press(&mut st, &[Key::Esc]);
    assert!(st.dropdown.is_none());
    assert_eq!(st.entries[0].ptype, "custom");
    assert!(st.focus_right);
}

#[test]
fn enter_on_a_dropdown_without_rows_only_closes_it() {
    let mut st = state(ONE_CUSTOM);
    press(&mut st, &[Key::Enter, Key::Down, Key::Down, Key::Enter]);
    assert!(st.dropdown.is_some());
    type_text(&mut st, "z");
    assert!(st.dropdown.as_ref().expect("dropdown").filtered().is_empty());
    press(&mut st, &[Key::Enter]);
    assert!(st.dropdown.is_none());
    assert_eq!(buffers(&st), strings(&["a", "fast"]));
    assert_eq!(message(&st), None);
    assert_eq!(st.entries[0].ptype, "custom");
}

#[test]
fn a_field_with_choices_opens_the_dropdown_over_them() {
    let mut st = state(ONE_CUSTOM);
    press(&mut st, &[Key::Enter, Key::Down, Key::Down]);
    st.form.as_mut().expect("form").last_test_ok_hash = Some("h".to_string());
    press(&mut st, &[Key::Enter]);
    {
        let dd = st.dropdown.as_ref().expect("dropdown is open");
        assert_eq!(dd.items, strings(&["fast", "slow"]));
        assert_eq!(dd.selected, 0);
        assert_eq!(dd.title, "Select mode");
        assert_eq!(dd.target_field, Some(1));
    }
    assert!(!st.form.as_ref().expect("form").editing);
    press(&mut st, &[Key::Down, Key::Enter]);
    assert!(st.dropdown.is_none());
    assert_eq!(buffers(&st), strings(&["a", "slow"]));
    assert_eq!(message(&st), Some("mode set".to_string()));
    assert_eq!(st.form.as_ref().expect("form").last_test_ok_hash, None);
    press(&mut st, &[Key::Enter]);
    assert_eq!(st.dropdown.as_ref().expect("dropdown").selected, 1);
    press(&mut st, &[Key::Esc]);
    assert_eq!(buffers(&st), strings(&["a", "slow"]));
}

#[test]
fn a_plain_field_toggles_editing() {
    let mut st = state(ONE_CUSTOM);
    press(&mut st, &[Key::Enter, Key::Down, Key::Enter]);
    assert!(st.form.as_ref().expect("form").editing);
    assert!(st.dropdown.is_none());
    press(&mut st, &[Key::Enter]);
    assert!(!st.form.as_ref().expect("form").editing);
}

#[test]
fn typing_edits_by_characters() {
    let mut st = state(ONE_CUSTOM);
    press(&mut st, &[Key::Enter, Key::Down, Key::Enter]);
    type_text(&mut st, "é日");
    assert_eq!(buffers(&st)[0], "é日a");
    press(&mut st, &[Key::Left, Key::Delete]);
    assert_eq!(buffers(&st)[0], "éa");
    press(&mut st, &[Key::End]);
    type_text(&mut st, "q");
    assert_eq!(buffers(&st)[0], "éaq");
    press(&mut st, &[Key::Home, Key::Right, Key::Backspace]);
    assert_eq!(buffers(&st)[0], "aq");
    assert!(!st.form.as_ref().expect("form").editing || st.focus_right);
}

#[test]
fn save_is_refused_while_a_required_field_is_blank() {
    let scratch = r#"{"providers":[{"id":"p1","type":"openai","config":{"type":"openai","api_key":"  "}}]}"#;
    let mut st = state(scratch);
    press(&mut st, &[Key::Enter, Key::Down, Key::Down, Key::Down, Key::Right]);
    assert_eq!(row(&st), 4);
    assert!(matches!(st.handle_key(Key::Enter), Action::Nothing));
    assert_eq!(message(&st), Some("Missing required: api_key".to_string()));
}

#[test]
fn save_is_refused_for_edited_fields_that_were_not_tested() {
    let mut st = state(ONE_CUSTOM);
    press(&mut st, &[Key::Enter, Key::Down, Key::Enter]);
    type_text(&mut st, "x");
    press(&mut st, &[Key::Esc, Key::Down, Key::Down, Key::Right]);
    assert_eq!(row(&st), 4);
    assert!(matches!(st.handle_key(Key::Enter), Action::Nothing));
    assert_eq!(message(&st), Some("Run Test connection first".to_string()));
    assert_eq!(st.entries[0].config.to_compact(), r#"{"host":"a","mode":"fast","type":"custom"}"#);
    assert_eq!(st.form.as_ref().expect("form").initial_hash, "host=a\u{1F}mode=fast\u{1F}");
}

#[test]
fn a_tested_edit_is_saved() {
    let mut st = state(ONE_CUSTOM);
    press(&mut st, &[Key::Enter, Key::Down, Key::Enter]);
    type_text(&mut st, "x");
    press(&mut st, &[Key::Esc, Key::Down, Key::Down]);
    assert!(matches!(st.handle_key(Key::Enter), Action::RunTest { .. }));
    st.apply_verdict(true, "ok");
    press(&mut st, &[Key::Right]);
    assert!(matches!(st.handle_key(Key::Enter), Action::Persist));
    assert_eq!(st.entries[0].config.to_compact(), r#"{"host":"xa","mode":"fast","type":"custom"}"#);
    st.save_finished(None);
    let form = st.form.as_ref().expect("form");
    assert_eq!(form.message, Some("Saved".to_string()));
    assert_eq!(form.initial_hash, "host=xa\u{1F}mode=fast\u{1F}");
    assert!(!form.is_dirty());
    assert!(form.can_save());
}

#[test]
fn a_failed_write_is_reported() {
    let mut st = state(ONE_CUSTOM);
    press(&mut st, &[Key::Enter, Key::BackTab, Key::Left]);
    assert_eq!(row(&st), 4);
    assert!(matches!(st.handle_key(Key::Enter), Action::Persist));
    st.save_finished(Some("disk full".to_string()));
    assert_eq!(message(&st), Some("Save failed: disk full".to_string()));
}

#[test]
fn open_and_save_without_an_edit_changes_nothing() {
    let scratch = r#"{"providers":[{"id":"p1","type":"ollama","config":{"type":"ollama","model":"m","port":11434,"host":"h"}}]}"#;
    let mut st = state(scratch);
    let before = st.entries[0].config.to_compact();
    press(&mut st, &[Key::Enter]);
    let hash = st.form.as_ref().expect("form").initial_hash.clone();
    press(&mut st, &[Key::BackTab, Key::Left]);
    assert!(matches!(st.handle_key(Key::Enter), Action::Persist));
    st.save_finished(None);
    assert_eq!(st.entries[0].config.to_compact(), before);
    assert_eq!(st.form.as_ref().expect("form").initial_hash, hash);
    assert_eq!(hash, "host=h\u{1F}port=11434\u{1F}model=m\u{1F}");
    match &st.entries[0].config {
        Json::Object(pairs) => {
            assert_eq!(pairs.iter().map(|p| p.0.as_str()).collect::<Vec<_>>(), vec!["host", "model", "port", "type"]);
            assert!(matches!(pairs[2].1, Json::PosInt(11434)));
        },
        other => panic!("{:?}", other),
    }
}

#[test]
fn the_first_save_writes_defaults_into_the_config() {
    let scratch = r#"{"providers":[{"id":"p1","type":"custom","config":{"type":"custom"}}]}"#;
    let mut st = state(scratch);
    press(&mut st, &[Key::Enter, Key::BackTab, Key::Left]);
    assert!(matches!(st.handle_key(Key::Enter), Action::Persist));
    assert_eq!(st.entries[0].config.to_compact(), r#"{"host":"a","mode":"","type":"custom"}"#);
}

#[test]
fn cancel_hands_the_keys_back_to_the_list() {
    let mut st = state(ONE_CUSTOM);
    press(&mut st, &[Key::Enter, Key::Down, Key::Enter]);
    press(&mut st, &[Key::BackTab, Key::BackTab]);
    assert_eq!(row(&st), 5);
    assert!(matches!(st.handle_key(Key::Enter), Action::Nothing));
    assert!(!st.focus_right);
    assert!(!st.form.as_ref().expect("form").editing);
}

#[test]
fn the_model_field_asks_for_discovery() {
    let mut st = state(ONE_OPENAI);
    press(&mut st, &[Key::Enter, Key::Down, Key::Down]);
    match st.handle_key(Key::Enter) {
        Action::DiscoverModels { field, args, list_downloads } => {
            assert_eq!(field, 1);
            assert!(!list_downloads);
            assert_eq!(
                args,
                strings(&[
                    "providers",
                    "discover-models",
                    "--type",
                    "openai",
                    "--json",
                    "--base-url",
                    "https://api.openai.com",
                    "--api-key",
                    "k"
                ])
            );
        },
        other => panic!("{:?}", other),
    }
    assert!(st.dropdown.is_none());
    assert!(!st.form.as_ref().expect("form").editing);
}

#[test]
fn discovered_models_open_the_dropdown() {
    let mut st = state(ONE_OPENAI);
    press(&mut st, &[Key::Enter, Key::Down, Key::Down]);
    let _ = st.handle_key(Key::Enter);
    st.models_discovered(
        1,
        Ok(doc(r#"{"models":[{"id":"m0"},{"id":"m1"},{"name":"none"}]}"#)),
        Some(doc(r#"[{"id":"m0","downloaded":true},{"id":"m1"}]"#)),
    );
    {
        let dd = st.dropdown.as_ref().expect("dropdown is open");
        assert_eq!(dd.items, strings(&["m0", "m1"]));
        assert_eq!(dd.selected, 1);
        assert_eq!(dd.title, "Select model (openai):");
        assert_eq!(dd.target_field, Some(1));
        assert_eq!(dd.downloaded, Some(strings(&["m0"])));
        assert!(dd.is_marked("m0"));
        assert!(!dd.is_marked("m1"));
    }
    assert!(!st.form.as_ref().expect("form").editing);
    press(&mut st, &[Key::Up, Key::Enter]);
    assert_eq!(buffers(&st), strings(&["k", "m0"]));
    assert_eq!(message(&st), Some("model set".to_string()));
}

#[test]
fn no_discovered_model_sets_a_message_and_lets_the_user_type() {
    let mut st = state(ONE_OPENAI);
    press(&mut st, &[Key::Enter, Key::Down, Key::Down]);
    let _ = st.handle_key(Key::Enter);
    st.models_discovered(1, Ok(doc(r#"{"models":[]}"#)), None);
    assert!(st.dropdown.is_none());
    assert_eq!(message(&st), Some("No models discovered for openai".to_string()));
    assert!(st.form.as_ref().expect("form").editing);
    assert_eq!(row(&st), 2);
    st.models_discovered(1, Ok(doc(r#"{"unexpected":true}"#)), None);
    assert!(!st.form.as_ref().expect("form").editing);
}

#[test]
fn a_failed_discovery_sets_a_message() {
    let mut st = state(ONE_OPENAI);
    press(&mut st, &[Key::Enter, Key::Down, Key::Down]);
    let _ = st.handle_key(Key::Enter);
    st.models_discovered(1, Err("chi-llm [] timed out after 5s".to_string()), None);
    assert!(st.dropdown.is_none());
    assert_eq!(message(&st), Some("Discover failed: chi-llm [] timed out after 5s".to_string()));
    assert!(st.form.as_ref().expect("form").editing);
}

#[test]
fn discovery_for_a_field_that_is_not_there_changes_nothing() {
    let mut st = state(ONE_OPENAI);
    press(&mut st, &[Key::Enter]);
    st.models_discovered(9, Ok(doc(r#"{"models":[{"id":"m0"}]}"#)), None);
    assert!(st.dropdown.is_none());
    assert_eq!(message(&st), None);
    let mut closed = state(ONE_OPENAI);
    closed.models_discovered(0, Ok(doc(r#"{"models":[{"id":"m0"}]}"#)), None);
    assert!(closed.dropdown.is_none());
    assert!(closed.form.is_none());
}

#[test]
fn the_model_path_of_the_custom_local_type_asks_for_files() {
    let scratch = r#"{"providers":[{"id":"p1","type":"local-custom","config":{"model_path":"/b.gguf"}}]}"#;
    let mut st = state(scratch);
    press(&mut st, &[Key::Enter, Key::Down]);
    match st.handle_key(Key::Enter) {
        Action::DiscoverPaths { field, args } => {
            assert_eq!(field, 0);
            assert_eq!(
                args,
                strings(&["providers", "discover-models", "--type", "local-custom", "--json"])
            );
        },
        other => panic!("{:?}", other),
    }
    st.paths_discovered(0, Ok(doc(r#"{"models":[{"id":"/a.gguf"},{"id":"/b.gguf"}]}"#)));
    {
        let dd = st.dropdown.as_ref().expect("dropdown is open");
        assert_eq!(dd.items, strings(&["/a.gguf", "/b.gguf"]));
        assert_eq!(dd.selected, 1);
        assert_eq!(dd.title, "Select GGUF path");
        assert_eq!(dd.target_field, Some(0));
        assert!(dd.downloaded.is_none());
    }
    press(&mut st, &[Key::Esc]);
    st.paths_discovered(0, Ok(doc("{}")));
    assert_eq!(
        message(&st),
        Some(
            "No GGUF files discovered. Configure auto_discovery_gguf_paths or type path manually"
                .to_string()
        )
    );
    assert!(st.form.as_ref().expect("form").editing);
    st.paths_discovered(0, Err("nope".to_string()));
    assert_eq!(message(&st), Some("Discover failed: nope".to_string()));
    assert!(!st.form.as_ref().expect("form").editing);
}

#[test]
fn list_keys_that_ask_the_caller() {
    let mut st = state(ONE_CUSTOM);
    assert!(matches!(st.handle_key(Key::Char('m')), Action::OpenModelBrowser));
    assert!(matches!(st.handle_key(Key::Char('M')), Action::OpenModelBrowser));
    assert!(matches!(st.handle_key(Key::Char('s')), Action::PersistList));
    assert!(matches!(st.handle_key(Key::Char('S')), Action::PersistList));
    assert!(matches!(st.handle_key(Key::Char('x')), Action::Nothing));
    assert!(matches!(st.handle_key(Key::Other), Action::Nothing));
    assert!(matches!(st.handle_key(Key::Left), Action::Nothing));
    assert_eq!(st.selected, 0);
    assert!(!st.focus_right);
}

#[test]
fn a_model_from_the_browser_goes_into_the_selected_entry() {
    let mut st = state(ONE_CUSTOM);
    st.apply_model_to_selected("tiny");
    assert_eq!(st.entries[0].config.to_compact(), r#"{"host":"a","mode":"fast","model":"tiny","type":"custom"}"#);
    st.apply_model_to_selected("other");
    assert_eq!(st.entries[0].config.str_at("model"), Some("other"));
    st.selected = 1;
    st.apply_model_to_selected("ignored");
    assert_eq!(st.entries[0].config.str_at("model"), Some("other"));
}

#[test]
fn focus_form_field_puts_the_caret_into_the_field() {
    let mut st = state(ONE_CUSTOM);
    st.focus_form_field("mode");
    assert!(st.focus_right);
    assert_eq!(row(&st), 2);
    assert!(st.form.as_ref().expect("form").editing);
    st.focus_form_field("unknown");
    assert!(st.focus_right);
    assert_eq!(row(&st), 0);
    assert!(!st.form.as_ref().expect("form").editing);
    let mut none = state(ONE_CUSTOM);
    none.selected = 1;
    none.focus_form_field("mode");
    assert!(!none.focus_right);
    assert!(none.form.is_none());
}

#[test]
fn effective_config_is_the_config_with_the_fields_written_in() {
    let mut st = state(ONE_CUSTOM);
    assert_eq!(
        st.effective_config().map(|c| c.to_compact()),
        Some(r#"{"host":"a","mode":"fast","type":"custom"}"#.to_string())
    );
    press(&mut st, &[Key::Enter, Key::Down, Key::Enter]);
    type_text(&mut st, "z");
    assert_eq!(
        st.effective_config().map(|c| c.to_compact()),
        Some(r#"{"host":"za","mode":"fast","type":"custom"}"#.to_string())
    );
    let mut none = state(ONE_CUSTOM);
    none.selected = 1;
    assert!(none.effective_config().is_none());
    assert_eq!(st.entries[0].config.to_compact(), r#"{"host":"a","mode":"fast","type":"custom"}"#);
}

#[test]
fn a_page_without_a_schema_is_empty_and_says_why() {
    let (st, error) = load_providers_page(Err("chi-llm not reachable".to_string()), ONE_CUSTOM);
    assert!(st.entries.is_empty());
    assert!(st.schema_types.is_empty());
    assert!(st.form.is_none());
    assert_eq!(error, Some("Load providers failed: chi-llm not reachable".to_string()));
    let (ok, none) = load_providers_page(Ok(doc(SCHEMA)), ONE_CUSTOM);
    assert_eq!(ok.entries.len(), 1);
    assert_eq!(ok.schema_types.len(), 5);
    assert_eq!(none, None);
}

#[test]
fn escape_without_a_form_hands_the_keys_back() {
    let mut st = state(ONE_CUSTOM);
    st.selected = 1;
    st.focus_right = true;
    assert!(matches!(st.handle_key(Key::Down), Action::Nothing));
    assert!(st.focus_right);
    assert!(matches!(st.handle_key(Key::Esc), Action::Nothing));
    assert!(!st.focus_right);
}

#[test]
fn save_gives_the_text_of_the_document() {
    let st = state(ONE_CUSTOM);
    let text = st.save(Some(r#"{"default_provider_id":"p1","extra":true}"#));
    let saved = doc(&text);
    assert_eq!(saved.str_at("default_provider_id"), Some("p1"));
    assert_eq!(saved.bool_at("extra"), Some(true));
    assert_eq!(saved.array_at("providers").map(|a| a.len()), Some(1));
}

#[test]
fn a_new_entry_gets_an_id_that_no_entry_has() {
    let mut st = state(r#"{"providers":[{"id":"p2"},{"id":"p3"}]}"#);
    assert_eq!(st.next_id(), Some("p4".to_string()));
    st.add_default();
    let ids: Vec<&str> = st.entries.iter().map(|e| e.id.as_str()).collect();
    assert_eq!(ids, vec!["p2", "p3", "p4"]);
    assert_eq!(st.selected, 2);
}

#[test]
fn ids_stay_apart_after_a_delete() {
    let mut st = state("{}");
    st.add_default();
    st.add_default();
    st.add_default();
    st.selected = 0;
    st.delete_selected();
    st.add_default();
    st.add_default();
    let ids: Vec<&str> = st.entries.iter().map(|e| e.id.as_str()).collect();
    assert_eq!(ids, vec!["p2", "p3", "p4", "p5"]);
}

#[test]
fn a_new_entry_takes_the_first_free_number_above_the_count() {
    let mut st = state(r#"{"providers":[{"id":"p1"},{"id":"x"},{"id":"p4"},{"id":"p6"}]}"#);
    st.add_default();
    assert_eq!(st.entries[4].id, "p5");
    st.add_default();
    assert_eq!(st.entries[5].id, "p7");
    assert_eq!(st.position_of_id("p7"), Some(5));
    assert_eq!(st.position_of_id("p1"), Some(0));
    assert_eq!(st.position_of_id("p2"), None);
}

#[test]
fn a_save_keeps_what_a_test_verified() {
    let mut st = state(ONE_CUSTOM);
    press(&mut st, &[Key::Enter, Key::BackTab, Key::Left]);
    assert!(matches!(st.handle_key(Key::Enter), Action::Persist));
    st.save_finished(None);
    let form = st.form.as_ref().expect("form");
    assert_eq!(form.last_test_ok_hash, None);
    assert_eq!(form.message, Some("Saved".to_string()));
    assert!(form.can_save());
}
