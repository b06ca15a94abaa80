use chi_tui::form::FormField;
use chi_tui::json::Json;
use chi_tui::layout::display_text;
use chi_tui::layout::entry_label;
use chi_tui::layout::field_title;
use chi_tui::layout::field_unsaved;
use chi_tui::layout::field_window;
use chi_tui::layout::get_final_provider_object;
use chi_tui::layout::get_tmp_default_id;
use chi_tui::layout::log_tail_start;
use chi_tui::layout::status_line;
use chi_tui::layout::type_unsaved;
use chi_tui::layout::value_to_norm_string;
use chi_tui::schema::FieldSchema;
use chi_tui::scratch::ProviderScratchEntry;

fn doc(text: &str) -> Json {
    Json::parse(text).expect("test document is JSON")
}

fn field(name: &str, ftype: &str, required: bool, value: &str, cursor: usize) -> FormField {
    FormField {
        schema: FieldSchema {
            name: name.to_string(),
            ftype: ftype.to_string(),
            required,
            default: None,
            help: None,
            options: None,
        },
        buffer: value.to_string(),
        cursor,
    }
}

fn entry(id: &str, ptype: &str, tags: &[&str], config: &str) -> ProviderScratchEntry {
    ProviderScratchEntry {
        id: id.to_string(),
        name: "One".to_string(),
        ptype: ptype.to_string(),
        tags: tags.iter().map(|s| s.to_string()).collect(),
        config: doc(config),
    }
}

#[test]
fn all_fields_show_where_they_fit() {
    assert_eq!(field_window(16, 3, 0, 0), (0, 3));
    assert_eq!(field_window(16, 0, 0, 0), (0, 0));
    assert_eq!(field_window(100, 5, 5, 4), (0, 5));
}

#[test]
fn the_window_follows_the_selected_field() {
    assert_eq!(field_window(16, 5, 0, 0), (0, 3));
    assert_eq!(field_window(16, 5, 1, 0), (0, 3));
    assert_eq!(field_window(16, 5, 3, 0), (0, 3));
    assert_eq!(field_window(16, 5, 4, 0), (1, 4));
    assert_eq!(field_window(16, 5, 5, 0), (2, 5));
    assert_eq!(field_window(16, 5, 2, 2), (1, 4));
    assert_eq!(field_window(16, 5, 3, 2), (2, 5));
    assert_eq!(field_window(16, 5, 6, 0), (2, 5));
    assert_eq!(field_window(16, 5, 1, 9), (0, 3));
    assert_eq!(field_window(16, 5, 8, 9), (2, 5));
}

#[test]
fn a_low_pane_shows_no_field() {
    assert_eq!(field_window(7, 2, 1, 0), (1, 1));
    assert_eq!(field_window(0, 2, 0, 0), (1, 1));
    assert_eq!(field_window(9, 2, 2, 0), (2, 2));
}

#[test]
fn field_text_as_drawn() {
    assert_eq!(display_text(&field("a", "string", false, "abc", 1), false), "abc");
    assert_eq!(display_text(&field("a", "string", false, "abc", 1), true), "a▌bc");
    assert_eq!(display_text(&field("a", "string", false, "abc", 9), true), "abc▌");
    assert_eq!(display_text(&field("a", "string", false, "", 0), true), "▌");
    assert_eq!(display_text(&field("a", "string", false, "日本", 1), true), "日▌本");
}

#[test]
fn secrets_are_drawn_as_bullets() {
    assert_eq!(display_text(&field("k", "secret", false, "hunter2hunter2", 0), false), "••••••");
    assert_eq!(display_text(&field("k", "secret", false, "x", 0), false), "••••••");
    assert_eq!(display_text(&field("k", "secret", false, "", 0), false), "");
    assert_eq!(display_text(&field("k", "secret", false, "abc", 3), true), "•••▌");
    assert_eq!(display_text(&field("k", "secret", false, "abc", 0), true), "▌•••");
    assert_eq!(display_text(&field("k", "secret", false, "", 0), true), "▌");
}

#[test]
fn values_as_text_to_compare() {
    assert_eq!(value_to_norm_string(&doc("\"a\"")), "a");
    assert_eq!(value_to_norm_string(&doc("12")), "12");
    assert_eq!(value_to_norm_string(&doc("-1.5")), "-1.5");
    assert_eq!(value_to_norm_string(&doc("true")), "true");
    assert_eq!(value_to_norm_string(&doc("null")), "");
    assert_eq!(value_to_norm_string(&doc("[1]")), "[1]");
    assert_eq!(value_to_norm_string(&doc("{\"a\":1}")), "{\"a\":1}");
}

#[test]
fn scratch_and_final_documents_are_read_tolerantly() {
    assert_eq!(get_tmp_default_id(r#"{"default_provider_id":"p1"}"#), Some("p1".to_string()));
    assert_eq!(get_tmp_default_id(r#"{"default_provider_id":1}"#), None);
    assert_eq!(get_tmp_default_id("{}"), None);
    assert_eq!(get_tmp_default_id("broken"), None);
    assert_eq!(
        get_final_provider_object(r#"{"provider":{"type":"local","n":1}}"#).map(|j| j.to_compact()),
        Some(r#"{"n":1,"type":"local"}"#.to_string())
    );
    assert!(get_final_provider_object(r#"{"provider":"x"}"#).is_none());
    assert!(get_final_provider_object("{}").is_none());
    assert!(get_final_provider_object("broken").is_none());
}

#[test]
fn the_type_is_marked_when_the_final_one_differs() {
    let e = entry("p1", "openai", &[], "{}");
    let same = Some(doc(r#"{"type":"openai"}"#));
    let other = Some(doc(r#"{"type":"local"}"#));
    let untyped = Some(doc(r#"{"model":"m"}"#));
    let me = Some("p1".to_string());
    assert!(!type_unsaved(&me, &e, &same));
    assert!(type_unsaved(&me, &e, &other));
    assert!(!type_unsaved(&me, &e, &untyped));
    assert!(!type_unsaved(&me, &e, &None));
    assert!(!type_unsaved(&Some("p2".to_string()), &e, &other));
    assert!(!type_unsaved(&None, &e, &other));
}

#[test]
fn a_field_is_marked_when_the_final_value_differs_or_is_missing() {
    let fin = Some(doc(r#"{"host":"a","port":8080,"none":null}"#));
    let me = Some("p1".to_string());
    assert!(!field_unsaved(&me, "p1", &fin, &field("host", "string", false, "a", 0)));
    assert!(field_unsaved(&me, "p1", &fin, &field("host", "string", false, "b", 0)));
    assert!(!field_unsaved(&me, "p1", &fin, &field("port", "int", false, "8080", 0)));
    assert!(field_unsaved(&me, "p1", &fin, &field("port", "int", false, "80", 0)));
    assert!(!field_unsaved(&me, "p1", &fin, &field("none", "string", false, "", 0)));
    assert!(field_unsaved(&me, "p1", &fin, &field("absent", "string", false, "", 0)));
    assert!(!field_unsaved(&me, "p2", &fin, &field("host", "string", false, "b", 0)));
    assert!(!field_unsaved(&None, "p1", &fin, &field("host", "string", false, "b", 0)));
    assert!(!field_unsaved(&me, "p1", &None, &field("host", "string", false, "b", 0)));
}

#[test]
fn field_titles() {
    assert_eq!(field_title(&field("host", "string", false, "", 0), false), "host");
    assert_eq!(field_title(&field("host", "string", true, "", 0), false), "* host");
    assert_eq!(field_title(&field("host", "string", false, "", 0), true), "host *");
    assert_eq!(field_title(&field("host", "string", true, "", 0), true), "* host *");
}

#[test]
fn entry_labels() {
    assert_eq!(entry_label(&entry("p1", "custom", &[], "{}"), false), "  One [custom]");
    assert_eq!(entry_label(&entry("p1", "custom", &["x"], "{}"), true), "› One [custom]  [x]");
    assert_eq!(
        entry_label(&entry("p1", "local", &["a", "b"], r#"{"model":"tiny"}"#), false),
        "  One [local]  [model:tiny]  [a,b]"
    );
    assert_eq!(entry_label(&entry("p1", "local", &[], r#"{"model":5}"#), true), "› One [local]");
}

#[test]
fn the_log_window_shows_the_last_hundred_lines() {
    assert_eq!(log_tail_start(0), 0);
    assert_eq!(log_tail_start(100), 0);
    assert_eq!(log_tail_start(101), 1);
    assert_eq!(log_tail_start(250), 150);
}

#[test]
fn status_lines() {
    let saved = Some("Saved".to_string());
    assert_eq!(status_line(&None, false, '|', false, false), "");
    assert_eq!(status_line(&saved, false, '|', false, false), "Saved");
    assert_eq!(status_line(&None, true, '/', false, false), "Testing connection… /  (L: logs)");
    assert_eq!(status_line(&saved, true, '-', false, false), "Saved -  (L: logs)");
    assert_eq!(status_line(&saved, false, '|', true, false), "Saved  ↓ more…");
    assert_eq!(status_line(&saved, false, '|', false, true), "↑ more…  Saved");
    assert_eq!(
        status_line(&Some(String::new()), true, '|', true, true),
        "↑ more…  Testing connection… |  (L: logs)  ↓ more…"
    );
}
