use chi_tui::json::Json;
use chi_tui::keys::Key;
use chi_tui::scratch::default_page_of;
use chi_tui::scratch::default_provider_document;
use chi_tui::scratch::providers_document;
use chi_tui::scratch::load_providers_scratch;
use chi_tui::scratch::read_base_document;
use chi_tui::scratch::read_document;
use chi_tui::scratch::read_entries;
use chi_tui::scratch::save_default_provider;
use chi_tui::scratch::save_providers;
use chi_tui::scratch::ProviderScratchEntry;

fn doc(text: &str) -> Json {
    Json::parse(text).expect("test document is JSON")
}

fn entry(id: &str, ptype: &str, config: &str) -> ProviderScratchEntry {
    ProviderScratchEntry {
        id: id.to_string(),
        name: format!("name of {}", id),
        ptype: ptype.to_string(),
        tags: vec!["t1".to_string(), "t2".to_string()],
        config: doc(config),
    }
}

#[test]
fn missing_empty_or_malformed_text_is_an_empty_document() {
    for text in ["", "   ", "{", "not json", "{\"a\":"] {
        assert_eq!(read_document(text).to_compact(), "{}");
        assert!(read_entries(&read_document(text)).is_empty());
    }
    assert_eq!(read_document("[1]").to_compact(), "[1]");
}

#[test]
fn base_document_is_always_an_object() {
    assert_eq!(read_base_document(None).to_compact(), "{}");
    assert_eq!(read_base_document(Some("garbage")).to_compact(), "{}");
    assert_eq!(read_base_document(Some("[1,2]")).to_compact(), "{}");
    assert_eq!(read_base_document(Some("\"text\"")).to_compact(), "{}");
    assert_eq!(read_base_document(Some(r#"{"a":1}"#)).to_compact(), r#"{"a":1}"#);
}

#[test]
fn entries_are_read_with_defaults() {
    let d = doc(
        r#"{"providers":[
            {"id":"p1","name":"One","type":"openai","tags":["a",5,"b"],"config":{"type":"openai","k":1}},
            {"id":"p2","type":"local"},
            {},
            "not an object"
        ]}"#,
    );
    let entries = read_entries(&d);
    assert_eq!(entries.len(), 4);
    assert_eq!(entries[0].id, "p1");
    assert_eq!(entries[0].name, "One");
    assert_eq!(entries[0].ptype, "openai");
    assert_eq!(entries[0].tags, vec!["a".to_string(), "b".to_string()]);
    assert_eq!(entries[0].config.to_compact(), r#"{"k":1,"type":"openai"}"#);
    assert_eq!(entries[1].id, "p2");
    assert_eq!(entries[1].name, "p2");
    assert_eq!(entries[1].ptype, "local");
    assert!(entries[1].tags.is_empty());
    assert_eq!(entries[1].config.to_compact(), r#"{"type":"local"}"#);
    assert_eq!(entries[2].id, "");
    assert_eq!(entries[2].name, "");
    assert_eq!(entries[2].config.to_compact(), r#"{"type":""}"#);
    assert_eq!(entries[3].id, "");
}

#[test]
fn entry_round_trips_through_json() {
    let e = entry("p1", "openai", r#"{"type":"openai","port":8080}"#);
    let j = e.to_json();
    assert_eq!(
        j.to_compact(),
        r#"{"config":{"port":8080,"type":"openai"},"id":"p1","name":"name of p1","tags":["t1","t2"],"type":"openai"}"#
    );
    let back = ProviderScratchEntry::from_json(&j);
    assert_eq!(back.id, e.id);
    assert_eq!(back.name, e.name);
    assert_eq!(back.ptype, e.ptype);
    assert_eq!(back.tags, e.tags);
    assert_eq!(back.config.to_compact(), e.config.to_compact());
    let copy = e.duplicate();
    assert_eq!(copy.to_json().to_compact(), j.to_compact());
}

#[test]
fn save_keeps_unrelated_keys_and_the_default_provider() {
    let existing = r#"{"providers":[{"id":"old"}],"default_provider_id":"p1","unrelated_key":42}"#;
    let entries = vec![
        entry("p1", "openai", r#"{"type":"openai"}"#),
        entry("p2", "local", r#"{"type":"local","model":"m"}"#),
    ];
    let text = save_providers(Some(existing), &entries);
    let saved = doc(&text);
    assert_eq!(saved.get("unrelated_key").map(|v| v.to_compact()), Some("42".to_string()));
    assert_eq!(saved.str_at("default_provider_id"), Some("p1"));
    let reloaded = read_entries(&saved);
    assert_eq!(reloaded.len(), 2);
    assert_eq!(reloaded[0].id, "p1");
    assert_eq!(reloaded[1].id, "p2");
    assert_eq!(reloaded[1].config.to_compact(), r#"{"model":"m","type":"local"}"#);
    assert_eq!(reloaded[1].tags, vec!["t1".to_string(), "t2".to_string()]);
    let listed = load_providers_scratch(&text);
    assert_eq!(listed.current_default_id, Some("p1".to_string()));
    assert_eq!(listed.providers.len(), 2);
}

#[test]
fn save_twice_gives_the_same_text() {
    let entries = vec![entry("p1", "openai", r#"{"type":"openai"}"#)];
    let first = save_providers(Some(r#"{"x":[1,2],"default_provider_id":"p1"}"#), &entries);
    let second = save_providers(Some(&first), &entries);
    assert_eq!(first, second);
}

#[test]
fn save_without_a_usable_document_starts_from_an_empty_one() {
    let entries: Vec<ProviderScratchEntry> = Vec::new();
    let want = "{\n  \"providers\": []\n}".to_string();
    assert_eq!(save_providers(None, &entries), want);
    assert_eq!(save_providers(Some("{ broken"), &entries), want);
    assert_eq!(save_providers(Some("[1,2,3]"), &entries), want);
}

#[test]
fn save_writes_the_whole_entry() {
    let entries = vec![ProviderScratchEntry {
        id: "p1".to_string(),
        name: "n".to_string(),
        ptype: "t".to_string(),
        tags: Vec::new(),
        config: doc(r#"{"type":"t"}"#),
    }];
    let text = save_providers(None, &entries);
    assert_eq!(
        text,
        "{\n  \"providers\": [\n    {\n      \"config\": {\n        \"type\": \"t\"\n      },\n      \"id\": \"p1\",\n      \"name\": \"n\",\n      \"tags\": [],\n      \"type\": \"t\"\n    }\n  ]\n}"
    );
}

#[test]
fn save_default_keeps_everything_else() {
    let existing = r#"{"providers":[{"id":"p1"},{"id":"p2"}],"default_provider_id":"p1","other":{"a":true}}"#;
    let text = save_default_provider(Some(existing), "p2");
    let saved = doc(&text);
    assert_eq!(saved.str_at("default_provider_id"), Some("p2"));
    assert_eq!(saved.get("other").map(|v| v.to_compact()), Some(r#"{"a":true}"#.to_string()));
    assert_eq!(saved.array_at("providers").map(|a| a.len()), Some(2));
}

#[test]
fn save_default_into_nothing() {
    assert_eq!(
        save_default_provider(None, "p1"),
        "{\n  \"default_provider_id\": \"p1\"\n}".to_string()
    );
    assert_eq!(
        save_default_provider(Some("oops"), "p1"),
        "{\n  \"default_provider_id\": \"p1\"\n}".to_string()
    );
}

#[test]
fn default_page_lists_providers_with_an_id() {
    let s = load_providers_scratch(
        r#"{"providers":[{"id":"p1","type":"a","tags":["x"]},{"name":"no id"},{"id":"","name":"blank"},{"id":"p2","name":"Two"}],"default_provider_id":"p2"}"#,
    );
    assert_eq!(s.providers.len(), 2);
    assert_eq!(s.providers[0].id, "p1");
    assert_eq!(s.providers[0].name, "p1");
    assert_eq!(s.providers[0].ptype, "a");
    assert_eq!(s.providers[0].tags, vec!["x".to_string()]);
    assert_eq!(s.providers[1].id, "p2");
    assert_eq!(s.providers[1].name, "Two");
    assert_eq!(s.selected, 0);
    assert_eq!(s.current_default_id, Some("p2".to_string()));
}

#[test]
fn default_page_of_a_broken_document_is_empty() {
    let s = load_providers_scratch("{ nope");
    assert!(s.providers.is_empty());
    assert_eq!(s.current_default_id, None);
    let t = load_providers_scratch(r#"{"default_provider_id":5}"#);
    assert_eq!(t.current_default_id, None);
}

#[test]
fn default_page_moves_and_picks() {
    let mut s = load_providers_scratch(r#"{"providers":[{"id":"p1"},{"id":"p2"}]}"#);
    s.move_up();
    assert_eq!(s.selected, 0);
    s.move_down();
    assert_eq!(s.selected, 1);
    s.move_down();
    assert_eq!(s.selected, 1);
    assert_eq!(s.pick(), Some("p2".to_string()));
    assert_eq!(s.current_default_id, Some("p2".to_string()));
    s.move_up();
    assert_eq!(s.pick(), Some("p1".to_string()));
    let mut empty = load_providers_scratch("{}");
    empty.move_down();
    empty.move_up();
    assert_eq!(empty.selected, 0);
    assert_eq!(empty.pick(), None);
    assert_eq!(empty.current_default_id, None);
}

#[test]
fn default_page_keys() {
    let mut s = load_providers_scratch(r#"{"providers":[{"id":"p1"},{"id":"p2"}]}"#);
    assert_eq!(s.handle_key(Key::Down), None);
    assert_eq!(s.selected, 1);
    assert_eq!(s.handle_key(Key::Enter), Some("p2".to_string()));
    assert_eq!(s.current_default_id, Some("p2".to_string()));
    assert_eq!(s.handle_key(Key::Up), None);
    assert_eq!(s.handle_key(Key::Char('s')), Some("p1".to_string()));
    assert_eq!(s.handle_key(Key::Char('S')), Some("p1".to_string()));
    assert_eq!(s.handle_key(Key::Char('x')), None);
    assert_eq!(s.handle_key(Key::Tab), None);
    assert_eq!(s.current_default_id, Some("p1".to_string()));
    let mut empty = load_providers_scratch("{}");
    assert_eq!(empty.handle_key(Key::Enter), None);
}

#[test]
fn documents_before_they_are_written() {
    let entries = vec![entry("p1", "t", "{}")];
    let d = providers_document(Some(r#"{"keep":1,"providers":"old"}"#), &entries);
    assert_eq!(
        d.to_compact(),
        r#"{"keep":1,"providers":[{"config":{},"id":"p1","name":"name of p1","tags":["t1","t2"],"type":"t"}]}"#
    );
    let e = default_provider_document(Some(r#"{"default_provider_id":"old","keep":[1]}"#), "new");
    assert_eq!(e.to_compact(), r#"{"default_provider_id":"new","keep":[1]}"#);
    assert_eq!(default_provider_document(None, "x").to_compact(), r#"{"default_provider_id":"x"}"#);
}

#[test]
fn default_page_of_a_document() {
    let s = default_page_of(&doc(
        r#"{"providers":[{"id":"a","name":"A","type":"t","tags":["x",1]},{"id":""},{"id":"b"}],"default_provider_id":"b"}"#,
    ));
    let ids: Vec<&str> = s.providers.iter().map(|p| p.id.as_str()).collect();
    assert_eq!(ids, vec!["a", "b"]);
    assert_eq!(s.providers[0].name, "A");
    assert_eq!(s.providers[0].ptype, "t");
    assert_eq!(s.providers[0].tags, vec!["x".to_string()]);
    assert_eq!(s.providers[1].name, "b");
    assert_eq!(s.selected, 0);
    assert_eq!(s.current_default_id, Some("b".to_string()));
    let none = default_page_of(&doc("[1]"));
    assert!(none.providers.is_empty());
    assert_eq!(none.current_default_id, None);
}
