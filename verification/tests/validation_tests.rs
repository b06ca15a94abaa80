use chi_tui::form::FormField;
use chi_tui::json::Json;
use chi_tui::schema::FieldSchema;
use chi_tui::scratch::ProviderScratchEntry;
use chi_tui::validation::auto_open_log;
use chi_tui::validation::discover_args;
use chi_tui::validation::discover_paths_args;
use chi_tui::validation::discovered_models;
use chi_tui::validation::downloaded_models;
use chi_tui::validation::failure_message;
use chi_tui::validation::find_field;
use chi_tui::validation::has_downloads;
use chi_tui::validation::probe_args;
use chi_tui::validation::probe_provider;
use chi_tui::validation::probe_result;
use chi_tui::validation::probe_timeout_secs;
use chi_tui::validation::response_of_run;
use chi_tui::validation::supports_model_discovery;
use chi_tui::validation::timeout_message;
use chi_tui::validation::verdict_of_outcome;
use chi_tui::validation::verdict_of_response;
use chi_tui::validation::verdict_of_run;
use chi_tui::validation::RunOutcome;

fn doc(text: &str) -> Json {
    Json::parse(text).expect("test document is JSON")
}

fn strings(items: &[&str]) -> Vec<String> {
    items.iter().map(|s| s.to_string()).collect()
}

fn args_for(ptype: &str, config: &str) -> Vec<String> {
    probe_args(ptype, &doc(config))
}

fn field(name: &str, value: &str) -> FormField {
    FormField {
        schema: FieldSchema {
            name: name.to_string(),
            ftype: "string".to_string(),
            required: false,
            default: None,
            help: None,
            options: None,
        },
        buffer: value.to_string(),
        cursor: 0,
    }
}

#[test]
fn timeout_by_type_class() {
    assert_eq!(probe_timeout_secs("local-zeroconfig"), 90);
    assert_eq!(probe_timeout_secs("local"), 60);
    assert_eq!(probe_timeout_secs("local-custom"), 60);
    assert_eq!(probe_timeout_secs("lmstudio"), 30);
    assert_eq!(probe_timeout_secs("ollama"), 30);
    assert_eq!(probe_timeout_secs("openai"), 30);
    assert_eq!(probe_timeout_secs("anthropic"), 30);
    assert_eq!(probe_timeout_secs("something-else"), 30);
    assert_eq!(probe_timeout_secs(""), 30);
}

#[test]
fn only_the_zero_configuration_type_opens_the_log() {
    assert!(auto_open_log("local-zeroconfig"));
    assert!(!auto_open_log("local"));
    assert!(!auto_open_log("openai"));
}

#[test]
fn args_of_the_local_types() {
    assert_eq!(
        args_for("local", r#"{"model":"m","model_path":"/p"}"#),
        strings(&["providers", "test", "--type", "local", "--e2e", "--json", "--timeout", "60"])
    );
    assert_eq!(
        args_for("local-zeroconfig", "{}"),
        strings(&[
            "providers",
            "test",
            "--type",
            "local-zeroconfig",
            "--e2e",
            "--json",
            "--timeout",
            "90"
        ])
    );
    assert_eq!(
        args_for("local-custom", r#"{"model_path":"/models/a.gguf"}"#),
        strings(&[
            "providers",
            "test",
            "--type",
            "local-custom",
            "--e2e",
            "--json",
            "--model-path",
            "/models/a.gguf",
            "--timeout",
            "60"
        ])
    );
}

#[test]
fn args_of_the_host_types() {
    for ptype in ["lmstudio", "ollama"] {
        assert_eq!(
            args_for(ptype, r#"{"host":"127.0.0.1","port":11434,"model":"tiny"}"#),
            strings(&[
                "providers",
                "test",
                "--type",
                ptype,
                "--e2e",
                "--json",
                "--host",
                "127.0.0.1",
                "--port",
                "11434",
                "--model",
                "tiny",
                "--timeout",
                "30"
            ])
        );
    }
}

#[test]
fn port_counts_only_as_a_non_negative_integer() {
    let base = strings(&["providers", "test", "--type", "ollama", "--e2e", "--json"]);
    let tail = strings(&["--timeout", "30"]);
    for config in [r#"{"port":"11434"}"#, r#"{"port":-1}"#, r#"{"port":1.5}"#, r#"{"port":null}"#, "{}"] {
        let mut want = base.clone();
        want.extend(tail.clone());
        assert_eq!(args_for("ollama", config), want, "{}", config);
    }
    let mut want = base.clone();
    want.extend(strings(&["--port", "0"]));
    want.extend(tail);
    assert_eq!(args_for("ollama", r#"{"port":0}"#), want);
}

#[test]
fn args_of_openai_skip_an_empty_organisation() {
    assert_eq!(
        args_for(
            "openai",
            r#"{"base_url":"https://x","api_key":"","org_id":"","model":"gpt"}"#
        ),
        strings(&[
            "providers",
            "test",
            "--type",
            "openai",
            "--e2e",
            "--json",
            "--base-url",
            "https://x",
            "--api-key",
            "",
            "--model",
            "gpt",
            "--timeout",
            "30"
        ])
    );
    assert_eq!(
        args_for("openai", r#"{"org_id":"org-1"}"#),
        strings(&[
            "providers",
            "test",
            "--type",
            "openai",
            "--e2e",
            "--json",
            "--org-id",
            "org-1",
            "--timeout",
            "30"
        ])
    );
}

#[test]
fn args_of_anthropic() {
    assert_eq!(
        args_for(
            "anthropic",
            r#"{"base_url":"https://a","api_key":"k","model":"c","org_id":"ignored"}"#
        ),
        strings(&[
            "providers",
            "test",
            "--type",
            "anthropic",
            "--e2e",
            "--json",
            "--base-url",
            "https://a",
            "--api-key",
            "k",
            "--model",
            "c",
            "--timeout",
            "30"
        ])
    );
}

#[test]
fn args_of_an_unknown_type_have_no_extras() {
    assert_eq!(
        args_for("mystery", r#"{"host":"h","model":"m","api_key":"k"}"#),
        strings(&["providers", "test", "--type", "mystery", "--e2e", "--json", "--timeout", "30"])
    );
}

#[test]
fn args_ignore_values_that_are_no_text() {
    assert_eq!(
        args_for("lmstudio", r#"{"host":5,"model":["m"]}"#),
        strings(&["providers", "test", "--type", "lmstudio", "--e2e", "--json", "--timeout", "30"])
    );
    assert_eq!(
        args_for("lmstudio", "[]"),
        strings(&["providers", "test", "--type", "lmstudio", "--e2e", "--json", "--timeout", "30"])
    );
}

#[test]
fn probe_plan_of_an_entry() {
    let entry = ProviderScratchEntry {
        id: "p1".to_string(),
        name: "n".to_string(),
        ptype: "local-custom".to_string(),
        tags: Vec::new(),
        config: doc(r#"{"model_path":"/m"}"#),
    };
    let plan = probe_provider(&entry);
    assert_eq!(plan.timeout_secs, 60);
    assert_eq!(
        plan.args,
        strings(&[
            "providers",
            "test",
            "--type",
            "local-custom",
            "--e2e",
            "--json",
            "--model-path",
            "/m",
            "--timeout",
            "60"
        ])
    );
}

#[test]
fn verdict_reads_ok_and_message() {
    let v = verdict_of_response(&doc(r#"{"ok":true,"message":"all good"}"#));
    assert!(v.ok);
    assert_eq!(v.message, "all good");
    let w = verdict_of_response(&doc(r#"{"ok":false,"message":"refused"}"#));
    assert!(!w.ok);
    assert_eq!(w.message, "refused");
}

#[test]
fn verdict_fills_in_a_missing_message() {
    let v = verdict_of_response(&doc(r#"{"ok":true}"#));
    assert!(v.ok);
    assert_eq!(v.message, "ok");
    let w = verdict_of_response(&doc(r#"{"ok":false,"message":""}"#));
    assert!(!w.ok);
    assert_eq!(w.message, "failed");
    let x = verdict_of_response(&doc("{}"));
    assert!(!x.ok);
    assert_eq!(x.message, "failed");
    let y = verdict_of_response(&doc(r#"{"ok":"yes","message":5}"#));
    assert!(!y.ok);
    assert_eq!(y.message, "failed");
    let z = verdict_of_response(&doc("[true]"));
    assert!(!z.ok);
    assert_eq!(z.message, "failed");
}

#[test]
fn timeout_message_names_the_command_and_the_limit() {
    let args = strings(&["providers", "test", "--type", "a \"b\""]);
    assert_eq!(
        timeout_message(&args, 30),
        "chi-llm [\"providers\", \"test\", \"--type\", \"a \\\"b\\\"\"] timed out after 30s"
    );
    assert_eq!(timeout_message(&Vec::new(), 90), "chi-llm [] timed out after 90s");
}

#[test]
fn failure_message_carries_the_error_stream() {
    assert_eq!(
        failure_message(&strings(&["models", "list"]), "boom\n"),
        "chi-llm [\"models\", \"list\"] failed: boom\n"
    );
}

#[test]
fn a_run_that_timed_out_gives_a_failure_that_says_so() {
    let args = strings(&["providers", "test"]);
    let verdict = verdict_of_outcome(&args, 60, &RunOutcome::TimedOut);
    assert!(!verdict.ok);
    assert!(verdict.message.contains("timed out"));
    assert_eq!(verdict.message, "chi-llm [\"providers\", \"test\"] timed out after 60s");
    match response_of_run(&args, 60, &RunOutcome::TimedOut) {
        Ok(_) => panic!("a timeout is no response"),
        Err(e) => assert!(e.contains("timed out")),
    }
}

#[test]
fn a_run_that_failed_gives_its_error() {
    let args = strings(&["x"]);
    let outcome = RunOutcome::Exited {
        success: false,
        stdout: r#"{"ok":true}"#.to_string(),
        stderr: "no such provider".to_string(),
    };
    let verdict = verdict_of_outcome(&args, 30, &outcome);
    assert!(!verdict.ok);
    assert_eq!(verdict.message, "chi-llm [\"x\"] failed: no such provider");
    let spawn = verdict_of_outcome(&args, 30, &RunOutcome::Failed { message: "not found".to_string() });
    assert!(!spawn.ok);
    assert_eq!(spawn.message, "not found");
}

#[test]
fn a_run_that_succeeded_gives_its_document() {
    let args = strings(&["x"]);
    let outcome = RunOutcome::Exited {
        success: true,
        stdout: " {\"ok\": true, \"message\": \"up\"}\n".to_string(),
        stderr: "warning".to_string(),
    };
    match response_of_run(&args, 30, &outcome) {
        Ok(j) => assert_eq!(j.to_compact(), r#"{"message":"up","ok":true}"#),
        Err(e) => panic!("{}", e),
    }
    let verdict = verdict_of_outcome(&args, 30, &outcome);
    assert!(verdict.ok);
    assert_eq!(verdict.message, "up");
}

#[test]
fn a_run_that_wrote_no_json_gives_a_failure() {
    let args = strings(&["x"]);
    let outcome = RunOutcome::Exited {
        success: true,
        stdout: "Traceback".to_string(),
        stderr: String::new(),
    };
    assert!(response_of_run(&args, 30, &outcome).is_err());
    let verdict = verdict_of_outcome(&args, 30, &outcome);
    assert!(!verdict.ok);
    assert_eq!(verdict.message, "expected value at line 1 column 1");
}

#[test]
fn verdict_of_run_takes_an_error_as_the_message() {
    let v = verdict_of_run(Err("went wrong".to_string()));
    assert!(!v.ok);
    assert_eq!(v.message, "went wrong");
    let w = verdict_of_run(Ok(doc(r#"{"ok":true}"#)));
    assert!(w.ok);
    assert_eq!(w.message, "ok");
}

#[test]
fn discovered_models_are_the_ids_in_order() {
    let resp = doc(r#"{"models":[{"id":"b"},{"name":"no id"},{"id":7},{"id":"a"},"x",{"id":"b"}]}"#);
    assert_eq!(discovered_models(&resp), strings(&["b", "a", "b"]));
    assert!(discovered_models(&doc("{}")).is_empty());
    assert!(discovered_models(&doc(r#"{"models":"none"}"#)).is_empty());
    assert!(discovered_models(&doc(r#"[{"id":"a"}]"#)).is_empty());
}

#[test]
fn downloaded_models_are_those_marked() {
    let list = doc(
        r#"[{"id":"a","downloaded":true},{"id":"b","downloaded":false},{"id":"c"},{"downloaded":true},{"id":"d","downloaded":"yes"},{"id":"e","downloaded":true}]"#,
    );
    assert_eq!(downloaded_models(&list), strings(&["a", "e"]));
    assert!(downloaded_models(&doc(r#"{"models":[{"id":"a","downloaded":true}]}"#)).is_empty());
}

#[test]
fn discovery_knows_its_types() {
    for t in ["lmstudio", "ollama", "openai", "anthropic", "local", "local-zeroconfig"] {
        assert!(supports_model_discovery(t), "{}", t);
    }
    for t in ["local-custom", "", "other"] {
        assert!(!supports_model_discovery(t), "{}", t);
    }
    assert!(has_downloads("local"));
    assert!(has_downloads("local-zeroconfig"));
    assert!(!has_downloads("local-custom"));
    assert!(!has_downloads("openai"));
}

#[test]
fn discovery_args_of_the_host_types() {
    let fields = vec![field("host", "box"), field("port", "1234"), field("model", "m")];
    assert_eq!(
        discover_args("ollama", &fields),
        strings(&[
            "providers",
            "discover-models",
            "--type",
            "ollama",
            "--json",
            "--host",
            "box",
            "--port",
            "1234"
        ])
    );
    assert_eq!(
        discover_args("lmstudio", &vec![field("port", "")]),
        strings(&[
            "providers",
            "discover-models",
            "--type",
            "lmstudio",
            "--json",
            "--host",
            "localhost"
        ])
    );
    assert_eq!(
        discover_args("lmstudio", &vec![field("host", "")]),
        strings(&["providers", "discover-models", "--type", "lmstudio", "--json", "--host", ""])
    );
}

#[test]
fn discovery_args_of_the_hosted_types() {
    let fields = vec![field("api_key", "k"), field("org_id", "o")];
    assert_eq!(
        discover_args("openai", &fields),
        strings(&[
            "providers",
            "discover-models",
            "--type",
            "openai",
            "--json",
            "--base-url",
            "https://api.openai.com",
            "--api-key",
            "k",
            "--org-id",
            "o"
        ])
    );
    assert_eq!(
        discover_args("openai", &vec![field("base_url", ""), field("api_key", "")]),
        strings(&["providers", "discover-models", "--type", "openai", "--json"])
    );
    assert_eq!(
        discover_args("anthropic", &fields),
        strings(&["providers", "discover-models", "--type", "anthropic", "--json", "--api-key", "k"])
    );
    assert_eq!(
        discover_args("local", &fields),
        strings(&["providers", "discover-models", "--type", "local", "--json"])
    );
}

#[test]
fn discovery_args_for_model_files() {
    assert_eq!(
        discover_paths_args(),
        strings(&["providers", "discover-models", "--type", "local-custom", "--json"])
    );
}

#[test]
fn find_field_takes_the_first_of_a_name() {
    let fields = vec![field("a", "1"), field("b", "2"), field("a", "3")];
    assert_eq!(find_field(&fields, "a"), Some(0));
    assert_eq!(find_field(&fields, "b"), Some(1));
    assert_eq!(find_field(&fields, "c"), None);
}

#[test]
fn probe_result_hands_the_message_on_as_it_is() {
    assert_eq!(probe_result(Ok(doc(r#"{"ok":true,"message":"up"}"#))), Ok("up".to_string()));
    assert_eq!(probe_result(Ok(doc(r#"{"ok":true}"#))), Ok(String::new()));
    assert_eq!(probe_result(Ok(doc(r#"{"ok":true,"message":5}"#))), Ok(String::new()));
    assert_eq!(
        probe_result(Ok(doc(r#"{"ok":false,"message":"refused"}"#))),
        Err("refused".to_string())
    );
    assert_eq!(probe_result(Ok(doc(r#"{"message":"no verdict"}"#))), Err("no verdict".to_string()));
    assert_eq!(probe_result(Ok(doc(r#"{"ok":"yes","message":"m"}"#))), Err("m".to_string()));
    assert_eq!(probe_result(Ok(doc("{}"))), Err(String::new()));
    assert_eq!(probe_result(Ok(doc("[]"))), Err(String::new()));
    assert_eq!(probe_result(Err("timed out".to_string())), Err("timed out".to_string()));
}
