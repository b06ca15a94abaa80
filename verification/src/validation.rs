//! Talking to the command-line tool that validates a provider and discovers
//! its models: which arguments a run gets, how long it may take, and what its
//! outcome means.
//!
//! Running the tool is the caller's work. The caller hands back a
//! [`RunOutcome`], and this module turns it into a response or a verdict.
use crate::form::FormField;
use crate::form::FormFieldV;
use crate::json::items_view;
use crate::json::json_parsed;
use crate::json::Json;
use crate::json::JsonV;
use crate::schema::array_or_empty;
use crate::schema::views;
use crate::scratch::str_or;
use crate::scratch::ProviderScratchEntry;
use crate::text::decimal;
use crate::text::first_index_of;
use crate::text::is_substring;
use crate::text::lemma_first_index_prefix;
use crate::text::str_eq;
use crate::text::strs;
use crate::text::u64_to_decimal;
use vstd::prelude::*;
use vstd::string::StringExecFns;

verus! {

/// The longest a validation run of a provider type may take, in seconds:
/// 90 for the zero-configuration local type, 60 for the other local types,
/// 30 for everything else.
pub open spec fn timeout_for(ptype: Seq<char>) -> u64 {
    if ptype == "local-zeroconfig"@ {
        90
    } else if ptype == "local"@ || ptype == "local-custom"@ {
        60
    } else {
        30
    }
}

/// The log window opens by itself when a run of this type starts.
pub open spec fn opens_log(ptype: Seq<char>) -> bool {
    ptype == "local-zeroconfig"@
}

/// `flag` and the text under `key`, where the configuration has a text
/// there.
pub open spec fn str_flag(config: JsonV, key: Seq<char>, flag: Seq<char>) -> Seq<Seq<char>> {
    match config.str_at(key) {
        Some(v) => seq![flag, v],
        None => Seq::empty(),
    }
}

/// `flag` and the text under `key`, where the configuration has a non-empty
/// text there.
pub open spec fn filled_str_flag(config: JsonV, key: Seq<char>, flag: Seq<char>) -> Seq<
    Seq<char>,
> {
    match config.str_at(key) {
        Some(v) => if v.len() > 0 {
            seq![flag, v]
        } else {
            Seq::empty()
        },
        None => Seq::empty(),
    }
}

/// `--port` and the port in decimal, where the configuration has a
/// non-negative integer under `port`.
pub open spec fn port_flag(config: JsonV) -> Seq<Seq<char>> {
    match config.get("port"@) {
        Some(v) => match v.as_u64() {
            Some(n) => seq!["--port"@, decimal(n as nat)],
            None => Seq::empty(),
        },
        None => Seq::empty(),
    }
}

/// The arguments that depend on the provider type; none for a type that is
/// not known.
pub open spec fn type_flags(ptype: Seq<char>, config: JsonV) -> Seq<Seq<char>> {
    if ptype == "local-custom"@ {
        str_flag(config, "model_path"@, "--model-path"@)
    } else if ptype == "lmstudio"@ || ptype == "ollama"@ {
        str_flag(config, "host"@, "--host"@) + port_flag(config) + str_flag(
            config,
            "model"@,
            "--model"@,
        )
    } else if ptype == "openai"@ {
        str_flag(config, "base_url"@, "--base-url"@) + str_flag(config, "api_key"@, "--api-key"@)
            + filled_str_flag(config, "org_id"@, "--org-id"@) + str_flag(
            config,
            "model"@,
            "--model"@,
        )
    } else if ptype == "anthropic"@ {
        str_flag(config, "base_url"@, "--base-url"@) + str_flag(config, "api_key"@, "--api-key"@)
            + str_flag(config, "model"@, "--model"@)
    } else {
        Seq::empty()
    }
}

/// The arguments of a validation run: the subcommand and the type, the
/// arguments of the type, and the time limit, so that the tool does not give
/// up before the caller does.
pub open spec fn probe_args_of(ptype: Seq<char>, config: JsonV) -> Seq<Seq<char>> {
    seq!["providers"@, "test"@, "--type"@, ptype, "--e2e"@, "--json"@] + type_flags(ptype, config)
        + seq!["--timeout"@, decimal(timeout_for(ptype) as nat)]
}

/// The longest a validation run of a provider type may take, in seconds.
pub fn probe_timeout_secs(ptype: &str) -> (r: u64)
    ensures
        r == timeout_for(ptype@),
        r == 90 || r == 60 || r == 30,
{
    if str_eq(ptype, "local-zeroconfig") {
        90
    } else if str_eq(ptype, "local") || str_eq(ptype, "local-custom") {
        60
    } else {
        30
    }
}

/// Whether the log window opens by itself when a run of this type starts.
pub fn auto_open_log(ptype: &str) -> (r: bool)
    ensures
        r == opens_log(ptype@),
{
    str_eq(ptype, "local-zeroconfig")
}

/// Appends a copy of `s`.
fn push_str(args: &mut Vec<String>, s: &str)
    ensures
        strs(final(args)@) == strs(old(args)@).push(s@),
{
    args.push(String::from_str(s));
    assert(strs(args@) =~= strs(old(args)@).push(s@));
}

/// Appends `s`.
fn push_string(args: &mut Vec<String>, s: String)
    ensures
        strs(final(args)@) == strs(old(args)@).push(s@),
{
    args.push(s);
    assert(strs(args@) =~= strs(old(args)@).push(s@));
}

/// Appends `flag` and the text under `key`, where there is one.
fn push_str_flag(args: &mut Vec<String>, config: &Json, key: &str, flag: &str)
    ensures
        strs(final(args)@) == strs(old(args)@) + str_flag(config@, key@, flag@),
{
    match config.str_at(key) {
        Some(v) => {
            push_str(args, flag);
            push_str(args, v);
            assert(strs(args@) =~= strs(old(args)@) + seq![flag@, v@]);
        },
        None => {
            assert(strs(args@) =~= strs(old(args)@) + Seq::<Seq<char>>::empty());
        },
    }
}

/// Appends `flag` and the text under `key`, where there is a non-empty one.
fn push_filled_str_flag(args: &mut Vec<String>, config: &Json, key: &str, flag: &str)
    ensures
        strs(final(args)@) == strs(old(args)@) + filled_str_flag(config@, key@, flag@),
{
    match config.str_at(key) {
        Some(v) => {
            if !v.is_empty() {
                push_str(args, flag);
                push_str(args, v);
                assert(strs(args@) =~= strs(old(args)@) + seq![flag@, v@]);
            } else {
                assert(strs(args@) =~= strs(old(args)@) + Seq::<Seq<char>>::empty());
            }
        },
        None => {
            assert(strs(args@) =~= strs(old(args)@) + Seq::<Seq<char>>::empty());
        },
    }
}

/// Appends `--port` and the port, where there is one.
fn push_port_flag(args: &mut Vec<String>, config: &Json)
    ensures
        strs(final(args)@) == strs(old(args)@) + port_flag(config@),
{
    let port = match config.get("port") {
        Some(v) => v.as_u64(),
        None => None,
    };
    match port {
        Some(n) => {
            push_str(args, "--port");
            push_string(args, u64_to_decimal(n));
            assert(strs(args@) =~= strs(old(args)@) + seq!["--port"@, decimal(n as nat)]);
        },
        None => {
            assert(strs(args@) =~= strs(old(args)@) + Seq::<Seq<char>>::empty());
        },
    }
}

/// Appends the arguments that depend on the provider type.
fn push_type_flags(args: &mut Vec<String>, ptype: &str, config: &Json)
    ensures
        strs(final(args)@) == strs(old(args)@) + type_flags(ptype@, config@),
{
    let ghost start = strs(args@);
    if str_eq(ptype, "local-custom") {
        push_str_flag(args, config, "model_path", "--model-path");
    } else if str_eq(ptype, "lmstudio") || str_eq(ptype, "ollama") {
        push_str_flag(args, config, "host", "--host");
        push_port_flag(args, config);
        push_str_flag(args, config, "model", "--model");
        assert(strs(args@) =~= start + type_flags(ptype@, config@));
    } else if str_eq(ptype, "openai") {
        push_str_flag(args, config, "base_url", "--base-url");
        push_str_flag(args, config, "api_key", "--api-key");
        push_filled_str_flag(args, config, "org_id", "--org-id");
        push_str_flag(args, config, "model", "--model");
        assert(strs(args@) =~= start + type_flags(ptype@, config@));
    } else if str_eq(ptype, "anthropic") {
        push_str_flag(args, config, "base_url", "--base-url");
        push_str_flag(args, config, "api_key", "--api-key");
        push_str_flag(args, config, "model", "--model");
        assert(strs(args@) =~= start + type_flags(ptype@, config@));
    } else {
        assert(strs(args@) =~= start + Seq::<Seq<char>>::empty());
    }
}

/// The arguments of a validation run of a provider type on a configuration.
pub fn probe_args(ptype: &str, config: &Json) -> (r: Vec<String>)
    ensures
        strs(r@) == probe_args_of(ptype@, config@),
{
    let mut args: Vec<String> = Vec::new();
    assert(strs(args@) =~= Seq::empty());
    push_str(&mut args, "providers");
    push_str(&mut args, "test");
    push_str(&mut args, "--type");
    push_str(&mut args, ptype);
    push_str(&mut args, "--e2e");
    push_str(&mut args, "--json");
    assert(strs(args@) =~= seq!["providers"@, "test"@, "--type"@, ptype@, "--e2e"@, "--json"@]);
    push_type_flags(&mut args, ptype, config);
    let ghost mid = strs(args@);
    push_str(&mut args, "--timeout");
    push_string(&mut args, u64_to_decimal(probe_timeout_secs(ptype)));
    assert(strs(args@) =~= mid + seq!["--timeout"@, decimal(timeout_for(ptype@) as nat)]);
    args
}

/// What a validation run is started with.
#[derive(Clone, Debug)]
pub struct ProbePlan {
    /// The arguments of the tool.
    pub args: Vec<String>,
    /// After how many seconds the run is stopped.
    pub timeout_secs: u64,
}

/// The validation run of a provider as it is saved: the arguments for its
/// type and configuration, and the time limit of its type.
pub fn probe_provider(entry: &ProviderScratchEntry) -> (r: ProbePlan)
    ensures
        strs(r.args@) == probe_args_of(entry@.ptype, entry@.config),
        r.timeout_secs == timeout_for(entry@.ptype),
{
    ProbePlan {
        args: probe_args(entry.ptype.as_str(), &entry.config),
        timeout_secs: probe_timeout_secs(entry.ptype.as_str()),
    }
}

/// The result of a validation run: whether the provider works, and a line
/// for the user.
#[derive(Clone, Debug)]
pub struct Verdict {
    pub ok: bool,
    pub message: String,
}

/// The model of a [`Verdict`].
pub struct VerdictV {
    pub ok: bool,
    pub message: Seq<char>,
}

impl View for Verdict {
    type V = VerdictV;

    open spec fn view(&self) -> VerdictV {
        VerdictV { ok: self.ok, message: self.message@ }
    }
}

/// The verdict that the tool's response states: success only where `ok` is
/// true, and the message, or a plain word where the response has none.
pub open spec fn verdict_of(resp: JsonV) -> VerdictV {
    let ok = resp.bool_at("ok"@) == Some(true);
    let msg = str_or(resp, "message"@, Seq::empty());
    VerdictV {
        ok,
        message: if msg.len() == 0 {
            if ok {
                "ok"@
            } else {
                "failed"@
            }
        } else {
            msg
        },
    }
}

/// Reads the verdict out of the tool's response.
pub fn verdict_of_response(resp: &Json) -> (r: Verdict)
    ensures
        r@ == verdict_of(resp@),
{
    let ok = match resp.bool_at("ok") {
        Some(b) => b,
        None => false,
    };
    let msg = match resp.str_at("message") {
        Some(m) => String::from_str(m),
        None => String::new(),
    };
    let message = if msg.as_str().is_empty() {
        if ok {
            String::from_str("ok")
        } else {
            String::from_str("failed")
        }
    } else {
        msg
    };
    Verdict { ok, message }
}

/// What a validation run gave, from the response of the tool or the error
/// of the run: the message of the response as it is, nothing where it has
/// none, as success where the response says `ok`, else as failure; and the
/// error of a run without a response as failure.
pub fn probe_result(response: Result<Json, String>) -> (r: Result<String, String>)
    ensures
        match response {
            Ok(j) => if j@.bool_at("ok"@) == Some(true) {
                r matches Ok(s) && s@ == str_or(j@, "message"@, Seq::empty())
            } else {
                r matches Err(e) && e@ == str_or(j@, "message"@, Seq::empty())
            },
            Err(e) => r matches Err(x) && x@ == e@,
        },
{
    match response {
        Ok(j) => {
            let ok = match j.bool_at("ok") {
                Some(b) => b,
                None => false,
            };
            let message = match j.str_at("message") {
                Some(m) => String::from_str(m),
                None => String::new(),
            };
            if ok {
                Ok(message)
            } else {
                Err(message)
            }
        },
        Err(e) => Err(e),
    }
}

/// How a run of the tool ended.
#[derive(Clone, Debug)]
pub enum RunOutcome {
    /// The tool ran to its end.
    Exited { success: bool, stdout: String, stderr: String },
    /// The tool was stopped when its time was up.
    TimedOut,
    /// The tool could not be run or waited for.
    Failed { message: String },
}

/// A list of arguments as `Debug` shows it.
pub uninterp spec fn debug_listed(args: Seq<Seq<char>>) -> Seq<char>;

/// `Debug` of a list of strings, through `format!`: the result is named
/// [`debug_listed`], a function of the strings alone.
#[verifier::external_body]
fn debug_list(args: &Vec<String>) -> (r: String)
    ensures
        r@ == debug_listed(strs(args@)),
{
    format!("{:?}", args)
}

/// The error of a run that was stopped when its time was up.
pub open spec fn timeout_text(args: Seq<Seq<char>>, secs: u64) -> Seq<char> {
    "chi-llm "@ + debug_listed(args) + " "@ + "timed out"@ + " after "@ + decimal(secs as nat)
        + "s"@
}

/// The error of a run that ended without success.
pub open spec fn failure_text(args: Seq<Seq<char>>, stderr: Seq<char>) -> Seq<char> {
    "chi-llm "@ + debug_listed(args) + " failed: "@ + stderr
}

/// The error of a run that was stopped when its time was up; it says so.
pub fn timeout_message(args: &Vec<String>, secs: u64) -> (r: String)
    ensures
        r@ == timeout_text(strs(args@), secs),
        is_substring("timed out"@, r@),
{
    let mut m = String::from_str("chi-llm ");
    m.append(debug_list(args).as_str());
    m.append(" ");
    let ghost head = m@;
    m.append("timed out");
    m.append(" after ");
    m.append(u64_to_decimal(secs).as_str());
    m.append("s");
    proof {
        assert(m@ =~= timeout_text(strs(args@), secs));
        assert(m@.subrange(head.len() as int, head.len() as int + "timed out"@.len() as int) =~= "timed out"@);
    }
    m
}

/// The error of a run that ended without success: what it wrote to its
/// error stream.
pub fn failure_message(args: &Vec<String>, stderr: &str) -> (r: String)
    ensures
        r@ == failure_text(strs(args@), stderr@),
{
    let mut m = String::from_str("chi-llm ");
    m.append(debug_list(args).as_str());
    m.append(" failed: ");
    m.append(stderr);
    m
}

/// The response of a run: the document that the tool wrote, where it ended
/// with success and wrote JSON; else an error. A run that was stopped gives
/// the timeout error, one that ended without success the failure error.
pub fn response_of_run(args: &Vec<String>, timeout_secs: u64, outcome: &RunOutcome) -> (r: Result<
    Json,
    String,
>)
    ensures
        match *outcome {
            RunOutcome::Exited { success, stdout, stderr } => if !success {
                r matches Err(e) && e@ == failure_text(strs(args@), stderr@)
            } else {
                match json_parsed(stdout@) {
                    Some(d) => r matches Ok(j) && j@ == d,
                    None => r is Err,
                }
            },
            RunOutcome::TimedOut => r matches Err(e) && e@ == timeout_text(
                strs(args@),
                timeout_secs,
            ) && is_substring("timed out"@, e@),
            RunOutcome::Failed { message } => r matches Err(e) && e@ == message@,
        },
{
    match outcome {
        RunOutcome::Exited { success, stdout, stderr } => {
            if !*success {
                Err(failure_message(args, stderr.as_str()))
            } else {
                match Json::parse(stdout.as_str()) {
                    Ok(j) => Ok(j),
                    Err(e) => Err(e.message),
                }
            }
        },
        RunOutcome::TimedOut => Err(timeout_message(args, timeout_secs)),
        RunOutcome::Failed { message } => Err(message.clone()),
    }
}

/// The verdict of a validation run: that of the response where there is
/// one, else a failure with the error as its message.
pub fn verdict_of_run(response: Result<Json, String>) -> (r: Verdict)
    ensures
        match response {
            Ok(j) => r@ == verdict_of(j@),
            Err(e) => !r.ok && r.message@ == e@,
        },
{
    match response {
        Ok(j) => verdict_of_response(&j),
        Err(e) => Verdict { ok: false, message: e },
    }
}

/// The verdict of a validation run from how the run ended. A run that was
/// stopped when its time was up gives a failure whose message says so.
pub fn verdict_of_outcome(args: &Vec<String>, timeout_secs: u64, outcome: &RunOutcome) -> (r:
    Verdict)
    ensures
        match *outcome {
            RunOutcome::Exited { success, stdout, stderr } => if !success {
                !r.ok && r.message@ == failure_text(strs(args@), stderr@)
            } else {
                match json_parsed(stdout@) {
                    Some(d) => r@ == verdict_of(d),
                    None => !r.ok,
                }
            },
            RunOutcome::TimedOut => !r.ok && r.message@ == timeout_text(strs(args@), timeout_secs)
                && is_substring("timed out"@, r.message@),
            RunOutcome::Failed { message } => !r.ok && r.message@ == message@,
        },
{
    verdict_of_run(response_of_run(args, timeout_secs, outcome))
}

/// The ids of the models that a discovery response lists, in order.
pub open spec fn model_ids(items: Seq<JsonV>) -> Seq<Seq<char>>
    decreases items.len(),
{
    if items.len() == 0 {
        Seq::empty()
    } else {
        match items.last().str_at("id"@) {
            Some(id) => model_ids(items.drop_last()).push(id),
            None => model_ids(items.drop_last()),
        }
    }
}

/// The ids of the models that a model list marks as downloaded, in order.
pub open spec fn downloaded_ids(items: Seq<JsonV>) -> Seq<Seq<char>>
    decreases items.len(),
{
    if items.len() == 0 {
        Seq::empty()
    } else {
        let sofar = downloaded_ids(items.drop_last());
        if items.last().bool_at("downloaded"@) == Some(true) {
            match items.last().str_at("id"@) {
                Some(id) => sofar.push(id),
                None => sofar,
            }
        } else {
            sofar
        }
    }
}

/// The ids of the models that a discovery response lists under `models`.
pub fn discovered_models(resp: &Json) -> (r: Vec<String>)
    ensures
        strs(r@) == model_ids(array_or_empty(resp@, "models"@)),
{
    let mut out: Vec<String> = Vec::new();
    assert(strs(out@) =~= model_ids(Seq::empty()));
    match resp.array_at("models") {
        Some(items) => {
            let ghost all = items_view(items@);
            let mut i: usize = 0;
            while i < items.len()
                invariant
                    i <= items.len(),
                    all == items_view(items@),
                    strs(out@) == model_ids(all.take(i as int)),
                decreases items.len() - i,
            {
                proof {
                    let stepped = all.take(i + 1);
                    assert(stepped.drop_last() =~= all.take(i as int));
                    assert(stepped.last() == items@[i as int]@);
                }
                match items[i].str_at("id") {
                    Some(id) => {
                        push_str(&mut out, id);
                    },
                    None => {},
                }
                i += 1;
            }
            proof {
                assert(all.take(items.len() as int) =~= all);
            }
        },
        None => {},
    }
    out
}

/// The elements of a document that is an array; none for any other.
pub open spec fn elements(doc: JsonV) -> Seq<JsonV> {
    match doc.as_array() {
        Some(items) => items,
        None => Seq::empty(),
    }
}

/// The ids of the models that a model list, an array, marks as downloaded.
pub fn downloaded_models(list: &Json) -> (r: Vec<String>)
    ensures
        strs(r@) == downloaded_ids(elements(list@)),
{
    let mut out: Vec<String> = Vec::new();
    assert(strs(out@) =~= downloaded_ids(Seq::empty()));
    match list.as_array() {
        Some(items) => {
            let ghost all = items_view(items@);
            let mut i: usize = 0;
            while i < items.len()
                invariant
                    i <= items.len(),
                    all == items_view(items@),
                    strs(out@) == downloaded_ids(all.take(i as int)),
                decreases items.len() - i,
            {
                proof {
                    let stepped = all.take(i + 1);
                    assert(stepped.drop_last() =~= all.take(i as int));
                    assert(stepped.last() == items@[i as int]@);
                }
                let marked = match items[i].bool_at("downloaded") {
                    Some(b) => b,
                    None => false,
                };
                if marked {
                    match items[i].str_at("id") {
                        Some(id) => {
                            push_str(&mut out, id);
                        },
                        None => {},
                    }
                }
                i += 1;
            }
            proof {
                assert(all.take(items.len() as int) =~= all);
            }
        },
        None => {},
    }
    out
}

/// The names of a list of fields, in order.
pub open spec fn field_names(fields: Seq<FormFieldV>) -> Seq<Seq<char>> {
    Seq::new(fields.len(), |i: int| fields[i].schema.name)
}

/// The text of the first field with the given name, or `fallback` where no
/// field has it.
pub open spec fn field_text_or(fields: Seq<FormFieldV>, name: Seq<char>, fallback: Seq<char>) -> Seq<
    char,
> {
    match first_index_of(field_names(fields), name) {
        Some(i) => fields[i].buffer,
        None => fallback,
    }
}

/// `flag` and `value`, where the value is not empty.
pub open spec fn filled_flag(flag: Seq<char>, value: Seq<char>) -> Seq<Seq<char>> {
    if value.len() > 0 {
        seq![flag, value]
    } else {
        Seq::empty()
    }
}

/// Discovery by the tool can fill in the model of this provider type.
pub open spec fn discovers_models(ptype: Seq<char>) -> bool {
    ptype == "lmstudio"@ || ptype == "ollama"@ || ptype == "openai"@ || ptype == "anthropic"@
        || ptype == "local"@ || ptype == "local-zeroconfig"@
}

/// The models of this provider type are files that may be downloaded
/// already.
pub open spec fn lists_downloads(ptype: Seq<char>) -> bool {
    ptype == "local"@ || ptype == "local-zeroconfig"@
}

/// The arguments of a model discovery run, from the provider type and the
/// fields of the form as they stand.
pub open spec fn discover_args_of(ptype: Seq<char>, fields: Seq<FormFieldV>) -> Seq<Seq<char>> {
    seq!["providers"@, "discover-models"@, "--type"@, ptype, "--json"@] + (if ptype == "lmstudio"@
        || ptype == "ollama"@ {
        seq!["--host"@, field_text_or(fields, "host"@, "localhost"@)] + filled_flag(
            "--port"@,
            field_text_or(fields, "port"@, Seq::empty()),
        )
    } else if ptype == "openai"@ {
        filled_flag("--base-url"@, field_text_or(fields, "base_url"@, "https://api.openai.com"@))
            + filled_flag("--api-key"@, field_text_or(fields, "api_key"@, Seq::empty()))
            + filled_flag("--org-id"@, field_text_or(fields, "org_id"@, Seq::empty()))
    } else if ptype == "anthropic"@ {
        filled_flag("--api-key"@, field_text_or(fields, "api_key"@, Seq::empty()))
    } else {
        Seq::empty()
    })
}

/// Position of the first field with the given name.
pub fn find_field(fields: &Vec<FormField>, name: &str) -> (r: Option<usize>)
    ensures
        match r {
            Some(i) => i < fields.len() && first_index_of(field_names(views(fields@)), name@)
                == Some(i as int),
            None => first_index_of(field_names(views(fields@)), name@) is None,
        },
{
    let ghost names = field_names(views(fields@));
    let mut i: usize = 0;
    while i < fields.len()
        invariant
            i <= fields.len(),
            names == field_names(views(fields@)),
            first_index_of(names.take(i as int), name@) is None,
        decreases fields.len() - i,
    {
        proof {
            let stepped = names.take(i + 1);
            assert(stepped.drop_last() =~= names.take(i as int));
            assert(stepped.last() == fields@[i as int]@.schema.name);
        }
        if str_eq(fields[i].schema.name.as_str(), name) {
            proof {
                lemma_first_index_prefix(names, name@, i + 1);
            }
            return Some(i);
        }
        i += 1;
    }
    assert(names.take(fields.len() as int) =~= names);
    None
}

/// The text of the first field with the given name, or `fallback`.
fn field_text(fields: &Vec<FormField>, name: &str, fallback: &str) -> (r: String)
    ensures
        r@ == field_text_or(views(fields@), name@, fallback@),
{
    match find_field(fields, name) {
        Some(i) => fields[i].buffer.clone(),
        None => String::from_str(fallback),
    }
}

/// Appends `flag` and `value`, where the value is not empty.
fn push_filled_flag(args: &mut Vec<String>, flag: &str, value: String)
    ensures
        strs(final(args)@) == strs(old(args)@) + filled_flag(flag@, value@),
{
    if !value.as_str().is_empty() {
        push_str(args, flag);
        push_string(args, value);
        assert(strs(args@) =~= strs(old(args)@) + seq![flag@, value@]);
    } else {
        assert(strs(args@) =~= strs(old(args)@) + Seq::<Seq<char>>::empty());
    }
}

/// Whether discovery by the tool can fill in the model of this provider
/// type.
pub fn supports_model_discovery(ptype: &str) -> (r: bool)
    ensures
        r == discovers_models(ptype@),
{
    str_eq(ptype, "lmstudio") || str_eq(ptype, "ollama") || str_eq(ptype, "openai") || str_eq(
        ptype,
        "anthropic",
    ) || str_eq(ptype, "local") || str_eq(ptype, "local-zeroconfig")
}

/// Whether the models of this provider type may be downloaded already.
pub fn has_downloads(ptype: &str) -> (r: bool)
    ensures
        r == lists_downloads(ptype@),
{
    str_eq(ptype, "local") || str_eq(ptype, "local-zeroconfig")
}

/// The arguments of a model discovery run.
pub fn discover_args(ptype: &str, fields: &Vec<FormField>) -> (r: Vec<String>)
    ensures
        strs(r@) == discover_args_of(ptype@, views(fields@)),
{
    let mut args: Vec<String> = Vec::new();
    assert(strs(args@) =~= Seq::empty());
    push_str(&mut args, "providers");
    push_str(&mut args, "discover-models");
    push_str(&mut args, "--type");
    push_str(&mut args, ptype);
    push_str(&mut args, "--json");
    let ghost base = strs(args@);
    assert(base =~= seq!["providers"@, "discover-models"@, "--type"@, ptype@, "--json"@]);
    if str_eq(ptype, "lmstudio") || str_eq(ptype, "ollama") {
        push_str(&mut args, "--host");
        push_string(&mut args, field_text(fields, "host", "localhost"));
        push_filled_flag(&mut args, "--port", field_text(fields, "port", ""));
        proof {
            assert(""@ =~= Seq::<char>::empty()) by {
                reveal_strlit("");
            }
            assert(strs(args@) =~= discover_args_of(ptype@, views(fields@)));
        }
    } else if str_eq(ptype, "openai") {
        push_filled_flag(
            &mut args,
            "--base-url",
            field_text(fields, "base_url", "https://api.openai.com"),
        );
        push_filled_flag(&mut args, "--api-key", field_text(fields, "api_key", ""));
        push_filled_flag(&mut args, "--org-id", field_text(fields, "org_id", ""));
        proof {
            assert(""@ =~= Seq::<char>::empty()) by {
                reveal_strlit("");
            }
            assert(strs(args@) =~= discover_args_of(ptype@, views(fields@)));
        }
    } else if str_eq(ptype, "anthropic") {
        push_filled_flag(&mut args, "--api-key", field_text(fields, "api_key", ""));
        proof {
            assert(""@ =~= Seq::<char>::empty()) by {
                reveal_strlit("");
            }
            assert(strs(args@) =~= discover_args_of(ptype@, views(fields@)));
        }
    } else {
        assert(strs(args@) =~= discover_args_of(ptype@, views(fields@)));
    }
    args
}

/// The arguments of the run that looks for model files of the custom local
/// type.
pub fn discover_paths_args() -> (r: Vec<String>)
    ensures
        strs(r@) == seq![
            "providers"@,
            "discover-models"@,
            "--type"@,
            "local-custom"@,
            "--json"@,
        ],
{
    let mut args: Vec<String> = Vec::new();
    assert(strs(args@) =~= Seq::empty());
    push_str(&mut args, "providers");
    push_str(&mut args, "discover-models");
    push_str(&mut args, "--type");
    push_str(&mut args, "local-custom");
    push_str(&mut args, "--json");
    args
}

} // verus!
