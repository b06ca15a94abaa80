//! Writing the final configuration: the default provider of the scratch
//! document, reduced to what is filled in, as the one document that the tool
//! reads.
use crate::json::items_view;
use crate::keys::Key;
use crate::json::json_parsed;
use crate::json::json_pretty;
use crate::json::lemma_object_view;
use crate::json::pairs_view;
use crate::json::Json;
use crate::json::JsonV;
use crate::scratch::str_or;
use crate::text::first_index_of;
use crate::text::lemma_first_index_prefix;
use crate::text::str_eq;
use vstd::prelude::*;
use vstd::string::StringExecFns;

verus! {

/// Where the final configuration goes.
#[derive(Copy, Clone, Debug, PartialEq, Eq, Structural)]
pub enum BuildTarget {
    /// Into the project directory.
    Project,
    /// Into the user's cache directory.
    Global,
}

impl BuildTarget {
    /// The other target.
    pub open spec fn other(self) -> BuildTarget {
        match self {
            BuildTarget::Project => BuildTarget::Global,
            BuildTarget::Global => BuildTarget::Project,
        }
    }
}

/// The page that writes the final configuration.
#[derive(Clone, Debug)]
pub struct BuildState {
    pub target: BuildTarget,
    /// How the last write went.
    pub status: Option<String>,
}

impl BuildState {
    /// The page as it opens: the project as target, nothing written yet.
    pub fn new() -> (r: BuildState)
        ensures
            r.target == BuildTarget::Project,
            r.status is None,
    {
        BuildState { target: BuildTarget::Project, status: None }
    }

    /// A key on the page: `g` switches the target; enter asks for the write,
    /// which the result says.
    pub fn handle_key(&mut self, key: Key) -> (write: bool)
        ensures
            write == (key is Enter),
            final(self).status == old(self).status,
            final(self).target == if key == Key::Char('g') || key == Key::Char('G') {
                old(self).target.other()
            } else {
                old(self).target
            },
    {
        match key {
            Key::Enter => true,
            Key::Char(c) => {
                if c == 'g' || c == 'G' {
                    self.toggle_target();
                }
                false
            },
            _ => false,
        }
    }

    /// Switches to the other target.
    pub fn toggle_target(&mut self)
        ensures
            final(self).target == old(self).target.other(),
            final(self).status == old(self).status,
    {
        self.target = match self.target {
            BuildTarget::Project => BuildTarget::Global,
            BuildTarget::Global => BuildTarget::Project,
        };
    }
}

/// Why the final configuration cannot be written.
#[derive(Clone, Debug, PartialEq, Eq, Structural)]
pub enum ExportError {
    /// The scratch document is not JSON.
    NotJson,
    /// The scratch document names no default provider.
    NoDefault,
    /// The scratch document holds no list of providers.
    NoProviders,
    /// No provider has the id of the default provider.
    NotFound,
    /// The default provider has no type.
    TypeMissing,
}

impl ExportError {
    /// The error in words.
    pub fn message(&self) -> (r: String)
        ensures
            r@ == match *self {
                ExportError::NotJson => "scratch document is not valid JSON"@,
                ExportError::NoDefault => "no default_provider_id in .chi_llm.tmp.json"@,
                ExportError::NoProviders => "no providers array in .chi_llm.tmp.json"@,
                ExportError::NotFound => "default provider entry not found"@,
                ExportError::TypeMissing => "default provider type missing"@,
            },
    {
        match self {
            ExportError::NotJson => String::from_str("scratch document is not valid JSON"),
            ExportError::NoDefault => String::from_str("no default_provider_id in .chi_llm.tmp.json"),
            ExportError::NoProviders => String::from_str("no providers array in .chi_llm.tmp.json"),
            ExportError::NotFound => String::from_str("default provider entry not found"),
            ExportError::TypeMissing => String::from_str("default provider type missing"),
        }
    }
}

/// The ids of a list of raw providers; nothing for one without an id.
pub open spec fn ids_of(items: Seq<JsonV>) -> Seq<Seq<char>> {
    Seq::new(items.len(), |i: int| str_or(items[i], "id"@, Seq::empty()))
}

/// The first raw provider with the given id.
pub open spec fn provider_by_id(items: Seq<JsonV>, id: Seq<char>) -> Option<JsonV> {
    match first_index_of(ids_of(items), id) {
        Some(i) => Some(items[i]),
        None => None,
    }
}

/// A member of a configuration goes into the final configuration: not the
/// type, not a null, not an empty text.
pub open spec fn exported_member(key: Seq<char>, val: JsonV) -> bool {
    key != "type"@ && !(val is Null) && !(val matches JsonV::Str(s) && s.len() == 0)
}

/// The members of a configuration that go into the final configuration, in
/// order.
pub open spec fn exported_members(pairs: Seq<(Seq<char>, JsonV)>) -> Seq<(Seq<char>, JsonV)>
    decreases pairs.len(),
{
    if pairs.len() == 0 {
        Seq::empty()
    } else if exported_member(pairs.last().0, pairs.last().1) {
        exported_members(pairs.drop_last()).push(pairs.last())
    } else {
        exported_members(pairs.drop_last())
    }
}

/// The members of the configuration of a raw provider; none where it has no
/// configuration or the configuration is no object.
pub open spec fn config_members(p: JsonV) -> Seq<(Seq<char>, JsonV)> {
    match p.get("config"@) {
        Some(JsonV::Object(pairs)) => pairs,
        _ => Seq::empty(),
    }
}

/// The type as the tool knows it: the two local variants of the editor are
/// its local type.
pub open spec fn canonical_type(ptype: Seq<char>) -> Seq<char> {
    if ptype == "local-zeroconfig"@ || ptype == "local-custom"@ {
        "local"@
    } else {
        ptype
    }
}

/// The final configuration of a raw provider of the given type.
pub open spec fn provider_document(ptype: Seq<char>, p: JsonV) -> JsonV {
    JsonV::Object(
        seq![
            (
                "provider"@,
                JsonV::Object(
                    seq![("type"@, JsonV::Str(canonical_type(ptype)))] + exported_members(
                        config_members(p),
                    ),
                ),
            ),
        ],
    )
}

/// The final configuration that a scratch document gives, or why it gives
/// none.
pub open spec fn active_config_of(doc: JsonV) -> Result<JsonV, ExportError> {
    match doc.str_at("default_provider_id"@) {
        None => Err(ExportError::NoDefault),
        Some(def) => match doc.array_at("providers"@) {
            None => Err(ExportError::NoProviders),
            Some(items) => match provider_by_id(items, def) {
                None => Err(ExportError::TypeMissing),
                Some(p) => if str_or(p, "type"@, Seq::empty()).len() == 0 {
                    Err(ExportError::TypeMissing)
                } else {
                    Ok(provider_document(str_or(p, "type"@, Seq::empty()), p))
                },
            },
        },
    }
}

/// The id and the type of the default provider of a scratch document, or why
/// there is none.
pub open spec fn default_summary_of(doc: JsonV) -> Result<(Seq<char>, Seq<char>), ExportError> {
    match doc.str_at("default_provider_id"@) {
        None => Err(ExportError::NoDefault),
        Some(def) => match doc.array_at("providers"@) {
            None => Err(ExportError::NotFound),
            Some(items) => match provider_by_id(items, def) {
                None => Err(ExportError::NotFound),
                Some(p) => Ok((def, str_or(p, "type"@, Seq::empty()))),
            },
        },
    }
}

/// The first raw provider with the given id.
fn find_provider<'a>(items: &'a Vec<Json>, id: &str) -> (r: Option<&'a Json>)
    ensures
        match r {
            Some(p) => provider_by_id(items_view(items@), id@) == Some(p@),
            None => provider_by_id(items_view(items@), id@) is None,
        },
{
    let ghost ids = ids_of(items_view(items@));
    let mut i: usize = 0;
    while i < items.len()
        invariant
            i <= items.len(),
            ids == ids_of(items_view(items@)),
            first_index_of(ids.take(i as int), id@) is None,
        decreases items.len() - i,
    {
        proof {
            let stepped = ids.take(i + 1);
            assert(stepped.drop_last() =~= ids.take(i as int));
            assert(stepped.last() == str_or(items@[i as int]@, "id"@, Seq::empty()));
        }
        let this = match items[i].str_at("id") {
            Some(s) => str_eq(s, id),
            None => {
                assert(id@.len() == 0 ==> id@ =~= Seq::<char>::empty());
                id.is_empty()
            },
        };
        if this {
            proof {
                lemma_first_index_prefix(ids, id@, i + 1);
            }
            return Some(&items[i]);
        }
        i += 1;
    }
    assert(ids.take(items.len() as int) =~= ids);
    None
}

/// Adds the members that go into the final configuration to `out`.
fn keep_members(pairs: &Vec<(String, Json)>, out: &mut Vec<(String, Json)>)
    ensures
        pairs_view(final(out)@) == pairs_view(old(out)@) + exported_members(pairs_view(pairs@)),
{
    let ghost start = pairs_view(out@);
    let ghost all = pairs_view(pairs@);
    let mut i: usize = 0;
    assert(pairs_view(out@) =~= start + exported_members(all.take(0)));
    while i < pairs.len()
        invariant
            i <= pairs.len(),
            all == pairs_view(pairs@),
            pairs_view(out@) == start + exported_members(all.take(i as int)),
        decreases pairs.len() - i,
    {
        proof {
            let stepped = all.take(i + 1);
            assert(stepped.drop_last() =~= all.take(i as int));
            assert(stepped.last() == (pairs@[i as int].0@, pairs@[i as int].1@));
        }
        let ghost before = pairs_view(out@);
        let keep = !str_eq(pairs[i].0.as_str(), "type") && match &pairs[i].1 {
            Json::Null => false,
            Json::Str(s) => !s.as_str().is_empty(),
            _ => true,
        };
        if keep {
            out.push((pairs[i].0.clone(), pairs[i].1.duplicate()));
            proof {
                assert(pairs_view(out@) =~= before.push((pairs@[i as int].0@, pairs@[i as int].1@)));
            }
        }
        i += 1;
    }
    proof {
        assert(all.take(pairs.len() as int) =~= all);
    }
}

/// The final configuration that a scratch document gives.
pub fn active_config(doc: &Json) -> (r: Result<Json, ExportError>)
    ensures
        match r {
            Ok(j) => active_config_of(doc@) == Ok::<JsonV, ExportError>(j@),
            Err(e) => active_config_of(doc@) == Err::<JsonV, ExportError>(e),
        },
{
    let def = match doc.str_at("default_provider_id") {
        Some(d) => d,
        None => {
            return Err(ExportError::NoDefault);
        },
    };
    let items = match doc.array_at("providers") {
        Some(a) => a,
        None => {
            return Err(ExportError::NoProviders);
        },
    };
    let p = match find_provider(items, def) {
        Some(p) => p,
        None => {
            return Err(ExportError::TypeMissing);
        },
    };
    let ptype = match p.str_at("type") {
        Some(t) => t,
        None => {
            return Err(ExportError::TypeMissing);
        },
    };
    if ptype.is_empty() {
        return Err(ExportError::TypeMissing);
    }
    let shown = if str_eq(ptype, "local-zeroconfig") || str_eq(ptype, "local-custom") {
        String::from_str("local")
    } else {
        String::from_str(ptype)
    };
    let mut members: Vec<(String, Json)> = Vec::new();
    members.push((String::from_str("type"), Json::Str(shown)));
    assert(pairs_view(members@) =~= seq![("type"@, JsonV::Str(canonical_type(ptype@)))]);
    match p.get("config") {
        Some(c) => match c.as_object() {
            Some(pairs) => {
                keep_members(pairs, &mut members);
            },
            None => {
                assert(pairs_view(members@) =~= pairs_view(members@) + exported_members(
                    Seq::empty(),
                ));
            },
        },
        None => {
            assert(pairs_view(members@) =~= pairs_view(members@) + exported_members(Seq::empty()));
        },
    }
    let mut root: Vec<(String, Json)> = Vec::new();
    proof {
        lemma_object_view(members);
        assert(pairs_view(members@) =~= seq![("type"@, JsonV::Str(canonical_type(ptype@)))]
            + exported_members(config_members(p@)));
    }
    let inner = Json::Object(members);
    root.push((String::from_str("provider"), inner));
    proof {
        lemma_object_view(root);
        assert(pairs_view(root@) =~= seq![("provider"@, inner@)]);
        assert(str_or(p@, "type"@, Seq::empty()) == ptype@);
    }
    Ok(Json::Object(root))
}

/// The text of the final configuration that the text of a scratch document
/// gives, or why it gives none.
pub fn write_active_config(text: &str) -> (r: Result<String, ExportError>)
    ensures
        match json_parsed(text@) {
            None => r == Err::<String, ExportError>(ExportError::NotJson),
            Some(doc) => match active_config_of(doc) {
                Err(why) => r == Err::<String, ExportError>(why),
                Ok(j) => r matches Ok(s) && s@ == json_pretty(j),
            },
        },
{
    let doc = match Json::parse(text) {
        Ok(d) => d,
        Err(_) => {
            return Err(ExportError::NotJson);
        },
    };
    match active_config(&doc) {
        Ok(j) => Ok(j.to_pretty()),
        Err(e) => Err(e),
    }
}

/// The id and the type of the default provider that the text of a scratch
/// document names, or why there is none.
pub fn get_default_provider_summary(text: &str) -> (r: Result<(String, String), ExportError>)
    ensures
        match r {
            Ok(s) => json_parsed(text@) matches Some(doc) && default_summary_of(doc) == Ok::<
                (Seq<char>, Seq<char>),
                ExportError,
            >((s.0@, s.1@)),
            Err(e) => match json_parsed(text@) {
                None => e == ExportError::NotJson,
                Some(doc) => default_summary_of(doc) == Err::<(Seq<char>, Seq<char>), ExportError>(
                    e,
                ),
            },
        },
{
    let doc = match Json::parse(text) {
        Ok(d) => d,
        Err(_) => {
            return Err(ExportError::NotJson);
        },
    };
    let def = match doc.str_at("default_provider_id") {
        Some(d) => d,
        None => {
            return Err(ExportError::NoDefault);
        },
    };
    let items = match doc.array_at("providers") {
        Some(a) => a,
        None => {
            return Err(ExportError::NotFound);
        },
    };
    match find_provider(items, def) {
        Some(p) => {
            let ptype = match p.str_at("type") {
                Some(t) => String::from_str(t),
                None => String::new(),
            };
            Ok((String::from_str(def), ptype))
        },
        None => Err(ExportError::NotFound),
    }
}

} // verus!
