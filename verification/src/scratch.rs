//! The scratch document: the JSON file that holds the providers being
//! configured and the id of the default provider.
//!
//! Reading is tolerant: a text that is not JSON counts as an empty document,
//! and a provider entry is read with defaults for what it lacks. Writing
//! changes one top-level key of the document that was there before and keeps
//! every other key.
use crate::json::items_view;
use crate::keys::Key;
use crate::json::json_parsed;
use crate::json::json_pretty;
use crate::json::lemma_array_view;
use crate::json::lemma_object_view;
use crate::json::pairs_view;
use crate::json::Json;
use crate::json::JsonV;
use crate::schema::array_or_empty;
use crate::schema::views;
use crate::text::clone_strings;
use crate::text::opt_str;
use crate::text::strs;
use vstd::prelude::*;
use vstd::string::StringExecFns;

verus! {

/// One provider as the editor holds it.
#[derive(Clone, Debug)]
pub struct ProviderScratchEntry {
    pub id: String,
    pub name: String,
    /// The provider type, a key of the schema catalog.
    pub ptype: String,
    pub tags: Vec<String>,
    /// The open key and value configuration.
    pub config: Json,
}

/// The model of a [`ProviderScratchEntry`].
#[verifier::ext_equal]
pub struct EntryV {
    pub id: Seq<char>,
    pub name: Seq<char>,
    pub ptype: Seq<char>,
    pub tags: Seq<Seq<char>>,
    pub config: JsonV,
}

impl View for ProviderScratchEntry {
    type V = EntryV;

    open spec fn view(&self) -> EntryV {
        EntryV {
            id: self.id@,
            name: self.name@,
            ptype: self.ptype@,
            tags: strs(self.tags@),
            config: self.config@,
        }
    }
}

/// The text under `key`, or `fallback` where there is no text.
pub open spec fn str_or(doc: JsonV, key: Seq<char>, fallback: Seq<char>) -> Seq<char> {
    match doc.str_at(key) {
        Some(s) => s,
        None => fallback,
    }
}

/// The strings among a list of values, in order.
pub open spec fn string_items(items: Seq<JsonV>) -> Seq<Seq<char>>
    decreases items.len(),
{
    if items.len() == 0 {
        Seq::empty()
    } else {
        match items.last().as_str() {
            Some(s) => string_items(items.drop_last()).push(s),
            None => string_items(items.drop_last()),
        }
    }
}

/// A list of strings as JSON values.
pub open spec fn strings_json(v: Seq<Seq<char>>) -> Seq<JsonV> {
    Seq::new(v.len(), |i: int| JsonV::Str(v[i]))
}

/// The configuration of a provider that has none yet: its type alone.
pub open spec fn bare_config(ptype: Seq<char>) -> JsonV {
    JsonV::Object(seq![("type"@, JsonV::Str(ptype))])
}

/// The entry that a raw provider gives: the name defaults to the id, the
/// configuration to the type alone, everything else to nothing.
pub open spec fn entry_of(p: JsonV) -> EntryV {
    let id = str_or(p, "id"@, Seq::empty());
    let ptype = str_or(p, "type"@, Seq::empty());
    EntryV {
        id,
        name: str_or(p, "name"@, id),
        ptype,
        tags: string_items(array_or_empty(p, "tags"@)),
        config: match p.get("config"@) {
            Some(c) => c,
            None => bare_config(ptype),
        },
    }
}

/// The entries of a list of raw providers.
pub open spec fn entries_of(items: Seq<JsonV>) -> Seq<EntryV> {
    Seq::new(items.len(), |i: int| entry_of(items[i]))
}

/// The raw provider that an entry is written as.
pub open spec fn entry_json(e: EntryV) -> JsonV {
    JsonV::Object(
        seq![
            ("config"@, e.config),
            ("id"@, JsonV::Str(e.id)),
            ("name"@, JsonV::Str(e.name)),
            ("tags"@, JsonV::Array(strings_json(e.tags))),
            ("type"@, JsonV::Str(e.ptype)),
        ],
    )
}

/// The raw providers that a list of entries is written as.
pub open spec fn entries_json(entries: Seq<EntryV>) -> Seq<JsonV> {
    Seq::new(entries.len(), |i: int| entry_json(entries[i]))
}

/// The document that a text holds: what it denotes, or an empty object
/// where it is not JSON.
pub open spec fn document_of(text: Seq<char>) -> JsonV {
    match json_parsed(text) {
        Some(d) => d,
        None => JsonV::Object(Seq::empty()),
    }
}

/// The object to write into: the document of the text that was there, where
/// there was one and it is an object; else an empty object.
pub open spec fn base_document(existing: Option<Seq<char>>) -> JsonV {
    match existing {
        Some(t) => if document_of(t) is Object {
            document_of(t)
        } else {
            JsonV::Object(Seq::empty())
        },
        None => JsonV::Object(Seq::empty()),
    }
}

/// The document after the providers were saved into it.
pub open spec fn with_providers(existing: Option<Seq<char>>, entries: Seq<EntryV>) -> JsonV {
    base_document(existing).with("providers"@, JsonV::Array(entries_json(entries)))
}

/// The document after the default provider was saved into it.
pub open spec fn with_default_provider(existing: Option<Seq<char>>, id: Seq<char>) -> JsonV {
    base_document(existing).with("default_provider_id"@, JsonV::Str(id))
}

/// Reads a text as a document; a text that is not JSON gives an empty
/// object.
pub fn read_document(text: &str) -> (r: Json)
    ensures
        r@ == document_of(text@),
{
    match Json::parse(text) {
        Ok(d) => d,
        Err(_) => Json::empty_object(),
    }
}

/// The object to write into, from the text that was there before.
pub fn read_base_document(existing: Option<&str>) -> (r: Json)
    ensures
        r@ == base_document(
            match existing {
                Some(t) => Some(t@),
                None => None,
            },
        ),
        r@ is Object,
{
    match existing {
        Some(t) => {
            let d = read_document(t);
            if d.is_object() {
                d
            } else {
                Json::empty_object()
            }
        },
        None => Json::empty_object(),
    }
}

/// The strings among a list of values, in order.
pub fn collect_strings(items: &Vec<Json>) -> (r: Vec<String>)
    ensures
        strs(r@) == string_items(items_view(items@)),
{
    let ghost all = items_view(items@);
    let mut out: Vec<String> = Vec::new();
    let mut i: usize = 0;
    while i < items.len()
        invariant
            i <= items.len(),
            all == items_view(items@),
            strs(out@) == string_items(all.take(i as int)),
        decreases items.len() - i,
    {
        proof {
            let stepped = all.take(i + 1);
            assert(stepped.drop_last() =~= all.take(i as int));
            assert(stepped.last() == items@[i as int]@);
        }
        let ghost before = strs(out@);
        match items[i].as_str() {
            Some(s) => {
                out.push(String::from_str(s));
                proof {
                    assert(strs(out@) =~= before.push(s@));
                }
            },
            None => {},
        }
        i += 1;
    }
    proof {
        assert(all.take(items.len() as int) =~= all);
    }
    out
}

/// The strings of the array under `key`.
pub fn strings_at(doc: &Json, key: &str) -> (r: Vec<String>)
    ensures
        strs(r@) == string_items(array_or_empty(doc@, key@)),
{
    match doc.array_at(key) {
        Some(items) => collect_strings(items),
        None => {
            let none: Vec<String> = Vec::new();
            assert(strs(none@) =~= string_items(Seq::empty()));
            none
        },
    }
}

/// A list of strings as a JSON array.
pub fn strings_to_json(v: &Vec<String>) -> (r: Json)
    ensures
        r@ == JsonV::Array(strings_json(strs(v@))),
{
    let mut out: Vec<Json> = Vec::new();
    let mut i: usize = 0;
    while i < v.len()
        invariant
            i <= v.len(),
            out.len() == i,
            forall|k: int| 0 <= k < i ==> out@[k]@ == JsonV::Str(v@[k]@),
        decreases v.len() - i,
    {
        out.push(Json::Str(v[i].clone()));
        i += 1;
    }
    proof {
        lemma_array_view(out);
        assert(items_view(out@) =~= strings_json(strs(v@)));
    }
    Json::Array(out)
}

/// The configuration of a provider that has none yet.
pub fn make_bare_config(ptype: &str) -> (r: Json)
    ensures
        r@ == bare_config(ptype@),
{
    let mut pairs: Vec<(String, Json)> = Vec::new();
    pairs.push((String::from_str("type"), Json::Str(String::from_str(ptype))));
    proof {
        lemma_object_view(pairs);
        assert(pairs_view(pairs@) =~= seq![("type"@, JsonV::Str(ptype@))]);
    }
    Json::Object(pairs)
}

impl ProviderScratchEntry {
    /// Reads one raw provider.
    pub fn from_json(p: &Json) -> (r: ProviderScratchEntry)
        ensures
            r@ == entry_of(p@),
    {
        let id = match p.str_at("id") {
            Some(s) => String::from_str(s),
            None => String::new(),
        };
        let name = match p.str_at("name") {
            Some(s) => String::from_str(s),
            None => id.clone(),
        };
        let ptype = match p.str_at("type") {
            Some(s) => String::from_str(s),
            None => String::new(),
        };
        let tags = strings_at(p, "tags");
        let config = match p.get("config") {
            Some(c) => c.duplicate(),
            None => make_bare_config(ptype.as_str()),
        };
        ProviderScratchEntry { id, name, ptype, tags, config }
    }

    /// The raw provider that the entry is written as.
    pub fn to_json(&self) -> (r: Json)
        ensures
            r@ == entry_json(self@),
    {
        let mut pairs: Vec<(String, Json)> = Vec::new();
        pairs.push((String::from_str("config"), self.config.duplicate()));
        pairs.push((String::from_str("id"), Json::Str(self.id.clone())));
        pairs.push((String::from_str("name"), Json::Str(self.name.clone())));
        pairs.push((String::from_str("tags"), strings_to_json(&self.tags)));
        pairs.push((String::from_str("type"), Json::Str(self.ptype.clone())));
        proof {
            lemma_object_view(pairs);
            assert(pairs_view(pairs@) =~= seq![
                ("config"@, self@.config),
                ("id"@, JsonV::Str(self@.id)),
                ("name"@, JsonV::Str(self@.name)),
                ("tags"@, JsonV::Array(strings_json(self@.tags))),
                ("type"@, JsonV::Str(self@.ptype)),
            ]);
        }
        Json::Object(pairs)
    }

    /// A copy of the entry.
    pub fn duplicate(&self) -> (r: ProviderScratchEntry)
        ensures
            r@ == self@,
    {
        ProviderScratchEntry {
            id: self.id.clone(),
            name: self.name.clone(),
            ptype: self.ptype.clone(),
            tags: clone_strings(&self.tags),
            config: self.config.duplicate(),
        }
    }
}

/// Reads the entries of a scratch document: those of the array under
/// `providers`.
pub fn read_entries(doc: &Json) -> (r: Vec<ProviderScratchEntry>)
    ensures
        views(r@) == entries_of(array_or_empty(doc@, "providers"@)),
{
    let mut out: Vec<ProviderScratchEntry> = Vec::new();
    match doc.array_at("providers") {
        Some(items) => {
            let mut i: usize = 0;
            while i < items.len()
                invariant
                    i <= items.len(),
                    out.len() == i,
                    forall|k: int| 0 <= k < i ==> out@[k]@ == entry_of(items@[k]@),
                decreases items.len() - i,
            {
                out.push(ProviderScratchEntry::from_json(&items[i]));
                i += 1;
            }
            proof {
                assert(views(out@) =~= entries_of(items_view(items@)));
            }
        },
        None => {
            proof {
                assert(views(out@) =~= entries_of(Seq::empty()));
            }
        },
    }
    out
}

/// The raw providers that a list of entries is written as.
pub fn entries_to_json(entries: &Vec<ProviderScratchEntry>) -> (r: Json)
    ensures
        r@ == JsonV::Array(entries_json(views(entries@))),
{
    let mut out: Vec<Json> = Vec::new();
    let mut i: usize = 0;
    while i < entries.len()
        invariant
            i <= entries.len(),
            out.len() == i,
            forall|k: int| 0 <= k < i ==> out@[k]@ == entry_json(entries@[k]@),
        decreases entries.len() - i,
    {
        out.push(entries[i].to_json());
        i += 1;
    }
    proof {
        lemma_array_view(out);
        assert(items_view(out@) =~= entries_json(views(entries@)));
    }
    Json::Array(out)
}

/// The scratch document after the providers were saved into what was
/// there before. Every top-level key but `providers` stays as it was.
pub fn providers_document(existing: Option<&str>, entries: &Vec<ProviderScratchEntry>) -> (r: Json)
    ensures
        r@ == with_providers(
            match existing {
                Some(t) => Some(t@),
                None => None,
            },
            views(entries@),
        ),
{
    let mut root = read_base_document(existing);
    root.set(String::from_str("providers"), entries_to_json(entries));
    root
}

/// The text of the scratch document after the providers were saved into
/// what was there before: that document in the indented notation.
pub fn save_providers(existing: Option<&str>, entries: &Vec<ProviderScratchEntry>) -> (r: String)
    ensures
        r@ == json_pretty(
            with_providers(
                match existing {
                    Some(t) => Some(t@),
                    None => None,
                },
                views(entries@),
            ),
        ),
{
    providers_document(existing, entries).to_pretty()
}

/// One provider as the page that picks the default lists it.
#[derive(Clone, Debug)]
pub struct ProviderEntry {
    pub id: String,
    pub name: String,
    pub ptype: String,
    pub tags: Vec<String>,
}

/// The model of a [`ProviderEntry`].
#[verifier::ext_equal]
pub struct ProviderEntryV {
    pub id: Seq<char>,
    pub name: Seq<char>,
    pub ptype: Seq<char>,
    pub tags: Seq<Seq<char>>,
}

impl View for ProviderEntry {
    type V = ProviderEntryV;

    open spec fn view(&self) -> ProviderEntryV {
        ProviderEntryV { id: self.id@, name: self.name@, ptype: self.ptype@, tags: strs(self.tags@) }
    }
}

/// The listed provider that a raw provider gives, or `None` where it has no
/// id.
pub open spec fn listed_of(p: JsonV) -> Option<ProviderEntryV> {
    let e = entry_of(p);
    if e.id.len() == 0 {
        None
    } else {
        Some(ProviderEntryV { id: e.id, name: e.name, ptype: e.ptype, tags: e.tags })
    }
}

/// The listed providers of a list of raw providers, in order.
pub open spec fn listing_of(items: Seq<JsonV>) -> Seq<ProviderEntryV>
    decreases items.len(),
{
    if items.len() == 0 {
        Seq::empty()
    } else {
        match listed_of(items.last()) {
            Some(e) => listing_of(items.drop_last()).push(e),
            None => listing_of(items.drop_last()),
        }
    }
}

/// The page that picks the default provider.
#[derive(Clone, Debug)]
pub struct DefaultProviderState {
    pub providers: Vec<ProviderEntry>,
    pub selected: usize,
    pub current_default_id: Option<String>,
}

/// The model of a [`DefaultProviderState`].
#[verifier::ext_equal]
pub struct DefaultProviderV {
    pub providers: Seq<ProviderEntryV>,
    pub selected: int,
    pub current_default_id: Option<Seq<char>>,
}

impl View for DefaultProviderState {
    type V = DefaultProviderV;

    open spec fn view(&self) -> DefaultProviderV {
        DefaultProviderV {
            providers: views(self.providers@),
            selected: self.selected as int,
            current_default_id: opt_str(self.current_default_id),
        }
    }
}

impl DefaultProviderV {
    /// The page as a scratch document opens it.
    pub open spec fn loaded(doc: JsonV) -> DefaultProviderV {
        DefaultProviderV {
            providers: listing_of(array_or_empty(doc, "providers"@)),
            selected: 0,
            current_default_id: doc.str_at("default_provider_id"@),
        }
    }

    /// After up: one row up, unless on the first.
    pub open spec fn moved_up(self) -> DefaultProviderV {
        if self.selected > 0 && self.providers.len() > 0 {
            DefaultProviderV { selected: self.selected - 1, ..self }
        } else {
            self
        }
    }

    /// After down: one row down, unless on the last.
    pub open spec fn moved_down(self) -> DefaultProviderV {
        if self.selected + 1 < self.providers.len() {
            DefaultProviderV { selected: self.selected + 1, ..self }
        } else {
            self
        }
    }

    /// The key picks the selected provider: enter or `s`.
    pub open spec fn picks(self, key: Key) -> bool {
        key is Enter || key == Key::Char('s') || key == Key::Char('S')
    }

    /// After a key: the arrows move, enter and `s` pick.
    pub open spec fn keyed(self, key: Key) -> DefaultProviderV {
        if self.picks(key) {
            self.picked()
        } else if key is Up {
            self.moved_up()
        } else if key is Down {
            self.moved_down()
        } else {
            self
        }
    }

    /// After a pick: the selected provider is the default.
    pub open spec fn picked(self) -> DefaultProviderV {
        if 0 <= self.selected < self.providers.len() {
            DefaultProviderV {
                current_default_id: Some(self.providers[self.selected].id),
                ..self
            }
        } else {
            self
        }
    }
}

/// Reads the page that picks the default provider from the text of the
/// scratch document.
pub fn load_providers_scratch(text: &str) -> (r: DefaultProviderState)
    ensures
        r@ == DefaultProviderV::loaded(document_of(text@)),
{
    let doc = read_document(text);
    default_page_of(&doc)
}

/// The page that picks the default provider as a scratch document opens it:
/// the providers that have an id, the first selected, and the default that
/// the document names.
pub fn default_page_of(doc: &Json) -> (r: DefaultProviderState)
    ensures
        r@ == DefaultProviderV::loaded(doc@),
{
    let mut providers: Vec<ProviderEntry> = Vec::new();
    assert(views(providers@) =~= listing_of(Seq::empty()));
    match doc.array_at("providers") {
        Some(items) => {
            let ghost all = items_view(items@);
            let mut i: usize = 0;
            while i < items.len()
                invariant
                    i <= items.len(),
                    all == items_view(items@),
                    views(providers@) == listing_of(all.take(i as int)),
                decreases items.len() - i,
            {
                proof {
                    let stepped = all.take(i + 1);
                    assert(stepped.drop_last() =~= all.take(i as int));
                    assert(stepped.last() == items@[i as int]@);
                }
                let ghost before = views(providers@);
                let e = ProviderScratchEntry::from_json(&items[i]);
                if !e.id.as_str().is_empty() {
                    let listed = ProviderEntry { id: e.id, name: e.name, ptype: e.ptype, tags: e.tags };
                    providers.push(listed);
                    proof {
                        assert(views(providers@) =~= before.push(listed@));
                    }
                }
                i += 1;
            }
            proof {
                assert(all.take(items.len() as int) =~= all);
            }
        },
        None => {},
    }
    let current_default_id = match doc.str_at("default_provider_id") {
        Some(s) => Some(String::from_str(s)),
        None => None,
    };
    DefaultProviderState { providers, selected: 0, current_default_id }
}

/// The scratch document after `id` was saved into what was there before as
/// the default provider. Every other top-level key stays as it was.
pub fn default_provider_document(existing: Option<&str>, id: &str) -> (r: Json)
    ensures
        r@ == with_default_provider(
            match existing {
                Some(t) => Some(t@),
                None => None,
            },
            id@,
        ),
{
    let mut root = read_base_document(existing);
    root.set(String::from_str("default_provider_id"), Json::Str(String::from_str(id)));
    root
}

/// The text of the scratch document after `id` was saved into what was
/// there before as the default provider: that document in the indented
/// notation.
pub fn save_default_provider(existing: Option<&str>, id: &str) -> (r: String)
    ensures
        r@ == json_pretty(
            with_default_provider(
                match existing {
                    Some(t) => Some(t@),
                    None => None,
                },
                id@,
            ),
        ),
{
    default_provider_document(existing, id).to_pretty()
}

impl DefaultProviderState {
    /// Up: one row up, unless on the first.
    pub fn move_up(&mut self)
        ensures
            final(self)@ == old(self)@.moved_up(),
    {
        if self.providers.len() > 0 && self.selected > 0 {
            self.selected -= 1;
        }
    }

    /// Down: one row down, unless on the last.
    pub fn move_down(&mut self)
        ensures
            final(self)@ == old(self)@.moved_down(),
    {
        if self.providers.len() > 0 && self.selected < self.providers.len() - 1 {
            self.selected += 1;
        }
    }

    /// A key on the page: the arrows move; enter and `s` make the selected
    /// provider the default and return its id, which is then to be saved.
    pub fn handle_key(&mut self, key: Key) -> (r: Option<String>)
        ensures
            final(self)@ == old(self)@.keyed(key),
            opt_str(r) == if old(self)@.picks(key) && 0 <= old(self)@.selected < old(
                self,
            )@.providers.len() {
                Some(old(self)@.providers[old(self)@.selected].id)
            } else {
                None
            },
    {
        match key {
            Key::Up => {
                self.move_up();
                None
            },
            Key::Down => {
                self.move_down();
                None
            },
            Key::Enter => self.pick(),
            Key::Char(c) => {
                if c == 's' || c == 'S' {
                    self.pick()
                } else {
                    None
                }
            },
            _ => None,
        }
    }

    /// Makes the selected provider the default and returns its id, which is
    /// then to be saved; nothing where no provider is selected.
    pub fn pick(&mut self) -> (r: Option<String>)
        ensures
            final(self)@ == old(self)@.picked(),
            opt_str(r) == if 0 <= old(self)@.selected < old(self)@.providers.len() {
                Some(old(self)@.providers[old(self)@.selected].id)
            } else {
                None
            },
    {
        if self.selected < self.providers.len() {
            let id = self.providers[self.selected].id.clone();
            self.current_default_id = Some(id.clone());
            Some(id)
        } else {
            None
        }
    }
}

} // verus!
