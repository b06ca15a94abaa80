//! The page that configures providers: the list of entries on the left, the
//! form of the selected entry on the right, the dropdown and the log window
//! over them, and the validation run in the background.
//!
//! The page is a state machine. [`ProvidersState::handle_key`] takes a key
//! and returns what the caller has to do next, an [`Action`]; the caller
//! carries it out and reports back through the `*_finished` and
//! `apply_verdict` methods.
use crate::dropdown::DropdownState;
use crate::dropdown::DropdownV;
use crate::form::applied;
use crate::form::FormState;
use crate::form::FormStateV;
use crate::json::Json;
use crate::json::JsonV;
use crate::schema::array_or_empty;
use crate::schema::catalog_fields;
use crate::schema::catalog_of;
use crate::schema::catalog_view;
use crate::schema::lookup_fields;
use crate::schema::parse_schema;
use crate::schema::raw_providers;
use crate::schema::type_names_of;
use crate::schema::views;
use crate::schema::FieldSchema;
use crate::schema::FieldSchemaV;
use crate::scratch::bare_config;
use crate::scratch::document_of;
use crate::scratch::entries_of;
use crate::scratch::make_bare_config;
use crate::scratch::read_document;
use crate::scratch::read_entries;
use crate::scratch::save_providers;
use crate::scratch::with_providers;
use crate::json::json_pretty;
use crate::scratch::EntryV;
use crate::scratch::ProviderScratchEntry;
use crate::text::decimal;
use crate::text::first_index_of;
use crate::text::lemma_first_index_of;
use crate::text::lemma_first_index_prefix;
use crate::text::str_eq;
use crate::text::opt_str;
use crate::text::position_of;
use crate::text::strs;
use crate::text::strs_sorted;
use crate::text::u64_to_decimal;
use vstd::prelude::*;
use vstd::string::StringExecFns;

verus! {

/// The model of an optional value.
pub open spec fn opt_view<T: View>(o: Option<T>) -> Option<T::V> {
    match o {
        Some(x) => Some(x@),
        None => None,
    }
}

/// Position of the first string equal to `s`, or 0 where there is none.
pub open spec fn position_or_zero(v: Seq<Seq<char>>, s: Seq<char>) -> int {
    match first_index_of(v, s) {
        Some(i) => i,
        None => 0,
    }
}

/// The ids of a list of entries, in order.
pub open spec fn entry_ids(entries: Seq<EntryV>) -> Seq<Seq<char>> {
    Seq::new(entries.len(), |i: int| entries[i].id)
}

/// The id that goes with a number: `p` and the number in decimal.
pub open spec fn numbered_id(n: nat) -> Seq<char> {
    "p"@ + decimal(n)
}

/// The smallest number from `n` on, up to the largest of 64 bits, whose id
/// is not among `ids`.
pub open spec fn first_free_number(ids: Seq<Seq<char>>, n: nat) -> Option<nat>
    decreases u64::MAX - n,
{
    if n > u64::MAX {
        None
    } else if first_index_of(ids, numbered_id(n)) is None {
        Some(n)
    } else if n == u64::MAX {
        None
    } else {
        first_free_number(ids, n + 1)
    }
}

/// What [`first_free_number`] finds: a number from `n` on whose id is not
/// among `ids`, with the id of every number between among them; and nothing
/// exactly when the id of every number from `n` on is among them.
pub proof fn lemma_first_free_number(ids: Seq<Seq<char>>, n: nat)
    ensures
        match first_free_number(ids, n) {
            Some(k) => n <= k <= u64::MAX && (forall|i: int|
                0 <= i < ids.len() ==> ids[i] != numbered_id(k)) && (forall|m: nat|
                n <= m < k ==> first_index_of(ids, #[trigger] numbered_id(m)) is Some),
            None => forall|m: nat|
                n <= m <= u64::MAX ==> first_index_of(ids, #[trigger] numbered_id(m)) is Some,
        },
    decreases u64::MAX - n,
{
    if n <= u64::MAX {
        lemma_first_index_of(ids, numbered_id(n));
        if first_index_of(ids, numbered_id(n)) is Some && n < u64::MAX {
            lemma_first_free_number(ids, n + 1);
        }
    }
}

/// The page that configures providers.
#[derive(Clone, Debug)]
pub struct ProvidersState {
    pub entries: Vec<ProviderScratchEntry>,
    /// The selected row of the list; the row after the last entry adds one.
    pub selected: usize,
    /// The known provider types, ascending.
    pub schema_types: Vec<String>,
    /// The fields of each provider type.
    pub schema_map: Vec<(String, Vec<FieldSchema>)>,
    /// What the last validation run said.
    pub test_status: Option<String>,
    /// The form of the selected entry, once opened.
    pub form: Option<FormState>,
    /// Whether the form, not the list, has the keys.
    pub focus_right: bool,
    pub dropdown: Option<DropdownState>,
    /// Whether a validation run is under way; at most one is.
    pub test_in_progress: bool,
    /// The lines that the run has written so far.
    pub test_log: Vec<String>,
    /// The hash of the fields that the run under way is testing.
    pub pending_test_hash: Option<String>,
    /// Whether the log window is open.
    pub show_test_popup: bool,
}

/// The model of a [`ProvidersState`].
#[verifier::ext_equal]
pub struct ProvidersV {
    pub entries: Seq<EntryV>,
    pub selected: int,
    pub schema_types: Seq<Seq<char>>,
    pub schema_map: Seq<(Seq<char>, Seq<FieldSchemaV>)>,
    pub test_status: Option<Seq<char>>,
    pub form: Option<FormStateV>,
    pub focus_right: bool,
    pub dropdown: Option<DropdownV>,
    pub test_in_progress: bool,
    pub test_log: Seq<Seq<char>>,
    pub pending_test_hash: Option<Seq<char>>,
    pub show_test_popup: bool,
}

impl View for ProvidersState {
    type V = ProvidersV;

    open spec fn view(&self) -> ProvidersV {
        ProvidersV {
            entries: views(self.entries@),
            selected: self.selected as int,
            schema_types: strs(self.schema_types@),
            schema_map: catalog_view(self.schema_map@),
            test_status: opt_str(self.test_status),
            form: opt_view(self.form),
            focus_right: self.focus_right,
            dropdown: opt_view(self.dropdown),
            test_in_progress: self.test_in_progress,
            test_log: strs(self.test_log@),
            pending_test_hash: opt_str(self.pending_test_hash),
            show_test_popup: self.show_test_popup,
        }
    }
}

impl ProvidersV {
    /// The page with no entry and no schema.
    pub open spec fn empty() -> ProvidersV {
        ProvidersV {
            entries: Seq::empty(),
            selected: 0,
            schema_types: Seq::empty(),
            schema_map: Seq::empty(),
            test_status: None,
            form: None,
            focus_right: false,
            dropdown: None,
            test_in_progress: false,
            test_log: Seq::empty(),
            pending_test_hash: None,
            show_test_popup: false,
        }
    }

    /// The number of rows of the list: the entries and the row that adds one.
    pub open spec fn len_with_add(self) -> int {
        (self.entries.len() + 1) as int
    }

    /// The selection is on the row that adds an entry.
    pub open spec fn is_add_row(self) -> bool {
        self.selected >= self.entries.len()
    }

    /// An entry is selected.
    pub open spec fn has_selected(self) -> bool {
        0 <= self.selected < self.entries.len()
    }

    /// The type of the selected entry, or nothing where none is selected.
    pub open spec fn selected_type(self) -> Seq<char> {
        if self.has_selected() {
            self.entries[self.selected].ptype
        } else {
            Seq::empty()
        }
    }

    /// The fields of a provider type; none for a type that the catalog does
    /// not know.
    pub open spec fn schema_for(self, ptype: Seq<char>) -> Seq<FieldSchemaV> {
        match catalog_fields(self.schema_map, ptype) {
            Some(f) => f,
            None => Seq::empty(),
        }
    }

    /// With the form of the selected entry opened afresh, or no form where no
    /// entry is selected.
    pub open spec fn with_form_for_selected(self) -> ProvidersV {
        ProvidersV {
            form: if self.has_selected() {
                Some(
                    FormStateV::opened(
                        self.entries[self.selected].config,
                        self.schema_for(self.entries[self.selected].ptype),
                    ),
                )
            } else {
                None
            },
            ..self
        }
    }

    /// The type that a new entry gets: the zero-configuration local type
    /// where the catalog knows it, else the local type where it knows that,
    /// else the first known type, else the local type.
    pub open spec fn default_type(self) -> Seq<char> {
        if first_index_of(self.schema_types, "local-zeroconfig"@) is Some {
            "local-zeroconfig"@
        } else if first_index_of(self.schema_types, "local"@) is Some {
            "local"@
        } else if self.schema_types.len() > 0 {
            self.schema_types[0]
        } else {
            "local"@
        }
    }

    /// The entry that adding gives under the number `n`: its id is that
    /// number's, it is named after its type, and its type is its whole
    /// configuration.
    pub open spec fn new_entry(self, n: nat) -> EntryV {
        EntryV {
            id: numbered_id(n),
            name: self.default_type(),
            ptype: self.default_type(),
            tags: Seq::empty(),
            config: bare_config(self.default_type()),
        }
    }

    /// The number of the entry that adding gives: the smallest above the
    /// number of entries whose id no entry has yet.
    pub open spec fn next_number(self) -> Option<nat> {
        first_free_number(entry_ids(self.entries), self.entries.len() + 1)
    }

    /// With a new entry added at the end and selected; its id is one that no
    /// entry has yet. A list that fills the address space, or one that holds
    /// every id up to the largest number, stays as it is.
    pub open spec fn with_added(self) -> ProvidersV {
        if self.entries.len() >= usize::MAX {
            self
        } else {
            match self.next_number() {
                Some(n) => ProvidersV {
                    entries: self.entries.push(self.new_entry(n)),
                    selected: self.entries.len() as int,
                    ..self
                },
                None => self,
            }
        }
    }

    /// With the selected entry removed, and the selection one row up unless
    /// on the first.
    pub open spec fn with_deleted(self) -> ProvidersV {
        if self.has_selected() {
            ProvidersV {
                entries: self.entries.remove(self.selected),
                selected: if self.selected > 0 {
                    self.selected - 1
                } else {
                    0
                },
                ..self
            }
        } else {
            self
        }
    }

    /// With entry `i` replaced by `e`.
    pub open spec fn with_entry(self, i: int, e: EntryV) -> ProvidersV {
        ProvidersV { entries: self.entries.update(i, e), ..self }
    }

    /// With `model` set to `id` in the configuration of the selected entry.
    pub open spec fn with_model(self, id: Seq<char>) -> ProvidersV {
        if self.has_selected() {
            let e = self.entries[self.selected];
            self.with_entry(
                self.selected,
                EntryV { config: e.config.with("model"@, JsonV::Str(id)), ..e },
            )
        } else {
            self
        }
    }

    /// The configuration that a validation run tests: that of the selected
    /// entry with the fields of the open form written into it.
    pub open spec fn effective_config(self) -> JsonV {
        match self.form {
            Some(f) => applied(f.fields, self.entries[self.selected].config),
            None => self.entries[self.selected].config,
        }
    }

    /// The selections lie within their lists and the parts are well formed.
    pub open spec fn wf(self) -> bool {
        &&& 0 <= self.selected <= self.entries.len() <= usize::MAX
        &&& (self.form matches Some(f) ==> f.wf())
        &&& (self.dropdown matches Some(d) ==> d.wf())
    }
}

impl ProvidersState {
    /// The page with no entry and no schema.
    pub fn empty() -> (r: ProvidersState)
        ensures
            r@ == ProvidersV::empty(),
            r@.wf(),
    {
        let r = ProvidersState {
            entries: Vec::new(),
            selected: 0,
            schema_types: Vec::new(),
            schema_map: Vec::new(),
            test_status: None,
            form: None,
            focus_right: false,
            dropdown: None,
            test_in_progress: false,
            test_log: Vec::new(),
            pending_test_hash: None,
            show_test_popup: false,
        };
        assert(r@.entries =~= Seq::empty());
        assert(r@.schema_types =~= Seq::empty());
        assert(r@.schema_map =~= Seq::empty());
        assert(r@.test_log =~= Seq::empty());
        r
    }

    /// The number of rows of the list, where it fits the index type.
    pub fn len_with_add(&self) -> (r: usize)
        requires
            self@.entries.len() < usize::MAX,
        ensures
            r == self@.len_with_add(),
    {
        self.entries.len() + 1
    }

    /// Whether the selection is on the row that adds an entry.
    pub fn is_add_row(&self) -> (r: bool)
        ensures
            r == self@.is_add_row(),
    {
        self.selected >= self.entries.len()
    }

    /// The type that a new entry gets.
    pub fn default_type(&self) -> (r: String)
        ensures
            r@ == self@.default_type(),
    {
        if position_of(&self.schema_types, "local-zeroconfig").is_some() {
            String::from_str("local-zeroconfig")
        } else if position_of(&self.schema_types, "local").is_some() {
            String::from_str("local")
        } else if self.schema_types.len() > 0 {
            self.schema_types[0].clone()
        } else {
            String::from_str("local")
        }
    }

    /// Position of the first entry with the given id.
    pub fn position_of_id(&self, id: &str) -> (r: Option<usize>)
        ensures
            match r {
                Some(i) => i < self.entries.len() && first_index_of(entry_ids(self@.entries), id@)
                    == Some(i as int),
                None => first_index_of(entry_ids(self@.entries), id@) is None,
            },
    {
        let ghost ids = entry_ids(views(self.entries@));
        let mut i: usize = 0;
        while i < self.entries.len()
            invariant
                i <= self.entries.len(),
                ids == entry_ids(views(self.entries@)),
                first_index_of(ids.take(i as int), id@) is None,
            decreases self.entries.len() - i,
        {
            proof {
                let stepped = ids.take(i + 1);
                assert(stepped.drop_last() =~= ids.take(i as int));
                assert(stepped.last() == self.entries@[i as int]@.id);
            }
            if str_eq(self.entries[i].id.as_str(), id) {
                proof {
                    lemma_first_index_prefix(ids, id@, i + 1);
                }
                return Some(i);
            }
            i += 1;
        }
        assert(ids.take(self.entries.len() as int) =~= ids);
        None
    }

    /// The id that a new entry gets: that of the smallest number above the
    /// number of entries that no entry has yet; none where the list fills
    /// the address space or every such id is taken.
    pub fn next_id(&self) -> (r: Option<String>)
        ensures
            match r {
                Some(id) => self@.entries.len() < usize::MAX && self@.next_number() is Some
                    && id@ == numbered_id(self@.next_number()->0),
                None => self@.entries.len() >= usize::MAX || self@.next_number() is None,
            },
    {
        if self.entries.len() >= usize::MAX {
            return None;
        }
        let ghost ids = entry_ids(self@.entries);
        let ghost start = (self.entries.len() + 1) as nat;
        let mut n: u64 = (self.entries.len() + 1) as u64;
        loop
            invariant
                ids == entry_ids(self@.entries),
                start == self@.entries.len() + 1,
                self@.entries.len() < usize::MAX,
                start <= n <= u64::MAX,
                first_free_number(ids, start) == first_free_number(ids, n as nat),
            decreases u64::MAX - n,
        {
            let mut id = String::from_str("p");
            id.append(u64_to_decimal(n).as_str());
            if self.position_of_id(id.as_str()).is_none() {
                return Some(id);
            }
            if n == u64::MAX {
                return None;
            }
            n += 1;
        }
    }

    /// Adds an entry of the default type at the end and selects it. Its id is
    /// `p` and the smallest number above the number of entries that gives an
    /// id no entry has yet, so that ids stay apart.
    pub fn add_default(&mut self)
        ensures
            final(self)@ == old(self)@.with_added(),
            final(self)@.entries.len() == old(self)@.entries.len() || final(self)@.entries.len()
                == old(self)@.entries.len() + 1,
            final(self)@.entries.len() == old(self)@.entries.len() + 1 ==> ({
                let before = old(self)@.entries;
                let id = final(self)@.entries.last().id;
                &&& old(self)@.next_number() is Some
                &&& id == numbered_id(old(self)@.next_number()->0)
                &&& old(self)@.next_number()->0 > before.len()
                &&& forall|i: int| 0 <= i < before.len() ==> before[i].id != id
                &&& forall|m: nat|
                    before.len() < m < old(self)@.next_number()->0 ==> first_index_of(
                        entry_ids(before),
                        #[trigger] numbered_id(m),
                    ) is Some
            }),
    {
        proof {
            lemma_first_free_number(
                entry_ids(old(self)@.entries),
                (old(self)@.entries.len() + 1) as nat,
            );
        }
        match self.next_id() {
            Some(id) => {
                let ptype = self.default_type();
                let tags: Vec<String> = Vec::new();
                assert(strs(tags@) =~= Seq::empty());
                let config = make_bare_config(ptype.as_str());
                let entry = ProviderScratchEntry { id, name: ptype.clone(), ptype, tags, config };
                self.entries.push(entry);
                self.selected = self.entries.len() - 1;
                assert(views(self.entries@) =~= views(old(self).entries@).push(entry@));
                proof {
                    let before = old(self)@.entries;
                    let ids = entry_ids(before);
                    assert(self@.entries.last() == entry@);
                    assert forall|i: int| 0 <= i < before.len() implies before[i].id
                        != entry@.id by {
                        assert(ids[i] == before[i].id);
                    }
                }
            },
            None => {},
        }
    }

    /// Removes the selected entry.
    pub fn delete_selected(&mut self)
        ensures
            final(self)@ == old(self)@.with_deleted(),
    {
        if self.selected < self.entries.len() {
            let _gone = self.entries.remove(self.selected);
            assert(views(self.entries@) =~= views(old(self).entries@).remove(
                old(self).selected as int,
            ));
            if self.selected > 0 {
                self.selected -= 1;
            }
        }
    }

    /// Sets `model` in the configuration of the selected entry.
    pub fn apply_model_to_selected(&mut self, model_id: &str)
        ensures
            final(self)@ == old(self)@.with_model(model_id@),
    {
        if self.selected < self.entries.len() {
            let i = self.selected;
            self.entries[i].config.set(
                String::from_str("model"),
                Json::Str(String::from_str(model_id)),
            );
            assert(views(self.entries@) =~= views(old(self).entries@).update(
                i as int,
                self.entries@[i as int]@,
            ));
        }
    }

    /// The fields of a provider type; none for a type that the catalog does
    /// not know.
    pub fn schema_for(&self, ptype: &str) -> (r: Vec<FieldSchema>)
        ensures
            views(r@) == self@.schema_for(ptype@),
    {
        match lookup_fields(&self.schema_map, ptype) {
            Some(f) => crate::schema::clone_schemas(f),
            None => {
                let none: Vec<FieldSchema> = Vec::new();
                assert(views(none@) =~= Seq::empty());
                none
            },
        }
    }

    /// Opens the form of the selected entry afresh; closes it where no entry
    /// is selected.
    pub fn ensure_form_for_selected(&mut self)
        ensures
            final(self)@ == old(self)@.with_form_for_selected(),
    {
        if self.selected >= self.entries.len() {
            self.form = None;
        } else {
            let schema = self.schema_for(self.entries[self.selected].ptype.as_str());
            let form = FormState::open(&self.entries[self.selected].config, &schema);
            self.form = Some(form);
        }
    }

    /// The text of the scratch document after the entries were saved into
    /// what was there before: that document in the indented notation.
    pub fn save(&self, existing: Option<&str>) -> (r: String)
        ensures
            r@ == json_pretty(
                with_providers(
                    match existing {
                        Some(t) => Some(t@),
                        None => None,
                    },
                    self@.entries,
                ),
            ),
    {
        save_providers(existing, &self.entries)
    }

    /// The configuration that a validation run tests; none where no entry is
    /// selected.
    pub fn effective_config(&self) -> (r: Option<Json>)
        ensures
            match r {
                Some(c) => self@.has_selected() && c@ == self@.effective_config(),
                None => !self@.has_selected(),
            },
    {
        if self.selected >= self.entries.len() {
            return None;
        }
        let mut config = self.entries[self.selected].config.duplicate();
        match &self.form {
            Some(f) => {
                f.apply_to(&mut config);
            },
            None => {},
        }
        Some(config)
    }
}

/// Reads the page from the schema document of the tool and the text of the
/// scratch document: the entries of the scratch document, the catalog of the
/// schema, the known types in ascending order, and nothing open or running.
pub fn load_providers_state(schema: &Json, scratch_text: &str) -> (r: ProvidersState)
    ensures
        r@.entries == entries_of(array_or_empty(document_of(scratch_text@), "providers"@)),
        r@.schema_map == catalog_of(raw_providers(schema@)),
        r@.schema_types.to_multiset() == type_names_of(raw_providers(schema@)).to_multiset(),
        strs_sorted(r@.schema_types),
        r@ == (ProvidersV {
            entries: r@.entries,
            schema_types: r@.schema_types,
            schema_map: r@.schema_map,
            ..ProvidersV::empty()
        }),
        r@.wf(),
{
    let parsed = parse_schema(schema);
    let doc = read_document(scratch_text);
    let entries = read_entries(&doc);
    let r = ProvidersState {
        entries,
        selected: 0,
        schema_types: parsed.0,
        schema_map: parsed.1,
        test_status: None,
        form: None,
        focus_right: false,
        dropdown: None,
        test_in_progress: false,
        test_log: Vec::new(),
        pending_test_hash: None,
        show_test_popup: false,
    };
    assert(r@.test_log =~= Seq::empty());
    assert(r@.entries.len() == r.entries.len());
    r
}

/// The page from what reading the schema gave: with a schema, the page
/// read from it and from the text of the scratch document; without, the
/// empty page and the error to show.
pub fn load_providers_page(schema: Result<Json, String>, scratch_text: &str) -> (r: (
    ProvidersState,
    Option<String>,
))
    ensures
        r.0@.wf(),
        match schema {
            Ok(doc) => {
                &&& r.1 is None
                &&& r.0@.entries == entries_of(
                    array_or_empty(document_of(scratch_text@), "providers"@),
                )
                &&& r.0@.schema_map == catalog_of(raw_providers(doc@))
                &&& r.0@.schema_types.to_multiset() == type_names_of(
                    raw_providers(doc@),
                ).to_multiset()
                &&& strs_sorted(r.0@.schema_types)
                &&& r.0@ == (ProvidersV {
                    entries: r.0@.entries,
                    schema_types: r.0@.schema_types,
                    schema_map: r.0@.schema_map,
                    ..ProvidersV::empty()
                })
            },
            Err(e) => r.0@ == ProvidersV::empty() && opt_str(r.1) == Some(
                "Load providers failed: "@ + e@,
            ),
        },
{
    match schema {
        Ok(doc) => (load_providers_state(&doc, scratch_text), None),
        Err(e) => {
            let mut m = String::from_str("Load providers failed: ");
            m.append(e.as_str());
            (ProvidersState::empty(), Some(m))
        },
    }
}

} // verus!
