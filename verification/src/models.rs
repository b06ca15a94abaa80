//! The page that browses the model catalog: the models that the tool lists,
//! narrowed to those downloaded or to those with one tag.
use crate::dropdown::indices;
use crate::json::items_view;
use crate::keys::Key;
use crate::json::Json;
use crate::json::JsonV;
use crate::schema::array_or_empty;
use crate::schema::views;
use crate::scratch::str_or;
use crate::scratch::string_items;
use crate::scratch::strings_at;
use crate::text::first_index_of;
use crate::text::opt_str;
use crate::text::position_of;
use crate::text::sort_strings;
use crate::text::strs;
use crate::text::strs_sorted;
use crate::validation::elements;
use vstd::prelude::*;
use vstd::string::StringExecFns;

verus! {

/// One model of the catalog.
#[derive(Clone, Debug)]
pub struct ModelEntry {
    pub id: String,
    pub name: String,
    pub size: Option<String>,
    pub file_size_mb: Option<u64>,
    pub context_window: Option<u64>,
    pub tags: Vec<String>,
    pub downloaded: bool,
    pub current: bool,
    /// The entry as the tool wrote it.
    pub raw: Json,
}

/// The model of a [`ModelEntry`].
#[verifier::ext_equal]
pub struct ModelEntryV {
    pub id: Seq<char>,
    pub name: Seq<char>,
    pub size: Option<Seq<char>>,
    pub file_size_mb: Option<u64>,
    pub context_window: Option<u64>,
    pub tags: Seq<Seq<char>>,
    pub downloaded: bool,
    pub current: bool,
    pub raw: JsonV,
}

impl View for ModelEntry {
    type V = ModelEntryV;

    open spec fn view(&self) -> ModelEntryV {
        ModelEntryV {
            id: self.id@,
            name: self.name@,
            size: opt_str(self.size),
            file_size_mb: self.file_size_mb,
            context_window: self.context_window,
            tags: strs(self.tags@),
            downloaded: self.downloaded,
            current: self.current,
            raw: self.raw@,
        }
    }
}

/// The non-negative integer under `key`.
pub open spec fn u64_at(doc: JsonV, key: Seq<char>) -> Option<u64> {
    match doc.get(key) {
        Some(v) => v.as_u64(),
        None => None,
    }
}

/// The catalog entry that a raw model gives.
pub open spec fn model_of(v: JsonV) -> ModelEntryV {
    let id = str_or(v, "id"@, Seq::empty());
    ModelEntryV {
        id,
        name: str_or(v, "name"@, id),
        size: v.str_at("size"@),
        file_size_mb: u64_at(v, "file_size_mb"@),
        context_window: u64_at(v, "context_window"@),
        tags: string_items(array_or_empty(v, "tags"@)),
        downloaded: v.bool_at("downloaded"@) == Some(true),
        current: v.bool_at("current"@) == Some(true),
        raw: v,
    }
}

/// The catalog entries of a list of raw models.
pub open spec fn models_of(items: Seq<JsonV>) -> Seq<ModelEntryV> {
    Seq::new(items.len(), |i: int| model_of(items[i]))
}

/// `acc` with the strings of `items` added at its end, each only where it is
/// not there yet.
pub open spec fn with_new(acc: Seq<Seq<char>>, items: Seq<Seq<char>>) -> Seq<Seq<char>>
    decreases items.len(),
{
    if items.len() == 0 {
        acc
    } else {
        let sofar = with_new(acc, items.drop_last());
        if first_index_of(sofar, items.last()) is None {
            sofar.push(items.last())
        } else {
            sofar
        }
    }
}

/// The tags of a list of entries, each once, in the order met.
pub open spec fn tags_of(entries: Seq<ModelEntryV>) -> Seq<Seq<char>>
    decreases entries.len(),
{
    if entries.len() == 0 {
        Seq::empty()
    } else {
        with_new(tags_of(entries.drop_last()), entries.last().tags)
    }
}

/// An entry passes the filters: downloaded where only those are asked for,
/// and tagged with the tag where one is asked for.
pub open spec fn keeps(e: ModelEntryV, downloaded_only: bool, tag: Option<Seq<char>>) -> bool {
    (!downloaded_only || e.downloaded) && match tag {
        Some(t) => first_index_of(e.tags, t) is Some,
        None => true,
    }
}

/// The positions of the entries that pass the filters, ascending.
pub open spec fn kept_indices(
    entries: Seq<ModelEntryV>,
    downloaded_only: bool,
    tag: Option<Seq<char>>,
) -> Seq<int>
    decreases entries.len(),
{
    if entries.len() == 0 {
        Seq::empty()
    } else {
        let sofar = kept_indices(entries.drop_last(), downloaded_only, tag);
        if keeps(entries.last(), downloaded_only, tag) {
            sofar.push(entries.len() - 1)
        } else {
            sofar
        }
    }
}

/// The page that browses the catalog.
#[derive(Clone, Debug)]
pub struct ModelBrowser {
    pub entries: Vec<ModelEntry>,
    /// The positions of the entries shown.
    pub filtered: Vec<usize>,
    /// The selected row, counted among the rows shown.
    pub selected: usize,
    pub downloaded_only: bool,
    pub tag_filter: Option<String>,
    pub show_info: bool,
    /// Every tag of the catalog, once, ascending.
    pub all_tags: Vec<String>,
}

/// The model of a [`ModelBrowser`].
#[verifier::ext_equal]
pub struct ModelBrowserV {
    pub entries: Seq<ModelEntryV>,
    pub filtered: Seq<int>,
    pub selected: int,
    pub downloaded_only: bool,
    pub tag_filter: Option<Seq<char>>,
    pub show_info: bool,
    pub all_tags: Seq<Seq<char>>,
}

impl View for ModelBrowser {
    type V = ModelBrowserV;

    open spec fn view(&self) -> ModelBrowserV {
        ModelBrowserV {
            entries: views(self.entries@),
            filtered: indices(self.filtered@),
            selected: self.selected as int,
            downloaded_only: self.downloaded_only,
            tag_filter: opt_str(self.tag_filter),
            show_info: self.show_info,
            all_tags: strs(self.all_tags@),
        }
    }
}

impl ModelBrowserV {
    /// With the rows shown computed afresh and the selection brought back
    /// among them.
    pub open spec fn refiltered(self) -> ModelBrowserV {
        let shown = kept_indices(self.entries, self.downloaded_only, self.tag_filter);
        ModelBrowserV {
            filtered: shown,
            selected: if shown.len() == 0 {
                0
            } else if self.selected >= shown.len() {
                shown.len() - 1
            } else {
                self.selected
            },
            ..self
        }
    }

    /// After up: one row up, unless on the first.
    pub open spec fn moved_up(self) -> ModelBrowserV {
        if self.filtered.len() > 0 && self.selected > 0 {
            ModelBrowserV { selected: self.selected - 1, ..self }
        } else {
            self
        }
    }

    /// After down: one row down, unless on the last.
    pub open spec fn moved_down(self) -> ModelBrowserV {
        if self.selected + 1 < self.filtered.len() {
            ModelBrowserV { selected: self.selected + 1, ..self }
        } else {
            self
        }
    }

    /// After the key that shows only downloaded models, or all again.
    pub open spec fn downloaded_toggled(self) -> ModelBrowserV {
        (ModelBrowserV { downloaded_only: !self.downloaded_only, ..self }).refiltered()
    }

    /// The tag after the one asked for: from none to the first, from each to
    /// the next, from the last to none.
    pub open spec fn next_tag(self) -> Option<Seq<char>> {
        match self.tag_filter {
            None => Some(self.all_tags[0]),
            Some(cur) => {
                let at = match first_index_of(self.all_tags, cur) {
                    Some(i) => i,
                    None => 0,
                };
                if at + 1 < self.all_tags.len() {
                    Some(self.all_tags[at + 1])
                } else {
                    None
                }
            },
        }
    }

    /// After the key that walks through the tags; nothing without tags.
    pub open spec fn tag_cycled(self) -> ModelBrowserV {
        if self.all_tags.len() == 0 {
            self
        } else {
            (ModelBrowserV { tag_filter: self.next_tag(), ..self }).refiltered()
        }
    }

    /// After a key that stays on the page: the arrows move, `r` shows only
    /// downloaded models or all again, `f` walks through the tags, `i` shows
    /// or hides the details.
    pub open spec fn keyed(self, key: Key) -> ModelBrowserV {
        match key {
            Key::Up => self.moved_up(),
            Key::Down => self.moved_down(),
            Key::Char(c) => if c == 'r' || c == 'R' {
                self.downloaded_toggled()
            } else if c == 'f' || c == 'F' {
                self.tag_cycled()
            } else if c == 'i' || c == 'I' {
                ModelBrowserV { show_info: !self.show_info, ..self }
            } else {
                self
            },
            _ => self,
        }
    }

    /// The selected entry, where a row is selected and stands for an entry.
    pub open spec fn current(self) -> Option<ModelEntryV> {
        if 0 <= self.selected < self.filtered.len() && 0 <= self.filtered[self.selected]
            < self.entries.len() {
            Some(self.entries[self.filtered[self.selected]])
        } else {
            None
        }
    }
}

impl ModelEntry {
    /// Reads one raw model.
    pub fn from_json(v: &Json) -> (r: ModelEntry)
        ensures
            r@ == model_of(v@),
    {
        let id = match v.str_at("id") {
            Some(s) => String::from_str(s),
            None => String::new(),
        };
        let name = match v.str_at("name") {
            Some(s) => String::from_str(s),
            None => id.clone(),
        };
        let size = match v.str_at("size") {
            Some(s) => Some(String::from_str(s)),
            None => None,
        };
        let file_size_mb = match v.get("file_size_mb") {
            Some(n) => n.as_u64(),
            None => None,
        };
        let context_window = match v.get("context_window") {
            Some(n) => n.as_u64(),
            None => None,
        };
        let tags = strings_at(v, "tags");
        let downloaded = match v.bool_at("downloaded") {
            Some(b) => b,
            None => false,
        };
        let current = match v.bool_at("current") {
            Some(b) => b,
            None => false,
        };
        ModelEntry {
            id,
            name,
            size,
            file_size_mb,
            context_window,
            tags,
            downloaded,
            current,
            raw: v.duplicate(),
        }
    }

    /// Whether the entry passes the filters.
    pub fn passes(&self, downloaded_only: bool, tag: &Option<String>) -> (r: bool)
        ensures
            r == keeps(self@, downloaded_only, opt_str(*tag)),
    {
        if downloaded_only && !self.downloaded {
            return false;
        }
        match tag {
            Some(t) => position_of(&self.tags, t.as_str()).is_some(),
            None => true,
        }
    }
}

/// Adds the strings of `items` to `acc`, each only where it is not there
/// yet.
fn add_new(acc: &mut Vec<String>, items: &Vec<String>)
    ensures
        strs(final(acc)@) == with_new(strs(old(acc)@), strs(items@)),
{
    let ghost start = strs(acc@);
    let ghost all = strs(items@);
    let mut i: usize = 0;
    while i < items.len()
        invariant
            i <= items.len(),
            all == strs(items@),
            strs(acc@) == with_new(start, all.take(i as int)),
        decreases items.len() - i,
    {
        proof {
            let stepped = all.take(i + 1);
            assert(stepped.drop_last() =~= all.take(i as int));
            assert(stepped.last() == items@[i as int]@);
        }
        let ghost before = strs(acc@);
        if position_of(acc, items[i].as_str()).is_none() {
            acc.push(items[i].clone());
            proof {
                assert(strs(acc@) =~= before.push(items@[i as int]@));
            }
        }
        i += 1;
    }
    proof {
        assert(all.take(items.len() as int) =~= all);
    }
}

/// Reads the page from the list of models that the tool wrote: every model
/// shown, the first selected, and the tags of the catalog in ascending order.
pub fn fetch_models(list: &Json) -> (r: ModelBrowser)
    ensures
        r@.entries == models_of(elements(list@)),
        r@.all_tags.to_multiset() == tags_of(models_of(elements(list@))).to_multiset(),
        strs_sorted(r@.all_tags),
        r@ == (ModelBrowserV {
            entries: r@.entries,
            filtered: Seq::empty(),
            selected: 0,
            downloaded_only: false,
            tag_filter: None,
            show_info: false,
            all_tags: r@.all_tags,
        }).refiltered(),
{
    let mut entries: Vec<ModelEntry> = Vec::new();
    let mut tags: Vec<String> = Vec::new();
    assert(strs(tags@) =~= tags_of(Seq::empty()));
    match list.as_array() {
        Some(items) => {
            let ghost all = models_of(items_view(items@));
            let mut i: usize = 0;
            while i < items.len()
                invariant
                    i <= items.len(),
                    entries.len() == i,
                    all == models_of(items_view(items@)),
                    forall|k: int| 0 <= k < i ==> entries@[k]@ == all[k],
                    strs(tags@) == tags_of(all.take(i as int)),
                decreases items.len() - i,
            {
                proof {
                    let stepped = all.take(i + 1);
                    assert(stepped.drop_last() =~= all.take(i as int));
                    assert(stepped.last() == model_of(items@[i as int]@));
                }
                let e = ModelEntry::from_json(&items[i]);
                add_new(&mut tags, &e.tags);
                entries.push(e);
                i += 1;
            }
            proof {
                assert(all.take(items.len() as int) =~= all);
                assert(views(entries@) =~= all);
            }
        },
        None => {
            proof {
                assert(views(entries@) =~= models_of(Seq::empty()));
            }
        },
    }
    sort_strings(&mut tags);
    let mut mb = ModelBrowser {
        entries,
        filtered: Vec::new(),
        selected: 0,
        downloaded_only: false,
        tag_filter: None,
        show_info: false,
        all_tags: tags,
    };
    assert(indices(mb.filtered@) =~= Seq::empty());
    mb.compute_filtered();
    mb
}

impl ModelBrowser {
    /// Computes the rows shown afresh and brings the selection back among
    /// them.
    pub fn compute_filtered(&mut self)
        ensures
            final(self)@ == old(self)@.refiltered(),
    {
        let ghost all = views(self.entries@);
        let mut out: Vec<usize> = Vec::new();
        let mut i: usize = 0;
        while i < self.entries.len()
            invariant
                i <= self.entries.len(),
                all == views(self.entries@),
                *self == *old(self),
                indices(out@) == kept_indices(
                    all.take(i as int),
                    self.downloaded_only,
                    opt_str(self.tag_filter),
                ),
            decreases self.entries.len() - i,
        {
            proof {
                let stepped = all.take(i + 1);
                assert(stepped.drop_last() =~= all.take(i as int));
                assert(stepped.last() == self.entries@[i as int]@);
            }
            let ghost before = indices(out@);
            if self.entries[i].passes(self.downloaded_only, &self.tag_filter) {
                out.push(i);
                proof {
                    assert(indices(out@) =~= before.push(i as int));
                }
            }
            i += 1;
        }
        proof {
            assert(all.take(self.entries.len() as int) =~= all);
        }
        self.filtered = out;
        if self.filtered.len() == 0 {
            self.selected = 0;
        } else if self.selected >= self.filtered.len() {
            self.selected = self.filtered.len() - 1;
        }
    }

    /// Up: one row up, unless on the first.
    pub fn move_up(&mut self)
        ensures
            final(self)@ == old(self)@.moved_up(),
    {
        if self.filtered.len() > 0 && self.selected > 0 {
            self.selected -= 1;
        }
    }

    /// Down: one row down, unless on the last.
    pub fn move_down(&mut self)
        ensures
            final(self)@ == old(self)@.moved_down(),
    {
        if self.filtered.len() > 0 && self.selected < self.filtered.len() - 1 {
            self.selected += 1;
        }
    }

    /// Shows only downloaded models, or all again.
    pub fn toggle_downloaded_only(&mut self)
        ensures
            final(self)@ == old(self)@.downloaded_toggled(),
    {
        self.downloaded_only = !self.downloaded_only;
        self.compute_filtered();
    }

    /// Walks through the tags: from none to the first, from each to the
    /// next, from the last to none.
    pub fn cycle_tag(&mut self)
        ensures
            final(self)@ == old(self)@.tag_cycled(),
    {
        if self.all_tags.len() == 0 {
            return;
        }
        let next = match &self.tag_filter {
            None => Some(self.all_tags[0].clone()),
            Some(cur) => {
                let at = match position_of(&self.all_tags, cur.as_str()) {
                    Some(i) => i,
                    None => 0,
                };
                if at < self.all_tags.len() - 1 {
                    Some(self.all_tags[at + 1].clone())
                } else {
                    None
                }
            },
        };
        self.tag_filter = next;
        self.compute_filtered();
    }

    /// A key on the page. Enter leaves the page and returns `Some` of the id
    /// of the selected model, if one is selected; any other key stays and
    /// returns `None`.
    pub fn handle_key(&mut self, key: Key) -> (r: Option<Option<String>>)
        ensures
            match r {
                Some(id) => key is Enter && final(self)@ == old(self)@ && opt_str(id) == (
                match old(self)@.current() {
                    Some(e) => Some(e.id),
                    None => None,
                }),
                None => !(key is Enter) && final(self)@ == old(self)@.keyed(key),
            },
    {
        match key {
            Key::Enter => {
                let id = match self.current_entry() {
                    Some(e) => Some(e.id.clone()),
                    None => None,
                };
                Some(id)
            },
            Key::Up => {
                self.move_up();
                None
            },
            Key::Down => {
                self.move_down();
                None
            },
            Key::Char(c) => {
                if c == 'r' || c == 'R' {
                    self.toggle_downloaded_only();
                } else if c == 'f' || c == 'F' {
                    self.cycle_tag();
                } else if c == 'i' || c == 'I' {
                    self.show_info = !self.show_info;
                }
                None
            },
            _ => None,
        }
    }

    /// The selected entry.
    pub fn current_entry(&self) -> (r: Option<&ModelEntry>)
        ensures
            match r {
                Some(e) => self@.current() == Some(e@),
                None => self@.current() is None,
            },
    {
        if self.selected < self.filtered.len() {
            let i = self.filtered[self.selected];
            assert(indices(self.filtered@)[self.selected as int] == i);
            if i < self.entries.len() {
                Some(&self.entries[i])
            } else {
                None
            }
        } else {
            None
        }
    }
}

} // verus!
