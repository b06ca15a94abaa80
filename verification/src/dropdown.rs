//! The dropdown: a list to pick one of several strings from, narrowed by a
//! filter that the user types.
//!
//! The rows shown are the items that contain the filter, case ignored, in
//! the order of the items. The selection counts rows shown, not items.
use crate::text::contains_str;
use crate::text::first_index_of;
use crate::text::is_control;
use crate::text::is_control_code;
use crate::text::is_substring;
use crate::text::lowercase;
use crate::text::opt_str;
use crate::text::remove_char_at;
use crate::text::position_of;
use crate::text::push_char;
use crate::text::strs;
use crate::text::to_lowercase;
use vstd::prelude::*;
use vstd::string::StrSliceExecFns;

verus! {

/// An item passes a filter when the filter is empty or occurs, in lower
/// case, in the item, in lower case.
pub open spec fn passes(item: Seq<char>, filter: Seq<char>) -> bool {
    filter.len() == 0 || is_substring(lowercase(filter), lowercase(item))
}

/// The positions of the items that pass the filter, ascending.
pub open spec fn filtered_indices(items: Seq<Seq<char>>, filter: Seq<char>) -> Seq<int>
    decreases items.len(),
{
    if items.len() == 0 {
        Seq::empty()
    } else {
        let sofar = filtered_indices(items.drop_last(), filter);
        if passes(items.last(), filter) {
            sofar.push(items.len() - 1)
        } else {
            sofar
        }
    }
}

/// The items in lower case, one by one.
pub open spec fn lowered(items: Seq<Seq<char>>) -> Seq<Seq<char>> {
    Seq::new(items.len(), |i: int| lowercase(items[i]))
}

/// The positions of the rows shown, ascending, from the items and the
/// filter as they are in lower case: every row where there is no filter,
/// else the rows whose item holds the filter.
pub open spec fn passing_rows(
    lowered_items: Seq<Seq<char>>,
    lowered_filter: Seq<char>,
    no_filter: bool,
) -> Seq<int>
    decreases lowered_items.len(),
{
    if lowered_items.len() == 0 {
        Seq::empty()
    } else {
        let sofar = passing_rows(lowered_items.drop_last(), lowered_filter, no_filter);
        if no_filter || is_substring(lowered_filter, lowered_items.last()) {
            sofar.push(lowered_items.len() - 1)
        } else {
            sofar
        }
    }
}

/// The rows shown are those that pass once items and filter are in lower
/// case.
pub proof fn lemma_passing_rows(items: Seq<Seq<char>>, filter: Seq<char>)
    ensures
        filtered_indices(items, filter) == passing_rows(
            lowered(items),
            lowercase(filter),
            filter.len() == 0,
        ),
    decreases items.len(),
{
    if items.len() > 0 {
        lemma_passing_rows(items.drop_last(), filter);
        assert(lowered(items).drop_last() =~= lowered(items.drop_last()));
        assert(lowered(items).last() == lowercase(items.last()));
    }
}

/// A list of machine indices as integers.
pub open spec fn indices(v: Seq<usize>) -> Seq<int> {
    Seq::new(v.len(), |i: int| v[i] as int)
}

/// What filtering keeps: exactly the positions of the passing items, each
/// once, in ascending order.
pub proof fn lemma_filtered_indices(items: Seq<Seq<char>>, filter: Seq<char>)
    ensures
        filtered_indices(items, filter).len() <= items.len(),
        forall|k: int|
            0 <= k < filtered_indices(items, filter).len() ==> 0 <= (#[trigger] filtered_indices(
                items,
                filter,
            )[k]) < items.len() && passes(items[filtered_indices(items, filter)[k]], filter),
        forall|j: int, k: int|
            0 <= j < k < filtered_indices(items, filter).len() ==> filtered_indices(
                items,
                filter,
            )[j] < filtered_indices(items, filter)[k],
        forall|i: int|
            0 <= i < items.len() && passes(#[trigger] items[i], filter) ==> filtered_indices(
                items,
                filter,
            ).contains(i),
    decreases items.len(),
{
    if items.len() > 0 {
        let rest = items.drop_last();
        lemma_filtered_indices(rest, filter);
        let sofar = filtered_indices(rest, filter);
        let all = filtered_indices(items, filter);
        assert forall|i: int| 0 <= i < items.len() && passes(#[trigger] items[i], filter) implies all.contains(
            i,
        ) by {
            if i < items.len() - 1 {
                assert(rest[i] == items[i]);
                assert(sofar.contains(i));
                let k = choose|k: int| 0 <= k < sofar.len() && sofar[k] == i;
                assert(all[k] == i);
            } else {
                assert(all[all.len() - 1] == i);
            }
        }
        assert forall|k: int| 0 <= k < all.len() implies 0 <= (#[trigger] all[k]) < items.len()
            && passes(items[all[k]], filter) by {
            if k < sofar.len() {
                assert(all[k] == sofar[k]);
                assert(rest[sofar[k]] == items[sofar[k]]);
            }
        }
    }
}

/// Without a filter every item is shown.
pub proof fn lemma_no_filter_shows_all(items: Seq<Seq<char>>)
    ensures
        filtered_indices(items, Seq::empty()).len() == items.len(),
        forall|k: int| 0 <= k < items.len() ==> filtered_indices(items, Seq::empty())[k] == k,
    decreases items.len(),
{
    if items.len() > 0 {
        lemma_no_filter_shows_all(items.drop_last());
    }
}

/// The items in lower case, one by one.
pub fn lower_all(items: &Vec<String>) -> (r: Vec<String>)
    ensures
        strs(r@) == lowered(strs(items@)),
{
    let mut out: Vec<String> = Vec::new();
    let mut i: usize = 0;
    while i < items.len()
        invariant
            i <= items.len(),
            out.len() == i,
            forall|k: int| 0 <= k < i ==> out@[k]@ == lowercase(items@[k]@),
        decreases items.len() - i,
    {
        out.push(to_lowercase(items[i].as_str()));
        i += 1;
    }
    assert(strs(out@) =~= lowered(strs(items@)));
    out
}

/// The positions of the rows shown, ascending, from the items and the
/// filter as they are in lower case: every row where there is no filter,
/// else the rows whose item holds the filter.
pub fn rows_passing(lowered_items: &Vec<String>, lowered_filter: &str, no_filter: bool) -> (r: Vec<
    usize,
>)
    ensures
        indices(r@) == passing_rows(strs(lowered_items@), lowered_filter@, no_filter),
        r.len() <= lowered_items.len(),
        forall|k: int| 0 <= k < r.len() ==> r@[k] < lowered_items.len(),
{
    let ghost all = strs(lowered_items@);
    let mut out: Vec<usize> = Vec::new();
    let mut i: usize = 0;
    while i < lowered_items.len()
        invariant
            i <= lowered_items.len(),
            all == strs(lowered_items@),
            indices(out@) == passing_rows(all.take(i as int), lowered_filter@, no_filter),
            out.len() <= i,
            forall|k: int| 0 <= k < out.len() ==> out@[k] < i,
        decreases lowered_items.len() - i,
    {
        proof {
            let stepped = all.take(i + 1);
            assert(stepped.drop_last() =~= all.take(i as int));
            assert(stepped.last() == lowered_items@[i as int]@);
        }
        let ghost before = indices(out@);
        if no_filter || contains_str(lowered_items[i].as_str(), lowered_filter) {
            out.push(i);
            proof {
                assert(indices(out@) =~= before.push(i as int));
            }
        }
        i += 1;
    }
    proof {
        assert(all.take(lowered_items.len() as int) =~= all);
    }
    out
}

/// The open dropdown.
#[derive(Clone, Debug)]
pub struct DropdownState {
    /// The strings to pick from.
    pub items: Vec<String>,
    /// The selected row, counted among the rows shown.
    pub selected: usize,
    pub title: String,
    /// What a pick changes: `None` the provider's type, `Some(i)` field `i`.
    pub target_field: Option<usize>,
    /// The text typed to narrow the list.
    pub filter: String,
    /// The items to mark as already downloaded, where that is known.
    pub downloaded: Option<Vec<String>>,
}

/// The model of a [`DropdownState`].
#[verifier::ext_equal]
pub struct DropdownV {
    pub items: Seq<Seq<char>>,
    pub selected: int,
    pub title: Seq<char>,
    pub target_field: Option<int>,
    pub filter: Seq<char>,
    pub downloaded: Option<Seq<Seq<char>>>,
}

impl View for DropdownState {
    type V = DropdownV;

    open spec fn view(&self) -> DropdownV {
        DropdownV {
            items: strs(self.items@),
            selected: self.selected as int,
            title: self.title@,
            target_field: match self.target_field {
                Some(i) => Some(i as int),
                None => None,
            },
            filter: self.filter@,
            downloaded: match self.downloaded {
                Some(d) => Some(strs(d@)),
                None => None,
            },
        }
    }
}

impl DropdownV {
    /// A dropdown as it opens: no filter typed yet.
    pub open spec fn opened(
        items: Seq<Seq<char>>,
        selected: int,
        title: Seq<char>,
        target_field: Option<int>,
        downloaded: Option<Seq<Seq<char>>>,
    ) -> DropdownV {
        DropdownV { items, selected, title, target_field, filter: Seq::empty(), downloaded }
    }

    /// The positions of the items shown.
    pub open spec fn visible(self) -> Seq<int> {
        filtered_indices(self.items, self.filter)
    }

    /// The selection lies among the rows shown, or on row 0 where none is
    /// shown.
    pub open spec fn wf(self) -> bool {
        0 <= self.selected && (self.selected < self.visible().len() || self.selected == 0)
    }

    /// The selected row, brought back to the last row shown where it lies
    /// beyond.
    pub open spec fn clamped(self) -> int {
        if self.visible().len() == 0 {
            0
        } else if self.selected >= self.visible().len() {
            self.visible().len() - 1
        } else {
            self.selected
        }
    }

    /// With the selection brought back among the rows shown.
    pub open spec fn reclamped(self) -> DropdownV {
        DropdownV { selected: self.clamped(), ..self }
    }

    /// After up: one row up, unless on the first.
    pub open spec fn moved_up(self) -> DropdownV {
        if self.selected > 0 {
            DropdownV { selected: self.selected - 1, ..self }
        } else {
            self
        }
    }

    /// After down: one row down, unless on the last row shown.
    pub open spec fn moved_down(self) -> DropdownV {
        if self.selected + 1 < self.visible().len() {
            DropdownV { selected: self.selected + 1, ..self }
        } else {
            self.reclamped()
        }
    }

    /// After typing `c`: a control code changes nothing; any other character
    /// joins the filter and the first row is selected.
    pub open spec fn filter_typed(self, c: char) -> DropdownV {
        if is_control_code(c) {
            self
        } else {
            DropdownV { filter: self.filter.push(c), selected: 0, ..self }
        }
    }

    /// After backspace: the last character of the filter is gone and the
    /// first row is selected; an empty filter changes nothing.
    pub open spec fn filter_backspaced(self) -> DropdownV {
        if self.filter.len() > 0 {
            DropdownV { filter: self.filter.drop_last(), selected: 0, ..self }
        } else {
            self
        }
    }

    /// The item that a pick takes: that of the selected row, or of the last
    /// row where the selection lies beyond; none where no row is shown.
    pub open spec fn chosen(self) -> Option<Seq<char>> {
        if self.visible().len() == 0 {
            None
        } else {
            Some(self.items[self.visible()[self.clamped()]])
        }
    }

    /// The item is marked as downloaded.
    pub open spec fn marked(self, item: Seq<char>) -> bool {
        match self.downloaded {
            Some(d) => first_index_of(d, item) is Some,
            None => false,
        }
    }
}

impl DropdownState {
    /// Opens a dropdown over `items`, with no filter typed yet.
    pub fn open(
        items: Vec<String>,
        selected: usize,
        title: String,
        target_field: Option<usize>,
        downloaded: Option<Vec<String>>,
    ) -> (r: DropdownState)
        ensures
            r@ == DropdownV::opened(
                strs(items@),
                selected as int,
                title@,
                match target_field {
                    Some(i) => Some(i as int),
                    None => None,
                },
                match downloaded {
                    Some(d) => Some(strs(d@)),
                    None => None,
                },
            ),
    {
        DropdownState { items, selected, title, target_field, filter: String::new(), downloaded }
    }

    /// The positions of the items shown, ascending.
    pub fn filtered(&self) -> (r: Vec<usize>)
        ensures
            indices(r@) == self@.visible(),
            r.len() <= self.items.len(),
            forall|k: int| 0 <= k < r.len() ==> r@[k] < self.items.len(),
    {
        let filt = to_lowercase(self.filter.as_str());
        let low = lower_all(&self.items);
        proof {
            lemma_passing_rows(strs(self.items@), self.filter@);
        }
        rows_passing(&low, filt.as_str(), self.filter.as_str().is_empty())
    }

    /// Up: one row up, unless on the first.
    pub fn move_up(&mut self)
        ensures
            final(self)@ == old(self)@.moved_up(),
    {
        if self.selected > 0 {
            self.selected -= 1;
        }
    }

    /// Down: one row down, unless on the last row shown.
    pub fn move_down(&mut self)
        ensures
            final(self)@ == old(self)@.moved_down(),
            final(self)@.wf(),
    {
        let shown = self.filtered();
        let n = shown.len();
        if n == 0 {
            self.selected = 0;
        } else if self.selected < n - 1 {
            self.selected += 1;
        } else {
            self.selected = n - 1;
        }
    }

    /// Brings the selection back among the rows shown.
    pub fn reclamp(&mut self)
        ensures
            final(self)@ == old(self)@.reclamped(),
            final(self)@.wf(),
    {
        let shown = self.filtered();
        let n = shown.len();
        if n == 0 {
            self.selected = 0;
        } else if self.selected >= n {
            self.selected = n - 1;
        }
    }

    /// Types `c` into the filter; a control code is ignored.
    pub fn type_filter_char(&mut self, c: char)
        ensures
            final(self)@ == old(self)@.filter_typed(c),
    {
        if !is_control(c) {
            push_char(&mut self.filter, c);
            self.selected = 0;
        }
    }

    /// Removes the last character of the filter.
    pub fn backspace_filter(&mut self)
        ensures
            final(self)@ == old(self)@.filter_backspaced(),
    {
        let len = self.filter.as_str().unicode_len();
        if len > 0 {
            let shorter = remove_char_at(self.filter.as_str(), len - 1);
            assert(shorter@ =~= self.filter@.drop_last());
            self.filter = shorter;
            self.selected = 0;
        }
    }

    /// The item that a pick takes, if a row is shown.
    pub fn chosen(&self) -> (r: Option<String>)
        ensures
            opt_str(r) == self@.chosen(),
    {
        let shown = self.filtered();
        let n = shown.len();
        if n == 0 {
            None
        } else {
            let row = if self.selected >= n {
                n - 1
            } else {
                self.selected
            };
            assert(indices(shown@)[row as int] == shown@[row as int]);
            Some(self.items[shown[row]].clone())
        }
    }

    /// Whether the item is marked as downloaded.
    pub fn is_marked(&self, item: &str) -> (r: bool)
        ensures
            r == self@.marked(item@),
    {
        match &self.downloaded {
            Some(d) => position_of(d, item).is_some(),
            None => false,
        }
    }
}

} // verus!
