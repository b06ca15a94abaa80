//! The page that shows a markdown text: its lines, its headings as a table
//! of contents, and the scroll position.
use crate::keys::Key;
use crate::schema::views;
use crate::text::strs;
use vstd::prelude::*;
use vstd::string::StrSliceExecFns;
use vstd::string::StringExecFns;

verus! {

/// One heading of the text.
#[derive(Clone, Debug)]
pub struct TocEntry {
    /// The depth of the heading, 1 to 3.
    pub level: u8,
    pub title: String,
    /// The line of the text that holds the heading, from 0.
    pub line: usize,
}

/// The model of a [`TocEntry`].
#[verifier::ext_equal]
pub struct TocEntryV {
    pub level: u8,
    pub title: Seq<char>,
    pub line: int,
}

impl View for TocEntry {
    type V = TocEntryV;

    open spec fn view(&self) -> TocEntryV {
        TocEntryV { level: self.level, title: self.title@, line: self.line as int }
    }
}

/// The page that shows the text.
#[derive(Clone, Debug)]
pub struct ReadmeState {
    pub lines: Vec<String>,
    pub toc: Vec<TocEntry>,
    pub show_toc: bool,
    /// The first line shown.
    pub scroll: usize,
    /// Whether the table of contents, not the text, has the keys.
    pub focus_toc: bool,
    pub toc_selected: usize,
}

/// The model of a [`ReadmeState`].
#[verifier::ext_equal]
pub struct ReadmeV {
    pub lines: Seq<Seq<char>>,
    pub toc: Seq<TocEntryV>,
    pub show_toc: bool,
    pub scroll: int,
    pub focus_toc: bool,
    pub toc_selected: int,
}

impl View for ReadmeState {
    type V = ReadmeV;

    open spec fn view(&self) -> ReadmeV {
        ReadmeV {
            lines: strs(self.lines@),
            toc: views(self.toc@),
            show_toc: self.show_toc,
            scroll: self.scroll as int,
            focus_toc: self.focus_toc,
            toc_selected: self.toc_selected as int,
        }
    }
}

/// `s` begins with `prefix`.
pub open spec fn has_prefix(s: Seq<char>, prefix: Seq<char>) -> bool {
    prefix.len() <= s.len() && s.subrange(0, prefix.len() as int) == prefix
}

/// The heading that a line is, if it is one: the depth and the title. Three
/// hashes are looked for first, then two, then one, each followed by a
/// space.
pub open spec fn heading_of(line: Seq<char>) -> Option<(u8, Seq<char>)> {
    if has_prefix(line, "### "@) {
        Some((3u8, line.skip("### "@.len() as int)))
    } else if has_prefix(line, "## "@) {
        Some((2u8, line.skip("## "@.len() as int)))
    } else if has_prefix(line, "# "@) {
        Some((1u8, line.skip("# "@.len() as int)))
    } else {
        None
    }
}

/// The table of contents of a list of lines.
pub open spec fn toc_of(lines: Seq<Seq<char>>) -> Seq<TocEntryV>
    decreases lines.len(),
{
    if lines.len() == 0 {
        Seq::empty()
    } else {
        let sofar = toc_of(lines.drop_last());
        match heading_of(lines.last()) {
            Some((level, title)) => sofar.push(TocEntryV { level, title, line: lines.len() - 1 }),
            None => sofar,
        }
    }
}

/// The lines of a text. A line ends at a line feed, which is no part of
/// it, and neither is a carriage return right before that line feed; any
/// other carriage return stays. The last line needs no line feed, and a text
/// that ends in one has no empty line after it.
pub open spec fn text_lines(text: Seq<char>) -> Seq<Seq<char>>
    decreases text.len(),
{
    if text.len() == 0 {
        Seq::empty()
    } else {
        let rest = text_lines(text.drop_first());
        if text[0] == '\n' {
            seq![Seq::empty()] + rest
        } else if text[0] == '\r' && text.len() >= 2 && text[1] == '\n' {
            rest
        } else if rest.len() == 0 {
            seq![seq![text[0]]]
        } else {
            seq![seq![text[0]] + rest[0]] + rest.drop_first()
        }
    }
}

/// `str::lines`, collected: the lines of the text as [`text_lines`] states
/// them.
#[verifier::external_body]
fn split_lines(text: &str) -> (r: Vec<String>)
    ensures
        strs(r@) == text_lines(text@),
{
    text.lines().map(String::from).collect()
}

/// `s` without `prefix` at its start, where it begins with it.
pub fn strip_prefix(s: &str, prefix: &str) -> (r: Option<String>)
    ensures
        match r {
            Some(rest) => has_prefix(s@, prefix@) && rest@ == s@.skip(prefix@.len() as int),
            None => !has_prefix(s@, prefix@),
        },
{
    let n = s.unicode_len();
    let m = prefix.unicode_len();
    if m > n {
        return None;
    }
    let mut i: usize = 0;
    while i < m
        invariant
            i <= m <= n,
            n == s@.len(),
            m == prefix@.len(),
            forall|k: int| 0 <= k < i ==> s@[k] == prefix@[k],
        decreases m - i,
    {
        if s.get_char(i) != prefix.get_char(i) {
            assert(s@.subrange(0, m as int)[i as int] != prefix@[i as int]);
            return None;
        }
        i += 1;
    }
    assert(s@.subrange(0, m as int) =~= prefix@);
    let rest = String::from_str(s.substring_char(m, n));
    assert(rest@ =~= s@.skip(m as int));
    Some(rest)
}

/// The heading that a line is, if it is one.
pub fn parse_heading(line: &str) -> (r: Option<(u8, String)>)
    ensures
        match r {
            Some(h) => heading_of(line@) == Some((h.0, h.1@)),
            None => heading_of(line@) is None,
        },
{
    match strip_prefix(line, "### ") {
        Some(t) => Some((3u8, t)),
        None => match strip_prefix(line, "## ") {
            Some(t) => Some((2u8, t)),
            None => match strip_prefix(line, "# ") {
                Some(t) => Some((1u8, t)),
                None => None,
            },
        },
    }
}

impl ReadmeV {
    /// The page as a text opens it.
    pub open spec fn loaded(text: Seq<char>) -> ReadmeV {
        ReadmeV {
            lines: text_lines(text),
            toc: toc_of(text_lines(text)),
            show_toc: false,
            scroll: 0,
            focus_toc: false,
            toc_selected: 0,
        }
    }

    /// After scrolling up by `n` lines, not above the first.
    pub open spec fn scrolled_up(self, n: int) -> ReadmeV {
        ReadmeV {
            scroll: if self.scroll >= n {
                self.scroll - n
            } else {
                0
            },
            ..self
        }
    }

    /// After scrolling down by `n` lines, not beyond the largest index.
    pub open spec fn scrolled_down(self, n: int) -> ReadmeV {
        ReadmeV {
            scroll: if self.scroll + n <= usize::MAX {
                self.scroll + n
            } else {
                usize::MAX as int
            },
            ..self
        }
    }

    /// After the key that shows or hides the table of contents; hidden, it
    /// does not keep the keys.
    pub open spec fn toc_toggled(self) -> ReadmeV {
        ReadmeV { show_toc: !self.show_toc, focus_toc: !self.show_toc && self.focus_toc, ..self }
    }

    /// The table of contents has the keys.
    pub open spec fn in_toc(self) -> bool {
        self.show_toc && self.focus_toc
    }

    /// After tab: the keys change sides while the table of contents shows.
    pub open spec fn focus_switched(self) -> ReadmeV {
        if self.show_toc {
            ReadmeV { focus_toc: !self.focus_toc, ..self }
        } else {
            self
        }
    }

    /// After up: one heading up in the table of contents, else one line up.
    pub open spec fn moved_up(self) -> ReadmeV {
        if self.in_toc() {
            if self.toc_selected > 0 {
                ReadmeV { toc_selected: self.toc_selected - 1, ..self }
            } else {
                self
            }
        } else {
            self.scrolled_up(1)
        }
    }

    /// After down: one heading down in the table of contents, else one line
    /// down.
    pub open spec fn moved_down(self) -> ReadmeV {
        if self.in_toc() {
            if self.toc_selected + 1 < self.toc.len() {
                ReadmeV { toc_selected: self.toc_selected + 1, ..self }
            } else {
                self
            }
        } else {
            self.scrolled_down(1)
        }
    }

    /// After a key: `h` shows or hides the table of contents, tab changes
    /// sides, the arrows and the page keys move, enter jumps.
    pub open spec fn keyed(self, key: Key) -> ReadmeV {
        match key {
            Key::Char(c) => if c == 'h' || c == 'H' {
                self.toc_toggled()
            } else {
                self
            },
            Key::Tab => self.focus_switched(),
            Key::BackTab => self.focus_switched(),
            Key::Up => self.moved_up(),
            Key::Down => self.moved_down(),
            Key::PageUp => self.scrolled_up(8),
            Key::PageDown => self.scrolled_down(8),
            Key::Enter => self.jumped(),
            _ => self,
        }
    }

    /// After enter in the table of contents: the text scrolls to the selected
    /// heading and gets the keys.
    pub open spec fn jumped(self) -> ReadmeV {
        if self.in_toc() && 0 <= self.toc_selected < self.toc.len() {
            ReadmeV { scroll: self.toc[self.toc_selected].line, focus_toc: false, ..self }
        } else {
            self
        }
    }
}

/// Reads the page from a markdown text.
pub fn load_readme(content: &str) -> (r: ReadmeState)
    ensures
        r@ == ReadmeV::loaded(content@),
{
    let lines = split_lines(content);
    let ghost all = strs(lines@);
    let mut toc: Vec<TocEntry> = Vec::new();
    let mut i: usize = 0;
    while i < lines.len()
        invariant
            i <= lines.len(),
            all == strs(lines@),
            views(toc@) == toc_of(all.take(i as int)),
        decreases lines.len() - i,
    {
        proof {
            let stepped = all.take(i + 1);
            assert(stepped.drop_last() =~= all.take(i as int));
            assert(stepped.last() == lines@[i as int]@);
        }
        let ghost before = views(toc@);
        match parse_heading(lines[i].as_str()) {
            Some(h) => {
                let entry = TocEntry { level: h.0, title: h.1, line: i };
                toc.push(entry);
                proof {
                    assert(views(toc@) =~= before.push(entry@));
                }
            },
            None => {},
        }
        i += 1;
    }
    proof {
        assert(all.take(lines.len() as int) =~= all);
    }
    ReadmeState { lines, toc, show_toc: false, scroll: 0, focus_toc: false, toc_selected: 0 }
}

impl ReadmeState {
    /// Scrolls up by `n` lines, not above the first.
    pub fn scroll_up(&mut self, n: usize)
        ensures
            final(self)@ == old(self)@.scrolled_up(n as int),
    {
        if self.scroll >= n {
            self.scroll -= n;
        } else {
            self.scroll = 0;
        }
    }

    /// Scrolls down by `n` lines, not beyond the largest index.
    pub fn scroll_down(&mut self, n: usize)
        ensures
            final(self)@ == old(self)@.scrolled_down(n as int),
    {
        if self.scroll <= usize::MAX - n {
            self.scroll += n;
        } else {
            self.scroll = usize::MAX;
        }
    }

    /// Shows or hides the table of contents.
    pub fn toggle_toc(&mut self)
        ensures
            final(self)@ == old(self)@.toc_toggled(),
    {
        self.show_toc = !self.show_toc;
        if !self.show_toc {
            self.focus_toc = false;
        }
    }

    /// Tab: the keys change sides while the table of contents shows.
    pub fn switch_focus(&mut self)
        ensures
            final(self)@ == old(self)@.focus_switched(),
    {
        if self.show_toc {
            self.focus_toc = !self.focus_toc;
        }
    }

    /// Up: one heading up in the table of contents, else one line up.
    pub fn move_up(&mut self)
        ensures
            final(self)@ == old(self)@.moved_up(),
    {
        if self.show_toc && self.focus_toc {
            if self.toc_selected > 0 {
                self.toc_selected -= 1;
            }
        } else {
            self.scroll_up(1);
        }
    }

    /// Down: one heading down in the table of contents, else one line down.
    pub fn move_down(&mut self)
        ensures
            final(self)@ == old(self)@.moved_down(),
    {
        if self.show_toc && self.focus_toc {
            if self.toc.len() > 0 && self.toc_selected < self.toc.len() - 1 {
                self.toc_selected += 1;
            }
        } else {
            self.scroll_down(1);
        }
    }

    /// A key on the page.
    pub fn handle_key(&mut self, key: Key)
        ensures
            final(self)@ == old(self)@.keyed(key),
    {
        match key {
            Key::Char(c) => {
                if c == 'h' || c == 'H' {
                    self.toggle_toc();
                }
            },
            Key::Tab => self.switch_focus(),
            Key::BackTab => self.switch_focus(),
            Key::Up => self.move_up(),
            Key::Down => self.move_down(),
            Key::PageUp => self.scroll_up(8),
            Key::PageDown => self.scroll_down(8),
            Key::Enter => self.jump(),
            _ => {},
        }
    }

    /// Enter: scrolls to the selected heading.
    pub fn jump(&mut self)
        ensures
            final(self)@ == old(self)@.jumped(),
    {
        if self.show_toc && self.focus_toc && self.toc_selected < self.toc.len() {
            self.scroll = self.toc[self.toc_selected].line;
            self.focus_toc = false;
        }
    }
}

} // verus!
