//! What the page that configures providers shows: which fields fit, how a
//! field's text is drawn, the labels of the list, and the marks on what
//! differs from the final configuration.
use crate::form::FormField;
use crate::form::FormFieldV;
use crate::json::json_compact;
use crate::json::json_parsed;
use crate::json::Json;
use crate::json::JsonV;
use crate::scratch::EntryV;
use crate::scratch::ProviderScratchEntry;
use crate::text::insert_char_at;
use crate::text::join;
use crate::text::joined;
use crate::text::opt_str;
use crate::text::push_char;
use crate::text::str_eq;
use crate::text::strs;
use vstd::prelude::*;
use vstd::string::StrSliceExecFns;
use vstd::string::StringExecFns;

verus! {

/// The number of fields that fit into a pane `height` rows high: three rows
/// each, after seven rows for the type row, the status line and the buttons.
pub open spec fn max_visible(height: int) -> int {
    if height > 7 {
        (height - 7) / 3
    } else {
        0
    }
}

/// The fields shown, from the first to before the last: all where they fit;
/// else as many as fit, moved so that the selected field is among them.
pub open spec fn window_of(height: int, n: int, selected: int, scroll: int) -> (int, int) {
    let fit = max_visible(height);
    if n > fit {
        let sel = if selected >= 1 {
            selected - 1
        } else {
            0
        };
        let up = if sel < scroll {
            sel
        } else {
            scroll
        };
        let down = if sel - up >= fit {
            sel + 1 - fit
        } else {
            up
        };
        let start = if down <= n - fit {
            down
        } else {
            n - fit
        };
        (start, start + fit)
    } else {
        (0, n)
    }
}

/// The fields shown in a pane `height` rows high.
pub fn field_window(height: usize, n: usize, selected: usize, scroll: usize) -> (r: (usize, usize))
    ensures
        (r.0 as int, r.1 as int) == window_of(
            height as int,
            n as int,
            selected as int,
            scroll as int,
        ),
        r.0 <= r.1 <= n,
{
    let fit: usize = if height > 7 {
        (height - 7) / 3
    } else {
        0
    };
    if n > fit {
        let sel: usize = if selected >= 1 {
            selected - 1
        } else {
            0
        };
        let up: usize = if sel < scroll {
            sel
        } else {
            scroll
        };
        let down: usize = if sel - up >= fit {
            sel + 1 - fit
        } else {
            up
        };
        let start: usize = if down <= n - fit {
            down
        } else {
            n - fit
        };
        (start, start + fit)
    } else {
        (0, n)
    }
}

/// `n` bullets.
pub open spec fn dots(n: nat) -> Seq<char> {
    Seq::new(n, |i: int| '•')
}

/// How a field's text is drawn: a secret as six bullets; the field being
/// edited with a bar at the caret, and a secret then as one bullet for each
/// character.
pub open spec fn shown_text(f: FormFieldV, active: bool) -> Seq<char> {
    let secret = f.schema.ftype == "secret"@;
    if active {
        let base = if secret {
            dots(f.buffer.len())
        } else {
            f.buffer
        };
        base.insert(f.pos(), '▌')
    } else if secret && f.buffer.len() > 0 {
        dots(6)
    } else {
        f.buffer
    }
}

/// `n` bullets.
fn make_dots(n: usize) -> (r: String)
    ensures
        r@ == dots(n as nat),
{
    let mut r = String::new();
    let mut i: usize = 0;
    while i < n
        invariant
            i <= n,
            r@ == dots(i as nat),
        decreases n - i,
    {
        push_char(&mut r, '•');
        assert(r@ =~= dots((i + 1) as nat));
        i += 1;
    }
    r
}

/// How a field's text is drawn; `active` says that it is the field being
/// edited.
pub fn display_text(f: &FormField, active: bool) -> (r: String)
    ensures
        r@ == shown_text(f@, active),
{
    let secret = str_eq(f.schema.ftype.as_str(), "secret");
    let len = f.buffer.as_str().unicode_len();
    if active {
        let pos = if f.cursor <= len {
            f.cursor
        } else {
            len
        };
        let base = if secret {
            make_dots(len)
        } else {
            f.buffer.clone()
        };
        insert_char_at(base.as_str(), pos, '▌')
    } else if secret && len > 0 {
        make_dots(6)
    } else {
        f.buffer.clone()
    }
}

/// A value as a text to compare with a field: a string as it is, a null as
/// nothing, anything else in its one-line notation.
pub open spec fn norm_text(v: JsonV) -> Seq<char> {
    match v {
        JsonV::Str(s) => s,
        JsonV::Null => Seq::empty(),
        _ => json_compact(v),
    }
}

/// A value as a text to compare with a field.
pub fn value_to_norm_string(v: &Json) -> (r: String)
    ensures
        r@ == norm_text(v@),
{
    match v {
        Json::Str(s) => s.clone(),
        Json::Null => String::new(),
        _ => v.to_compact(),
    }
}

/// The default provider that the text of a scratch document names; none
/// where the text is not JSON.
pub open spec fn default_id_of(text: Seq<char>) -> Option<Seq<char>> {
    match json_parsed(text) {
        Some(doc) => doc.str_at("default_provider_id"@),
        None => None,
    }
}

/// The default provider that the text of a scratch document names.
pub fn get_tmp_default_id(text: &str) -> (r: Option<String>)
    ensures
        opt_str(r) == default_id_of(text@),
{
    match Json::parse(text) {
        Ok(doc) => match doc.str_at("default_provider_id") {
            Some(s) => Some(String::from_str(s)),
            None => None,
        },
        Err(_) => None,
    }
}

/// The provider of the text of a final configuration: the object under
/// `provider`; none where the text is not JSON or holds no such object.
pub open spec fn final_provider_of(text: Seq<char>) -> Option<JsonV> {
    match json_parsed(text) {
        Some(doc) => match doc.get("provider"@) {
            Some(p) => if p is Object {
                Some(p)
            } else {
                None
            },
            None => None,
        },
        None => None,
    }
}

/// The provider of the text of a final configuration.
pub fn get_final_provider_object(text: &str) -> (r: Option<Json>)
    ensures
        match r {
            Some(p) => final_provider_of(text@) == Some(p@),
            None => final_provider_of(text@) is None,
        },
{
    match Json::parse(text) {
        Ok(doc) => match doc.get("provider") {
            Some(p) => if p.is_object() {
                Some(p.duplicate())
            } else {
                None
            },
            None => None,
        },
        Err(_) => None,
    }
}

/// The entry is the default provider and a final configuration is there to
/// compare it with.
pub open spec fn comparable(default_id: Option<Seq<char>>, entry_id: Seq<char>, fin: Option<JsonV>) -> bool {
    default_id == Some(entry_id) && fin is Some
}

/// The type of the entry is marked as not yet written: the entry is the
/// default provider, and the final configuration has another type.
pub open spec fn type_differs(
    default_id: Option<Seq<char>>,
    entry: EntryV,
    fin: Option<JsonV>,
) -> bool {
    comparable(default_id, entry.id, fin) && match fin->0.get("type"@) {
        Some(t) => norm_text(t) != entry.ptype,
        None => false,
    }
}

/// A field of the entry is marked as not yet written: the entry is the
/// default provider, and the final configuration lacks the field or has
/// another value for it.
pub open spec fn field_differs(
    default_id: Option<Seq<char>>,
    entry_id: Seq<char>,
    fin: Option<JsonV>,
    f: FormFieldV,
) -> bool {
    comparable(default_id, entry_id, fin) && match fin->0.get(f.schema.name) {
        Some(v) => norm_text(v) != f.buffer,
        None => true,
    }
}

/// Whether the entry is the default provider and a final configuration is
/// there to compare it with.
fn is_comparable(default_id: &Option<String>, entry_id: &str, fin: &Option<Json>) -> (r: bool)
    ensures
        r == comparable(opt_str(*default_id), entry_id@, crate::providers::opt_view(*fin)),
{
    match default_id {
        Some(d) => str_eq(d.as_str(), entry_id) && fin.is_some(),
        None => false,
    }
}

/// Whether the type of the entry is marked as not yet written.
pub fn type_unsaved(default_id: &Option<String>, entry: &ProviderScratchEntry, fin: &Option<Json>) -> (r:
    bool)
    ensures
        r == type_differs(opt_str(*default_id), entry@, crate::providers::opt_view(*fin)),
{
    if !is_comparable(default_id, entry.id.as_str(), fin) {
        return false;
    }
    match fin {
        Some(p) => match p.get("type") {
            Some(t) => {
                let shown = value_to_norm_string(t);
                !str_eq(shown.as_str(), entry.ptype.as_str())
            },
            None => false,
        },
        None => false,
    }
}

/// Whether a field of the entry is marked as not yet written.
pub fn field_unsaved(
    default_id: &Option<String>,
    entry_id: &str,
    fin: &Option<Json>,
    f: &FormField,
) -> (r: bool)
    ensures
        r == field_differs(opt_str(*default_id), entry_id@, crate::providers::opt_view(*fin), f@),
{
    if !is_comparable(default_id, entry_id, fin) {
        return false;
    }
    match fin {
        Some(p) => match p.get(f.schema.name.as_str()) {
            Some(v) => {
                let shown = value_to_norm_string(v);
                !str_eq(shown.as_str(), f.buffer.as_str())
            },
            None => true,
        },
        None => false,
    }
}

/// The title over a field: its name, a star before it where it is
/// required, and a star behind it where it is not yet written.
pub open spec fn field_title_of(f: FormFieldV, unsaved: bool) -> Seq<char> {
    (if f.schema.required {
        "* "@ + f.schema.name
    } else {
        f.schema.name
    }) + (if unsaved {
        " *"@
    } else {
        Seq::empty()
    })
}

/// The title over a field.
pub fn field_title(f: &FormField, unsaved: bool) -> (r: String)
    ensures
        r@ == field_title_of(f@, unsaved),
{
    let mut t = if f.schema.required {
        let mut t = String::from_str("* ");
        t.append(f.schema.name.as_str());
        t
    } else {
        f.schema.name.clone()
    };
    if unsaved {
        t.append(" *");
    } else {
        assert(t@ =~= t@ + Seq::<char>::empty());
    }
    t
}

/// The label of an entry in the list: a mark where it is selected, its name
/// and type, its model where the configuration names one, and its tags.
pub open spec fn entry_label_of(e: EntryV, selected: bool) -> Seq<char> {
    (if selected {
        "›"@
    } else {
        " "@
    }) + " "@ + e.name + " ["@ + e.ptype + "]"@ + (match e.config.str_at("model"@) {
        Some(m) => "  [model:"@ + m + "]"@,
        None => Seq::empty(),
    }) + (if e.tags.len() > 0 {
        "  ["@ + joined(e.tags, ","@) + "]"@
    } else {
        Seq::empty()
    })
}

/// The label of an entry in the list.
pub fn entry_label(e: &ProviderScratchEntry, selected: bool) -> (r: String)
    ensures
        r@ == entry_label_of(e@, selected),
{
    let mut t = if selected {
        String::from_str("›")
    } else {
        String::from_str(" ")
    };
    t.append(" ");
    t.append(e.name.as_str());
    t.append(" [");
    t.append(e.ptype.as_str());
    t.append("]");
    let ghost head = t@;
    match e.config.str_at("model") {
        Some(m) => {
            t.append("  [model:");
            t.append(m);
            t.append("]");
            assert(t@ =~= head + ("  [model:"@ + m@ + "]"@));
        },
        None => {
            assert(t@ =~= head + Seq::<char>::empty());
        },
    }
    let ghost mid = t@;
    if e.tags.len() > 0 {
        t.append("  [");
        t.append(join(&e.tags, ",").as_str());
        t.append("]");
        assert(t@ =~= mid + ("  ["@ + joined(strs(e.tags@), ","@) + "]"@));
    } else {
        assert(t@ =~= mid + Seq::<char>::empty());
    }
    t
}

/// The status line under the fields: the message of the form; while a
/// validation run is under way, the message or a standard one, with the
/// spinner and a hint at the log; and a note where fields lie beyond the
/// window, below or above.
pub open spec fn status_line_of(
    message: Option<Seq<char>>,
    testing: bool,
    spinner: char,
    more_below: bool,
    more_above: bool,
) -> Seq<char> {
    let base = match message {
        Some(m) => m,
        None => Seq::empty(),
    };
    let run = if testing {
        (if base.len() == 0 {
            "Testing connection…"@
        } else {
            base
        }) + " "@ + seq![spinner] + "  (L: logs)"@
    } else {
        base
    };
    let below = if more_below {
        run + "  ↓ more…"@
    } else {
        run
    };
    if more_above {
        "↑ more…  "@ + below
    } else {
        below
    }
}

/// The status line under the fields.
pub fn status_line(
    message: &Option<String>,
    testing: bool,
    spinner: char,
    more_below: bool,
    more_above: bool,
) -> (r: String)
    ensures
        r@ == status_line_of(opt_str(*message), testing, spinner, more_below, more_above),
{
    let base = match message {
        Some(m) => m.clone(),
        None => String::new(),
    };
    let mut run = if testing {
        let mut t = if base.as_str().is_empty() {
            String::from_str("Testing connection…")
        } else {
            base
        };
        t.append(" ");
        let ghost head = t@;
        push_char(&mut t, spinner);
        assert(t@ =~= head + seq![spinner]);
        t.append("  (L: logs)");
        t
    } else {
        base
    };
    if more_below {
        run.append("  ↓ more…");
    }
    if more_above {
        let mut t = String::from_str("↑ more…  ");
        t.append(run.as_str());
        t
    } else {
        run
    }
}

/// The first line of the log that its window shows: the last hundred lines
/// are shown.
pub fn log_tail_start(len: usize) -> (r: usize)
    ensures
        r == if len > 100 {
            len - 100
        } else {
            0
        },
{
    if len > 100 {
        len - 100
    } else {
        0
    }
}

} // verus!
