//! The form of one provider: its fields, the caret, the rows that can be
//! selected, the content hash and the save gate.
//!
//! Row 0 is the type row, rows `1..=n` are the `n` fields, and the three rows
//! after them are the buttons Test, Save and Cancel, which up and down treat
//! as one group.
use crate::json::Json;
use crate::json::JsonV;
use crate::schema::views;
use crate::schema::FieldSchema;
use crate::schema::FieldSchemaV;
use crate::text::insert_char_at;
use crate::text::opt_str;
use crate::text::parse_i64;
use crate::text::parsed_i64;
use crate::text::push_char;
use crate::text::remove_char_at;
use crate::text::str_eq;
use crate::text::trim;
use crate::text::trimmed;
use vstd::prelude::*;
use vstd::string::StrSliceExecFns;
use vstd::string::StringExecFns;

verus! {

/// One field being edited: its descriptor, the text typed so far and the
/// caret, counted in characters.
#[derive(Clone, Debug)]
pub struct FormField {
    pub schema: FieldSchema,
    pub buffer: String,
    pub cursor: usize,
}

/// The model of a [`FormField`].
#[verifier::ext_equal]
pub struct FormFieldV {
    pub schema: FieldSchemaV,
    pub buffer: Seq<char>,
    pub cursor: int,
}

impl View for FormField {
    type V = FormFieldV;

    open spec fn view(&self) -> FormFieldV {
        FormFieldV { schema: self.schema@, buffer: self.buffer@, cursor: self.cursor as int }
    }
}

impl FormFieldV {
    /// The caret lies within the text.
    pub open spec fn wf(self) -> bool {
        0 <= self.cursor <= self.buffer.len()
    }

    /// The caret, brought back to the end of the text where it lies beyond.
    pub open spec fn pos(self) -> int {
        if self.cursor < 0 {
            0
        } else if self.cursor <= self.buffer.len() {
            self.cursor
        } else {
            self.buffer.len() as int
        }
    }

    /// After typing `c`: the character stands before the caret. A text that
    /// already fills the address space stays as it is.
    pub open spec fn inserted(self, c: char) -> FormFieldV {
        if self.buffer.len() >= usize::MAX {
            self
        } else {
            FormFieldV {
                buffer: self.buffer.insert(self.pos(), c),
                cursor: self.pos() + 1,
                ..self
            }
        }
    }

    /// After backspace: the character before the caret is gone.
    pub open spec fn backspaced(self) -> FormFieldV {
        if self.pos() > 0 {
            FormFieldV {
                buffer: self.buffer.remove(self.pos() - 1),
                cursor: self.pos() - 1,
                ..self
            }
        } else {
            self
        }
    }

    /// After delete: the character at the caret is gone.
    pub open spec fn deleted(self) -> FormFieldV {
        if self.pos() < self.buffer.len() {
            FormFieldV { buffer: self.buffer.remove(self.pos()), cursor: self.pos(), ..self }
        } else {
            self
        }
    }

    /// After left: the caret one character back.
    pub open spec fn left(self) -> FormFieldV {
        if self.pos() > 0 {
            FormFieldV { cursor: self.pos() - 1, ..self }
        } else {
            self
        }
    }

    /// After right: the caret one character on.
    pub open spec fn right(self) -> FormFieldV {
        if self.pos() < self.buffer.len() {
            FormFieldV { cursor: self.pos() + 1, ..self }
        } else {
            self
        }
    }

    /// After home: the caret before the first character.
    pub open spec fn home(self) -> FormFieldV {
        FormFieldV { cursor: 0, ..self }
    }

    /// After end: the caret behind the last character.
    pub open spec fn end(self) -> FormFieldV {
        FormFieldV { cursor: self.buffer.len() as int, ..self }
    }

    /// With the text replaced; the caret stays within it.
    pub open spec fn replaced(self, text: Seq<char>) -> FormFieldV {
        FormFieldV {
            buffer: text,
            cursor: if self.cursor <= text.len() {
                self.cursor
            } else {
                text.len() as int
            },
            ..self
        }
    }

    /// The field is required and holds nothing but white space.
    pub open spec fn missing(self) -> bool {
        self.schema.required && trimmed(self.buffer).len() == 0
    }

    /// The value that the text stands for: an integer where the kind is `int`
    /// and the text is one, the text itself otherwise.
    pub open spec fn coerced(self) -> JsonV {
        if self.schema.ftype == "int"@ {
            match parsed_i64(self.buffer) {
                Some(n) => JsonV::of_int(n),
                None => JsonV::Str(self.buffer),
            }
        } else {
            JsonV::Str(self.buffer)
        }
    }
}

impl FormField {
    /// A field of the given descriptor with a text and the caret at its start.
    pub fn new(schema: FieldSchema, buffer: String) -> (r: FormField)
        ensures
            r@ == (FormFieldV { schema: schema@, buffer: buffer@, cursor: 0 }),
            r@.wf(),
    {
        FormField { schema, buffer, cursor: 0 }
    }

    /// The caret within the text, and the length of the text.
    fn caret(&self) -> (r: (usize, usize))
        ensures
            r.0 == self@.pos(),
            r.1 == self@.buffer.len(),
    {
        let len = self.buffer.as_str().unicode_len();
        if self.cursor <= len {
            (self.cursor, len)
        } else {
            (len, len)
        }
    }

    /// Types `c` at the caret. Returns whether the text changed.
    pub fn insert_char(&mut self, c: char) -> (changed: bool)
        ensures
            final(self)@ == old(self)@.inserted(c),
            changed == (final(self)@.buffer != old(self)@.buffer),
            final(self)@.wf(),
    {
        let (pos, len) = self.caret();
        if len == usize::MAX {
            false
        } else {
            let text = insert_char_at(self.buffer.as_str(), pos, c);
            self.buffer = text;
            self.cursor = pos + 1;
            assert(final(self)@.buffer.len() != old(self)@.buffer.len());
            true
        }
    }

    /// Removes the character before the caret. Returns whether the text
    /// changed.
    pub fn backspace(&mut self) -> (changed: bool)
        ensures
            final(self)@ == old(self)@.backspaced(),
            changed == (old(self)@.pos() > 0),
    {
        let (pos, _len) = self.caret();
        if pos > 0 {
            let text = remove_char_at(self.buffer.as_str(), pos - 1);
            self.buffer = text;
            self.cursor = pos - 1;
            true
        } else {
            false
        }
    }

    /// Removes the character at the caret. Returns whether the text changed.
    pub fn delete(&mut self) -> (changed: bool)
        ensures
            final(self)@ == old(self)@.deleted(),
            changed == (old(self)@.pos() < old(self)@.buffer.len()),
    {
        let (pos, len) = self.caret();
        if pos < len {
            let text = remove_char_at(self.buffer.as_str(), pos);
            self.buffer = text;
            self.cursor = pos;
            true
        } else {
            false
        }
    }

    /// Moves the caret one character back.
    pub fn move_left(&mut self)
        ensures
            final(self)@ == old(self)@.left(),
    {
        let (pos, _len) = self.caret();
        if pos > 0 {
            self.cursor = pos - 1;
        }
    }

    /// Moves the caret one character on.
    pub fn move_right(&mut self)
        ensures
            final(self)@ == old(self)@.right(),
    {
        let (pos, len) = self.caret();
        if pos < len {
            self.cursor = pos + 1;
        }
    }

    /// Moves the caret before the first character.
    pub fn move_home(&mut self)
        ensures
            final(self)@ == old(self)@.home(),
    {
        self.cursor = 0;
    }

    /// Moves the caret behind the last character.
    pub fn move_end(&mut self)
        ensures
            final(self)@ == old(self)@.end(),
    {
        let (_pos, len) = self.caret();
        self.cursor = len;
    }

    /// Replaces the text; the caret stays within it.
    pub fn replace_text(&mut self, text: String)
        ensures
            final(self)@ == old(self)@.replaced(text@),
            final(self)@.wf(),
    {
        let len = text.as_str().unicode_len();
        self.buffer = text;
        if self.cursor > len {
            self.cursor = len;
        }
    }

    /// Whether the field is required and holds nothing but white space.
    pub fn is_missing(&self) -> (r: bool)
        ensures
            r == self@.missing(),
    {
        self.schema.required && trim(self.buffer.as_str()).is_empty()
    }

    /// The value that the text stands for.
    pub fn coerce(&self) -> (r: Json)
        ensures
            r@ == self@.coerced(),
    {
        if str_eq(self.schema.ftype.as_str(), "int") {
            match parse_i64(self.buffer.as_str()) {
                Some(n) => Json::from_i64(n),
                None => Json::Str(self.buffer.clone()),
            }
        } else {
            Json::Str(self.buffer.clone())
        }
    }
}

/// The content hash of a list of fields: for each field its name, `=`, its
/// text and the unit separator U+001F.
pub open spec fn form_hash(fields: Seq<FormFieldV>) -> Seq<char>
    decreases fields.len(),
{
    if fields.len() == 0 {
        Seq::empty()
    } else {
        form_hash(fields.drop_last()) + fields.last().schema.name + seq!['='] + fields.last().buffer
            + seq!['\u{1F}']
    }
}

/// The content hash of the fields, for comparing one state of a form with
/// another.
pub fn compute_form_hash(fields: &Vec<FormField>) -> (r: String)
    ensures
        r@ == form_hash(views(fields@)),
{
    let ghost all = views(fields@);
    let mut s = String::new();
    let mut i: usize = 0;
    while i < fields.len()
        invariant
            i <= fields.len(),
            all == views(fields@),
            s@ == form_hash(all.take(i as int)),
        decreases fields.len() - i,
    {
        proof {
            let stepped = all.take(i + 1);
            assert(stepped.drop_last() =~= all.take(i as int));
            assert(stepped.last() == fields@[i as int]@);
        }
        let ghost before = s@;
        s.append(fields[i].schema.name.as_str());
        push_char(&mut s, '=');
        s.append(fields[i].buffer.as_str());
        push_char(&mut s, '\u{1F}');
        proof {
            let f = fields@[i as int]@;
            assert(s@ =~= before + f.schema.name + seq!['='] + f.buffer + seq!['\u{1F}']);
        }
        i += 1;
    }
    proof {
        assert(all.take(fields.len() as int) =~= all);
    }
    s
}

/// The text that a field opens with: the configured value where there is a
/// non-empty one, else the descriptor's default, else nothing.
pub open spec fn initial_buffer(config: JsonV, f: FieldSchemaV) -> Seq<char> {
    let value = match config.get(f.name) {
        Some(v) => v.display_text(),
        None => Seq::empty(),
    };
    if value.len() == 0 {
        match f.default {
            Some(d) => d,
            None => Seq::empty(),
        }
    } else {
        value
    }
}

/// The fields that a form opens with, one per descriptor.
pub open spec fn opened_fields(config: JsonV, schema: Seq<FieldSchemaV>) -> Seq<FormFieldV> {
    Seq::new(
        schema.len(),
        |i: int| FormFieldV { schema: schema[i], buffer: initial_buffer(config, schema[i]), cursor: 0 },
    )
}

/// The configuration after each field's value was written into it, in order.
pub open spec fn applied(fields: Seq<FormFieldV>, config: JsonV) -> JsonV
    decreases fields.len(),
{
    if fields.len() == 0 {
        config
    } else {
        applied(fields.drop_last(), config).with(fields.last().schema.name, fields.last().coerced())
    }
}

/// The names of the required fields that hold nothing, in order.
pub open spec fn missing_names(fields: Seq<FormFieldV>) -> Seq<Seq<char>>
    decreases fields.len(),
{
    if fields.len() == 0 {
        Seq::empty()
    } else if fields.last().missing() {
        missing_names(fields.drop_last()).push(fields.last().schema.name)
    } else {
        missing_names(fields.drop_last())
    }
}

/// The open form of one provider.
#[derive(Clone, Debug)]
pub struct FormState {
    pub fields: Vec<FormField>,
    /// The selected row: 0 the type row, then the fields, then Test, Save and
    /// Cancel.
    pub selected: usize,
    /// Whether keys go to the caret of the selected field.
    pub editing: bool,
    /// The status line.
    pub message: Option<String>,
    /// The first field shown when not all fit.
    pub scroll: usize,
    /// The hash of the fields when the form was opened or last saved.
    pub initial_hash: String,
    /// The hash of the fields that the last successful test ran on; any edit
    /// clears it.
    pub last_test_ok_hash: Option<String>,
}

/// The model of a [`FormState`].
#[verifier::ext_equal]
pub struct FormStateV {
    pub fields: Seq<FormFieldV>,
    pub selected: int,
    pub editing: bool,
    pub message: Option<Seq<char>>,
    pub scroll: int,
    pub initial_hash: Seq<char>,
    pub last_test_ok_hash: Option<Seq<char>>,
}

impl View for FormState {
    type V = FormStateV;

    open spec fn view(&self) -> FormStateV {
        FormStateV {
            fields: views(self.fields@),
            selected: self.selected as int,
            editing: self.editing,
            message: opt_str(self.message),
            scroll: self.scroll as int,
            initial_hash: self.initial_hash@,
            last_test_ok_hash: opt_str(self.last_test_ok_hash),
        }
    }
}

impl FormStateV {
    /// The form a provider opens with: the type row selected, nothing edited
    /// or tested yet.
    pub open spec fn opened(config: JsonV, schema: Seq<FieldSchemaV>) -> FormStateV {
        FormStateV {
            fields: opened_fields(config, schema),
            selected: 0,
            editing: false,
            message: None,
            scroll: 0,
            initial_hash: form_hash(opened_fields(config, schema)),
            last_test_ok_hash: None,
        }
    }

    /// The number of rows fits the machine's index type.
    pub open spec fn sized(self) -> bool {
        self.fields.len() + 4 <= usize::MAX
    }

    /// The number of rows.
    pub open spec fn rows(self) -> int {
        (self.fields.len() + 4) as int
    }

    /// The row of the Test button.
    pub open spec fn test_row(self) -> int {
        (self.fields.len() + 1) as int
    }

    /// The row of the Save button.
    pub open spec fn save_row(self) -> int {
        (self.fields.len() + 2) as int
    }

    /// The row of the Cancel button.
    pub open spec fn cancel_row(self) -> int {
        (self.fields.len() + 3) as int
    }

    /// The selected row is one of the three buttons.
    pub open spec fn on_buttons(self) -> bool {
        self.test_row() <= self.selected <= self.cancel_row()
    }

    /// A row is selected and every caret lies within its text.
    pub open spec fn wf(self) -> bool {
        &&& 0 <= self.selected < self.rows()
        &&& forall|i: int| 0 <= i < self.fields.len() ==> (#[trigger] self.fields[i]).wf()
    }

    /// The index of the selected field, where a field is selected.
    pub open spec fn field_index(self) -> Option<int> {
        if 1 <= self.selected <= self.fields.len() {
            Some(self.selected - 1)
        } else {
            None
        }
    }

    /// The index of the field that keys edit: the selected field, while
    /// editing.
    pub open spec fn edit_index(self) -> Option<int> {
        if self.editing {
            self.field_index()
        } else {
            None
        }
    }

    /// The hash of the fields as they stand.
    pub open spec fn current_hash(self) -> Seq<char> {
        form_hash(self.fields)
    }

    /// The fields differ from what was opened or last saved.
    pub open spec fn dirty(self) -> bool {
        self.current_hash() != self.initial_hash
    }

    /// The save gate: a form may be saved when it is not dirty, or when the
    /// last successful test ran on exactly the fields as they stand.
    pub open spec fn can_save(self) -> bool {
        !self.dirty() || self.last_test_ok_hash == Some(self.current_hash())
    }

    /// After up: from the buttons to the last field (the type row where there
    /// is no field), else one row up.
    pub open spec fn moved_up(self) -> FormStateV {
        if !self.sized() {
            self
        } else if self.on_buttons() {
            FormStateV { selected: self.fields.len() as int, ..self }
        } else if self.selected > 0 {
            FormStateV { selected: self.selected - 1, ..self }
        } else {
            self
        }
    }

    /// After down: on the buttons nothing moves; else one row down, from the
    /// last field to the first button.
    pub open spec fn moved_down(self) -> FormStateV {
        if !self.sized() || self.on_buttons() {
            self
        } else if self.selected + 1 < self.rows() {
            FormStateV { selected: self.selected + 1, ..self }
        } else {
            self
        }
    }

    /// With field `i` replaced by `f`.
    pub open spec fn with_field(self, i: int, f: FormFieldV) -> FormStateV {
        FormStateV { fields: self.fields.update(i, f), ..self }
    }

    /// With field `i` replaced by `f` after an edit: where the text changed,
    /// the last successful test no longer counts.
    pub open spec fn with_edit(self, i: int, f: FormFieldV) -> FormStateV {
        FormStateV {
            fields: self.fields.update(i, f),
            last_test_ok_hash: if f.buffer != self.fields[i].buffer {
                None
            } else {
                self.last_test_ok_hash
            },
            ..self
        }
    }

    /// After left: among the buttons one to the left; else the caret of the
    /// edited field one back.
    pub open spec fn moved_left(self) -> FormStateV {
        if self.sized() && self.selected > self.test_row() {
            FormStateV { selected: self.selected - 1, ..self }
        } else {
            match self.edit_index() {
                Some(i) => self.with_field(i, self.fields[i].left()),
                None => self,
            }
        }
    }

    /// After right: among the buttons one to the right; else the caret of the
    /// edited field one on.
    pub open spec fn moved_right(self) -> FormStateV {
        if self.sized() && self.test_row() <= self.selected < self.cancel_row() {
            FormStateV { selected: self.selected + 1, ..self }
        } else {
            match self.edit_index() {
                Some(i) => self.with_field(i, self.fields[i].right()),
                None => self,
            }
        }
    }

    /// After home: the caret of the edited field at the start.
    pub open spec fn moved_home(self) -> FormStateV {
        match self.edit_index() {
            Some(i) => self.with_field(i, self.fields[i].home()),
            None => self,
        }
    }

    /// After end: the caret of the edited field at the end.
    pub open spec fn moved_end(self) -> FormStateV {
        match self.edit_index() {
            Some(i) => self.with_field(i, self.fields[i].end()),
            None => self,
        }
    }

    /// After tab: the next row, from the last to the first.
    pub open spec fn tabbed(self) -> FormStateV {
        if !self.sized() || self.selected >= self.rows() {
            self
        } else if self.selected + 1 == self.rows() {
            FormStateV { selected: 0, ..self }
        } else {
            FormStateV { selected: self.selected + 1, ..self }
        }
    }

    /// After back-tab: the row before, from the first to the last.
    pub open spec fn back_tabbed(self) -> FormStateV {
        if !self.sized() {
            self
        } else if self.selected == 0 {
            FormStateV { selected: self.rows() - 1, ..self }
        } else {
            FormStateV { selected: self.selected - 1, ..self }
        }
    }

    /// After typing `c` into the edited field.
    pub open spec fn typed(self, c: char) -> FormStateV {
        match self.edit_index() {
            Some(i) => self.with_edit(i, self.fields[i].inserted(c)),
            None => self,
        }
    }

    /// After backspace in the edited field.
    pub open spec fn backspaced(self) -> FormStateV {
        match self.edit_index() {
            Some(i) => self.with_edit(i, self.fields[i].backspaced()),
            None => self,
        }
    }

    /// After delete in the edited field.
    pub open spec fn deleted(self) -> FormStateV {
        match self.edit_index() {
            Some(i) => self.with_edit(i, self.fields[i].deleted()),
            None => self,
        }
    }

    /// After a chosen value was written into field `i`: the text replaced,
    /// editing off, the status line naming the field, and the last successful
    /// test no longer counting.
    pub open spec fn with_choice(self, i: int, text: Seq<char>) -> FormStateV {
        if 0 <= i < self.fields.len() {
            FormStateV {
                fields: self.fields.update(i, self.fields[i].replaced(text)),
                editing: false,
                message: Some(self.fields[i].schema.name + " set"@),
                last_test_ok_hash: None,
                ..self
            }
        } else {
            self
        }
    }

    /// With the status line set.
    pub open spec fn with_message(self, m: Seq<char>) -> FormStateV {
        FormStateV { message: Some(m), ..self }
    }

    /// After a save was carried out: the fields as they stand are what counts
    /// as saved, so the form is clean. What a test verified stays as it was.
    pub open spec fn saved(self, m: Seq<char>) -> FormStateV {
        FormStateV { message: Some(m), initial_hash: self.current_hash(), ..self }
    }

    /// After the verdict of a test that ran on the fields hashing to
    /// `pending`: a success records that hash, a failure clears the record.
    pub open spec fn judged(self, ok: bool, m: Seq<char>, pending: Option<Seq<char>>) -> FormStateV {
        FormStateV {
            message: Some(m),
            last_test_ok_hash: if ok {
                match pending {
                    Some(h) => Some(h),
                    None => self.last_test_ok_hash,
                }
            } else {
                None
            },
            ..self
        }
    }
}

impl FormState {
    /// Opens the form of a provider from its configuration and the fields of
    /// its type.
    pub fn open(config: &Json, schema: &Vec<FieldSchema>) -> (r: FormState)
        ensures
            r@ == FormStateV::opened(config@, views(schema@)),
            r@.wf(),
    {
        let ghost want = opened_fields(config@, views(schema@));
        let mut fields: Vec<FormField> = Vec::new();
        let mut i: usize = 0;
        while i < schema.len()
            invariant
                i <= schema.len(),
                fields.len() == i,
                want == opened_fields(config@, views(schema@)),
                forall|k: int| 0 <= k < i ==> fields@[k]@ == want[k],
            decreases schema.len() - i,
        {
            let sc = &schema[i];
            let mut value = match config.get(sc.name.as_str()) {
                Some(v) => v.display_text(),
                None => String::new(),
            };
            if value.as_str().is_empty() {
                match &sc.default {
                    Some(d) => {
                        value = d.clone();
                    },
                    None => {},
                }
            }
            assert(value@ =~= initial_buffer(config@, sc@));
            fields.push(FormField::new(sc.duplicate(), value));
            i += 1;
        }
        assert(views(fields@) =~= want);
        let initial_hash = compute_form_hash(&fields);
        FormState {
            fields,
            selected: 0,
            editing: false,
            message: None,
            scroll: 0,
            initial_hash,
            last_test_ok_hash: None,
        }
    }

    /// The number of rows, where it fits the index type.
    fn row_count(&self) -> (r: Option<usize>)
        ensures
            match r {
                Some(n) => self@.sized() && n == self@.rows(),
                None => !self@.sized(),
            },
    {
        if self.fields.len() <= usize::MAX - 4 {
            Some(self.fields.len() + 4)
        } else {
            None
        }
    }

    /// The index of the field that keys edit.
    fn edit_target(&self) -> (r: Option<usize>)
        ensures
            match r {
                Some(i) => self@.edit_index() == Some(i as int) && i < self.fields.len(),
                None => self@.edit_index() is None,
            },
    {
        if self.editing && 1 <= self.selected && self.selected <= self.fields.len() {
            Some(self.selected - 1)
        } else {
            None
        }
    }

    /// Whether the fields differ from what was opened or last saved.
    pub fn is_dirty(&self) -> (r: bool)
        ensures
            r == self@.dirty(),
    {
        let cur = compute_form_hash(&self.fields);
        !str_eq(cur.as_str(), self.initial_hash.as_str())
    }

    /// The save gate: whether the form may be saved as it stands.
    pub fn can_save(&self) -> (r: bool)
        ensures
            r == self@.can_save(),
            r == (!self@.dirty() || self@.last_test_ok_hash == Some(form_hash(self@.fields))),
    {
        let cur = compute_form_hash(&self.fields);
        if str_eq(cur.as_str(), self.initial_hash.as_str()) {
            true
        } else {
            match &self.last_test_ok_hash {
                Some(h) => str_eq(h.as_str(), cur.as_str()),
                None => false,
            }
        }
    }

    /// The names of the required fields that hold nothing.
    pub fn missing_required(&self) -> (r: Vec<String>)
        ensures
            crate::text::strs(r@) == missing_names(self@.fields),
    {
        let ghost all = views(self.fields@);
        let mut out: Vec<String> = Vec::new();
        let mut i: usize = 0;
        while i < self.fields.len()
            invariant
                i <= self.fields.len(),
                all == views(self.fields@),
                crate::text::strs(out@) == missing_names(all.take(i as int)),
            decreases self.fields.len() - i,
        {
            proof {
                let stepped = all.take(i + 1);
                assert(stepped.drop_last() =~= all.take(i as int));
                assert(stepped.last() == self.fields@[i as int]@);
            }
            let ghost before = crate::text::strs(out@);
            if self.fields[i].is_missing() {
                out.push(self.fields[i].schema.name.clone());
                proof {
                    assert(crate::text::strs(out@) =~= before.push(
                        self.fields@[i as int]@.schema.name,
                    ));
                }
            }
            i += 1;
        }
        proof {
            assert(all.take(self.fields.len() as int) =~= all);
        }
        out
    }

    /// Writes every field's value into a provider's configuration.
    pub fn apply_to(&self, config: &mut Json)
        ensures
            final(config)@ == applied(self@.fields, old(config)@),
    {
        let ghost all = views(self.fields@);
        let ghost start = config@;
        let mut i: usize = 0;
        while i < self.fields.len()
            invariant
                i <= self.fields.len(),
                all == views(self.fields@),
                config@ == applied(all.take(i as int), start),
            decreases self.fields.len() - i,
        {
            proof {
                let stepped = all.take(i + 1);
                assert(stepped.drop_last() =~= all.take(i as int));
                assert(stepped.last() == self.fields@[i as int]@);
            }
            let value = self.fields[i].coerce();
            config.set(self.fields[i].schema.name.clone(), value);
            i += 1;
        }
        proof {
            assert(all.take(self.fields.len() as int) =~= all);
        }
    }

    /// Up: from the buttons to the last field, else one row up.
    pub fn move_up(&mut self)
        ensures
            final(self)@ == old(self)@.moved_up(),
    {
        match self.row_count() {
            Some(_total) => {
                let n = self.fields.len();
                if self.selected > n && self.selected - n <= 3 {
                    self.selected = n;
                } else if self.selected > 0 {
                    self.selected -= 1;
                }
            },
            None => {},
        }
    }

    /// Down: on the buttons nothing moves, else one row down.
    pub fn move_down(&mut self)
        ensures
            final(self)@ == old(self)@.moved_down(),
    {
        match self.row_count() {
            Some(total) => {
                let n = self.fields.len();
                if self.selected > n && self.selected - n <= 3 {
                } else if self.selected < total - 1 {
                    self.selected += 1;
                }
            },
            None => {},
        }
    }

    /// Left: among the buttons, or the caret of the edited field.
    pub fn move_left(&mut self)
        ensures
            final(self)@ == old(self)@.moved_left(),
    {
        let sized = self.row_count().is_some();
        if sized && self.selected > self.fields.len() + 1 {
            self.selected -= 1;
        } else {
            match self.edit_target() {
                Some(i) => {
                    self.fields[i].move_left();
                    proof {
                        assert(views(self.fields@) =~= views(old(self).fields@).update(
                            i as int,
                            old(self).fields@[i as int]@.left(),
                        ));
                    }
                },
                None => {},
            }
        }
    }

    /// Right: among the buttons, or the caret of the edited field.
    pub fn move_right(&mut self)
        ensures
            final(self)@ == old(self)@.moved_right(),
    {
        let sized = self.row_count().is_some();
        if sized && self.selected >= self.fields.len() + 1 && self.selected < self.fields.len()
            + 3 {
            self.selected += 1;
        } else {
            match self.edit_target() {
                Some(i) => {
                    self.fields[i].move_right();
                    proof {
                        assert(views(self.fields@) =~= views(old(self).fields@).update(
                            i as int,
                            old(self).fields@[i as int]@.right(),
                        ));
                    }
                },
                None => {},
            }
        }
    }

    /// Home: the caret of the edited field at the start.
    pub fn move_home(&mut self)
        ensures
            final(self)@ == old(self)@.moved_home(),
    {
        match self.edit_target() {
            Some(i) => {
                self.fields[i].move_home();
                proof {
                    assert(views(self.fields@) =~= views(old(self).fields@).update(
                        i as int,
                        old(self).fields@[i as int]@.home(),
                    ));
                }
            },
            None => {},
        }
    }

    /// End: the caret of the edited field at the end.
    pub fn move_end(&mut self)
        ensures
            final(self)@ == old(self)@.moved_end(),
    {
        match self.edit_target() {
            Some(i) => {
                self.fields[i].move_end();
                proof {
                    assert(views(self.fields@) =~= views(old(self).fields@).update(
                        i as int,
                        old(self).fields@[i as int]@.end(),
                    ));
                }
            },
            None => {},
        }
    }

    /// Tab: the next row, from the last to the first.
    pub fn tab(&mut self)
        ensures
            final(self)@ == old(self)@.tabbed(),
    {
        match self.row_count() {
            Some(total) => {
                if self.selected >= total {
                } else if self.selected + 1 == total {
                    self.selected = 0;
                } else {
                    self.selected += 1;
                }
            },
            None => {},
        }
    }

    /// Back-tab: the row before, from the first to the last.
    pub fn back_tab(&mut self)
        ensures
            final(self)@ == old(self)@.back_tabbed(),
    {
        match self.row_count() {
            Some(total) => {
                if self.selected == 0 {
                    self.selected = total - 1;
                } else {
                    self.selected -= 1;
                }
            },
            None => {},
        }
    }

    /// Types `c` into the edited field; the last successful test no longer
    /// counts.
    pub fn type_char(&mut self, c: char)
        ensures
            final(self)@ == old(self)@.typed(c),
    {
        match self.edit_target() {
            Some(i) => {
                let changed = self.fields[i].insert_char(c);
                if changed {
                    self.last_test_ok_hash = None;
                }
                proof {
                    assert(views(self.fields@) =~= views(old(self).fields@).update(
                        i as int,
                        old(self).fields@[i as int]@.inserted(c),
                    ));
                }
            },
            None => {},
        }
    }

    /// Backspace in the edited field; a change clears the last successful
    /// test.
    pub fn backspace(&mut self)
        ensures
            final(self)@ == old(self)@.backspaced(),
    {
        match self.edit_target() {
            Some(i) => {
                let changed = self.fields[i].backspace();
                if changed {
                    self.last_test_ok_hash = None;
                }
                proof {
                    let before = old(self).fields@[i as int]@;
                    assert(views(self.fields@) =~= views(old(self).fields@).update(
                        i as int,
                        before.backspaced(),
                    ));
                    if changed {
                        assert(before.backspaced().buffer.len() != before.buffer.len());
                    }
                }
            },
            None => {},
        }
    }

    /// Delete in the edited field; a change clears the last successful test.
    pub fn delete(&mut self)
        ensures
            final(self)@ == old(self)@.deleted(),
    {
        match self.edit_target() {
            Some(i) => {
                let changed = self.fields[i].delete();
                if changed {
                    self.last_test_ok_hash = None;
                }
                proof {
                    let before = old(self).fields@[i as int]@;
                    assert(views(self.fields@) =~= views(old(self).fields@).update(
                        i as int,
                        before.deleted(),
                    ));
                    if changed {
                        assert(before.deleted().buffer.len() != before.buffer.len());
                    }
                }
            },
            None => {},
        }
    }

    /// Writes a chosen value into field `i`.
    pub fn set_choice(&mut self, i: usize, text: String)
        ensures
            final(self)@ == old(self)@.with_choice(i as int, text@),
    {
        if i < self.fields.len() {
            self.fields[i].replace_text(text);
            let mut m = self.fields[i].schema.name.clone();
            m.append(" set");
            self.message = Some(m);
            self.editing = false;
            self.last_test_ok_hash = None;
            proof {
                assert(views(self.fields@) =~= views(old(self).fields@).update(
                    i as int,
                    old(self).fields@[i as int]@.replaced(text@),
                ));
            }
        }
    }

    /// Records that a save was carried out, with the status line to show.
    pub fn mark_saved(&mut self, message: String)
        ensures
            final(self)@ == old(self)@.saved(message@),
            !final(self)@.dirty(),
            final(self)@.can_save(),
    {
        let cur = compute_form_hash(&self.fields);
        self.message = Some(message);
        self.initial_hash = cur;
    }

    /// Records the verdict of a test that ran on the fields hashing to
    /// `pending`.
    pub fn record_verdict(&mut self, ok: bool, message: String, pending: Option<String>)
        ensures
            final(self)@ == old(self)@.judged(ok, message@, opt_str(pending)),
    {
        self.message = Some(message);
        if ok {
            match pending {
                Some(h) => {
                    self.last_test_ok_hash = Some(h);
                },
                None => {},
            }
        } else {
            self.last_test_ok_hash = None;
        }
    }
}

} // verus!
