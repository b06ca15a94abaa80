//! Keys and what they do on the page that configures providers.
//!
//! Four layers can have the keys: the log window, the dropdown, the form and
//! the list. The log window and the dropdown are modal: while one is open it
//! takes every key and nothing below it sees any.
use crate::dropdown::DropdownState;
use crate::dropdown::DropdownV;
use crate::form::applied;
use crate::form::compute_form_hash;
use crate::form::missing_names;
use crate::form::FormState;
use crate::form::FormStateV;
use crate::json::Json;
use crate::laws::lemma_step_preserves_wf;
use crate::json::JsonV;
use crate::text::opt_str;
use crate::providers::opt_view;
use crate::providers::position_or_zero;
use crate::providers::ProvidersState;
use crate::providers::ProvidersV;
use crate::schema::array_or_empty;
use crate::schema::views;
use crate::scratch::EntryV;
use crate::text::clone_strings;
use crate::text::join;
use crate::text::joined;
use crate::text::position_of;
use crate::text::str_eq;
use crate::text::strs;
use crate::validation::auto_open_log;
use crate::validation::discover_args;
use crate::validation::discover_args_of;
use crate::validation::discover_paths_args;
use crate::validation::discovered_models;
use crate::validation::discovers_models;
use crate::validation::downloaded_ids;
use crate::validation::downloaded_models;
use crate::validation::elements;
use crate::validation::field_names;
use crate::validation::find_field;
use crate::text::first_index_of;
use crate::validation::has_downloads;
use crate::validation::lists_downloads;
use crate::validation::model_ids;
use crate::validation::opens_log;
use crate::validation::probe_args;
use crate::validation::probe_args_of;
use crate::validation::probe_timeout_secs;
use crate::validation::supports_model_discovery;
use crate::validation::timeout_for;
use vstd::prelude::*;
use vstd::string::StringExecFns;

verus! {

/// A key press, as far as the page tells keys apart.
#[derive(Clone, Copy, Debug, PartialEq, Eq, Structural)]
pub enum Key {
    Up,
    Down,
    Left,
    Right,
    Enter,
    Esc,
    Tab,
    BackTab,
    Backspace,
    Delete,
    Home,
    End,
    PageUp,
    PageDown,
    Char(char),
    /// Any other key.
    Other,
}

/// What the caller has to do after a key.
#[derive(Clone, Debug)]
pub enum Action {
    /// Nothing.
    Nothing,
    /// Start a validation run and report its lines and its verdict.
    RunTest { args: Vec<String>, timeout_secs: u64 },
    /// Ask the tool for the models of the provider and report the response
    /// for field `field`; with `list_downloads`, also the list of models.
    DiscoverModels { field: usize, args: Vec<String>, list_downloads: bool },
    /// Ask the tool for model files and report the response for field
    /// `field`.
    DiscoverPaths { field: usize, args: Vec<String> },
    /// Write the scratch document and report to the form how it went.
    Persist,
    /// Write the scratch document.
    PersistList,
    /// Show the model browser.
    OpenModelBrowser,
}

/// The model of an [`Action`].
#[verifier::ext_equal]
pub enum ActionV {
    Nothing,
    RunTest { args: Seq<Seq<char>>, timeout_secs: u64 },
    DiscoverModels { field: int, args: Seq<Seq<char>>, list_downloads: bool },
    DiscoverPaths { field: int, args: Seq<Seq<char>> },
    Persist,
    PersistList,
    OpenModelBrowser,
}

impl View for Action {
    type V = ActionV;

    open spec fn view(&self) -> ActionV {
        match *self {
            Action::Nothing => ActionV::Nothing,
            Action::RunTest { args, timeout_secs } => ActionV::RunTest {
                args: strs(args@),
                timeout_secs,
            },
            Action::DiscoverModels { field, args, list_downloads } => ActionV::DiscoverModels {
                field: field as int,
                args: strs(args@),
                list_downloads,
            },
            Action::DiscoverPaths { field, args } => ActionV::DiscoverPaths {
                field: field as int,
                args: strs(args@),
            },
            Action::Persist => ActionV::Persist,
            Action::PersistList => ActionV::PersistList,
            Action::OpenModelBrowser => ActionV::OpenModelBrowser,
        }
    }
}

/// The arguments of the run that looks for model files.
pub open spec fn discover_paths_args_of() -> Seq<Seq<char>> {
    seq!["providers"@, "discover-models"@, "--type"@, "local-custom"@, "--json"@]
}

impl FormStateV {
    /// After a key that moves within the form or edits a field.
    pub open spec fn keyed(self, key: Key) -> FormStateV {
        match key {
            Key::Up => self.moved_up(),
            Key::Down => self.moved_down(),
            Key::Left => self.moved_left(),
            Key::Right => self.moved_right(),
            Key::Home => self.moved_home(),
            Key::End => self.moved_end(),
            Key::Tab => self.tabbed(),
            Key::BackTab => self.back_tabbed(),
            Key::Backspace => self.backspaced(),
            Key::Delete => self.deleted(),
            Key::Char(c) => self.typed(c),
            _ => self,
        }
    }

    /// After the type of the provider changed: the first field selected, or
    /// the type row where there is no field.
    pub open spec fn after_type_change(self) -> FormStateV {
        FormStateV {
            selected: if self.fields.len() >= 1 {
                1
            } else {
                0
            },
            editing: false,
            message: Some("Type changed"@),
            ..self
        }
    }

    /// With editing switched on or off.
    pub open spec fn toggled(self) -> FormStateV {
        FormStateV { editing: !self.editing, ..self }
    }
}

impl DropdownV {
    /// After a key that moves within the dropdown or edits the filter.
    pub open spec fn keyed(self, key: Key) -> DropdownV {
        match key {
            Key::Up => self.moved_up(),
            Key::Down => self.moved_down(),
            Key::Backspace => self.filter_backspaced(),
            Key::Char(c) => self.filter_typed(c),
            _ => self,
        }
    }
}

impl FormState {
    /// A key that moves within the form or edits a field.
    pub fn handle_key(&mut self, key: Key)
        ensures
            final(self)@ == old(self)@.keyed(key),
    {
        match key {
            Key::Up => self.move_up(),
            Key::Down => self.move_down(),
            Key::Left => self.move_left(),
            Key::Right => self.move_right(),
            Key::Home => self.move_home(),
            Key::End => self.move_end(),
            Key::Tab => self.tab(),
            Key::BackTab => self.back_tab(),
            Key::Backspace => self.backspace(),
            Key::Delete => self.delete(),
            Key::Char(c) => self.type_char(c),
            _ => {},
        }
    }
}

impl DropdownState {
    /// A key that moves within the dropdown or edits the filter.
    pub fn handle_key(&mut self, key: Key)
        ensures
            final(self)@ == old(self)@.keyed(key),
    {
        match key {
            Key::Up => self.move_up(),
            Key::Down => self.move_down(),
            Key::Backspace => self.backspace_filter(),
            Key::Char(c) => self.type_filter_char(c),
            _ => {},
        }
    }
}

impl ProvidersV {
    /// The log window or the dropdown is open and takes every key.
    pub open spec fn modal(self) -> bool {
        self.show_test_popup || self.dropdown is Some
    }

    /// With the form replaced.
    pub open spec fn with_form(self, f: FormStateV) -> ProvidersV {
        ProvidersV { form: Some(f), ..self }
    }

    /// After a key in the log window: escape and `l` close it, nothing else
    /// does anything.
    pub open spec fn log_key(self, key: Key) -> ProvidersV {
        if key == Key::Esc || key == Key::Char('l') || key == Key::Char('L') {
            ProvidersV { show_test_popup: false, ..self }
        } else {
            self
        }
    }

    /// With the type of the selected entry changed and its form opened
    /// afresh for the fields of the new type.
    pub open spec fn with_type(self, ptype: Seq<char>) -> ProvidersV {
        let e = self.entries[self.selected];
        let s = self.with_entry(self.selected, EntryV { ptype, ..e }).with_form_for_selected();
        ProvidersV {
            form: match s.form {
                Some(f) => Some(f.after_type_change()),
                None => None,
            },
            ..s
        }
    }

    /// After enter in the dropdown: the dropdown closes; where a row is
    /// shown, its item becomes the provider's type or the text of the field
    /// that the dropdown was opened for.
    pub open spec fn confirmed(self) -> ProvidersV {
        match self.dropdown {
            None => self,
            Some(dd) => {
                let closed = ProvidersV { dropdown: None, ..self };
                match dd.chosen() {
                    None => closed,
                    Some(choice) => match dd.target_field {
                        None => if closed.has_selected() {
                            closed.with_type(choice)
                        } else {
                            closed
                        },
                        Some(fi) => match closed.form {
                            Some(f) => closed.with_form(f.with_choice(fi, choice)),
                            None => closed,
                        },
                    },
                }
            },
        }
    }

    /// After a key in the dropdown.
    pub open spec fn dropdown_key(self, key: Key) -> ProvidersV {
        match self.dropdown {
            None => self,
            Some(dd) => match key {
                Key::Enter => self.confirmed(),
                Key::Esc => ProvidersV { dropdown: None, ..self },
                _ => ProvidersV { dropdown: Some(dd.keyed(key)), ..self },
            },
        }
    }

    /// With the form of the selected entry opened where none is open.
    pub open spec fn with_form_ensured(self) -> ProvidersV {
        if self.form is None && self.has_selected() {
            self.with_form_for_selected()
        } else {
            self
        }
    }

    /// After the list hands the keys to the form by tab: on the row that
    /// adds an entry one is added first, and the form of the selected entry
    /// is opened afresh.
    pub open spec fn entered_by_tab(self) -> ProvidersV {
        let s = if self.is_add_row() {
            self.with_added()
        } else {
            self
        };
        let t = if s.has_selected() {
            s.with_form_for_selected()
        } else {
            s
        };
        ProvidersV { focus_right: true, ..t }
    }

    /// After enter on the list: on the row that adds an entry one is added
    /// first; the form of the selected entry is opened afresh and gets the
    /// keys.
    pub open spec fn entered(self) -> ProvidersV {
        let s = if self.is_add_row() {
            self.with_added()
        } else {
            self
        };
        ProvidersV { focus_right: true, ..s.with_form_for_selected() }
    }

    /// After the key that adds an entry: one is added, its form opened, and
    /// the form gets the keys.
    pub open spec fn added(self) -> ProvidersV {
        ProvidersV { focus_right: true, ..self.with_added().with_form_for_selected() }
    }

    /// After a request to start a validation run. While one is under way, or
    /// with no entry selected, nothing happens. Else the run is recorded as
    /// under way with the hash of the fields as they stand, the log is
    /// emptied, and the log window opens where the type asks for it; the
    /// caller is to run the tool on the entry's type and on its
    /// configuration with the fields as they stand.
    pub open spec fn test_started(self, from_form: bool) -> (ProvidersV, ActionV) {
        if self.test_in_progress || !self.has_selected() {
            (self, ActionV::Nothing)
        } else {
            let ptype = self.selected_type();
            (
                ProvidersV {
                    test_in_progress: true,
                    pending_test_hash: match self.form {
                        Some(f) => Some(f.current_hash()),
                        None => None,
                    },
                    test_log: Seq::empty(),
                    show_test_popup: opens_log(ptype) || self.show_test_popup,
                    form: if from_form {
                        match self.form {
                            Some(f) => Some(f.with_message("Testing connection… (L: logs)"@)),
                            None => None,
                        }
                    } else {
                        self.form
                    },
                    test_status: if from_form {
                        self.test_status
                    } else {
                        None
                    },
                    ..self
                },
                ActionV::RunTest {
                    args: probe_args_of(ptype, self.effective_config()),
                    timeout_secs: timeout_for(ptype),
                },
            )
        }
    }

    /// After enter on Save. A required field that holds nothing, or a form
    /// that the save gate refuses, only sets the status line. Else the fields
    /// are written into the entry and the caller is to write the document.
    pub open spec fn save_requested(self) -> (ProvidersV, ActionV) {
        match self.form {
            None => (self, ActionV::Nothing),
            Some(f) => if missing_names(f.fields).len() > 0 {
                (
                    self.with_form(
                        f.with_message("Missing required: "@ + joined(missing_names(f.fields), ", "@)),
                    ),
                    ActionV::Nothing,
                )
            } else if !f.can_save() {
                (self.with_form(f.with_message("Run Test connection first"@)), ActionV::Nothing)
            } else if self.has_selected() {
                let e = self.entries[self.selected];
                (
                    self.with_entry(
                        self.selected,
                        EntryV { config: applied(f.fields, e.config), ..e },
                    ),
                    ActionV::Persist,
                )
            } else {
                (self, ActionV::Persist)
            },
        }
    }

    /// After enter on field `fi`: the model field of a type that the tool can
    /// list models for asks the caller for them; a field with choices opens
    /// the dropdown over them; the model path of the custom local type asks
    /// the caller for model files; any other field switches editing on or
    /// off.
    pub open spec fn field_activated(self, fi: int) -> (ProvidersV, ActionV) {
        match self.form {
            None => (self, ActionV::Nothing),
            Some(f) => {
                let ff = f.fields[fi];
                let ptype = self.selected_type();
                if ff.schema.name == "model"@ && discovers_models(ptype) {
                    (
                        self,
                        ActionV::DiscoverModels {
                            field: fi,
                            args: discover_args_of(ptype, f.fields),
                            list_downloads: lists_downloads(ptype),
                        },
                    )
                } else if ff.schema.options is Some {
                    let opts = ff.schema.options->0;
                    (
                        ProvidersV {
                            dropdown: Some(
                                DropdownV::opened(
                                    opts,
                                    position_or_zero(opts, ff.buffer),
                                    "Select "@ + ff.schema.name,
                                    Some(fi),
                                    None,
                                ),
                            ),
                            ..self
                        },
                        ActionV::Nothing,
                    )
                } else if ff.schema.name == "model_path"@ && ptype == "local-custom"@ {
                    (self, ActionV::DiscoverPaths { field: fi, args: discover_paths_args_of() })
                } else {
                    (self.with_form(f.toggled()), ActionV::Nothing)
                }
            },
        }
    }

    /// After enter in the form: on the type row the dropdown over the known
    /// types opens; Test starts a validation run; Save asks for a save;
    /// Cancel hands the keys back to the list; a field is activated.
    pub open spec fn activated(self) -> (ProvidersV, ActionV) {
        match self.form {
            None => (self, ActionV::Nothing),
            Some(f) => if f.selected == 0 {
                (
                    ProvidersV {
                        dropdown: Some(
                            DropdownV::opened(
                                self.schema_types,
                                position_or_zero(self.schema_types, self.selected_type()),
                                "Select Provider Type"@,
                                None,
                                None,
                            ),
                        ),
                        ..self
                    },
                    ActionV::Nothing,
                )
            } else if f.selected == f.test_row() {
                self.test_started(true)
            } else if f.selected == f.save_row() {
                self.save_requested()
            } else if f.selected == f.cancel_row() {
                (
                    ProvidersV {
                        focus_right: false,
                        ..self.with_form(FormStateV { editing: false, ..f })
                    },
                    ActionV::Nothing,
                )
            } else if f.selected <= f.fields.len() {
                self.field_activated(f.selected - 1)
            } else {
                (self, ActionV::Nothing)
            },
        }
    }

    /// After a key while the form has the keys. Escape leaves editing, or
    /// where nothing is edited hands the keys back to the list.
    pub open spec fn form_key(self, key: Key) -> (ProvidersV, ActionV) {
        let s = self.with_form_ensured();
        match s.form {
            None => if key is Esc {
                (ProvidersV { focus_right: false, ..s }, ActionV::Nothing)
            } else {
                (s, ActionV::Nothing)
            },
            Some(f) => match key {
                Key::Esc => if f.editing {
                    (s.with_form(FormStateV { editing: false, ..f }), ActionV::Nothing)
                } else {
                    (ProvidersV { focus_right: false, ..s }, ActionV::Nothing)
                },
                Key::Enter => s.activated(),
                _ => (s.with_form(f.keyed(key)), ActionV::Nothing),
            },
        }
    }

    /// After a key while the list has the keys.
    pub open spec fn list_key(self, key: Key) -> (ProvidersV, ActionV) {
        match key {
            Key::Up => if self.selected > 0 {
                (ProvidersV { selected: self.selected - 1, form: None, ..self }, ActionV::Nothing)
            } else {
                (self, ActionV::Nothing)
            },
            Key::Down => if self.selected < self.entries.len() {
                (ProvidersV { selected: self.selected + 1, form: None, ..self }, ActionV::Nothing)
            } else {
                (self, ActionV::Nothing)
            },
            Key::Enter => (self.entered(), ActionV::Nothing),
            Key::Tab => self.entered_by_tab().form_key(key),
            Key::BackTab => self.entered_by_tab().form_key(key),
            Key::Char(c) => if c == 'a' || c == 'A' {
                (self.added(), ActionV::Nothing)
            } else if c == 'd' || c == 'D' {
                (ProvidersV { form: None, ..self.with_deleted() }, ActionV::Nothing)
            } else if c == 'm' || c == 'M' {
                (self, ActionV::OpenModelBrowser)
            } else if c == 'l' || c == 'L' {
                if self.test_in_progress || self.test_log.len() > 0 {
                    (ProvidersV { show_test_popup: !self.show_test_popup, ..self }, ActionV::Nothing)
                } else {
                    (self, ActionV::Nothing)
                }
            } else if c == 't' || c == 'T' {
                self.test_started(false)
            } else if c == 's' || c == 'S' {
                (self, ActionV::PersistList)
            } else {
                (self, ActionV::Nothing)
            },
            _ => (self, ActionV::Nothing),
        }
    }

    /// The page and the caller's next step after a key: the log window takes
    /// it where it is open, else the dropdown where it is open, else the form
    /// where it has the keys, else the list.
    pub open spec fn step(self, key: Key) -> (ProvidersV, ActionV) {
        if self.show_test_popup {
            (self.log_key(key), ActionV::Nothing)
        } else if self.dropdown is Some {
            (self.dropdown_key(key), ActionV::Nothing)
        } else if self.focus_right {
            self.form_key(key)
        } else {
            self.list_key(key)
        }
    }

    /// With the form of the selected entry opened afresh, the field of the
    /// given name selected and edited where there is one, and the keys with
    /// the form; nothing where no entry is selected.
    pub open spec fn focused_on(self, name: Seq<char>) -> ProvidersV {
        if !self.has_selected() {
            self
        } else {
            let s = self.with_form_for_selected();
            let f = s.form->0;
            ProvidersV {
                focus_right: true,
                form: match first_index_of(field_names(f.fields), name) {
                    Some(i) => if i + 1 <= usize::MAX {
                        Some(FormStateV { selected: i + 1, editing: true, ..f })
                    } else {
                        Some(f)
                    },
                    None => Some(f),
                },
                ..s
            }
        }
    }

    /// After the caller carried out a save: the form is clean and says how
    /// it went; what a test verified stays as it was.
    pub open spec fn save_finished(self, error: Option<Seq<char>>) -> ProvidersV {
        match self.form {
            Some(f) => self.with_form(
                f.saved(
                    match error {
                        None => "Saved"@,
                        Some(e) => "Save failed: "@ + e,
                    },
                ),
            ),
            None => self,
        }
    }

    /// After the verdict of the validation run arrived. No run is under way
    /// any more and the status says how it went. A success records the hash
    /// that the run tested as verified; a failure clears what was verified
    /// and opens the log window.
    pub open spec fn verdict_applied(self, ok: bool, message: Seq<char>) -> ProvidersV {
        if !self.test_in_progress {
            self
        } else {
            let status = if ok {
                message
            } else {
                "Error: "@ + message
            };
            ProvidersV {
                test_in_progress: false,
                test_status: Some(status),
                form: match self.form {
                    Some(f) => Some(f.judged(ok, status, self.pending_test_hash)),
                    None => None,
                },
                pending_test_hash: None,
                show_test_popup: !ok || self.show_test_popup,
                ..self
            }
        }
    }

    /// After a line of the validation run arrived.
    pub open spec fn line_logged(self, line: Seq<char>) -> ProvidersV {
        ProvidersV { test_log: self.test_log.push(line), ..self }
    }

    /// After a discovery run for field `fi` ended with `items`, or with an
    /// error: items open the dropdown over them; none, or an error, sets the
    /// status line and switches editing, so that the value can be typed.
    pub open spec fn discovered(
        self,
        fi: int,
        result: Result<Seq<Seq<char>>, Seq<char>>,
        downloaded: Option<Seq<Seq<char>>>,
        title: Seq<char>,
        nothing: Seq<char>,
    ) -> ProvidersV {
        match self.form {
            None => self,
            Some(f) => if !(0 <= fi < f.fields.len()) {
                self
            } else {
                match result {
                    Err(e) => self.with_form(f.with_message("Discover failed: "@ + e).toggled()),
                    Ok(items) => if items.len() == 0 {
                        self.with_form(f.with_message(nothing).toggled())
                    } else {
                        ProvidersV {
                            dropdown: Some(
                                DropdownV::opened(
                                    items,
                                    position_or_zero(items, f.fields[fi].buffer),
                                    title,
                                    Some(fi),
                                    downloaded,
                                ),
                            ),
                            ..self
                        }
                    },
                }
            },
        }
    }

    /// After the caller reported the models that the tool found.
    pub open spec fn models_discovered(
        self,
        fi: int,
        response: Result<JsonV, Seq<char>>,
        downloads: Option<JsonV>,
    ) -> ProvidersV {
        self.discovered(
            fi,
            match response {
                Ok(d) => Ok(model_ids(array_or_empty(d, "models"@))),
                Err(e) => Err(e),
            },
            match downloads {
                Some(d) => Some(downloaded_ids(elements(d))),
                None => None,
            },
            "Select model ("@ + self.selected_type() + "):"@,
            "No models discovered for "@ + self.selected_type(),
        )
    }

    /// After the caller reported the model files that the tool found.
    pub open spec fn paths_discovered(self, fi: int, response: Result<JsonV, Seq<char>>) -> ProvidersV {
        self.discovered(
            fi,
            match response {
                Ok(d) => Ok(model_ids(array_or_empty(d, "models"@))),
                Err(e) => Err(e),
            },
            None,
            "Select GGUF path"@,
            "No GGUF files discovered. Configure auto_discovery_gguf_paths or type path manually"@,
        )
    }
}

/// `a` followed by `b`.
fn concat(a: &str, b: &str) -> (r: String)
    ensures
        r@ == a@ + b@,
{
    let mut r = String::from_str(a);
    r.append(b);
    r
}

/// The model of a response: the document, or the error.
pub open spec fn response_view(r: Result<Json, String>) -> Result<JsonV, Seq<char>> {
    match r {
        Ok(d) => Ok(d@),
        Err(e) => Err(e@),
    }
}

impl ProvidersState {
    /// Whether the log window or the dropdown is open and takes every key.
    pub fn is_modal(&self) -> (r: bool)
        ensures
            r == self@.modal(),
    {
        self.show_test_popup || self.dropdown.is_some()
    }

    /// A key in the log window.
    fn log_key(&mut self, key: Key)
        ensures
            final(self)@ == old(self)@.log_key(key),
    {
        match key {
            Key::Esc => {
                self.show_test_popup = false;
            },
            Key::Char(c) => {
                if c == 'l' || c == 'L' {
                    self.show_test_popup = false;
                }
            },
            _ => {},
        }
    }

    /// Changes the type of the selected entry and opens its form afresh.
    fn change_type(&mut self, ptype: String)
        requires
            old(self)@.has_selected(),
        ensures
            final(self)@ == old(self)@.with_type(ptype@),
    {
        let i = self.selected;
        self.entries[i].ptype = ptype;
        assert(views(self.entries@) =~= views(old(self).entries@).update(
            i as int,
            (EntryV { ptype: ptype@, ..old(self).entries@[i as int]@ }),
        ));
        self.ensure_form_for_selected();
        match self.form.take() {
            Some(mut f) => {
                f.selected = if f.fields.len() >= 1 {
                    1
                } else {
                    0
                };
                f.editing = false;
                f.message = Some(String::from_str("Type changed"));
                self.form = Some(f);
            },
            None => {},
        }
    }

    /// Enter in the dropdown.
    fn confirm_dropdown(&mut self)
        ensures
            final(self)@ == old(self)@.confirmed(),
    {
        match self.dropdown.take() {
            None => {},
            Some(dd) => {
                match dd.chosen() {
                    None => {},
                    Some(choice) => match dd.target_field {
                        None => {
                            if self.selected < self.entries.len() {
                                self.change_type(choice);
                            }
                        },
                        Some(fi) => {
                            match self.form.take() {
                                Some(mut f) => {
                                    f.set_choice(fi, choice);
                                    self.form = Some(f);
                                },
                                None => {},
                            }
                        },
                    },
                }
            },
        }
    }

    /// A key in the dropdown.
    fn dropdown_key(&mut self, key: Key)
        ensures
            final(self)@ == old(self)@.dropdown_key(key),
    {
        match key {
            Key::Enter => {
                self.confirm_dropdown();
            },
            Key::Esc => {
                if self.dropdown.is_some() {
                    self.dropdown = None;
                }
            },
            _ => {
                match self.dropdown.take() {
                    Some(mut dd) => {
                        dd.handle_key(key);
                        self.dropdown = Some(dd);
                    },
                    None => {},
                }
            },
        }
    }

    /// Starts a validation run unless one is under way or no entry is
    /// selected.
    pub fn start_test(&mut self, from_form: bool) -> (r: Action)
        ensures
            final(self)@ == old(self)@.test_started(from_form).0,
            r@ == old(self)@.test_started(from_form).1,
            old(self)@.test_in_progress ==> r is Nothing && final(self)@ == old(self)@,
    {
        if self.test_in_progress || self.selected >= self.entries.len() {
            return Action::Nothing;
        }
        let ptype = self.entries[self.selected].ptype.clone();
        let config = match self.effective_config() {
            Some(c) => c,
            None => {
                return Action::Nothing;
            },
        };
        let args = probe_args(ptype.as_str(), &config);
        let timeout_secs = probe_timeout_secs(ptype.as_str());
        self.test_in_progress = true;
        self.pending_test_hash = match &self.form {
            Some(f) => Some(compute_form_hash(&f.fields)),
            None => None,
        };
        self.test_log = Vec::new();
        assert(strs(self.test_log@) =~= Seq::empty());
        if auto_open_log(ptype.as_str()) {
            self.show_test_popup = true;
        }
        if from_form {
            match self.form.take() {
                Some(mut f) => {
                    f.message = Some(String::from_str("Testing connection… (L: logs)"));
                    self.form = Some(f);
                },
                None => {},
            }
        } else {
            self.test_status = None;
        }
        Action::RunTest { args, timeout_secs }
    }

    /// Enter on Save.
    fn request_save(&mut self) -> (r: Action)
        ensures
            final(self)@ == old(self)@.save_requested().0,
            r@ == old(self)@.save_requested().1,
    {
        match self.form.take() {
            None => Action::Nothing,
            Some(mut f) => {
                let missing = f.missing_required();
                if missing.len() > 0 {
                    let listed = join(&missing, ", ");
                    f.message = Some(concat("Missing required: ", listed.as_str()));
                    self.form = Some(f);
                    Action::Nothing
                } else if !f.can_save() {
                    f.message = Some(String::from_str("Run Test connection first"));
                    self.form = Some(f);
                    Action::Nothing
                } else {
                    if self.selected < self.entries.len() {
                        let i = self.selected;
                        f.apply_to(&mut self.entries[i].config);
                        assert(views(self.entries@) =~= views(old(self).entries@).update(
                            i as int,
                            self.entries@[i as int]@,
                        ));
                    }
                    self.form = Some(f);
                    Action::Persist
                }
            },
        }
    }

    /// Enter on field `fi`.
    fn activate_field(&mut self, fi: usize) -> (r: Action)
        requires
            old(self)@.form matches Some(f) && fi < f.fields.len(),
        ensures
            final(self)@ == old(self)@.field_activated(fi as int).0,
            r@ == old(self)@.field_activated(fi as int).1,
    {
        let ptype = if self.selected < self.entries.len() {
            self.entries[self.selected].ptype.clone()
        } else {
            String::new()
        };
        match self.form.take() {
            None => Action::Nothing,
            Some(mut f) => {
                let is_model = str_eq(f.fields[fi].schema.name.as_str(), "model");
                if is_model && supports_model_discovery(ptype.as_str()) {
                    let args = discover_args(ptype.as_str(), &f.fields);
                    let list_downloads = has_downloads(ptype.as_str());
                    self.form = Some(f);
                    Action::DiscoverModels { field: fi, args, list_downloads }
                } else if f.fields[fi].schema.options.is_some() {
                    let opened = match &f.fields[fi].schema.options {
                        Some(opts) => {
                            let items = clone_strings(opts);
                            let sel = match position_of(&items, f.fields[fi].buffer.as_str()) {
                                Some(i) => i,
                                None => 0,
                            };
                            let title = concat("Select ", f.fields[fi].schema.name.as_str());
                            DropdownState::open(items, sel, title, Some(fi), None)
                        },
                        None => DropdownState::open(Vec::new(), 0, String::new(), None, None),
                    };
                    self.form = Some(f);
                    self.dropdown = Some(opened);
                    Action::Nothing
                } else if str_eq(f.fields[fi].schema.name.as_str(), "model_path") && str_eq(
                    ptype.as_str(),
                    "local-custom",
                ) {
                    self.form = Some(f);
                    Action::DiscoverPaths { field: fi, args: discover_paths_args() }
                } else {
                    f.editing = !f.editing;
                    self.form = Some(f);
                    Action::Nothing
                }
            },
        }
    }

    /// Enter in the form.
    fn activate(&mut self) -> (r: Action)
        ensures
            final(self)@ == old(self)@.activated().0,
            r@ == old(self)@.activated().1,
    {
        let (selected, n) = match &self.form {
            None => {
                return Action::Nothing;
            },
            Some(f) => (f.selected, f.fields.len()),
        };
        if selected == 0 {
            let items = clone_strings(&self.schema_types);
            let current = if self.selected < self.entries.len() {
                self.entries[self.selected].ptype.clone()
            } else {
                String::new()
            };
            let sel = match position_of(&items, current.as_str()) {
                Some(i) => i,
                None => 0,
            };
            self.dropdown = Some(
                DropdownState::open(
                    items,
                    sel,
                    String::from_str("Select Provider Type"),
                    None,
                    None,
                ),
            );
            Action::Nothing
        } else if selected > n && selected - n == 1 {
            self.start_test(true)
        } else if selected > n && selected - n == 2 {
            self.request_save()
        } else if selected > n && selected - n == 3 {
            match self.form.take() {
                Some(mut f) => {
                    f.editing = false;
                    self.form = Some(f);
                },
                None => {},
            }
            self.focus_right = false;
            Action::Nothing
        } else if selected <= n {
            self.activate_field(selected - 1)
        } else {
            Action::Nothing
        }
    }

    /// A key while the form has the keys.
    fn form_key(&mut self, key: Key) -> (r: Action)
        ensures
            final(self)@ == old(self)@.form_key(key).0,
            r@ == old(self)@.form_key(key).1,
    {
        if self.form.is_none() && self.selected < self.entries.len() {
            self.ensure_form_for_selected();
        }
        let editing = match &self.form {
            None => {
                match key {
                    Key::Esc => {
                        self.focus_right = false;
                    },
                    _ => {},
                }
                return Action::Nothing;
            },
            Some(f) => f.editing,
        };
        match key {
            Key::Esc => {
                if editing {
                    match self.form.take() {
                        Some(mut f) => {
                            f.editing = false;
                            self.form = Some(f);
                        },
                        None => {},
                    }
                } else {
                    self.focus_right = false;
                }
                Action::Nothing
            },
            Key::Enter => self.activate(),
            _ => {
                match self.form.take() {
                    Some(mut f) => {
                        f.handle_key(key);
                        self.form = Some(f);
                    },
                    None => {},
                }
                Action::Nothing
            },
        }
    }

    /// The list hands the keys to the form by tab.
    fn enter_by_tab(&mut self)
        ensures
            final(self)@ == old(self)@.entered_by_tab(),
    {
        if self.is_add_row() {
            self.add_default();
        }
        if self.selected < self.entries.len() {
            self.ensure_form_for_selected();
        }
        self.focus_right = true;
    }

    /// A key while the list has the keys.
    fn list_key(&mut self, key: Key) -> (r: Action)
        ensures
            final(self)@ == old(self)@.list_key(key).0,
            r@ == old(self)@.list_key(key).1,
    {
        match key {
            Key::Up => {
                if self.selected > 0 {
                    self.selected -= 1;
                    self.form = None;
                }
                Action::Nothing
            },
            Key::Down => {
                if self.selected < self.entries.len() {
                    self.selected += 1;
                    self.form = None;
                }
                Action::Nothing
            },
            Key::Enter => {
                if self.is_add_row() {
                    self.add_default();
                }
                self.ensure_form_for_selected();
                self.focus_right = true;
                Action::Nothing
            },
            Key::Tab => {
                self.enter_by_tab();
                self.form_key(key)
            },
            Key::BackTab => {
                self.enter_by_tab();
                self.form_key(key)
            },
            Key::Char(c) => {
                if c == 'a' || c == 'A' {
                    self.add_default();
                    self.ensure_form_for_selected();
                    self.focus_right = true;
                    Action::Nothing
                } else if c == 'd' || c == 'D' {
                    self.delete_selected();
                    self.form = None;
                    Action::Nothing
                } else if c == 'm' || c == 'M' {
                    Action::OpenModelBrowser
                } else if c == 'l' || c == 'L' {
                    if self.test_in_progress || self.test_log.len() > 0 {
                        self.show_test_popup = !self.show_test_popup;
                    }
                    Action::Nothing
                } else if c == 't' || c == 'T' {
                    self.start_test(false)
                } else if c == 's' || c == 'S' {
                    Action::PersistList
                } else {
                    Action::Nothing
                }
            },
            _ => Action::Nothing,
        }
    }

    /// Takes a key and returns what the caller has to do next.
    pub fn handle_key(&mut self, key: Key) -> (r: Action)
        ensures
            final(self)@ == old(self)@.step(key).0,
            r@ == old(self)@.step(key).1,
            old(self)@.modal() ==> r is Nothing,
            old(self)@.wf() ==> final(self)@.wf(),
    {
        proof {
            if old(self)@.wf() {
                lemma_step_preserves_wf(old(self)@, key);
            }
        }
        if self.show_test_popup {
            self.log_key(key);
            Action::Nothing
        } else if self.dropdown.is_some() {
            self.dropdown_key(key);
            Action::Nothing
        } else if self.focus_right {
            self.form_key(key)
        } else {
            self.list_key(key)
        }
    }

    /// Opens the form of the selected entry afresh and puts the caret into
    /// the field of the given name.
    pub fn focus_form_field(&mut self, field_name: &str)
        ensures
            final(self)@ == old(self)@.focused_on(field_name@),
    {
        if self.selected >= self.entries.len() {
            return;
        }
        self.ensure_form_for_selected();
        match self.form.take() {
            Some(mut f) => {
                match find_field(&f.fields, field_name) {
                    Some(i) => {
                        if i < usize::MAX {
                            f.selected = i + 1;
                            f.editing = true;
                        }
                    },
                    None => {},
                }
                self.form = Some(f);
            },
            None => {},
        }
        self.focus_right = true;
    }

    /// Reports how the save that [`Action::Persist`] asked for went: `None`
    /// for success, else the error.
    pub fn save_finished(&mut self, error: Option<String>)
        ensures
            final(self)@ == old(self)@.save_finished(opt_str(error)),
    {
        match self.form.take() {
            Some(mut f) => {
                let message = match error {
                    None => String::from_str("Saved"),
                    Some(e) => concat("Save failed: ", e.as_str()),
                };
                f.mark_saved(message);
                self.form = Some(f);
            },
            None => {},
        }
    }

    /// Reports the verdict of the validation run under way.
    pub fn apply_verdict(&mut self, ok: bool, message: &str)
        ensures
            final(self)@ == old(self)@.verdict_applied(ok, message@),
            !final(self)@.test_in_progress,
            final(self)@.pending_test_hash is None || !old(self)@.test_in_progress,
    {
        if self.test_in_progress {
            self.test_in_progress = false;
            let status = if ok {
                String::from_str(message)
            } else {
                concat("Error: ", message)
            };
            let pending = self.pending_test_hash.take();
            match self.form.take() {
                Some(mut f) => {
                    f.record_verdict(ok, status.clone(), pending);
                    self.form = Some(f);
                },
                None => {},
            }
            self.test_status = Some(status);
            if !ok {
                self.show_test_popup = true;
            }
        }
    }

    /// Reports one line that the validation run wrote.
    pub fn push_log_line(&mut self, line: String)
        ensures
            final(self)@ == old(self)@.line_logged(line@),
    {
        self.test_log.push(line);
        assert(strs(self.test_log@) =~= strs(old(self).test_log@).push(line@));
    }

    /// A discovery run for field `fi` ended.
    fn discovery_result(
        &mut self,
        fi: usize,
        result: Result<Vec<String>, String>,
        downloaded: Option<Vec<String>>,
        title: String,
        nothing: String,
    )
        ensures
            final(self)@ == old(self)@.discovered(
                fi as int,
                match result {
                    Ok(items) => Ok(strs(items@)),
                    Err(e) => Err(e@),
                },
                match downloaded {
                    Some(d) => Some(strs(d@)),
                    None => None,
                },
                title@,
                nothing@,
            ),
    {
        match self.form.take() {
            None => {},
            Some(mut f) => {
                if fi >= f.fields.len() {
                    self.form = Some(f);
                } else {
                    match result {
                        Err(e) => {
                            f.message = Some(concat("Discover failed: ", e.as_str()));
                            f.editing = !f.editing;
                            self.form = Some(f);
                        },
                        Ok(items) => {
                            if items.len() == 0 {
                                f.message = Some(nothing);
                                f.editing = !f.editing;
                                self.form = Some(f);
                            } else {
                                let sel = match position_of(&items, f.fields[fi].buffer.as_str()) {
                                    Some(i) => i,
                                    None => 0,
                                };
                                self.form = Some(f);
                                self.dropdown = Some(
                                    DropdownState::open(items, sel, title, Some(fi), downloaded),
                                );
                            }
                        },
                    }
                }
            },
        }
    }

    /// Reports the response of the run that [`Action::DiscoverModels`] asked
    /// for, and the list of models where it was asked for and could be had.
    pub fn models_discovered(
        &mut self,
        field: usize,
        response: Result<Json, String>,
        downloads: Option<Json>,
    )
        ensures
            final(self)@ == old(self)@.models_discovered(
                field as int,
                response_view(response),
                opt_view(downloads),
            ),
    {
        let ptype = if self.selected < self.entries.len() {
            self.entries[self.selected].ptype.clone()
        } else {
            String::new()
        };
        let result = match response {
            Ok(d) => Ok(discovered_models(&d)),
            Err(e) => Err(e),
        };
        let downloaded = match downloads {
            Some(d) => Some(downloaded_models(&d)),
            None => None,
        };
        let mut title = concat("Select model (", ptype.as_str());
        title.append("):");
        let nothing = concat("No models discovered for ", ptype.as_str());
        self.discovery_result(field, result, downloaded, title, nothing);
    }

    /// Reports the response of the run that [`Action::DiscoverPaths`] asked
    /// for.
    pub fn paths_discovered(&mut self, field: usize, response: Result<Json, String>)
        ensures
            final(self)@ == old(self)@.paths_discovered(field as int, response_view(response)),
    {
        let result = match response {
            Ok(d) => Ok(discovered_models(&d)),
            Err(e) => Err(e),
        };
        self.discovery_result(
            field,
            result,
            None,
            String::from_str("Select GGUF path"),
            String::from_str(
                "No GGUF files discovered. Configure auto_discovery_gguf_paths or type path manually",
            ),
        );
    }
}

} // verus!
