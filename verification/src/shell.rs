//! The frame around the pages: which page shows, the welcome menu, the
//! preferences, and the keys that work on every page.
use crate::keys::Key;
use crate::pages::welcome_page;
use crate::pages::welcome_target;
use crate::pages::Page;
use crate::pages::ThemeMode;
use vstd::prelude::*;

verus! {

/// What the frame holds.
#[derive(Clone, Copy, Debug)]
pub struct Shell {
    pub page: Page,
    /// The selected entry of the welcome menu.
    pub menu_idx: usize,
    pub show_help: bool,
    /// Whether the header is animated.
    pub anim: bool,
    /// The selected preference: 0 the theme, 1 the animation.
    pub settings_idx: usize,
    pub should_quit: bool,
    pub theme: ThemeMode,
}

impl Shell {
    /// The frame as the program starts: the welcome page, dark, animated.
    pub open spec fn initial() -> Shell {
        Shell {
            page: Page::Welcome,
            menu_idx: 0,
            show_help: false,
            anim: true,
            settings_idx: 0,
            should_quit: false,
            theme: ThemeMode::Dark,
        }
    }

    /// After escape: the help goes, else the welcome page shows, else the
    /// program ends.
    pub open spec fn escaped(self) -> Shell {
        if self.show_help {
            Shell { show_help: false, ..self }
        } else if self.page != Page::Welcome {
            Shell { page: Page::Welcome, ..self }
        } else {
            Shell { should_quit: true, ..self }
        }
    }

    /// After a key that works on every page: `q` ends the program, `?` shows
    /// or hides the help, `t` switches the theme, `a` the animation, a digit
    /// or a letter shows its page, and escape goes back.
    pub open spec fn global_keyed(self, key: Key) -> Shell {
        match key {
            Key::Esc => self.escaped(),
            Key::Char(c) => if c == 'q' {
                Shell { should_quit: true, ..self }
            } else if c == '?' {
                Shell { show_help: !self.show_help, ..self }
            } else if c == 't' {
                Shell { theme: self.theme.other(), ..self }
            } else if c == 'a' {
                Shell { anim: !self.anim, ..self }
            } else if c == '1' {
                Shell { page: Page::Readme, ..self }
            } else if c == '2' {
                Shell { page: Page::Configure, ..self }
            } else if c == '3' {
                Shell { page: Page::SelectDefault, ..self }
            } else if c == '4' {
                Shell { page: Page::Diagnostics, ..self }
            } else if c == 'b' || c == 'B' {
                Shell { page: Page::Build, ..self }
            } else if c == 's' || c == 'S' {
                Shell { page: Page::Settings, ..self }
            } else {
                self
            },
            _ => self,
        }
    }

    /// After a key on the welcome page: up and down walk the menu, enter
    /// shows the page of the selected entry.
    pub open spec fn welcome_keyed(self, key: Key) -> Shell {
        match key {
            Key::Up => if self.menu_idx > 0 {
                Shell { menu_idx: (self.menu_idx - 1) as usize, ..self }
            } else {
                self
            },
            Key::Down => if self.menu_idx < 7 {
                Shell { menu_idx: (self.menu_idx + 1) as usize, ..self }
            } else {
                self
            },
            Key::Enter => Shell { page: welcome_target(self.menu_idx as int), ..self },
            _ => self,
        }
    }

    /// After a key on the preferences page: up and down walk the two
    /// preferences, enter switches the selected one.
    pub open spec fn settings_keyed(self, key: Key) -> Shell {
        match key {
            Key::Up => if self.settings_idx > 0 {
                Shell { settings_idx: (self.settings_idx - 1) as usize, ..self }
            } else {
                self
            },
            Key::Down => if self.settings_idx < 1 {
                Shell { settings_idx: (self.settings_idx + 1) as usize, ..self }
            } else {
                self
            },
            Key::Enter => if self.settings_idx == 0 {
                Shell { theme: self.theme.other(), ..self }
            } else if self.settings_idx == 1 {
                Shell { anim: !self.anim, ..self }
            } else {
                self
            },
            _ => self,
        }
    }

    /// The frame as the program starts.
    pub fn new() -> (r: Shell)
        ensures
            r == Shell::initial(),
    {
        Shell {
            page: Page::Welcome,
            menu_idx: 0,
            show_help: false,
            anim: true,
            settings_idx: 0,
            should_quit: false,
            theme: ThemeMode::Dark,
        }
    }

    /// A key that works on every page.
    pub fn global_key(&mut self, key: Key)
        ensures
            *final(self) == old(self).global_keyed(key),
    {
        match key {
            Key::Esc => {
                if self.show_help {
                    self.show_help = false;
                } else if self.page != Page::Welcome {
                    self.page = Page::Welcome;
                } else {
                    self.should_quit = true;
                }
            },
            Key::Char(c) => {
                if c == 'q' {
                    self.should_quit = true;
                } else if c == '?' {
                    self.show_help = !self.show_help;
                } else if c == 't' {
                    self.theme.toggle();
                } else if c == 'a' {
                    self.anim = !self.anim;
                } else if c == '1' {
                    self.page = Page::Readme;
                } else if c == '2' {
                    self.page = Page::Configure;
                } else if c == '3' {
                    self.page = Page::SelectDefault;
                } else if c == '4' {
                    self.page = Page::Diagnostics;
                } else if c == 'b' || c == 'B' {
                    self.page = Page::Build;
                } else if c == 's' || c == 'S' {
                    self.page = Page::Settings;
                }
            },
            _ => {},
        }
    }

    /// A key on the welcome page.
    pub fn welcome_key(&mut self, key: Key)
        ensures
            *final(self) == old(self).welcome_keyed(key),
    {
        match key {
            Key::Up => {
                if self.menu_idx > 0 {
                    self.menu_idx -= 1;
                }
            },
            Key::Down => {
                if self.menu_idx < 7 {
                    self.menu_idx += 1;
                }
            },
            Key::Enter => {
                self.page = welcome_page(self.menu_idx);
            },
            _ => {},
        }
    }

    /// A key on the preferences page.
    pub fn settings_key(&mut self, key: Key)
        ensures
            *final(self) == old(self).settings_keyed(key),
    {
        match key {
            Key::Up => {
                if self.settings_idx > 0 {
                    self.settings_idx -= 1;
                }
            },
            Key::Down => {
                if self.settings_idx < 1 {
                    self.settings_idx += 1;
                }
            },
            Key::Enter => {
                if self.settings_idx == 0 {
                    self.theme.toggle();
                } else if self.settings_idx == 1 {
                    self.anim = !self.anim;
                }
            },
            _ => {},
        }
    }
}

} // verus!
