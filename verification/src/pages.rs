//! The pages of the front end and the two small switches that every page
//! shares.
use vstd::prelude::*;

verus! {

/// The pages that the front end can show.
#[derive(Copy, Clone, Debug, PartialEq, Eq, Structural)]
pub enum Page {
    Welcome,
    Readme,
    Configure,
    SelectDefault,
    ModelBrowser,
    Diagnostics,
    Build,
    Settings,
}

/// Which half of the colour scheme is active.
#[derive(Copy, Clone, Debug, PartialEq, Eq, Structural)]
pub enum ThemeMode {
    Light,
    Dark,
}

impl ThemeMode {
    /// The other mode.
    pub open spec fn other(self) -> ThemeMode {
        match self {
            ThemeMode::Dark => ThemeMode::Light,
            ThemeMode::Light => ThemeMode::Dark,
        }
    }

    /// Switches to the other mode.
    pub fn toggle(&mut self)
        ensures
            *final(self) == old(self).other(),
    {
        *self = match *self {
            ThemeMode::Dark => ThemeMode::Light,
            ThemeMode::Light => ThemeMode::Dark,
        };
    }
}

/// Switching twice gives the mode back.
pub proof fn lemma_toggle_twice(m: ThemeMode)
    ensures
        m.other().other() == m,
        m.other() != m,
{
}

/// The number of entries of the welcome menu.
pub open spec fn welcome_len() -> int {
    8
}

/// The page behind entry `i` of the welcome menu; the last entry leaves.
pub open spec fn welcome_target(i: int) -> Page {
    if i == 0 {
        Page::Readme
    } else if i == 1 {
        Page::Configure
    } else if i == 2 {
        Page::SelectDefault
    } else if i == 3 {
        Page::Diagnostics
    } else if i == 4 {
        Page::Build
    } else if i == 5 {
        Page::Settings
    } else if i == 6 {
        Page::ModelBrowser
    } else {
        Page::Welcome
    }
}

/// The page behind entry `i` of the welcome menu.
pub fn welcome_page(i: usize) -> (r: Page)
    ensures
        r == welcome_target(i as int),
{
    if i == 0 {
        Page::Readme
    } else if i == 1 {
        Page::Configure
    } else if i == 2 {
        Page::SelectDefault
    } else if i == 3 {
        Page::Diagnostics
    } else if i == 4 {
        Page::Build
    } else if i == 5 {
        Page::Settings
    } else if i == 6 {
        Page::ModelBrowser
    } else {
        Page::Welcome
    }
}

/// The label of entry `i` of the welcome menu.
pub fn welcome_label(i: usize) -> (r: &'static str)
    ensures
        r@ == if i == 0 {
            "README"@
        } else if i == 1 {
            "Configure Providers"@
        } else if i == 2 {
            "Select Default"@
        } else if i == 3 {
            "Diagnostics"@
        } else if i == 4 {
            "Build Configuration"@
        } else if i == 5 {
            "Settings"@
        } else if i == 6 {
            "Model Browser"@
        } else {
            "EXIT"@
        },
{
    if i == 0 {
        "README"
    } else if i == 1 {
        "Configure Providers"
    } else if i == 2 {
        "Select Default"
    } else if i == 3 {
        "Diagnostics"
    } else if i == 4 {
        "Build Configuration"
    } else if i == 5 {
        "Settings"
    } else if i == 6 {
        "Model Browser"
    } else {
        "EXIT"
    }
}

} // verus!
