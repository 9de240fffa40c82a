use vstd::prelude::*;

verus! {

/// The input mode the user interface is in; it selects which key bindings apply.
#[derive(Debug, Clone, Copy, PartialEq, Eq, Hash, Structural)]
pub enum Mode {
    Home,
    EditorReadOnly,
    CreateEditor,
    UpdateEditor,
    Tab,
    ReadTab,
    ReadDeleteTab,
    BackupTab,
    FullTab,
    ErrorPopup,
    ConfirmPopup,
    FilterPopup,
}

impl Default for Mode {
    fn default() -> (m: Mode)
        ensures
            m == Mode::Home,
    {
        Mode::Home
    }
}

impl Mode {
    /// The mode a new interface starts in.
    pub fn default_mode() -> (m: Mode)
        ensures
            m == Mode::Home,
    {
        Mode::Home
    }
}

} // verus!
