//! The user's editor preferences, as two environment variables give them.

use vstd::prelude::*;

verus! {

/// Name of the variable that holds the terminal editor.
pub const EDITOR: &'static str = "EDITOR";

/// Name of the variable that holds the visual editor.
pub const VISUAL: &'static str = "VISUAL";

/// The editors a user asked for. Either, both or neither may be set.
#[derive(Debug, Clone, PartialEq, Eq)]
pub struct Editors {
    /// The terminal editor.
    pub editor: Option<String>,
    /// The visual editor.
    pub visual: Option<String>,
}

/// What an `Editors` value holds: the two program names as texts.
pub struct EditorsView {
    pub editor: Option<Seq<char>>,
    pub visual: Option<Seq<char>>,
}

/// The text of an optional string.
pub open spec fn text_of(value: Option<String>) -> Option<Seq<char>> {
    match value {
        Some(s) => Some(s@),
        None => None,
    }
}

impl View for Editors {
    type V = EditorsView;

    open spec fn view(&self) -> EditorsView {
        EditorsView { editor: text_of(self.editor), visual: text_of(self.visual) }
    }
}

impl Editors {
    /// Preferences with neither editor set.
    pub fn new() -> (editors: Editors)
        ensures
            editors.editor is None,
            editors.visual is None,
    {
        Editors { editor: None, visual: None }
    }

    /// Sets the visual editor and leaves the terminal editor as it was.
    pub fn set_visual(&mut self, visual: String)
        ensures
            final(self).visual == Some(visual),
            final(self).editor == old(self).editor,
    {
        self.visual = Some(visual);
    }

    /// Sets the terminal editor and leaves the visual editor as it was.
    pub fn set_editor(&mut self, editor: String)
        ensures
            final(self).editor == Some(editor),
            final(self).visual == old(self).visual,
    {
        self.editor = Some(editor);
    }
}

/// Builds the preferences from the values of the two variables, `None` for a
/// variable that is not set. Each field mirrors its own variable and nothing
/// else; a name is taken as it is, whether or not such a program exists.
pub fn get_editor_env_var(visual: Option<String>, editor: Option<String>) -> (editors: Editors)
    ensures
        editors.visual == visual,
        editors.editor == editor,
{
    let mut editors = Editors::new();
    if let Some(visual) = visual {
        editors.set_visual(visual);
    }
    if let Some(editor) = editor {
        editors.set_editor(editor);
    }
    editors
}

} // verus!
