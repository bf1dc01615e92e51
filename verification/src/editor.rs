//! Choosing the editor command from the three configuration values.

use vstd::prelude::*;

use crate::model::editor_choice;
use crate::model::env_view;
use crate::model::OpenError;

verus! {

/// Returns the first configuration value that is set, in the priority order
/// tool-specific, then visual, then general editor. A value set to the empty
/// string counts as set and is returned as it is. Fails with
/// [`OpenError::EditorNotConfigured`] exactly when none of the three is set.
pub fn get_editor_path(
    cargo_editor: Option<String>,
    visual: Option<String>,
    editor: Option<String>,
) -> (r: Result<String, OpenError>)
    ensures
        match r {
            Ok(chosen) => editor_choice(env_view(cargo_editor), env_view(visual), env_view(editor))
                == Some(chosen@),
            Err(e) => e matches OpenError::EditorNotConfigured && editor_choice(
                env_view(cargo_editor),
                env_view(visual),
                env_view(editor),
            ) is None,
        },
{
    match cargo_editor {
        Some(chosen) => Ok(chosen),
        None => match visual {
            Some(chosen) => Ok(chosen),
            None => match editor {
                Some(chosen) => Ok(chosen),
                None => Err(OpenError::EditorNotConfigured),
            },
        },
    }
}

/// Law: the chosen editor is exactly the first set value in priority order —
/// the tool-specific value beats the visual one, which beats the general
/// one — and the choice fails precisely when all three are unset.
pub proof fn lemma_editor_priority(
    cargo_editor: Option<Seq<char>>,
    visual: Option<Seq<char>>,
    editor: Option<Seq<char>>,
)
    ensures
        cargo_editor matches Some(v) ==> editor_choice(cargo_editor, visual, editor) == Some(v),
        cargo_editor is None ==> (visual matches Some(v) ==> editor_choice(
            cargo_editor,
            visual,
            editor,
        ) == Some(v)),
        cargo_editor is None && visual is None ==> editor_choice(cargo_editor, visual, editor)
            == editor,
        editor_choice(cargo_editor, visual, editor) is None <==> (cargo_editor is None
            && visual is None && editor is None),
{
}

/// Law: a tool-specific value set to the empty string is still the chosen
/// editor; emptiness does not make the choice fall through to the
/// lower-priority values.
pub proof fn lemma_empty_editor_is_configured(visual: Option<Seq<char>>, editor: Option<Seq<char>>)
    ensures
        editor_choice(Some(Seq::<char>::empty()), visual, editor) == Some(Seq::<char>::empty()),
{
}

} // verus!
