//! The accessibility reader: the selected text of the focused element.

use vstd::prelude::*;
use crate::model::SelectionError;
use crate::protocol::AxProbe;

verus! {

/// The selected text that the two accessibility queries gave.
///
/// No focused element fails as `NoFocusedElement`; a focused element without a
/// selected-text string fails as `NoSelection`. The string is returned as it
/// is: an empty one is a success.
pub fn get_selected_text_by_ax(probe: AxProbe) -> (r: Result<String, SelectionError>)
    ensures
        r == (match probe {
            AxProbe::NoFocusedElement => Err::<String, SelectionError>(
                SelectionError::NoFocusedElement,
            ),
            AxProbe::NoSelectedText => Err::<String, SelectionError>(SelectionError::NoSelection),
            AxProbe::SelectedText(text) => Ok::<String, SelectionError>(text),
        }),
{
    match probe {
        AxProbe::NoFocusedElement => Err(SelectionError::NoFocusedElement),
        AxProbe::NoSelectedText => Err(SelectionError::NoSelection),
        AxProbe::SelectedText(text) => Ok(text),
    }
}

} // verus!
