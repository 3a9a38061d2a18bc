//! The values that a retrieval hands to its caller, and the errors it can end with.

use vstd::prelude::*;

verus! {

/// What was found selected in the foreground application.
///
/// In text mode `text` holds exactly one element, which may be empty. In
/// file-path mode it holds one element per selected path, in selection order.
#[derive(Debug, Clone, PartialEq, Eq)]
pub struct SelectedText {
    pub is_file_paths: bool,
    pub app_name: String,
    pub text: Vec<String>,
}

/// The mathematical content of a [`SelectedText`].
pub struct SelectedTextView {
    pub is_file_paths: bool,
    pub app_name: Seq<char>,
    pub text: Seq<Seq<char>>,
}

/// The sequence of character sequences that a vector of strings stands for.
pub open spec fn strings_view(v: Seq<String>) -> Seq<Seq<char>> {
    Seq::new(v.len(), |i: int| v[i]@)
}

impl View for SelectedText {
    type V = SelectedTextView;

    open spec fn view(&self) -> SelectedTextView {
        SelectedTextView {
            is_file_paths: self.is_file_paths,
            app_name: self.app_name@,
            text: strings_view(self.text@),
        }
    }
}

/// The content of a text-mode result: one element, not file paths.
pub open spec fn text_result(app_name: Seq<char>, content: Seq<char>) -> SelectedTextView {
    SelectedTextView { is_file_paths: false, app_name, text: seq![content] }
}

/// The content of a file-path result.
pub open spec fn file_result(app_name: Seq<char>, paths: Seq<Seq<char>>) -> SelectedTextView {
    SelectedTextView { is_file_paths: true, app_name, text: paths }
}

impl SelectedTextView {
    /// Text mode holds exactly one element; file-path mode at least one.
    pub open spec fn wf(self) -> bool {
        if self.is_file_paths {
            self.text.len() >= 1
        } else {
            self.text.len() == 1
        }
    }
}

impl SelectedText {
    /// A text-mode result with the single element `content`.
    pub fn from_text(app_name: String, content: String) -> (r: SelectedText)
        ensures
            r@ == text_result(app_name@, content@),
            r@.wf(),
    {
        let ghost c = content@;
        let mut text: Vec<String> = Vec::new();
        text.push(content);
        let r = SelectedText { is_file_paths: false, app_name, text };
        assert(r@.text =~= seq![c]);
        r
    }

    /// A file-path result with the elements `paths`.
    pub fn from_paths(app_name: String, paths: Vec<String>) -> (r: SelectedText)
        ensures
            r@ == file_result(app_name@, strings_view(paths@)),
    {
        SelectedText { is_file_paths: true, app_name, text: paths }
    }
}

/// Which part of a key event could not be built.
#[derive(Debug, Clone, Copy, PartialEq, Eq, Structural)]
pub enum KeyFailure {
    /// No event source could be created.
    NoEventSource,
    /// The keyboard event could not be created from the source.
    NoKeyboardEvent,
}

/// Why a step of a retrieval failed.
#[derive(Debug, Clone, PartialEq, Eq)]
pub enum SelectionError {
    /// The system-wide accessibility root reports no focused element.
    NoFocusedElement,
    /// The focused element has no selected-text attribute, or one that is no string.
    NoSelection,
    /// The clipboard's change counter did not move before the deadline.
    ClipboardTimeout,
    /// Writing the saved items back to the clipboard failed.
    ClipboardRestoreFailed,
    /// A script did not run to a zero exit with decodable output; holds its diagnostics.
    ScriptInvocationFailed(String),
    /// A key event could not be built.
    EventSimulationFailed(KeyFailure),
}

/// The mathematical content of a [`SelectionError`].
pub enum SelectionErrorView {
    NoFocusedElement,
    NoSelection,
    ClipboardTimeout,
    ClipboardRestoreFailed,
    ScriptInvocationFailed(Seq<char>),
    EventSimulationFailed(KeyFailure),
}

impl View for SelectionError {
    type V = SelectionErrorView;

    open spec fn view(&self) -> SelectionErrorView {
        match *self {
            SelectionError::NoFocusedElement => SelectionErrorView::NoFocusedElement,
            SelectionError::NoSelection => SelectionErrorView::NoSelection,
            SelectionError::ClipboardTimeout => SelectionErrorView::ClipboardTimeout,
            SelectionError::ClipboardRestoreFailed => SelectionErrorView::ClipboardRestoreFailed,
            SelectionError::ScriptInvocationFailed(d) => SelectionErrorView::ScriptInvocationFailed(
                d@,
            ),
            SelectionError::EventSimulationFailed(part) => SelectionErrorView::EventSimulationFailed(
                part,
            ),
        }
    }
}

impl SelectionErrorView {
    /// What the failure says of itself: a fixed sentence for each kind, and
    /// for a script its diagnostics.
    pub open spec fn message(self) -> Seq<char> {
        match self {
            SelectionErrorView::NoFocusedElement => "No selected element"@,
            SelectionErrorView::NoSelection => "No selected text"@,
            SelectionErrorView::ClipboardTimeout => "User didn't select any text or pasteboard took too long to update"@,
            SelectionErrorView::ClipboardRestoreFailed => "Failed to write objects to pasteboard"@,
            SelectionErrorView::ScriptInvocationFailed(diagnostics) => diagnostics,
            SelectionErrorView::EventSimulationFailed(KeyFailure::NoEventSource) => "Failed to create CGEventSource"@,
            SelectionErrorView::EventSimulationFailed(KeyFailure::NoKeyboardEvent) => "Failed to simulate key press event for spotlight selected text copy"@,
        }
    }
}

impl SelectionError {
    /// What the failure says of itself.
    pub fn message(&self) -> (r: String)
        ensures
            r@ == self@.message(),
    {
        match self {
            SelectionError::NoFocusedElement => "No selected element".to_owned(),
            SelectionError::NoSelection => "No selected text".to_owned(),
            SelectionError::ClipboardTimeout => "User didn't select any text or pasteboard took too long to update".to_owned(),
            SelectionError::ClipboardRestoreFailed => "Failed to write objects to pasteboard".to_owned(),
            SelectionError::ScriptInvocationFailed(diagnostics) => diagnostics.clone(),
            SelectionError::EventSimulationFailed(KeyFailure::NoEventSource) => "Failed to create CGEventSource".to_owned(),
            SelectionError::EventSimulationFailed(KeyFailure::NoKeyboardEvent) => "Failed to simulate key press event for spotlight selected text copy".to_owned(),
        }
    }

    /// A failure is fatal when no strategy is left to fall back on, or when the
    /// clipboard may have been left changed.
    pub open spec fn spec_is_fatal(&self) -> bool {
        *self is ClipboardRestoreFailed || *self is EventSimulationFailed
    }

    #[verifier::when_used_as_spec(spec_is_fatal)]
    pub fn is_fatal(&self) -> (r: bool)
        ensures
            r == self.spec_is_fatal(),
    {
        match self {
            SelectionError::ClipboardRestoreFailed => true,
            SelectionError::EventSimulationFailed(_) => true,
            _ => false,
        }
    }
}

/// The clipboard as it was when a transaction began.
///
/// `saved_contents` is `None` when the item list could not be read.
#[derive(Debug)]
pub struct PasteboardSavedState<T> {
    pub saved_change_count: isize,
    pub saved_contents: Option<Vec<T>>,
}

/// How the first stage of text mode ended: with the text itself, or with a
/// clipboard transaction that has begun and is to be completed.
#[derive(Debug)]
pub enum GetSelectedTextResult<T> {
    Text(SelectedText),
    PasteboardState(PasteboardSavedState<T>),
}

} // verus!
