//! The vocabulary between the library and whoever performs its requests.
//!
//! The library never touches the operating system. Each stage is a transition
//! function: it takes the stage's state and an [`Event`], the answer to the
//! last request, and returns a [`Step`]: either the next state with the next
//! [`Effect`] to perform, or the stage's result.

use vstd::prelude::*;

verus! {

/// The foreground window, as the window context provider reports it.
#[derive(Debug, Clone)]
pub struct ActiveWindow {
    pub app_name: String,
    pub title: String,
}

/// What the two read-only accessibility queries returned.
#[derive(Debug, Clone)]
pub enum AxProbe {
    /// The system-wide root has no focused element.
    NoFocusedElement,
    /// The focused element has no selected-text attribute that is a string.
    NoSelectedText,
    /// The selected-text attribute of the focused element.
    SelectedText(String),
}

/// How one run of the scripting interpreter ended.
#[derive(Debug, Clone)]
pub enum ScriptRun {
    /// The interpreter could not be started; holds the reason.
    NotStarted(String),
    /// The interpreter ran and exited.
    Exited { success: bool, stdout: Vec<u8>, stderr: Vec<u8> },
}

/// One key going down or up.
#[derive(Debug, Clone, Copy, PartialEq, Eq, Structural)]
pub struct KeyStroke {
    pub key: u16,
    pub key_down: bool,
}

/// What came of building and posting one key event.
#[derive(Debug, Clone, Copy, PartialEq, Eq, Structural)]
pub enum KeyPost {
    /// No event source could be created.
    NoEventSource,
    /// The keyboard event could not be created from the source.
    NoKeyboardEvent,
    /// The event was posted and the settle delay has passed.
    Posted,
}

/// The answer to an [`Effect`].
#[derive(Debug)]
pub enum Event<T> {
    /// Starts a stage; answers no request.
    Begin,
    /// Answers [`Effect::QueryWindow`]; `None` when there is no foreground window.
    Window(Option<ActiveWindow>),
    /// Answers [`Effect::RunFileScript`] and [`Effect::RunCopyScript`].
    Script(ScriptRun),
    /// Answers [`Effect::ReadAccessibility`].
    Accessibility(AxProbe),
    /// Answers [`Effect::Snapshot`]; `contents` is `None` when the item list
    /// could not be read.
    Snapshot { change_count: isize, contents: Option<Vec<T>> },
    /// Answers [`Effect::PostKey`].
    KeyPosted(KeyPost),
    /// Answers [`Effect::Poll`]: the change counter as read after the sleep, and
    /// the time since the wait began.
    Polled { change_count: isize, elapsed_nanos: u128 },
    /// Answers [`Effect::ReadText`]; `None` when the clipboard holds no string.
    Text(Option<String>),
    /// Answers [`Effect::Clear`].
    Cleared,
    /// Answers [`Effect::Write`]: whether the clipboard took the items.
    Written(bool),
}

/// A request to the outside.
#[derive(Debug)]
pub enum Effect<T> {
    /// Nothing new is asked: the event did not answer the pending request.
    Idle,
    /// Report the foreground window.
    QueryWindow,
    /// Run the script that lists the selected file-manager items; the flag
    /// picks the variant that locates the desktop folder first.
    RunFileScript { for_empty_window: bool },
    /// Run the script that sends the copy keystroke with the alert volume muted.
    RunCopyScript,
    /// Query the focused element and its selected text.
    ReadAccessibility,
    /// Read the clipboard's change counter and its items.
    Snapshot,
    /// Build and post one key event, then sleep `settle_ms` milliseconds.
    PostKey { stroke: KeyStroke, settle_ms: u64 },
    /// Sleep `sleep_ms` milliseconds, then read the change counter and the clock.
    Poll { sleep_ms: u64 },
    /// Read the clipboard's string payload.
    ReadText,
    /// Clear the clipboard.
    Clear,
    /// Write these items to the clipboard, in this order.
    Write(Vec<T>),
}

/// How a transition ended: with a next state and a request, or with the
/// stage's result.
#[derive(Debug)]
pub enum Step<S, T, R> {
    Next(S, Effect<T>),
    Done(R),
}

} // verus!
