//! The orchestrator: from the foreground window to the selection, by file
//! listing, accessibility, or a clipboard transaction, in that order.

use vstd::prelude::*;
use crate::accessibility::get_selected_text_by_ax;
use crate::cache::{
    distinct,
    lemma_lookup_recorded,
    lemma_touched_keeps_lookup,
    lookup,
    recorded,
    touched,
    Entries,
    MethodCache,
    MethodTag,
};
use crate::model::{
    file_result,
    text_result,
    GetSelectedTextResult,
    SelectedText,
    SelectionError,
    SelectionErrorView,
};
use crate::pasteboard::{
    completion_spec,
    ctrl_c_and_save_pasteboard,
    get_selected_text_from_pasteboard,
    saving_spec,
    Completion,
    Saving,
    polls_left,
    SavingStep,
    DEFAULT_WAIT_TIMEOUT_MS,
    POLL_INTERVAL_MS,
};
use crate::protocol::{ActiveWindow, AxProbe, Effect, Event, Step};
use crate::script::{get_selected_files, listing, listing_diagnostics};
use crate::text::split;
use crate::window::{empty_window, finder, in_finder_or_empty_window, is_empty_window};

verus! {

/// Where the first stage of text mode stands.
#[derive(Debug)]
pub enum AxThenCopy<T> {
    /// Nothing was asked yet.
    Start { app_name: String, use_apple_script: bool },
    /// The accessibility queries are being made.
    Probing { app_name: String, use_apple_script: bool },
    /// Accessibility gave nothing; a clipboard transaction is beginning.
    /// `accessibility_failure` is the error that was passed over, where
    /// accessibility failed and did not just give the empty text.
    Saving { accessibility_failure: Option<SelectionError>, stage: Saving<T> },
}

/// A transition of the first stage of text mode.
pub type AxThenCopyStep<T> = Step<
    AxThenCopy<T>,
    T,
    Result<GetSelectedTextResult<T>, SelectionError>,
>;

/// A transition of the beginning of a transaction, seen from text mode.
pub open spec fn saving_in_text_mode<T>(
    inner: SavingStep<T>,
    accessibility_failure: Option<SelectionError>,
) -> AxThenCopyStep<T> {
    match inner {
        Step::Next(stage, effect) => Step::Next(
            AxThenCopy::Saving { accessibility_failure, stage },
            effect,
        ),
        Step::Done(Ok(saved)) => Step::Done(Ok(GetSelectedTextResult::PasteboardState(saved))),
        Step::Done(Err(e)) => Step::Done(Err(e)),
    }
}

/// The text that accessibility gave, where it gave a text that is not empty.
pub open spec fn accessible_text(probe: AxProbe) -> Option<Seq<char>> {
    match probe {
        AxProbe::SelectedText(text) => if text@.len() > 0 {
            Some(text@)
        } else {
            None
        },
        _ => None,
    }
}

/// The failure of accessibility, where it failed.
pub open spec fn accessibility_failure(probe: AxProbe) -> Option<SelectionError> {
    match probe {
        AxProbe::NoFocusedElement => Some(SelectionError::NoFocusedElement),
        AxProbe::NoSelectedText => Some(SelectionError::NoSelection),
        AxProbe::SelectedText(_) => None,
    }
}

/// The transition relation of [`get_selected_text_using_ax_then_copy`].
pub open spec fn ax_then_copy_spec<T>(
    pre: AxThenCopy<T>,
    event: Event<T>,
    post: AxThenCopyStep<T>,
) -> bool {
    match (pre, event) {
        (AxThenCopy::Start { app_name, use_apple_script }, Event::Begin) => post
            == AxThenCopyStep::<T>::Next(
            AxThenCopy::Probing { app_name, use_apple_script },
            Effect::ReadAccessibility,
        ),
        (AxThenCopy::Probing { app_name, use_apple_script }, Event::Accessibility(probe)) => {
            match accessible_text(probe) {
                Some(text) => post matches Step::Done(Ok(GetSelectedTextResult::Text(t))) && t@
                    == text_result(app_name@, text),
                None => post == saving_in_text_mode(
                    saving_spec(
                        Saving::<T>::Start { use_applescript: use_apple_script },
                        Event::Begin,
                    ),
                    accessibility_failure(probe),
                ),
            }
        },
        (AxThenCopy::Saving { accessibility_failure, stage }, _) => post == saving_in_text_mode(
            saving_spec(stage, event),
            accessibility_failure,
        ),
        _ => post == AxThenCopyStep::<T>::Next(pre, Effect::Idle),
    }
}

/// Hands the transitions of the beginning of a transaction on to text mode.
fn save_step<T>(
    stage: Saving<T>,
    event: Event<T>,
    accessibility_failure: Option<SelectionError>,
) -> (r: AxThenCopyStep<T>)
    ensures
        r == saving_in_text_mode(saving_spec(stage, event), accessibility_failure),
{
    match ctrl_c_and_save_pasteboard(stage, event) {
        Step::Next(stage, effect) => Step::Next(
            AxThenCopy::Saving { accessibility_failure, stage },
            effect,
        ),
        Step::Done(Ok(saved)) => Step::Done(Ok(GetSelectedTextResult::PasteboardState(saved))),
        Step::Done(Err(e)) => Step::Done(Err(e)),
    }
}

impl<T> AxThenCopy<T> {
    /// No more requests than this are still to be answered before the stage ends.
    pub open spec fn remaining(self) -> nat {
        match self {
            AxThenCopy::Start { .. } => 10,
            AxThenCopy::Probing { .. } => 9,
            AxThenCopy::Saving { stage, .. } => stage.remaining(),
        }
    }

    /// The first stage of text mode for `app_name`, before anything was asked.
    pub fn new(app_name: String, use_apple_script: bool) -> (r: AxThenCopy<T>)
        ensures
            r == (AxThenCopy::<T>::Start { app_name, use_apple_script }),
    {
        AxThenCopy::Start { app_name, use_apple_script }
    }
}

/// One transition of the first stage of text mode.
///
/// Accessibility is asked first. A text that is not empty ends the stage with
/// that text. An empty text or a failure begins a clipboard transaction, and
/// the stage ends with what that saved once the copy was triggered, or with
/// the error of a key event that could not be built. The failure of
/// accessibility is not reported as the result; the state keeps it for
/// whoever wants to log it. An event that does not
/// answer the pending request changes nothing.
pub fn get_selected_text_using_ax_then_copy<T>(stage: AxThenCopy<T>, event: Event<T>) -> (r:
    AxThenCopyStep<T>)
    ensures
        ax_then_copy_spec(stage, event, r),
{
    match stage {
        AxThenCopy::Start { app_name, use_apple_script } => match event {
            Event::Begin => Step::Next(
                AxThenCopy::Probing { app_name, use_apple_script },
                Effect::ReadAccessibility,
            ),
            _ => Step::Next(AxThenCopy::Start { app_name, use_apple_script }, Effect::Idle),
        },
        AxThenCopy::Probing { app_name, use_apple_script } => match event {
            Event::Accessibility(probe) => {
                match get_selected_text_by_ax(probe) {
                    Ok(text) => {
                        if text.as_str().is_empty() {
                            save_step(Saving::new(use_apple_script), Event::Begin, None)
                        } else {
                            Step::Done(
                                Ok(
                                    GetSelectedTextResult::Text(
                                        SelectedText::from_text(app_name, text),
                                    ),
                                ),
                            )
                        }
                    },
                    Err(e) => save_step(Saving::new(use_apple_script), Event::Begin, Some(e)),
                }
            },
            _ => Step::Next(AxThenCopy::Probing { app_name, use_apple_script }, Effect::Idle),
        },
        AxThenCopy::Saving { accessibility_failure, stage } => save_step(
            stage,
            event,
            accessibility_failure,
        ),
    }
}

/// Where a retrieval stands.
#[derive(Debug)]
pub enum Selection<T> {
    /// Nothing was asked yet.
    Start { use_apple_script: bool, timeout_ms: u64 },
    /// The foreground window is being asked for.
    Locating { use_apple_script: bool, timeout_ms: u64 },
    /// File-path mode: the listing script is running.
    FilePaths { app_name: String, use_apple_script: bool, timeout_ms: u64 },
    /// Text mode, first stage. `expected` is what the cache held for the
    /// application when text mode was entered. `listing_failure` is the error
    /// of the listing that was passed over, where text mode was entered
    /// because the listing failed.
    Text {
        app_name: String,
        expected: Option<MethodTag>,
        timeout_ms: u64,
        listing_failure: Option<SelectionError>,
        stage: AxThenCopy<T>,
    },
    /// Text mode, second stage: the clipboard transaction is being completed.
    Clipboard { app_name: String, expected: Option<MethodTag>, completion: Completion<T> },
}

/// A transition of a retrieval.
pub type SelectionStep<T> = Step<Selection<T>, T, Result<SelectedText, SelectionError>>;

/// The application name that stands for the foreground window.
pub open spec fn window_app_name(active: Option<ActiveWindow>) -> Seq<char> {
    match active {
        Some(window) => window.app_name@,
        None => empty_window(),
    }
}

/// Text mode was entered for `app_name`: the cache was asked, which counts as
/// a use of the application's entry, and accessibility is asked next. The
/// state keeps the failure of the listing that was passed over, where there
/// was one.
pub open spec fn entered_text<T>(
    app_name: Seq<char>,
    use_apple_script: bool,
    timeout_ms: u64,
    passed_over: Option<SelectionErrorView>,
    cache: Entries,
    post: SelectionStep<T>,
    cache_after: Entries,
) -> bool {
    &&& post matches Step::Next(
        Selection::Text {
            app_name: held,
            expected,
            timeout_ms: t,
            listing_failure,
            stage: AxThenCopy::Probing { app_name: probed, use_apple_script: u },
        },
        Effect::ReadAccessibility,
    )
    &&& match passed_over {
        Some(failure) => listing_failure matches Some(e) && e@ == failure,
        None => listing_failure is None,
    }
    &&& held@ == app_name
    &&& probed@ == app_name
    &&& expected == lookup(cache, app_name)
    &&& t == timeout_ms
    &&& u == use_apple_script
    &&& cache_after == touched(cache, app_name)
}

/// The transition relation of [`Selection::step`]: from the state `pre` and
/// the cache entries `cache`, the event `event` leads to `post` and to the
/// cache entries `cache_after`.
pub open spec fn selection_spec<T>(
    pre: Selection<T>,
    cache: Entries,
    event: Event<T>,
    post: SelectionStep<T>,
    cache_after: Entries,
) -> bool {
    match (pre, event) {
        (Selection::Start { use_apple_script, timeout_ms }, Event::Begin) => {
            &&& post == SelectionStep::<T>::Next(
                Selection::Locating { use_apple_script, timeout_ms },
                Effect::QueryWindow,
            )
            &&& cache_after == cache
        },
        (Selection::Locating { use_apple_script, timeout_ms }, Event::Window(active)) => {
            let app_name = window_app_name(active);
            if app_name == finder() || app_name == empty_window() {
                &&& post matches Step::Next(
                    Selection::FilePaths { app_name: held, use_apple_script: u, timeout_ms: t },
                    Effect::RunFileScript { for_empty_window },
                )
                &&& held@ == app_name
                &&& u == use_apple_script
                &&& t == timeout_ms
                &&& for_empty_window == (app_name == empty_window())
                &&& cache_after == cache
            } else {
                entered_text(
                    app_name,
                    use_apple_script,
                    timeout_ms,
                    None,
                    cache,
                    post,
                    cache_after,
                )
            }
        },
        (Selection::FilePaths { app_name, use_apple_script, timeout_ms }, Event::Script(run)) => {
            match listing(run) {
                Some(content) => {
                    &&& post matches Step::Done(Ok(found))
                    &&& found@ == file_result(app_name@, split(content, '\n'))
                    &&& cache_after == cache
                },
                None => entered_text(
                    app_name@,
                    use_apple_script,
                    timeout_ms,
                    Some(SelectionErrorView::ScriptInvocationFailed(listing_diagnostics(run))),
                    cache,
                    post,
                    cache_after,
                ),
            }
        },
        (Selection::Text { app_name, expected, timeout_ms, listing_failure, stage }, _) => match post {
            Step::Next(
                Selection::Text {
                    app_name: held,
                    expected: e,
                    timeout_ms: t,
                    listing_failure: kept,
                    stage: next,
                },
                effect,
            ) => {
                &&& held == app_name
                &&& e == expected
                &&& t == timeout_ms
                &&& kept == listing_failure
                &&& ax_then_copy_spec(stage, event, Step::Next(next, effect))
                &&& cache_after == cache
            },
            Step::Next(
                Selection::Clipboard {
                    app_name: held,
                    expected: e,
                    completion: Completion::Waiting {
                        app_name: waiting,
                        saved,
                        timeout_ms: t,
                        slept_ms,
                    },
                },
                effect,
            ) => {
                &&& held == app_name
                &&& waiting == app_name
                &&& e == expected
                &&& t == timeout_ms
                &&& slept_ms == POLL_INTERVAL_MS
                &&& effect == Effect::<T>::Poll { sleep_ms: POLL_INTERVAL_MS }
                &&& ax_then_copy_spec(
                    stage,
                    event,
                    Step::Done(Ok(GetSelectedTextResult::PasteboardState(saved))),
                )
                &&& cache_after == cache
            },
            Step::Done(Ok(found)) => {
                &&& ax_then_copy_spec(
                    stage,
                    event,
                    Step::Done(Ok(GetSelectedTextResult::Text(found))),
                )
                &&& cache_after == recorded(cache, app_name@, MethodTag::Accessibility)
            },
            Step::Done(Err(e)) => {
                &&& ax_then_copy_spec(stage, event, Step::Done(Err(e)))
                &&& cache_after == cache
            },
            _ => false,
        },
        (Selection::Clipboard { app_name, expected, completion }, _) => match post {
            Step::Next(
                Selection::Clipboard { app_name: held, expected: e, completion: next },
                effect,
            ) => {
                &&& held == app_name
                &&& e == expected
                &&& completion_spec(completion, event, Step::Next(next, effect))
                &&& cache_after == cache
            },
            Step::Done(Ok(found)) => {
                &&& completion_spec(completion, event, Step::Done(Ok(found)))
                &&& cache_after == recorded(cache, app_name@, MethodTag::ClipboardCopy)
            },
            Step::Done(Err(e)) => {
                &&& completion_spec(completion, event, Step::Done(Err(e)))
                &&& cache_after == cache
            },
            _ => false,
        },
        _ => post == SelectionStep::<T>::Next(pre, Effect::Idle) && cache_after == cache,
    }
}

/// Enters text mode for `app_name`.
fn enter_text<T>(
    app_name: String,
    use_apple_script: bool,
    timeout_ms: u64,
    listing_failure: Option<SelectionError>,
    cache: &mut MethodCache,
) -> (r: SelectionStep<T>)
    ensures
        entered_text(
            app_name@,
            use_apple_script,
            timeout_ms,
            match listing_failure {
                Some(e) => Some(e@),
                None => None,
            },
            old(cache)@,
            r,
            final(cache)@,
        ),
{
    let expected = cache.get(&app_name);
    let probed = app_name.clone();
    Step::Next(
        Selection::Text {
            app_name,
            expected,
            timeout_ms,
            listing_failure,
            stage: AxThenCopy::Probing { app_name: probed, use_apple_script },
        },
        Effect::ReadAccessibility,
    )
}

impl<T> Selection<T> {
    /// A retrieval that starts at the foreground window.
    pub fn new(use_apple_script: bool, timeout_ms: u64) -> (r: Selection<T>)
        ensures
            r == (Selection::<T>::Start { use_apple_script, timeout_ms }),
    {
        Selection::Start { use_apple_script, timeout_ms }
    }

    /// A retrieval that starts in text mode for `app_name`, with the default
    /// wait. The cache is asked, which counts as a use of the application's entry.
    pub fn text_mode(app_name: String, use_apple_script: bool, cache: &mut MethodCache) -> (r:
        Selection<T>)
        ensures
            (r matches Selection::Text {
                app_name: held,
                expected,
                timeout_ms,
                listing_failure,
                stage: AxThenCopy::Start { app_name: probed, use_apple_script: u },
            } && listing_failure is None && held == app_name && probed == app_name && expected == lookup(
                old(cache)@,
                app_name@,
            ) && timeout_ms == DEFAULT_WAIT_TIMEOUT_MS && u == use_apple_script),
            r.wf(),
            final(cache)@ == touched(old(cache)@, app_name@),
    {
        let expected = cache.get(&app_name);
        let probed = app_name.clone();
        Selection::Text {
            app_name,
            expected,
            timeout_ms: DEFAULT_WAIT_TIMEOUT_MS,
            listing_failure: None,
            stage: AxThenCopy::Start { app_name: probed, use_apple_script },
        }
    }

    /// The failure of the listing that was passed over when text mode was
    /// entered, while the first stage of text mode is under way.
    pub open spec fn spec_listing_failure(&self) -> Option<SelectionError> {
        match *self {
            Selection::Text { listing_failure, .. } => listing_failure,
            _ => None,
        }
    }

    /// The failure of the listing that was passed over when text mode was
    /// entered, while the first stage of text mode is under way.
    pub fn listing_failure(&self) -> (r: Option<&SelectionError>)
        ensures
            match r {
                Some(e) => self.spec_listing_failure() == Some(*e),
                None => self.spec_listing_failure() is None,
            },
    {
        match self {
            Selection::Text { listing_failure: Some(e), .. } => Some(e),
            _ => None,
        }
    }

    /// The failure of accessibility that was passed over, while the clipboard
    /// transaction that stands in for it is beginning.
    pub open spec fn spec_accessibility_failure(&self) -> Option<SelectionError> {
        match *self {
            Selection::Text { stage: AxThenCopy::Saving { accessibility_failure, .. }, .. } => {
                accessibility_failure
            },
            _ => None,
        }
    }

    /// The failure of accessibility that was passed over, while the clipboard
    /// transaction that stands in for it is beginning.
    pub fn accessibility_failure(&self) -> (r: Option<&SelectionError>)
        ensures
            match r {
                Some(e) => self.spec_accessibility_failure() == Some(*e),
                None => self.spec_accessibility_failure() is None,
            },
    {
        match self {
            Selection::Text {
                stage: AxThenCopy::Saving { accessibility_failure: Some(e), .. },
                ..
            } => Some(e),
            _ => None,
        }
    }

    /// Whether the clipboard path is under way although the cache did not say
    /// that the application needs it.
    pub open spec fn spec_is_fallback_anomalous(&self) -> bool {
        match *self {
            Selection::Text { expected, stage, .. } => stage is Saving && expected != Some(
                MethodTag::ClipboardCopy,
            ),
            Selection::Clipboard { expected, .. } => expected != Some(MethodTag::ClipboardCopy),
            _ => false,
        }
    }

    /// Whether the clipboard path is under way although the cache did not say
    /// that the application needs it.
    #[verifier::when_used_as_spec(spec_is_fallback_anomalous)]
    pub fn is_fallback_anomalous(&self) -> (r: bool)
        ensures
            r == self.spec_is_fallback_anomalous(),
    {
        match self {
            Selection::Text { expected, stage, .. } => {
                let saving = match stage {
                    AxThenCopy::Saving { .. } => true,
                    _ => false,
                };
                let foreseen = match expected {
                    Some(MethodTag::ClipboardCopy) => true,
                    _ => false,
                };
                saving && !foreseen
            },
            Selection::Clipboard { expected, .. } => match expected {
                Some(MethodTag::ClipboardCopy) => false,
                _ => true,
            },
            _ => false,
        }
    }

    /// One transition of a retrieval.
    ///
    /// The foreground window is asked for first. For the file manager, and
    /// where no window is in front, the listing script is run, and its
    /// listing ends the retrieval; a listing that fails is not reported as
    /// the result, and text mode is entered. In text mode the cache is asked, then
    /// accessibility; a text that is not empty ends the retrieval and records
    /// the accessibility tag for the application. Otherwise a clipboard
    /// transaction is begun and completed; its success ends the retrieval and
    /// records the clipboard tag, its error ends the retrieval with that
    /// error. The cache is written at no other time, and what it holds
    /// decides nothing but `expected`.
    pub fn step(self, cache: &mut MethodCache, event: Event<T>) -> (r: SelectionStep<T>)
        ensures
            selection_spec(self, old(cache)@, event, r, final(cache)@),
    {
        match self {
            Selection::Start { use_apple_script, timeout_ms } => match event {
                Event::Begin => Step::Next(
                    Selection::Locating { use_apple_script, timeout_ms },
                    Effect::QueryWindow,
                ),
                _ => Step::Next(Selection::Start { use_apple_script, timeout_ms }, Effect::Idle),
            },
            Selection::Locating { use_apple_script, timeout_ms } => match event {
                Event::Window(active) => {
                    let (file_mode, app_name) = in_finder_or_empty_window(active);
                    if file_mode {
                        let for_empty_window = is_empty_window(&app_name);
                        Step::Next(
                            Selection::FilePaths { app_name, use_apple_script, timeout_ms },
                            Effect::RunFileScript { for_empty_window },
                        )
                    } else {
                        enter_text(app_name, use_apple_script, timeout_ms, None, cache)
                    }
                },
                _ => Step::Next(Selection::Locating { use_apple_script, timeout_ms }, Effect::Idle),
            },
            Selection::FilePaths { app_name, use_apple_script, timeout_ms } => match event {
                Event::Script(run) => match get_selected_files(app_name.as_str(), run) {
                    Ok(found) => Step::Done(Ok(found)),
                    Err(e) => enter_text(app_name, use_apple_script, timeout_ms, Some(e), cache),
                },
                _ => Step::Next(
                    Selection::FilePaths { app_name, use_apple_script, timeout_ms },
                    Effect::Idle,
                ),
            },
            Selection::Text { app_name, expected, timeout_ms, listing_failure, stage } => {
                match get_selected_text_using_ax_then_copy(stage, event) {
                    Step::Next(stage, effect) => Step::Next(
                        Selection::Text { app_name, expected, timeout_ms, listing_failure, stage },
                        effect,
                    ),
                    Step::Done(Ok(GetSelectedTextResult::Text(found))) => {
                        cache.put(app_name, MethodTag::Accessibility);
                        Step::Done(Ok(found))
                    },
                    Step::Done(Ok(GetSelectedTextResult::PasteboardState(saved))) => {
                        let completion = Completion::new(
                            app_name.clone(),
                            saved.saved_change_count,
                            saved.saved_contents,
                            timeout_ms,
                        );
                        match get_selected_text_from_pasteboard(completion, Event::Begin) {
                            Step::Next(completion, effect) => Step::Next(
                                Selection::Clipboard { app_name, expected, completion },
                                effect,
                            ),
                            Step::Done(r) => Step::Done(r),
                        }
                    },
                    Step::Done(Err(e)) => Step::Done(Err(e)),
                }
            },
            Selection::Clipboard { app_name, expected, completion } => {
                match get_selected_text_from_pasteboard(completion, event) {
                    Step::Next(completion, effect) => Step::Next(
                        Selection::Clipboard { app_name, expected, completion },
                        effect,
                    ),
                    Step::Done(Ok(found)) => {
                        cache.put(app_name, MethodTag::ClipboardCopy);
                        Step::Done(Ok(found))
                    },
                    Step::Done(Err(e)) => Step::Done(Err(e)),
                }
            },
        }
    }
}

/// Whether performing `effect` changes the clipboard, or makes the foreground
/// application change it.
pub open spec fn touches_clipboard<T>(effect: Effect<T>) -> bool {
    effect is PostKey || effect is RunCopyScript || effect is Clear || effect is Write
}

impl<T> Selection<T> {
    /// No more requests than this are still to be answered before the
    /// retrieval ends.
    pub open spec fn remaining(self) -> nat {
        match self {
            Selection::Start { timeout_ms, .. } => 18 + polls_left(
                timeout_ms as int,
                POLL_INTERVAL_MS as int,
            ),
            Selection::Locating { timeout_ms, .. } => 17 + polls_left(
                timeout_ms as int,
                POLL_INTERVAL_MS as int,
            ),
            Selection::FilePaths { timeout_ms, .. } => 16 + polls_left(
                timeout_ms as int,
                POLL_INTERVAL_MS as int,
            ),
            Selection::Text { timeout_ms, stage, .. } => 5 + polls_left(
                timeout_ms as int,
                POLL_INTERVAL_MS as int,
            ) + stage.remaining(),
            Selection::Clipboard { completion, .. } => completion.remaining(),
        }
    }

    /// The application that the stages of text mode work for is the one that
    /// the retrieval is for.
    pub open spec fn wf(self) -> bool {
        match self {
            Selection::Text { app_name, stage, .. } => match stage {
                AxThenCopy::Start { app_name: probed, .. } => probed@ == app_name@,
                AxThenCopy::Probing { app_name: probed, .. } => probed@ == app_name@,
                AxThenCopy::Saving { .. } => true,
            },
            Selection::Clipboard { app_name, completion, .. } => completion.app() == app_name@,
            _ => true,
        }
    }
}

/// A transition leads from a well-formed state to a well-formed state.
pub proof fn lemma_step_keeps_wf<T>(
    pre: Selection<T>,
    cache: Entries,
    event: Event<T>,
    post: SelectionStep<T>,
    cache_after: Entries,
)
    requires
        selection_spec(pre, cache, event, post, cache_after),
        pre.wf(),
    ensures
        post matches Step::Next(next, _) ==> next.wf(),
{
}

/// A text from accessibility that is not empty ends the retrieval with that
/// text at once, so that nothing was asked of the clipboard, and records the
/// accessibility tag for the application.
pub proof fn lemma_accessibility_success<T>(
    pre: Selection<T>,
    cache: Entries,
    probe: AxProbe,
    post: SelectionStep<T>,
    cache_after: Entries,
)
    requires
        selection_spec(pre, cache, Event::Accessibility(probe), post, cache_after),
        pre.wf(),
        (pre matches Selection::Text { stage, .. } && stage is Probing),
        accessible_text(probe) is Some,
    ensures
        post matches Step::Done(Ok(found)) && found@ == text_result(
            pre->Text_app_name@,
            accessible_text(probe)->0,
        ),
        lookup(cache_after, pre->Text_app_name@) == Some(MethodTag::Accessibility),
{
    lemma_lookup_recorded(cache, pre->Text_app_name@, MethodTag::Accessibility);
}

/// Accessibility that fails, or gives the empty text, ends nothing: the
/// clipboard path is taken, beginning with the reading of the clipboard, and
/// the cache is left as it is.
pub proof fn lemma_accessibility_failure<T>(
    pre: Selection<T>,
    cache: Entries,
    probe: AxProbe,
    post: SelectionStep<T>,
    cache_after: Entries,
)
    requires
        selection_spec(pre, cache, Event::Accessibility(probe), post, cache_after),
        (pre matches Selection::Text { stage, .. } && stage is Probing),
        accessible_text(probe) is None,
    ensures
        (post matches Step::Next(
            Selection::Text {
                stage: AxThenCopy::Saving { accessibility_failure: kept, stage: saving },
                ..
            },
            effect,
        ) && saving is Snapshotting && effect == Effect::<T>::Snapshot && kept
            == accessibility_failure(probe)),
        cache_after == cache,
{
}

/// A clipboard transaction that ends in success ends the retrieval with its
/// result and records the clipboard tag for the application.
pub proof fn lemma_clipboard_success<T>(
    pre: Selection<T>,
    cache: Entries,
    event: Event<T>,
    post: SelectionStep<T>,
    cache_after: Entries,
)
    requires
        selection_spec(pre, cache, event, post, cache_after),
        pre is Clipboard,
        post matches Step::Done(Ok(_)),
    ensures
        completion_spec(pre->Clipboard_completion, event, Step::Done(Ok(post->Done_0->Ok_0))),
        lookup(cache_after, pre->Clipboard_app_name@) == Some(MethodTag::ClipboardCopy),
{
    lemma_lookup_recorded(cache, pre->Clipboard_app_name@, MethodTag::ClipboardCopy);
}

/// Nothing that changes the clipboard is asked for before the clipboard path
/// was taken.
pub proof fn lemma_clipboard_untouched_before_fallback<T>(
    pre: Selection<T>,
    cache: Entries,
    event: Event<T>,
    post: SelectionStep<T>,
    cache_after: Entries,
)
    requires
        selection_spec(pre, cache, event, post, cache_after),
        post matches Step::Next(_, effect) && touches_clipboard(effect),
    ensures
        pre is Clipboard || (pre matches Selection::Text { stage, .. } && stage is Saving),
{
}

/// Only failures that leave no strategy to fall back on, or that may have
/// left the clipboard changed, end a retrieval: the key event that cannot be
/// built, and the write-back that fails.
pub proof fn lemma_only_fatal_errors_surface<T>(
    pre: Selection<T>,
    cache: Entries,
    event: Event<T>,
    post: SelectionStep<T>,
    cache_after: Entries,
)
    requires
        selection_spec(pre, cache, event, post, cache_after),
        post matches Step::Done(Err(_)),
    ensures
        post->Done_0->Err_0.is_fatal(),
        pre is Clipboard ==> post->Done_0->Err_0 == SelectionError::ClipboardRestoreFailed,
        pre is Text ==> post->Done_0->Err_0 is EventSimulationFailed,
{
}

/// What the cache remembers changes only when a strategy has given its
/// result: a transition that does not end the retrieval in success changes
/// the tag of no application.
pub proof fn lemma_cache_written_after_outcome<T>(
    pre: Selection<T>,
    cache: Entries,
    event: Event<T>,
    post: SelectionStep<T>,
    cache_after: Entries,
    app_name: Seq<char>,
)
    requires
        selection_spec(pre, cache, event, post, cache_after),
        distinct(cache),
        !(post matches Step::Done(Ok(_))),
    ensures
        lookup(cache_after, app_name) == lookup(cache, app_name),
{
    match (pre, event) {
        (Selection::Locating { .. }, Event::Window(active)) => {
            lemma_touched_keeps_lookup(cache, window_app_name(active), app_name);
        },
        (Selection::FilePaths { app_name: held, .. }, Event::Script(_)) => {
            lemma_touched_keeps_lookup(cache, held@, app_name);
        },
        _ => {},
    }
}


/// Two requests ask for the same: they are equal, or both write items that
/// are the same in the same order.
pub open spec fn same_request<T>(a: Effect<T>, b: Effect<T>) -> bool {
    match (a, b) {
        (Effect::Write(first), Effect::Write(second)) => first@ == second@,
        _ => a == b,
    }
}

/// What the cache holds decides neither what is asked for nor how a retrieval
/// ends, so that clearing it is always safe: from one state and one event, two
/// caches lead to the same request, or to results with the same content.
pub proof fn lemma_cache_decides_no_result<T>(
    pre: Selection<T>,
    event: Event<T>,
    cache: Entries,
    post: SelectionStep<T>,
    cache_after: Entries,
    other_cache: Entries,
    other_post: SelectionStep<T>,
    other_after: Entries,
)
    requires
        selection_spec(pre, cache, event, post, cache_after),
        selection_spec(pre, other_cache, event, other_post, other_after),
    ensures
        match post {
            Step::Next(_, effect) => other_post matches Step::Next(_, other_effect)
                && same_request(effect, other_effect),
            Step::Done(Ok(found)) => other_post matches Step::Done(Ok(other_found)) && found@
                == other_found@,
            Step::Done(Err(e)) => other_post matches Step::Done(Err(other_e)) && e@ == other_e@,
        },
{
}


/// A retrieval makes one attempt and ends, whatever it is answered: every
/// request brings the end nearer, and an event that answers nothing is asked
/// nothing in return and leaves the state as it is.
pub proof fn lemma_progress<T>(
    pre: Selection<T>,
    cache: Entries,
    event: Event<T>,
    post: SelectionStep<T>,
    cache_after: Entries,
)
    requires
        selection_spec(pre, cache, event, post, cache_after),
        post is Next,
    ensures
        ({
            let next = post->Next_0;
            let effect = post->Next_1;
            if effect is Idle {
                next == pre
            } else {
                next.remaining() < pre.remaining()
            }
        }),
{
}

} // verus!
