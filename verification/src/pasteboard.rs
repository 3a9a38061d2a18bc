//! The clipboard transaction: save, trigger a copy, wait for the change
//! counter, read the string, put the saved items back.

use vstd::prelude::*;
use crate::keys::{copy_keys_spec, sim_ctrl_c, CopyKeys, CopyKeysStep};
use crate::model::{text_result, PasteboardSavedState, SelectedText, SelectionError};
use crate::protocol::{Effect, Event, Step};
use crate::script::{quiet_cmd_c, script_succeeded};

verus! {

/// Where the beginning of a transaction stands.
#[derive(Debug)]
pub enum Saving<T> {
    /// Nothing was asked yet.
    Start { use_applescript: bool },
    /// The change counter and the items are being read.
    Snapshotting { use_applescript: bool },
    /// The script that sends the muted copy keystroke is running.
    Scripting { saved: PasteboardSavedState<T> },
    /// The copy shortcut is being synthesized, key event by key event.
    Keying { saved: PasteboardSavedState<T>, keys: CopyKeys },
}

/// A transition of the beginning of a transaction.
pub type SavingStep<T> = Step<Saving<T>, T, Result<PasteboardSavedState<T>, SelectionError>>;

/// A transition of the copy shortcut, seen from the transaction that `saved`
/// was saved for.
pub open spec fn keying<T>(saved: PasteboardSavedState<T>, inner: CopyKeysStep<T>) -> SavingStep<
    T,
> {
    match inner {
        Step::Next(keys, effect) => Step::Next(Saving::Keying { saved, keys }, effect),
        Step::Done(Ok(_)) => Step::Done(Ok(saved)),
        Step::Done(Err(e)) => Step::Done(Err(e)),
    }
}

/// The transition function of [`ctrl_c_and_save_pasteboard`].
pub open spec fn saving_spec<T>(pre: Saving<T>, event: Event<T>) -> SavingStep<T> {
    match (pre, event) {
        (Saving::Start { use_applescript }, Event::Begin) => Step::Next(
            Saving::Snapshotting { use_applescript },
            Effect::Snapshot,
        ),
        (Saving::Snapshotting { use_applescript }, Event::Snapshot { change_count, contents }) => {
            let saved = PasteboardSavedState {
                saved_change_count: change_count,
                saved_contents: contents,
            };
            if use_applescript {
                Step::Next(Saving::Scripting { saved }, Effect::RunCopyScript)
            } else {
                keying(saved, copy_keys_spec(CopyKeys::Start, Event::Begin))
            }
        },
        (Saving::Scripting { saved }, Event::Script(run)) => if script_succeeded(run) {
            Step::Done(Ok(saved))
        } else {
            keying(saved, copy_keys_spec(CopyKeys::Start, Event::Begin))
        },
        (Saving::Keying { saved, keys }, _) => keying(saved, copy_keys_spec(keys, event)),
        _ => Step::Next(pre, Effect::Idle),
    }
}

/// Hands the transitions of the copy shortcut on to the transaction.
fn key_step<T>(saved: PasteboardSavedState<T>, keys: CopyKeys, event: Event<T>) -> (r: SavingStep<
    T,
>)
    ensures
        r == keying(saved, copy_keys_spec(keys, event)),
{
    match sim_ctrl_c(keys, event) {
        Step::Next(keys, effect) => Step::Next(Saving::Keying { saved, keys }, effect),
        Step::Done(Ok(_)) => Step::Done(Ok(saved)),
        Step::Done(Err(e)) => Step::Done(Err(e)),
    }
}

impl<T> Saving<T> {
    /// No more requests than this are still to be answered before the stage ends.
    pub open spec fn remaining(self) -> nat {
        match self {
            Saving::Start { .. } => 8,
            Saving::Snapshotting { .. } => 7,
            Saving::Scripting { .. } => 6,
            Saving::Keying { keys, .. } => keys.remaining(),
        }
    }

    /// The beginning of a transaction, before anything was asked.
    pub fn new(use_applescript: bool) -> (r: Saving<T>)
        ensures
            r == (Saving::<T>::Start { use_applescript }),
    {
        Saving::Start { use_applescript }
    }
}

/// One transition of the beginning of a clipboard transaction.
///
/// The change counter and the items are read first and kept. Then a copy is
/// triggered: by the script that sends the keystroke with the alert volume
/// muted where `use_applescript` asks for it, else by the synthesized copy
/// shortcut. A script that fails is not reported: the shortcut is synthesized
/// in its place. The stage ends with what was saved once the copy was
/// triggered, or with `EventSimulationFailed` at the first key event that
/// cannot be built. An event that does not answer the pending request changes
/// nothing.
pub fn ctrl_c_and_save_pasteboard<T>(stage: Saving<T>, event: Event<T>) -> (r: SavingStep<T>)
    ensures
        r == saving_spec(stage, event),
{
    match stage {
        Saving::Start { use_applescript } => match event {
            Event::Begin => Step::Next(Saving::Snapshotting { use_applescript }, Effect::Snapshot),
            _ => Step::Next(Saving::Start { use_applescript }, Effect::Idle),
        },
        Saving::Snapshotting { use_applescript } => match event {
            Event::Snapshot { change_count, contents } => {
                let saved = PasteboardSavedState {
                    saved_change_count: change_count,
                    saved_contents: contents,
                };
                if use_applescript {
                    Step::Next(Saving::Scripting { saved }, Effect::RunCopyScript)
                } else {
                    key_step(saved, CopyKeys::Start, Event::Begin)
                }
            },
            _ => Step::Next(Saving::Snapshotting { use_applescript }, Effect::Idle),
        },
        Saving::Scripting { saved } => match event {
            Event::Script(run) => match quiet_cmd_c(run) {
                Ok(_) => Step::Done(Ok(saved)),
                Err(_) => key_step(saved, CopyKeys::Start, Event::Begin),
            },
            _ => Step::Next(Saving::Scripting { saved }, Effect::Idle),
        },
        Saving::Keying { saved, keys } => key_step(saved, keys, event),
    }
}

/// Milliseconds between two reads of the change counter.
pub const POLL_INTERVAL_MS: u64 = 10;

/// Milliseconds that text mode waits for the change counter.
pub const DEFAULT_WAIT_TIMEOUT_MS: u64 = 90;

/// Whether a wait of `timeout_ms` milliseconds is over once `elapsed_nanos`
/// nanoseconds have passed.
pub open spec fn deadline_passed(elapsed_nanos: int, timeout_ms: int) -> bool {
    elapsed_nanos > timeout_ms * 1_000_000
}

/// Whether a wait of `timeout_ms` milliseconds is over: its deadline has
/// passed by the clock, or it has slept longer than `timeout_ms` whatever the
/// clock says. Under a clock that runs no slower than the sleeps, the second
/// never holds without the first.
pub open spec fn wait_is_over(elapsed_nanos: int, slept_ms: int, timeout_ms: int) -> bool {
    deadline_passed(elapsed_nanos, timeout_ms) || slept_ms > timeout_ms
}

/// Fails with `ClipboardTimeout` exactly when the deadline has passed.
pub fn check_deadline(elapsed_nanos: u128, timeout_ms: u64) -> (r: Result<(), SelectionError>)
    ensures
        r is Err <==> deadline_passed(elapsed_nanos as int, timeout_ms as int),
        r is Err ==> r == Err::<(), SelectionError>(SelectionError::ClipboardTimeout),
{
    let limit: u128 = (timeout_ms as u128) * 1_000_000;
    if elapsed_nanos > limit {
        Err(SelectionError::ClipboardTimeout)
    } else {
        Ok(())
    }
}

/// Where the completion of a transaction stands.
#[derive(Debug)]
pub enum Completion<T> {
    /// Nothing was asked yet.
    Start { app_name: String, saved: PasteboardSavedState<T>, timeout_ms: u64 },
    /// The change counter is being polled. `slept_ms` is the sum of the
    /// sleeps that were asked for so far.
    Waiting { app_name: String, saved: PasteboardSavedState<T>, timeout_ms: u64, slept_ms: u128 },
    /// The counter moved; the string payload is being read.
    Reading { app_name: String, saved_contents: Option<Vec<T>> },
    /// The payload was read; the clipboard is being cleared before `items` go back.
    Clearing { app_name: String, copied: Option<String>, items: Vec<T> },
    /// The saved items but the last are being written back.
    Writing { app_name: String, copied: Option<String> },
}

/// A transition of the completion of a transaction.
pub type CompletionStep<T> = Step<Completion<T>, T, Result<SelectedText, SelectionError>>;

/// The text that a completed transaction reports: the payload, or the empty
/// string where there was none.
pub open spec fn copied_text(copied: Option<String>) -> Seq<char> {
    match copied {
        Some(s) => s@,
        None => Seq::empty(),
    }
}

/// `r` is the success of a transaction for `app_name` that read `copied`.
pub open spec fn completes_with(
    app_name: Seq<char>,
    copied: Option<String>,
    r: Result<SelectedText, SelectionError>,
) -> bool {
    r matches Ok(t) && t@ == text_result(app_name, copied_text(copied))
}

/// The transition relation of [`get_selected_text_from_pasteboard`].
pub open spec fn completion_spec<T>(
    pre: Completion<T>,
    event: Event<T>,
    post: CompletionStep<T>,
) -> bool {
    match (pre, event) {
        (Completion::Start { app_name, saved, timeout_ms }, Event::Begin) => post == CompletionStep::<T>::Next(
            Completion::Waiting { app_name, saved, timeout_ms, slept_ms: POLL_INTERVAL_MS as u128 },
            Effect::Poll { sleep_ms: POLL_INTERVAL_MS },
        ),
        (
            Completion::Waiting { app_name, saved, timeout_ms, slept_ms },
            Event::Polled { change_count, elapsed_nanos },
        ) => if change_count != saved.saved_change_count {
            post == CompletionStep::<T>::Next(
                Completion::Reading { app_name, saved_contents: saved.saved_contents },
                Effect::ReadText,
            )
        } else if wait_is_over(elapsed_nanos as int, slept_ms as int, timeout_ms as int) {
            post matches Step::Done(r) && completes_with(app_name@, None, r)
        } else {
            post == CompletionStep::<T>::Next(
                Completion::Waiting {
                    app_name,
                    saved,
                    timeout_ms,
                    slept_ms: (slept_ms + POLL_INTERVAL_MS) as u128,
                },
                Effect::Poll { sleep_ms: POLL_INTERVAL_MS },
            )
        },
        (Completion::Reading { app_name, saved_contents }, Event::Text(copied)) => match saved_contents {
            None => post matches Step::Done(r) && completes_with(app_name@, copied, r),
            Some(items) => post == CompletionStep::<T>::Next(
                Completion::Clearing { app_name, copied, items },
                Effect::Clear,
            ),
        },
        (Completion::Clearing { app_name, copied, items }, Event::Cleared) => if items@.len() > 1 {
            &&& post matches Step::Next(Completion::Writing { app_name: a, copied: c }, Effect::Write(w))
            &&& a == app_name
            &&& c == copied
            &&& w@ == items@.drop_last()
        } else {
            post matches Step::Done(r) && completes_with(app_name@, copied, r)
        },
        (Completion::Writing { app_name, copied }, Event::Written(ok)) => if ok {
            post matches Step::Done(r) && completes_with(app_name@, copied, r)
        } else {
            post == CompletionStep::<T>::Done(
                Err(SelectionError::ClipboardRestoreFailed),
            )
        },
        _ => post == CompletionStep::<T>::Next(
            pre,
            Effect::Idle,
        ),
    }
}

/// How many polls a wait of `timeout_ms` milliseconds that has slept
/// `slept_ms` milliseconds can still ask for.
pub open spec fn polls_left(timeout_ms: int, slept_ms: int) -> nat {
    if 0 <= slept_ms <= timeout_ms {
        ((timeout_ms - slept_ms) / (POLL_INTERVAL_MS as int) + 1) as nat
    } else {
        0
    }
}

/// The result of a transaction for `app_name` that read `copied`.
fn completed(app_name: String, copied: Option<String>) -> (r: Result<SelectedText, SelectionError>)
    ensures
        completes_with(app_name@, copied, r),
{
    let content = match copied {
        Some(s) => s,
        None => String::new(),
    };
    Ok(SelectedText::from_text(app_name, content))
}

impl<T> Completion<T> {
    /// No more requests than this are still to be answered before the stage ends.
    pub open spec fn remaining(self) -> nat {
        match self {
            Completion::Start { timeout_ms, .. } => 5 + polls_left(
                timeout_ms as int,
                POLL_INTERVAL_MS as int,
            ),
            Completion::Waiting { timeout_ms, slept_ms, .. } => 4 + polls_left(
                timeout_ms as int,
                slept_ms as int,
            ),
            Completion::Reading { .. } => 3,
            Completion::Clearing { .. } => 2,
            Completion::Writing { .. } => 1,
        }
    }

    /// The application that the transaction is for.
    pub open spec fn app(self) -> Seq<char> {
        match self {
            Completion::Start { app_name, .. } => app_name@,
            Completion::Waiting { app_name, .. } => app_name@,
            Completion::Reading { app_name, .. } => app_name@,
            Completion::Clearing { app_name, .. } => app_name@,
            Completion::Writing { app_name, .. } => app_name@,
        }
    }

    /// The completion of the transaction that `saved_change_count` and
    /// `saved_contents` were saved for, before anything was asked.
    pub fn new(
        app_name: String,
        saved_change_count: isize,
        saved_contents: Option<Vec<T>>,
        pasteboard_wait_timeout: u64,
    ) -> (r: Completion<T>)
        ensures
            r == (Completion::Start {
                app_name,
                saved: PasteboardSavedState { saved_change_count, saved_contents },
                timeout_ms: pasteboard_wait_timeout,
            }),
    {
        Completion::Start {
            app_name,
            saved: PasteboardSavedState { saved_change_count, saved_contents },
            timeout_ms: pasteboard_wait_timeout,
        }
    }
}

/// One transition of the completion of a clipboard transaction.
///
/// The change counter is polled, after a sleep of one poll interval each
/// time, until it differs from the saved one or the wait is over: the deadline
/// has passed by the clock, or the sleeps asked for add up to more than the
/// timeout. A wait that is over without a change ends the stage with
/// the empty text, and the clipboard is not touched. After a change the string
/// payload is read; then, where items were saved, the clipboard is cleared, and
/// where more than one was saved, all but the last are written back. A failed
/// write ends the stage with `ClipboardRestoreFailed`. An event that does not
/// answer the pending request changes nothing.
pub fn get_selected_text_from_pasteboard<T>(stage: Completion<T>, event: Event<T>) -> (r:
    CompletionStep<T>)
    ensures
        completion_spec(stage, event, r),
{
    match stage {
        Completion::Start { app_name, saved, timeout_ms } => match event {
            Event::Begin => Step::Next(
                Completion::Waiting { app_name, saved, timeout_ms, slept_ms: POLL_INTERVAL_MS as u128 },
                Effect::Poll { sleep_ms: POLL_INTERVAL_MS },
            ),
            _ => Step::Next(Completion::Start { app_name, saved, timeout_ms }, Effect::Idle),
        },
        Completion::Waiting { app_name, saved, timeout_ms, slept_ms } => match event {
            Event::Polled { change_count, elapsed_nanos } => {
                if change_count != saved.saved_change_count {
                    Step::Next(
                        Completion::Reading { app_name, saved_contents: saved.saved_contents },
                        Effect::ReadText,
                    )
                } else if slept_ms > timeout_ms as u128 {
                    Step::Done(completed(app_name, None))
                } else {
                    match check_deadline(elapsed_nanos, timeout_ms) {
                        Err(_) => Step::Done(completed(app_name, None)),
                        Ok(()) => Step::Next(
                            Completion::Waiting {
                                app_name,
                                saved,
                                timeout_ms,
                                slept_ms: slept_ms + POLL_INTERVAL_MS as u128,
                            },
                            Effect::Poll { sleep_ms: POLL_INTERVAL_MS },
                        ),
                    }
                }
            },
            _ => Step::Next(
                Completion::Waiting { app_name, saved, timeout_ms, slept_ms },
                Effect::Idle,
            ),
        },
        Completion::Reading { app_name, saved_contents } => match event {
            Event::Text(copied) => match saved_contents {
                None => Step::Done(completed(app_name, copied)),
                Some(items) => Step::Next(
                    Completion::Clearing { app_name, copied, items },
                    Effect::Clear,
                ),
            },
            _ => Step::Next(Completion::Reading { app_name, saved_contents }, Effect::Idle),
        },
        Completion::Clearing { app_name, copied, items } => match event {
            Event::Cleared => {
                if items.len() > 1 {
                    let mut items = items;
                    items.pop();
                    Step::Next(Completion::Writing { app_name, copied }, Effect::Write(items))
                } else {
                    Step::Done(completed(app_name, copied))
                }
            },
            _ => Step::Next(Completion::Clearing { app_name, copied, items }, Effect::Idle),
        },
        Completion::Writing { app_name, copied } => match event {
            Event::Written(ok) => {
                if ok {
                    Step::Done(completed(app_name, copied))
                } else {
                    Step::Done(Err(SelectionError::ClipboardRestoreFailed))
                }
            },
            _ => Step::Next(Completion::Writing { app_name, copied }, Effect::Idle),
        },
    }
}

/// What a clipboard that held `board` holds once `effect` was performed on it
/// and took hold.
pub open spec fn performed<T>(board: Seq<T>, effect: Effect<T>) -> Seq<T> {
    match effect {
        Effect::Clear => Seq::empty(),
        Effect::Write(items) => board + items@,
        _ => board,
    }
}

/// Whether a wait for a change of `saved_change_count` that has slept
/// `slept_ms` milliseconds goes on after a poll that read `change_count` at
/// `elapsed_nanos`.
pub open spec fn keeps_waiting(
    saved_change_count: isize,
    timeout_ms: u64,
    slept_ms: int,
    change_count: isize,
    elapsed_nanos: u128,
) -> bool {
    change_count == saved_change_count && !wait_is_over(
        elapsed_nanos as int,
        slept_ms,
        timeout_ms as int,
    )
}

/// How many polls a wait that has slept `slept_ms` milliseconds still asks
/// for while the polls that it asked for before are answered by `reads`, each
/// a change counter and the time at which it was read, in this order: as many
/// as answers come before the first that ends the wait.
pub open spec fn polls_after(
    saved_change_count: isize,
    timeout_ms: u64,
    slept_ms: int,
    reads: Seq<(isize, u128)>,
) -> nat
    decreases reads.len(),
{
    if reads.len() == 0 {
        0
    } else if keeps_waiting(saved_change_count, timeout_ms, slept_ms, reads[0].0, reads[0].1) {
        1 + polls_after(
            saved_change_count,
            timeout_ms,
            slept_ms + POLL_INTERVAL_MS,
            reads.drop_first(),
        )
    } else {
        0
    }
}

/// How many polls a whole wait asks for, each after a sleep of one poll
/// interval, while they are answered by `reads`: the first, which is always
/// asked for, and those that follow it.
pub open spec fn polls(saved_change_count: isize, timeout_ms: u64, reads: Seq<(isize, u128)>) -> nat {
    1 + polls_after(saved_change_count, timeout_ms, POLL_INTERVAL_MS as int, reads)
}

/// A wait begins by asking for one poll after one poll interval.
pub proof fn lemma_wait_begins<T>(pre: Completion<T>, post: CompletionStep<T>)
    requires
        completion_spec(pre, Event::Begin, post),
        pre is Start,
    ensures
        post matches Step::Next(next, effect) && effect == (Effect::<T>::Poll {
            sleep_ms: POLL_INTERVAL_MS,
        }) && next is Waiting && next->Waiting_slept_ms == POLL_INTERVAL_MS
            && next->Waiting_timeout_ms == pre->Start_timeout_ms && next->Waiting_saved
            == pre->Start_saved,
{
}

/// While a wait goes on it asks for one more poll after one poll interval,
/// which it adds to what it has slept, and for nothing else; once it does not
/// go on, it asks for no poll.
pub proof fn lemma_wait_step<T>(pre: Completion<T>, event: Event<T>, post: CompletionStep<T>)
    requires
        completion_spec(pre, event, post),
        pre is Waiting,
        event is Polled,
    ensures
        ({
            let going = keeps_waiting(
                pre->Waiting_saved.saved_change_count,
                pre->Waiting_timeout_ms,
                pre->Waiting_slept_ms as int,
                event->Polled_change_count,
                event->Polled_elapsed_nanos,
            );
            if going {
                &&& post matches Step::Next(next, effect)
                &&& effect == Effect::<T>::Poll { sleep_ms: POLL_INTERVAL_MS }
                &&& next is Waiting
                &&& next->Waiting_slept_ms == pre->Waiting_slept_ms + POLL_INTERVAL_MS
                &&& next->Waiting_timeout_ms == pre->Waiting_timeout_ms
                &&& next->Waiting_saved == pre->Waiting_saved
                &&& pre->Waiting_slept_ms <= pre->Waiting_timeout_ms
            } else {
                !(post matches Step::Next(_, Effect::Poll { .. }))
            }
        }),
{
}

/// A wait that has slept no longer than its timeout and one poll interval
/// never comes to sleep longer than that, whatever the polls read.
pub proof fn lemma_polls_after(
    saved_change_count: isize,
    timeout_ms: u64,
    slept_ms: int,
    reads: Seq<(isize, u128)>,
)
    requires
        0 <= slept_ms <= timeout_ms + POLL_INTERVAL_MS,
    ensures
        slept_ms + polls_after(saved_change_count, timeout_ms, slept_ms, reads) * POLL_INTERVAL_MS
            <= timeout_ms + POLL_INTERVAL_MS,
    decreases reads.len(),
{
    if reads.len() > 0 && keeps_waiting(
        saved_change_count,
        timeout_ms,
        slept_ms,
        reads[0].0,
        reads[0].1,
    ) {
        lemma_polls_after(
            saved_change_count,
            timeout_ms,
            slept_ms + POLL_INTERVAL_MS,
            reads.drop_first(),
        );
    }
}

/// A wait never sleeps longer than its timeout and one poll interval, and
/// never reads the change counter more often than once per poll interval of
/// its timeout and once more, whatever the polls read and whatever the clock
/// says.
pub proof fn lemma_wait_is_bounded(
    saved_change_count: isize,
    timeout_ms: u64,
    reads: Seq<(isize, u128)>,
)
    ensures
        polls(saved_change_count, timeout_ms, reads) * POLL_INTERVAL_MS <= timeout_ms
            + POLL_INTERVAL_MS,
        polls(saved_change_count, timeout_ms, reads) <= timeout_ms / POLL_INTERVAL_MS + 1,
{
    lemma_polls_after(saved_change_count, timeout_ms, POLL_INTERVAL_MS as int, reads);
}

/// A change counter that does not move never leads to an error: the wait goes
/// on, or it ends in success with the one empty text; and the clipboard is
/// asked for nothing that changes it, so that it holds what it held.
pub proof fn lemma_timeout_is_success<T>(
    pre: Completion<T>,
    event: Event<T>,
    post: CompletionStep<T>,
    board: Seq<T>,
)
    requires
        completion_spec(pre, event, post),
        pre is Waiting,
        event is Polled,
        event->Polled_change_count == pre->Waiting_saved.saved_change_count,
    ensures
        ({
            let over = wait_is_over(
                event->Polled_elapsed_nanos as int,
                pre->Waiting_slept_ms as int,
                pre->Waiting_timeout_ms as int,
            );
            match post {
                Step::Next(next, effect) => !over && next is Waiting && effect == (Effect::<
                    T,
                >::Poll { sleep_ms: POLL_INTERVAL_MS }) && performed(board, effect) == board,
                Step::Done(r) => over && completes_with(pre->Waiting_app_name@, None, r),
            }
        }),
{
}

/// What the clipboard holds once the items saved at the beginning were put
/// back over `board`: nothing is put back where none were saved; else all but
/// the last saved item stand in place of `board`.
pub open spec fn restored<T>(saved_contents: Option<Vec<T>>, board: Seq<T>) -> Seq<T> {
    match saved_contents {
        None => board,
        Some(items) => if items@.len() > 1 {
            items@.drop_last()
        } else {
            Seq::empty()
        },
    }
}

/// After the string payload was read, a transaction asks the clipboard for
/// exactly what puts the saved items back: nothing where none were saved; a
/// clearing where at most one was saved; a clearing and then the writing of
/// all but the last where more were saved. Where every request takes hold it
/// ends in success, and the clipboard then holds [`restored`].
pub proof fn lemma_restoration<T>(
    pre: Completion<T>,
    copied: Option<String>,
    after_text: CompletionStep<T>,
    after_clear: CompletionStep<T>,
    after_write: CompletionStep<T>,
    board: Seq<T>,
)
    requires
        pre is Reading,
        completion_spec(pre, Event::Text(copied), after_text),
        after_text matches Step::Next(cleared, _) ==> completion_spec(
            cleared,
            Event::Cleared,
            after_clear,
        ),
        after_text is Next ==> (after_clear matches Step::Next(written, _) ==> completion_spec(
            written,
            Event::Written(true),
            after_write,
        )),
    ensures
        match pre->Reading_saved_contents {
            None => completes_with(pre->Reading_app_name@, copied, after_text->Done_0)
                && after_text is Done,
            Some(items) => {
                &&& after_text matches Step::Next(_, first)
                &&& first == Effect::<T>::Clear
                &&& if items@.len() > 1 {
                    &&& after_clear matches Step::Next(_, second)
                    &&& performed(performed(board, first), second) == restored(
                        pre->Reading_saved_contents,
                        board,
                    )
                    &&& after_write is Done
                    &&& completes_with(pre->Reading_app_name@, copied, after_write->Done_0)
                } else {
                    &&& performed(board, first) == restored(pre->Reading_saved_contents, board)
                    &&& after_clear is Done
                    &&& completes_with(pre->Reading_app_name@, copied, after_clear->Done_0)
                }
            },
        },
{
    match pre->Reading_saved_contents {
        None => {},
        Some(items) => {
            if items@.len() > 1 {
                let second = after_clear->Next_1;
                assert(performed(performed(board, after_text->Next_1), second) =~= items@.drop_last(
                ));
            }
        },
    }
}

/// A clipboard that held more than one item holds one item fewer once a
/// transaction that saw the change counter move has put its items back: the
/// clearing and the writing that it asks for leave the saved items but the
/// last, whatever the copy had put there.
pub proof fn lemma_restore_drops_last<T>(
    pre: Completion<T>,
    copied: Option<String>,
    after_text: CompletionStep<T>,
    after_clear: CompletionStep<T>,
    board: Seq<T>,
)
    requires
        (pre matches Completion::Reading { saved_contents: Some(items), .. } && items@.len() > 1),
        completion_spec(pre, Event::Text(copied), after_text),
        after_text matches Step::Next(cleared, _) ==> completion_spec(
            cleared,
            Event::Cleared,
            after_clear,
        ),
    ensures
        after_text matches Step::Next(_, first) && after_clear matches Step::Next(_, second) && ({
            let items = pre->Reading_saved_contents->0@;
            let left = performed(performed(board, first), second);
            left == items.drop_last() && left.len() == items.len() - 1
        }),
{
    let items = pre->Reading_saved_contents->0@;
    assert(performed(performed(board, after_text->Next_1), after_clear->Next_1)
        =~= items.drop_last());
}

/// A clipboard that held no item holds what it held before once a
/// transaction that saw the change counter move has put its items back: the
/// clearing that it asks for leaves nothing, whatever the copy had put there.
pub proof fn lemma_round_trip_of_empty<T>(
    pre: Completion<T>,
    copied: Option<String>,
    after_text: CompletionStep<T>,
    after_clear: CompletionStep<T>,
    board: Seq<T>,
)
    requires
        (pre matches Completion::Reading { saved_contents: Some(items), .. } && items@.len() == 0),
        completion_spec(pre, Event::Text(copied), after_text),
        after_text matches Step::Next(cleared, _) ==> completion_spec(
            cleared,
            Event::Cleared,
            after_clear,
        ),
    ensures
        after_text matches Step::Next(_, first) && performed(board, first)
            == pre->Reading_saved_contents->0@,
        after_clear matches Step::Done(Ok(_)),
{
    assert(pre->Reading_saved_contents->0@ =~= Seq::<T>::empty());
}

/// The write-back that fails ends the transaction with
/// `ClipboardRestoreFailed`, and nothing else does.
pub proof fn lemma_restore_failure<T>(
    pre: Completion<T>,
    event: Event<T>,
    post: CompletionStep<T>,
)
    requires
        completion_spec(pre, event, post),
    ensures
        post matches Step::Done(Err(e)) ==> e == SelectionError::ClipboardRestoreFailed
            && pre is Writing && event == Event::<T>::Written(false),
        pre is Writing && event == Event::<T>::Written(false) ==> post == CompletionStep::<T>::Done(
            Err(SelectionError::ClipboardRestoreFailed),
        ),
{
}

} // verus!
