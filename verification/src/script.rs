//! What a run of the scripting interpreter means: for the muted copy
//! keystroke, and for the listing of the selected file-manager items.

use vstd::prelude::*;
use vstd::utf8::{decode_utf8, encode_utf8_decode_utf8, valid_utf8};
use crate::model::{file_result, SelectedText, SelectionError, SelectionErrorView};
use crate::protocol::ScriptRun;
use crate::text::{
    latin1,
    latin1_string,
    lemma_split_len,
    occurrences,
    split,
    split_on,
    trim,
    trimmed,
};
use crate::window::empty_window;

verus! {

/// Whether the interpreter ran and exited with zero.
pub open spec fn script_succeeded(run: ScriptRun) -> bool {
    run matches ScriptRun::Exited { success, .. } && success
}

/// The text of an error output: the characters that its bytes encode in
/// UTF-8, or, where the bytes are no UTF-8, each byte read as one character.
pub open spec fn error_text(bytes: Seq<u8>) -> Seq<char> {
    if valid_utf8(bytes) {
        decode_utf8(bytes)
    } else {
        latin1(bytes)
    }
}

/// The text of the error output `bytes`.
pub fn error_string(bytes: Vec<u8>) -> (r: String)
    ensures
        r@ == error_text(bytes@),
{
    let raw = latin1_string(&bytes);
    match String::from_utf8(bytes) {
        Ok(text) => {
            proof {
                encode_utf8_decode_utf8(text@);
            }
            text
        },
        Err(_) => raw,
    }
}

/// What a failed run left to report: the reason it did not start, or the text
/// of its error output.
pub open spec fn script_diagnostics(run: ScriptRun) -> Seq<char> {
    match run {
        ScriptRun::NotStarted(reason) => reason@,
        ScriptRun::Exited { stderr, .. } => error_text(stderr@),
    }
}

/// The error that stands for the failed run `run`.
fn script_failure(run: ScriptRun) -> (e: SelectionError)
    ensures
        e@ == SelectionErrorView::ScriptInvocationFailed(script_diagnostics(run)),
{
    match run {
        ScriptRun::NotStarted(reason) => SelectionError::ScriptInvocationFailed(reason),
        ScriptRun::Exited { success, stdout, stderr } => SelectionError::ScriptInvocationFailed(
            error_string(stderr),
        ),
    }
}

/// Whether the script that sends the muted copy keystroke did its work.
///
/// A run that did not start or did not exit with zero fails as
/// `ScriptInvocationFailed` with its diagnostics.
pub fn quiet_cmd_c(run: ScriptRun) -> (r: Result<(), SelectionError>)
    ensures
        r is Ok <==> script_succeeded(run),
        r matches Err(e) ==> e@ == SelectionErrorView::ScriptInvocationFailed(
            script_diagnostics(run),
        ),
{
    match run {
        ScriptRun::Exited { success: true, stdout, stderr } => Ok(()),
        _ => Err(script_failure(run)),
    }
}

/// What the listing script printed, where it could be read.
pub open spec fn listing(run: ScriptRun) -> Option<Seq<char>> {
    match run {
        ScriptRun::Exited { success: true, stdout, stderr } => if valid_utf8(stdout@) {
            Some(trim(decode_utf8(stdout@)))
        } else {
            None
        },
        _ => None,
    }
}

/// What a listing that could not be read leaves to report: the diagnostics of
/// a failed run, or, of a run that exited with zero, the output that is no
/// UTF-8, each byte read as one character.
pub open spec fn listing_diagnostics(run: ScriptRun) -> Seq<char> {
    match run {
        ScriptRun::Exited { success: true, stdout, stderr } => latin1(stdout@),
        _ => script_diagnostics(run),
    }
}

/// The newline-separated paths that the listing script printed.
///
/// A run that exited with zero and printed UTF-8 gives its output without
/// leading and trailing whitespace. Any other run fails as
/// `ScriptInvocationFailed` with its diagnostics.
pub fn get_selected_file_paths_by_clipboard_using_applescript(run: ScriptRun) -> (r: Result<
    String,
    SelectionError,
>)
    ensures
        match listing(run) {
            Some(content) => r matches Ok(s) && s@ == content,
            None => r matches Err(e) && e@ == SelectionErrorView::ScriptInvocationFailed(
                listing_diagnostics(run),
            ),
        },
{
    match run {
        ScriptRun::Exited { success: true, stdout, stderr } => {
            let raw = latin1_string(&stdout);
            match String::from_utf8(stdout) {
                Ok(content) => {
                    proof {
                        encode_utf8_decode_utf8(content@);
                    }
                    Ok(trimmed(content.as_str()))
                },
                Err(_) => Err(SelectionError::ScriptInvocationFailed(raw)),
            }
        },
        _ => Err(script_failure(run)),
    }
}

/// Whether the listing has to locate the desktop folder: it has when no
/// window is in front.
pub fn for_empty_window(window_name: &str) -> (r: bool)
    ensures
        r == (window_name@ == empty_window()),
{
    let name = window_name.to_owned();
    crate::window::is_empty_window(&name)
}

/// The selected file-manager items, one path per element, in selection order.
///
/// The listing is split at every newline, so an empty listing gives the single
/// empty path. A listing that could not be read fails as the listing does.
pub fn get_selected_files(window_name: &str, run: ScriptRun) -> (r: Result<
    SelectedText,
    SelectionError,
>)
    ensures
        match listing(run) {
            Some(content) => r matches Ok(t) && t@ == file_result(
                window_name@,
                split(content, '\n'),
            ) && t@.text.len() == occurrences(content, '\n') + 1 && t@.wf(),
            None => r matches Err(e) && e@ == SelectionErrorView::ScriptInvocationFailed(
                listing_diagnostics(run),
            ),
        },
{
    match get_selected_file_paths_by_clipboard_using_applescript(run) {
        Ok(text) => {
            proof {
                lemma_split_len(text@, '\n');
            }
            let paths = split_on(text.as_str(), '\n');
            Ok(SelectedText::from_paths(window_name.to_owned(), paths))
        },
        Err(e) => Err(e),
    }
}

} // verus!
