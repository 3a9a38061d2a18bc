//! The foreground window, and whether it calls for file-path mode.

use vstd::prelude::*;
use crate::protocol::ActiveWindow;

verus! {

/// The application name reported when there is no foreground window.
pub open spec fn empty_window() -> Seq<char> {
    "Empty Window"@
}

/// The application name of the file manager.
pub open spec fn finder() -> Seq<char> {
    "Finder"@
}

/// Whether `app_name` is the name reported when there is no foreground window.
pub fn is_empty_window(app_name: &String) -> (r: bool)
    ensures
        r == (app_name@ == empty_window()),
{
    let sentinel = "Empty Window".to_owned();
    *app_name == sentinel
}

/// Whether `app_name` is the file manager.
pub fn is_finder(app_name: &String) -> (r: bool)
    ensures
        r == (app_name@ == finder()),
{
    let name = "Finder".to_owned();
    *app_name == name
}

/// The application name and title of the foreground window; both are the
/// sentinel `"Empty Window"` when there is none.
pub fn get_window_meta(active: Option<ActiveWindow>) -> (r: (String, String))
    ensures
        match active {
            Some(window) => r.0 == window.app_name && r.1 == window.title,
            None => r.0@ == empty_window() && r.1@ == empty_window(),
        },
{
    match active {
        Some(window) => (window.app_name, window.title),
        None => ("Empty Window".to_owned(), "Empty Window".to_owned()),
    }
}

/// The application name of the foreground window, and whether it is the file
/// manager or the sentinel for no window at all.
pub fn in_finder_or_empty_window(active: Option<ActiveWindow>) -> (r: (bool, String))
    ensures
        match active {
            Some(window) => r.1 == window.app_name,
            None => r.1@ == empty_window(),
        },
        r.0 == (r.1@ == finder() || r.1@ == empty_window()),
{
    let (app_name, _) = get_window_meta(active);
    let found = is_finder(&app_name) || is_empty_window(&app_name);
    (found, app_name)
}

} // verus!
