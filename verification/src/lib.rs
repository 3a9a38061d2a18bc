//! Retrieval of the text selected in the foreground application, as pure
//! transition functions: the caller performs each request and hands back what
//! came of it.

pub mod accessibility;
pub mod cache;
pub mod keys;
pub mod model;
pub mod pasteboard;
pub mod protocol;
pub mod script;
pub mod selection;
pub mod text;
pub mod window;

pub use accessibility::get_selected_text_by_ax;
pub use cache::{MethodCache, MethodTag};
pub use keys::{sim_ctrl_c, simulate, CopyKeys};
pub use model::{
    GetSelectedTextResult, KeyFailure, PasteboardSavedState, SelectedText, SelectionError,
};
pub use pasteboard::{
    ctrl_c_and_save_pasteboard, get_selected_text_from_pasteboard, Completion, Saving,
};
pub use protocol::{ActiveWindow, AxProbe, Effect, Event, KeyPost, KeyStroke, ScriptRun, Step};
pub use script::{
    get_selected_file_paths_by_clipboard_using_applescript, get_selected_files, quiet_cmd_c,
};
pub use selection::{get_selected_text_using_ax_then_copy, AxThenCopy, Selection};
pub use window::{get_window_meta, in_finder_or_empty_window};
