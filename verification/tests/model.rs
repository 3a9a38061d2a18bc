use get_selected_text::script::for_empty_window;
use get_selected_text::window::{is_empty_window, is_finder};
use get_selected_text::{
    GetSelectedTextResult, KeyFailure, PasteboardSavedState, SelectedText, SelectionError,
};

#[test]
fn text_result_has_one_element() {
    let found = SelectedText::from_text("App".to_string(), "words".to_string());
    assert!(!found.is_file_paths);
    assert_eq!(found.app_name, "App");
    assert_eq!(found.text, vec!["words"]);
    let empty = SelectedText::from_text("App".to_string(), String::new());
    assert_eq!(empty.text, vec![""]);
}

#[test]
fn path_result_keeps_the_order() {
    let found = SelectedText::from_paths(
        "Finder".to_string(),
        vec!["/b".to_string(), "/a".to_string(), "/c".to_string()],
    );
    assert!(found.is_file_paths);
    assert_eq!(found.app_name, "Finder");
    assert_eq!(found.text, vec!["/b", "/a", "/c"]);
}

#[test]
fn every_error_says_what_it_is() {
    assert_eq!(SelectionError::NoFocusedElement.message(), "No selected element");
    assert_eq!(SelectionError::NoSelection.message(), "No selected text");
    assert_eq!(
        SelectionError::ClipboardTimeout.message(),
        "User didn't select any text or pasteboard took too long to update"
    );
    assert_eq!(
        SelectionError::ClipboardRestoreFailed.message(),
        "Failed to write objects to pasteboard"
    );
    assert_eq!(
        SelectionError::ScriptInvocationFailed("osascript: no such file".to_string()).message(),
        "osascript: no such file"
    );
    assert_eq!(
        SelectionError::EventSimulationFailed(KeyFailure::NoEventSource).message(),
        "Failed to create CGEventSource"
    );
    assert_eq!(
        SelectionError::EventSimulationFailed(KeyFailure::NoKeyboardEvent).message(),
        "Failed to simulate key press event for spotlight selected text copy"
    );
}

#[test]
fn only_two_errors_are_fatal() {
    assert!(SelectionError::ClipboardRestoreFailed.is_fatal());
    assert!(SelectionError::EventSimulationFailed(KeyFailure::NoEventSource).is_fatal());
    assert!(SelectionError::EventSimulationFailed(KeyFailure::NoKeyboardEvent).is_fatal());
    assert!(!SelectionError::NoFocusedElement.is_fatal());
    assert!(!SelectionError::NoSelection.is_fatal());
    assert!(!SelectionError::ClipboardTimeout.is_fatal());
    assert!(!SelectionError::ScriptInvocationFailed("x".to_string()).is_fatal());
}

#[test]
fn saved_state_carries_what_it_was_given() {
    let saved = PasteboardSavedState { saved_change_count: -4, saved_contents: Some(vec!["a", "b"]) };
    let wrapped = GetSelectedTextResult::PasteboardState(saved);
    let GetSelectedTextResult::PasteboardState(back) = wrapped else { panic!() };
    assert_eq!(back.saved_change_count, -4);
    assert_eq!(back.saved_contents, Some(vec!["a", "b"]));
}

#[test]
fn names_are_compared_exactly() {
    assert!(is_finder(&"Finder".to_string()));
    assert!(!is_finder(&"Finder ".to_string()));
    assert!(!is_finder(&"finder".to_string()));
    assert!(is_empty_window(&"Empty Window".to_string()));
    assert!(!is_empty_window(&"EmptyWindow".to_string()));
    assert!(!is_empty_window(&String::new()));
    assert!(for_empty_window("Empty Window"));
    assert!(!for_empty_window("Finder"));
}
