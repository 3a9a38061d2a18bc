use get_selected_text::keys::{CMD_KEY, KEY_C, SETTLE_DELAY_MS};
use get_selected_text::pasteboard::{check_deadline, DEFAULT_WAIT_TIMEOUT_MS, POLL_INTERVAL_MS};
use get_selected_text::{
    ctrl_c_and_save_pasteboard, get_selected_file_paths_by_clipboard_using_applescript,
    get_selected_files, get_selected_text_by_ax, get_selected_text_from_pasteboard,
    get_selected_text_using_ax_then_copy, get_window_meta, in_finder_or_empty_window, quiet_cmd_c,
    sim_ctrl_c, simulate, ActiveWindow, AxProbe, AxThenCopy, Completion, CopyKeys, Effect, Event,
    GetSelectedTextResult, KeyFailure, KeyPost, KeyStroke, Saving, ScriptRun, SelectedText,
    SelectionError, Step,
};

fn exited(success: bool, stdout: &[u8], stderr: &[u8]) -> ScriptRun {
    ScriptRun::Exited { success, stdout: stdout.to_vec(), stderr: stderr.to_vec() }
}

fn window(app_name: &str, title: &str) -> Option<ActiveWindow> {
    Some(ActiveWindow { app_name: app_name.to_string(), title: title.to_string() })
}

#[test]
fn window_meta_of_a_window() {
    assert_eq!(
        get_window_meta(window("Safari", "Start Page")),
        ("Safari".to_string(), "Start Page".to_string())
    );
}

#[test]
fn window_meta_without_a_window_is_the_sentinel() {
    assert_eq!(get_window_meta(None), ("Empty Window".to_string(), "Empty Window".to_string()));
}

#[test]
fn finder_and_no_window_are_file_mode() {
    assert_eq!(in_finder_or_empty_window(window("Finder", "Documents")), (true, "Finder".to_string()));
    assert_eq!(in_finder_or_empty_window(None), (true, "Empty Window".to_string()));
    assert_eq!(
        in_finder_or_empty_window(window("Empty Window", "")),
        (true, "Empty Window".to_string())
    );
}

#[test]
fn other_applications_are_text_mode() {
    assert_eq!(in_finder_or_empty_window(window("Safari", "Finder")), (false, "Safari".to_string()));
    assert_eq!(in_finder_or_empty_window(window("finder", "")), (false, "finder".to_string()));
    assert_eq!(in_finder_or_empty_window(window("", "")), (false, "".to_string()));
}

#[test]
fn accessibility_reader_keeps_the_text_as_it_is() {
    assert_eq!(
        get_selected_text_by_ax(AxProbe::SelectedText(" some text ".to_string())),
        Ok(" some text ".to_string())
    );
    assert_eq!(get_selected_text_by_ax(AxProbe::SelectedText(String::new())), Ok(String::new()));
}

#[test]
fn accessibility_reader_names_what_is_missing() {
    assert_eq!(
        get_selected_text_by_ax(AxProbe::NoFocusedElement),
        Err(SelectionError::NoFocusedElement)
    );
    assert_eq!(get_selected_text_by_ax(AxProbe::NoSelectedText), Err(SelectionError::NoSelection));
    assert!(!SelectionError::NoFocusedElement.is_fatal());
    assert!(!SelectionError::NoSelection.is_fatal());
}

#[test]
fn simulate_succeeds_only_when_posted() {
    assert_eq!(simulate(KeyPost::Posted), Ok(()));
    assert_eq!(
        simulate(KeyPost::NoEventSource),
        Err(SelectionError::EventSimulationFailed(KeyFailure::NoEventSource))
    );
    assert_eq!(
        simulate(KeyPost::NoKeyboardEvent),
        Err(SelectionError::EventSimulationFailed(KeyFailure::NoKeyboardEvent))
    );
    assert!(SelectionError::EventSimulationFailed(KeyFailure::NoEventSource).is_fatal());
}

#[test]
fn copy_shortcut_is_four_key_events_in_order() {
    assert_eq!(CMD_KEY, 0x37);
    assert_eq!(KEY_C, 8);
    assert_eq!(SETTLE_DELAY_MS, 20);
    let mut strokes = Vec::new();
    let mut step = sim_ctrl_c::<u8>(CopyKeys::Start, Event::Begin);
    let result = loop {
        match step {
            Step::Done(result) => break result,
            Step::Next(state, Effect::PostKey { stroke, settle_ms }) => {
                assert_eq!(settle_ms, 20);
                strokes.push(stroke);
                step = sim_ctrl_c(state, Event::KeyPosted(KeyPost::Posted));
            }
            Step::Next(_, other) => panic!("{:?}", other),
        }
    };
    assert_eq!(result, Ok(()));
    assert_eq!(
        strokes,
        vec![
            KeyStroke { key: 0x37, key_down: true },
            KeyStroke { key: 8, key_down: true },
            KeyStroke { key: 8, key_down: false },
            KeyStroke { key: 0x37, key_down: false },
        ]
    );
}

#[test]
fn copy_shortcut_stops_at_the_first_failure() {
    let Step::Next(state, _) = sim_ctrl_c::<u8>(CopyKeys::Start, Event::Begin) else { panic!() };
    assert_eq!(state, CopyKeys::CommandDown);
    let Step::Next(state, _) = sim_ctrl_c::<u8>(state, Event::KeyPosted(KeyPost::Posted)) else {
        panic!()
    };
    assert_eq!(state, CopyKeys::CDown);
    let Step::Done(result) = sim_ctrl_c::<u8>(state, Event::KeyPosted(KeyPost::NoEventSource))
    else {
        panic!()
    };
    assert_eq!(result, Err(SelectionError::EventSimulationFailed(KeyFailure::NoEventSource)));
}

#[test]
fn copy_shortcut_ignores_other_events() {
    let Step::Next(state, effect) = sim_ctrl_c::<u8>(CopyKeys::CUp, Event::Cleared) else {
        panic!()
    };
    assert_eq!(state, CopyKeys::CUp);
    assert!(matches!(effect, Effect::Idle));
    let Step::Next(state, effect) = sim_ctrl_c::<u8>(CopyKeys::Start, Event::KeyPosted(KeyPost::Posted))
    else {
        panic!()
    };
    assert_eq!(state, CopyKeys::Start);
    assert!(matches!(effect, Effect::Idle));
}

#[test]
fn quiet_copy_succeeds_on_zero_exit() {
    assert_eq!(quiet_cmd_c(exited(true, b"", b"ignored")), Ok(()));
}

#[test]
fn quiet_copy_reports_error_output_as_text() {
    assert_eq!(
        quiet_cmd_c(exited(false, b"out", b"execution error: not allowed (-1743)\n")),
        Err(SelectionError::ScriptInvocationFailed(
            "execution error: not allowed (-1743)\n".to_string()
        ))
    );
    // The two bytes that encode one character are one character of the message.
    assert_eq!(
        quiet_cmd_c(exited(false, b"", &[0xC3, 0xA9])),
        Err(SelectionError::ScriptInvocationFailed("\u{e9}".to_string()))
    );
    assert_eq!(
        quiet_cmd_c(exited(false, b"", "Finder n\u{2019}a pas r\u{e9}pondu \u{1f600}".as_bytes())),
        Err(SelectionError::ScriptInvocationFailed(
            "Finder n\u{2019}a pas r\u{e9}pondu \u{1f600}".to_string()
        ))
    );
    assert_eq!(
        quiet_cmd_c(ScriptRun::NotStarted("No such file or directory".to_string())),
        Err(SelectionError::ScriptInvocationFailed("No such file or directory".to_string()))
    );
    assert!(!SelectionError::ScriptInvocationFailed(String::new()).is_fatal());
}

#[test]
fn error_output_that_is_no_utf8_is_read_byte_by_byte() {
    assert_eq!(
        quiet_cmd_c(exited(false, b"", &[0x61, 0xFF, 0xC3])),
        Err(SelectionError::ScriptInvocationFailed("a\u{ff}\u{c3}".to_string()))
    );
    assert_eq!(
        get_selected_files("Finder", exited(false, b"", &[0xE9])),
        Err(SelectionError::ScriptInvocationFailed("\u{e9}".to_string()))
    );
}

#[test]
fn failed_listing_reports_error_output_as_text() {
    assert_eq!(
        get_selected_file_paths_by_clipboard_using_applescript(exited(
            false,
            b"ignored",
            "erreur d\u{2019}ex\u{e9}cution".as_bytes()
        )),
        Err(SelectionError::ScriptInvocationFailed("erreur d\u{2019}ex\u{e9}cution".to_string()))
    );
    assert_eq!(
        get_selected_files("Finder", exited(false, b"/a", &[0xC3, 0xA9])),
        Err(SelectionError::ScriptInvocationFailed("\u{e9}".to_string()))
    );
}

#[test]
fn listing_is_decoded_and_trimmed() {
    assert_eq!(
        get_selected_file_paths_by_clipboard_using_applescript(exited(
            true,
            "\"/Users/é/a.txt\"\n\"/b\"\n".as_bytes(),
            b""
        )),
        Ok("\"/Users/é/a.txt\"\n\"/b\"".to_string())
    );
    assert_eq!(
        get_selected_file_paths_by_clipboard_using_applescript(exited(true, b"\n", b"")),
        Ok(String::new())
    );
}

#[test]
fn listing_that_is_no_utf8_fails_with_its_bytes() {
    assert_eq!(
        get_selected_file_paths_by_clipboard_using_applescript(exited(true, &[0x2F, 0xFF, 0x61], b"")),
        Err(SelectionError::ScriptInvocationFailed("/\u{ff}a".to_string()))
    );
}

#[test]
fn listing_of_a_failed_run_fails_with_its_error_output() {
    assert_eq!(
        get_selected_file_paths_by_clipboard_using_applescript(exited(false, b"/a", b"syntax error")),
        Err(SelectionError::ScriptInvocationFailed("syntax error".to_string()))
    );
    assert_eq!(
        get_selected_file_paths_by_clipboard_using_applescript(ScriptRun::NotStarted(
            "gone".to_string()
        )),
        Err(SelectionError::ScriptInvocationFailed("gone".to_string()))
    );
}

#[test]
fn three_selected_items_are_three_paths() {
    let found = get_selected_files("Finder", exited(true, b"\"/a\"\n\"/b\"\n\"/c\"", b"")).unwrap();
    assert_eq!(
        found,
        SelectedText {
            is_file_paths: true,
            app_name: "Finder".to_string(),
            text: vec!["\"/a\"".to_string(), "\"/b\"".to_string(), "\"/c\"".to_string()],
        }
    );
}

#[test]
fn no_selected_item_is_one_empty_path() {
    let found = get_selected_files("Empty Window", exited(true, b"", b"")).unwrap();
    assert_eq!(
        found,
        SelectedText {
            is_file_paths: true,
            app_name: "Empty Window".to_string(),
            text: vec![String::new()],
        }
    );
}

#[test]
fn failed_listing_is_an_error_with_diagnostics() {
    assert_eq!(
        get_selected_files("Finder", exited(false, b"", b"Finder got an error")),
        Err(SelectionError::ScriptInvocationFailed("Finder got an error".to_string()))
    );
}

#[test]
fn deadline_passes_only_after_the_timeout() {
    assert_eq!(DEFAULT_WAIT_TIMEOUT_MS, 90);
    assert_eq!(POLL_INTERVAL_MS, 10);
    assert_eq!(check_deadline(0, 90), Ok(()));
    assert_eq!(check_deadline(90_000_000, 90), Ok(()));
    assert_eq!(check_deadline(90_000_001, 90), Err(SelectionError::ClipboardTimeout));
    assert_eq!(check_deadline(0, 0), Ok(()));
    assert_eq!(check_deadline(1, 0), Err(SelectionError::ClipboardTimeout));
    assert_eq!(check_deadline(u128::MAX, u64::MAX), Err(SelectionError::ClipboardTimeout));
    assert_eq!(check_deadline(18_446_744_073_709_551_615_000_000, u64::MAX), Ok(()));
    assert!(!SelectionError::ClipboardTimeout.is_fatal());
}

#[test]
fn beginning_saves_before_it_copies() {
    let Step::Next(state, effect) = ctrl_c_and_save_pasteboard::<u8>(Saving::new(false), Event::Begin)
    else {
        panic!()
    };
    assert!(matches!(effect, Effect::Snapshot));
    let Step::Next(mut state, mut effect) = ctrl_c_and_save_pasteboard(
        state,
        Event::Snapshot { change_count: 12, contents: Some(vec![1, 2]) },
    ) else {
        panic!()
    };
    let mut posted = 0;
    let saved = loop {
        assert!(matches!(effect, Effect::PostKey { .. }));
        posted += 1;
        match ctrl_c_and_save_pasteboard(state, Event::KeyPosted(KeyPost::Posted)) {
            Step::Next(s, e) => {
                state = s;
                effect = e;
            }
            Step::Done(result) => break result.unwrap(),
        }
    };
    assert_eq!(posted, 4);
    assert_eq!(saved.saved_change_count, 12);
    assert_eq!(saved.saved_contents, Some(vec![1, 2]));
}

#[test]
fn beginning_with_the_script_runs_the_script() {
    let Step::Next(state, _) = ctrl_c_and_save_pasteboard::<u8>(Saving::new(true), Event::Begin)
    else {
        panic!()
    };
    let Step::Next(state, effect) =
        ctrl_c_and_save_pasteboard(state, Event::Snapshot { change_count: -3, contents: None })
    else {
        panic!()
    };
    assert!(matches!(effect, Effect::RunCopyScript));
    let Step::Done(Ok(saved)) = ctrl_c_and_save_pasteboard(state, Event::Script(exited(true, b"", b"")))
    else {
        panic!()
    };
    assert_eq!(saved.saved_change_count, -3);
    assert_eq!(saved.saved_contents, None);
}

#[test]
fn first_stage_ends_with_the_text_or_the_saved_state() {
    let Step::Next(state, effect) =
        get_selected_text_using_ax_then_copy::<u8>(AxThenCopy::new("App".to_string(), true), Event::Begin)
    else {
        panic!()
    };
    assert!(matches!(effect, Effect::ReadAccessibility));
    let Step::Done(Ok(GetSelectedTextResult::Text(found))) = get_selected_text_using_ax_then_copy(
        state,
        Event::Accessibility(AxProbe::SelectedText("abc".to_string())),
    ) else {
        panic!()
    };
    assert_eq!(
        found,
        SelectedText { is_file_paths: false, app_name: "App".to_string(), text: vec!["abc".to_string()] }
    );

    let Step::Next(state, _) =
        get_selected_text_using_ax_then_copy::<u8>(AxThenCopy::new("App".to_string(), true), Event::Begin)
    else {
        panic!()
    };
    let Step::Next(state, effect) =
        get_selected_text_using_ax_then_copy(state, Event::Accessibility(AxProbe::NoFocusedElement))
    else {
        panic!()
    };
    assert!(matches!(effect, Effect::Snapshot));
    let Step::Next(state, effect) = get_selected_text_using_ax_then_copy(
        state,
        Event::Snapshot { change_count: 5, contents: Some(vec![9]) },
    ) else {
        panic!()
    };
    assert!(matches!(effect, Effect::RunCopyScript));
    let Step::Done(Ok(GetSelectedTextResult::PasteboardState(saved))) =
        get_selected_text_using_ax_then_copy(state, Event::Script(exited(true, b"", b"")))
    else {
        panic!()
    };
    assert_eq!(saved.saved_change_count, 5);
    assert_eq!(saved.saved_contents, Some(vec![9]));
}

#[test]
fn completion_polls_then_reads_then_restores() {
    let start = Completion::new("App".to_string(), 5, Some(vec![1u8, 2, 3]), 90);
    let Step::Next(state, effect) = get_selected_text_from_pasteboard(start, Event::Begin) else {
        panic!()
    };
    assert!(matches!(effect, Effect::Poll { sleep_ms: 10 }));
    let Step::Next(state, effect) = get_selected_text_from_pasteboard(
        state,
        Event::Polled { change_count: 5, elapsed_nanos: 10_000 },
    ) else {
        panic!()
    };
    assert!(matches!(effect, Effect::Poll { sleep_ms: 10 }));
    let Step::Next(state, effect) = get_selected_text_from_pasteboard(
        state,
        Event::Polled { change_count: 6, elapsed_nanos: 500_000_000 },
    ) else {
        panic!()
    };
    assert!(matches!(effect, Effect::ReadText));
    let Step::Next(state, effect) =
        get_selected_text_from_pasteboard(state, Event::Text(Some("picked".to_string())))
    else {
        panic!()
    };
    assert!(matches!(effect, Effect::Clear));
    let Step::Next(state, effect) = get_selected_text_from_pasteboard(state, Event::Cleared) else {
        panic!()
    };
    let Effect::Write(items) = effect else { panic!() };
    assert_eq!(items, vec![1, 2]);
    let Step::Done(result) = get_selected_text_from_pasteboard(state, Event::Written(true)) else {
        panic!()
    };
    assert_eq!(
        result,
        Ok(SelectedText {
            is_file_paths: false,
            app_name: "App".to_string(),
            text: vec!["picked".to_string()],
        })
    );
}

#[test]
fn completion_times_out_exactly_after_the_deadline() {
    let waiting = |elapsed_nanos: u128| {
        let start = Completion::new("App".to_string(), 5, Some(vec![1u8]), 90);
        let Step::Next(state, _) = get_selected_text_from_pasteboard(start, Event::Begin) else {
            panic!()
        };
        get_selected_text_from_pasteboard(state, Event::Polled { change_count: 5, elapsed_nanos })
    };
    assert!(matches!(waiting(90_000_000), Step::Next(_, Effect::Poll { sleep_ms: 10 })));
    let Step::Done(result) = waiting(90_000_001) else { panic!() };
    assert_eq!(
        result,
        Ok(SelectedText {
            is_file_paths: false,
            app_name: "App".to_string(),
            text: vec![String::new()],
        })
    );
}

#[test]
fn completion_reports_a_failed_write() {
    let start = Completion::new("App".to_string(), 0, Some(vec![1u8, 2]), 90);
    let Step::Next(state, _) = get_selected_text_from_pasteboard(start, Event::Begin) else {
        panic!()
    };
    let Step::Next(state, _) = get_selected_text_from_pasteboard(
        state,
        Event::Polled { change_count: 1, elapsed_nanos: 0 },
    ) else {
        panic!()
    };
    let Step::Next(state, _) = get_selected_text_from_pasteboard(state, Event::Text(None)) else {
        panic!()
    };
    let Step::Next(state, effect) = get_selected_text_from_pasteboard(state, Event::Cleared) else {
        panic!()
    };
    let Effect::Write(items) = effect else { panic!() };
    assert_eq!(items, vec![1]);
    let Step::Done(result) = get_selected_text_from_pasteboard(state, Event::Written(false)) else {
        panic!()
    };
    assert_eq!(result, Err(SelectionError::ClipboardRestoreFailed));
    assert!(SelectionError::ClipboardRestoreFailed.is_fatal());
}

#[test]
fn completion_gives_up_once_it_has_slept_longer_than_the_timeout() {
    let waiting = |slept_ms: u128| {
        let state = Completion::Waiting {
            app_name: "App".to_string(),
            saved: get_selected_text::PasteboardSavedState {
                saved_change_count: 5,
                saved_contents: Some(vec![1u8]),
            },
            timeout_ms: 90,
            slept_ms,
        };
        // The clock reports that no time has passed.
        get_selected_text_from_pasteboard(state, Event::Polled { change_count: 5, elapsed_nanos: 0 })
    };
    let Step::Next(Completion::Waiting { slept_ms, .. }, Effect::Poll { sleep_ms: 10 }) = waiting(90)
    else {
        panic!()
    };
    assert_eq!(slept_ms, 100);
    let Step::Done(result) = waiting(100) else { panic!() };
    assert_eq!(
        result,
        Ok(SelectedText {
            is_file_paths: false,
            app_name: "App".to_string(),
            text: vec![String::new()],
        })
    );
}
