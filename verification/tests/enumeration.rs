use std::cell::Cell;
use window_controller::{EnumerationSession, WindowController, WindowSnapshot};

fn windows(handles: &[usize]) -> Vec<WindowController> {
    handles.iter().map(|h| WindowController::from_hwnd(*h)).collect()
}

fn snapshots(list: &[(usize, &str)]) -> Vec<WindowSnapshot> {
    list.iter()
        .map(|(h, t)| WindowSnapshot { window: WindowController::from_hwnd(*h), title: t.to_string() })
        .collect()
}

#[test]
fn handle_round_trip_and_equality() {
    let a = WindowController::from_hwnd(0x1234);
    let b = WindowController::from_hwnd(0x1234);
    let c = WindowController::from_hwnd(0x1235);
    assert_eq!(a.hwnd(), 0x1234);
    assert_eq!(a, b);
    assert_ne!(a, c);
    assert!(a.is_active(&b));
    assert!(!a.is_active(&c));
    assert_eq!(WindowController::from_hwnd(0).hwnd(), 0);
}

#[test]
fn find_all_keeps_matches_in_order() {
    let found = WindowController::find_all(&windows(&[5, 2, 8, 3, 6]), |w| w.hwnd() % 2 == 0);
    assert_eq!(found, windows(&[2, 8, 6]));
}

#[test]
fn find_with_nothing_matching_is_empty() {
    let candidates = windows(&[1, 2, 3]);
    assert_eq!(WindowController::find(&candidates, |_| false, false), Vec::new());
    assert_eq!(WindowController::find(&candidates, |_| false, true), Vec::new());
    assert_eq!(WindowController::find_all(&candidates, |w| w.hwnd() > 10), Vec::new());
    assert_eq!(WindowController::find_one(&candidates, |w| w.hwnd() > 10), None);
}

#[test]
fn find_over_no_windows_is_empty() {
    let none: Vec<WindowController> = Vec::new();
    assert_eq!(WindowController::find(&none, |_| true, false), Vec::new());
    assert_eq!(WindowController::find_one(&none, |_| true), None);
}

#[test]
fn stop_after_first_gives_at_most_one() {
    let candidates = windows(&[1, 4, 6, 8]);
    let found = WindowController::find(&candidates, |w| w.hwnd() % 2 == 0, true);
    assert_eq!(found, windows(&[4]));
    let every = WindowController::find(&candidates, |_| true, true);
    assert_eq!(every, windows(&[1]));
}

#[test]
fn stop_after_first_asks_no_further() {
    let asked = Cell::new(0usize);
    let candidates = windows(&[1, 4, 6, 8]);
    let found = WindowController::find_one(&candidates, |w| {
        asked.set(asked.get() + 1);
        w.hwnd() == 4
    });
    assert_eq!(found, Some(WindowController::from_hwnd(4)));
    assert_eq!(asked.get(), 2);
}

#[test]
fn find_all_asks_every_window_once() {
    let asked = Cell::new(0usize);
    let candidates = windows(&[1, 4, 6, 8]);
    let found = WindowController::find_all(&candidates, |w| {
        asked.set(asked.get() + 1);
        w.hwnd() == 4
    });
    assert_eq!(found, windows(&[4]));
    assert_eq!(asked.get(), 4);
}

#[test]
fn session_halts_only_on_first_match_when_asked() {
    let mut once = EnumerationSession::new(|w: &WindowController| w.hwnd() >= 2, true);
    assert!(once.externally_get_window_controllers(1));
    assert!(!once.externally_get_window_controllers(2));
    assert_eq!(once.finish(), windows(&[2]));

    let mut all = EnumerationSession::new(|w: &WindowController| w.hwnd() >= 2, false);
    assert!(all.externally_get_window_controllers(1));
    assert!(all.externally_get_window_controllers(2));
    assert!(all.externally_get_window_controllers(3));
    assert_eq!(all.finish(), windows(&[2, 3]));
}

#[test]
fn session_records_answers() {
    let mut session = EnumerationSession::new(|_: &WindowController| false, true);
    assert!(session.record(WindowController::from_hwnd(9), false));
    assert!(session.found.is_empty());
    assert!(!session.record(WindowController::from_hwnd(9), true));
    assert_eq!(session.found, windows(&[9]));
}

#[test]
fn sessions_do_not_share_matches() {
    let mut even = EnumerationSession::new(|w: &WindowController| w.hwnd() % 2 == 0, false);
    let mut odd = EnumerationSession::new(|w: &WindowController| w.hwnd() % 2 == 1, false);
    for handle in 1..=6 {
        even.externally_get_window_controllers(handle);
        odd.externally_get_window_controllers(handle);
    }
    assert_eq!(even.finish(), windows(&[2, 4, 6]));
    assert_eq!(odd.finish(), windows(&[1, 3, 5]));
}

#[test]
fn find_by_title_gives_first_window_containing_it() {
    let list = snapshots(&[(1, "Calculator"), (2, "Untitled - Notepad"), (3, "Notepad++")]);
    let found = WindowController::find_by_title(&list, "Notepad");
    assert_eq!(found, Some(WindowController::from_hwnd(2)));
    let title = &list.iter().find(|s| Some(s.window) == found).unwrap().title;
    assert!(title.contains("Notepad"));
}

#[test]
fn find_by_title_without_match_is_none() {
    let list = snapshots(&[(1, "Calculator"), (2, "Untitled - Notepad")]);
    assert_eq!(WindowController::find_by_title(&list, "notepad"), None);
    assert_eq!(WindowController::find_by_title(&list, "Paint"), None);
    assert_eq!(WindowController::find_by_title(&Vec::new(), "Paint"), None);
}

#[test]
fn find_by_title_with_empty_text_takes_the_first() {
    let list = snapshots(&[(7, ""), (8, "x")]);
    assert_eq!(WindowController::find_by_title(&list, ""), Some(WindowController::from_hwnd(7)));
}

#[test]
fn find_by_title_whole_title_and_longer() {
    let list = snapshots(&[(1, "abc")]);
    assert_eq!(WindowController::find_by_title(&list, "abc"), Some(WindowController::from_hwnd(1)));
    assert_eq!(WindowController::find_by_title(&list, "abcd"), None);
}
