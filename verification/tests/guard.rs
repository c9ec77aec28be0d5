use companion_console::{ConsoleState, Request};
use windows::Win32::Foundation::HWND;

fn guard(handle: isize, visible: bool) -> ConsoleState {
    ConsoleState { handle: HWND(handle), visible }
}

fn call(state: &mut ConsoleState, shown: bool) -> Option<Request> {
    if shown {
        state.show()
    } else {
        state.hide_window()
    }
}

#[test]
fn show_on_a_hidden_window_asks_for_it() {
    let mut state = guard(41, false);
    assert_eq!(state.show(), Some(Request::Show(HWND(41))));
    assert!(state.is_visible());
    assert_eq!(state.handle, HWND(41));
}

#[test]
fn show_on_a_shown_window_asks_nothing() {
    let mut state = guard(41, true);
    assert_eq!(state.show(), None);
    assert!(state.is_visible());
    assert_eq!(state.handle, HWND(41));
}

#[test]
fn hide_on_a_shown_window_asks_for_it() {
    let mut state = guard(42, true);
    assert_eq!(state.hide_window(), Some(Request::Hide(HWND(42))));
    assert!(!state.is_visible());
    assert_eq!(state.handle, HWND(42));
}

#[test]
fn hide_on_a_hidden_window_asks_nothing() {
    let mut state = guard(42, false);
    assert_eq!(state.hide_window(), None);
    assert!(!state.is_visible());
    assert_eq!(state.handle, HWND(42));
}

#[test]
fn is_visible_reads_the_flag() {
    assert!(guard(1, true).is_visible());
    assert!(!guard(1, false).is_visible());
}

#[test]
fn is_visible_does_not_change_the_guard() {
    let state = guard(9, true);
    assert!(state.is_visible());
    assert!(state.is_visible());
    assert_eq!(state, guard(9, true));
}

#[test]
fn show_twice_in_a_row_asks_once() {
    let mut state = guard(5, false);
    let mut asked: Vec<Request> = Vec::new();
    asked.extend(state.show());
    asked.extend(state.show());
    assert_eq!(asked, vec![Request::Show(HWND(5))]);
    assert!(state.is_visible());
}

#[test]
fn hide_twice_in_a_row_asks_once() {
    let mut state = guard(5, true);
    let mut asked: Vec<Request> = Vec::new();
    asked.extend(state.hide_window());
    asked.extend(state.hide_window());
    assert_eq!(asked, vec![Request::Hide(HWND(5))]);
    assert!(!state.is_visible());
}

#[test]
fn last_call_decides_the_visibility() {
    let calls = [true, true, false, true, false, false, false, true, true, false];
    let mut state = guard(3, false);
    for (done, shown) in calls.iter().enumerate() {
        call(&mut state, *shown);
        assert_eq!(state.is_visible(), calls[done]);
        assert_eq!(state.handle, HWND(3));
    }
    assert!(!state.is_visible());
}

#[test]
fn requests_take_turns_from_a_hidden_window() {
    let calls = [true, true, false, true, false, false, false, true, true, false];
    let mut state = guard(3, false);
    let mut asked: Vec<Request> = Vec::new();
    for shown in calls {
        asked.extend(call(&mut state, shown));
    }
    assert_eq!(
        asked,
        vec![
            Request::Show(HWND(3)),
            Request::Hide(HWND(3)),
            Request::Show(HWND(3)),
            Request::Hide(HWND(3)),
            Request::Show(HWND(3)),
            Request::Hide(HWND(3)),
        ]
    );
}

#[test]
fn requests_take_turns_from_a_shown_window() {
    let calls = [true, false, false, true, true, true];
    let mut state = guard(8, true);
    let mut asked: Vec<Request> = Vec::new();
    for shown in calls {
        asked.extend(call(&mut state, shown));
    }
    assert_eq!(asked, vec![Request::Hide(HWND(8)), Request::Show(HWND(8))]);
    assert!(state.is_visible());
}

#[test]
fn every_short_run_of_calls_ends_where_its_last_call_says() {
    for start in [false, true] {
        for length in 0..6u32 {
            for bits in 0..(1u32 << length) {
                let mut state = guard(77, start);
                let mut asked: Vec<Request> = Vec::new();
                let mut last = start;
                for at in 0..length {
                    let shown = bits & (1 << at) != 0;
                    let before = state.is_visible();
                    let request = call(&mut state, shown);
                    assert_eq!(request.is_some(), before != shown);
                    asked.extend(request);
                    last = shown;
                }
                assert_eq!(state.is_visible(), last);
                assert_eq!(state.handle, HWND(77));
                for (at, request) in asked.iter().enumerate() {
                    let shown = (at % 2 == 0) != start;
                    let expected = if shown {
                        Request::Show(HWND(77))
                    } else {
                        Request::Hide(HWND(77))
                    };
                    assert_eq!(*request, expected);
                }
                assert_eq!(state.is_visible(), (asked.len() % 2 == 0) == start);
            }
        }
    }
}

#[test]
fn no_calls_leave_the_guard_as_it_was() {
    let state = guard(6, true);
    assert!(state.is_visible());
    let state = guard(6, false);
    assert!(!state.is_visible());
}

#[test]
fn release_asks_for_the_release() {
    assert_eq!(guard(4, true).release(), Request::Release);
    assert_eq!(guard(4, false).release(), Request::Release);
}

#[test]
fn release_after_calls_asks_for_the_release() {
    let mut state = guard(4, false);
    state.show();
    state.hide_window();
    state.show();
    assert_eq!(state.release(), Request::Release);
}

#[test]
fn the_null_window_is_carried_like_any_other() {
    let mut state = ConsoleState { handle: HWND::default(), visible: false };
    assert_eq!(state.show(), Some(Request::Show(HWND(0))));
    assert_eq!(state.hide_window(), Some(Request::Hide(HWND(0))));
}
