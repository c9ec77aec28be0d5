//! The calls that a guard asks of the operating system, and their answers.

use vstd::prelude::*;
use windows::Win32::Foundation::HWND;

verus! {

/// `windows::Win32::Foundation::HWND`, the handle of a window. Nothing is
/// claimed of what a handle holds: it is carried from the call that yields it
/// to the calls that take it.
#[verifier::external_type_specification]
#[verifier::external_body]
pub struct ExWindowHandle(HWND);

/// One call on the operating system, to be made by the host.
#[derive(Clone, Copy, Debug, PartialEq, Eq)]
pub enum Request {
    /// Allocate a console for this process (`AllocConsole`).
    Allocate,
    /// Fetch the window of the console that is attached (`GetConsoleWindow`).
    Locate,
    /// Ask whether the window is shown (`IsWindowVisible`).
    Probe(HWND),
    /// Show the window (`ShowWindow` with `SW_SHOW`). Its answer is not read.
    Show(HWND),
    /// Hide the window (`ShowWindow` with `SW_HIDE`). Its answer is not read.
    Hide(HWND),
    /// Detach the console from this process (`FreeConsole`).
    Release,
}

/// The answer of the operating system to a [`Request`], where the guard reads it.
#[derive(Clone, Copy, Debug, PartialEq, Eq)]
pub enum Reply {
    /// To [`Request::Allocate`]: whether a console was allocated.
    Allocated(bool),
    /// To [`Request::Locate`]: the console's window.
    Window(HWND),
    /// To [`Request::Probe`]: whether the window is shown.
    Visible(bool),
}

/// The request that brings the window `handle` to the visibility `shown`.
pub open spec fn command(handle: HWND, shown: bool) -> Request {
    if shown {
        Request::Show(handle)
    } else {
        Request::Hide(handle)
    }
}

/// Whether the window `handle` is shown once the window service has carried out
/// `request`, where it was `shown` before: a show or a hide of that window
/// decides, any other request leaves the window as it was.
pub open spec fn window_after(handle: HWND, shown: bool, request: Request) -> bool {
    match request {
        Request::Show(h) => h == handle || shown,
        Request::Hide(h) => h != handle && shown,
        _ => shown,
    }
}

/// Whether the window `handle` is shown once the window service has carried out
/// `requests` in order, where it was `shown` before.
pub open spec fn window_after_all(handle: HWND, shown: bool, requests: Seq<Request>) -> bool
    decreases requests.len(),
{
    if requests.len() == 0 {
        shown
    } else {
        window_after(
            handle,
            window_after_all(handle, shown, requests.drop_last()),
            requests.last(),
        )
    }
}

/// Carrying out two runs of requests one after the other is carrying out the
/// second on the window as the first left it.
pub proof fn window_after_both(
    handle: HWND,
    shown: bool,
    first: Seq<Request>,
    second: Seq<Request>,
)
    ensures
        window_after_all(handle, shown, first + second) == window_after_all(
            handle,
            window_after_all(handle, shown, first),
            second,
        ),
    decreases second.len(),
{
    if second.len() == 0 {
        assert(first + second == first);
    } else {
        window_after_both(handle, shown, first, second.drop_last());
        assert((first + second).drop_last() == first + second.drop_last());
    }
}

} // verus!
