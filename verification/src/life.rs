//! A console's whole life: the launch, the calls on the guard, the release.

use crate::guard::ConsoleState;
use crate::launch::{granted_launch_yields_guard, launch_requests, launched, Step};
use crate::request::{window_after_all, window_after_both, Request};
use vstd::prelude::*;
use windows::Win32::Foundation::HWND;

verus! {

/// Every request of a life, in order. The launch is answered with `allocated`,
/// `handle` and `reported`; where it yields a guard, the guard is called as
/// `calls` says (`true` for a show, `false` for a hide) and then released.
pub open spec fn life_requests(
    launch_visible: bool,
    allocated: bool,
    handle: HWND,
    reported: bool,
    calls: Seq<bool>,
) -> Seq<Request> {
    let launch = launch_requests(launch_visible, allocated, handle, reported);
    match launched(launch_visible, allocated, handle, reported) {
        Step::Ready(guard, _) => launch + guard.requests(calls) + seq![Request::Release],
        _ => launch,
    }
}

/// A life asks for one console, first of all, and releases what it was given
/// once, last of all: a life that was refused releases nothing, and one that
/// was granted releases nothing before its end, however its guard was called.
pub proof fn life_releases_once(
    launch_visible: bool,
    allocated: bool,
    handle: HWND,
    reported: bool,
    calls: Seq<bool>,
)
    ensures
        ({
            let life = life_requests(launch_visible, allocated, handle, reported, calls);
            &&& life.len() > 0
            &&& life[0] == Request::Allocate
            &&& forall|i: int| 0 < i < life.len() ==> life[i] != Request::Allocate
            &&& allocated ==> life.last() == Request::Release
            &&& forall|i: int|
                0 <= i < life.len() && life[i] == Request::Release ==> {
                    &&& allocated
                    &&& i == life.len() - 1
                }
        }),
{
    if allocated {
        granted_launch_yields_guard(launch_visible, handle, reported);
        let guard = ConsoleState { handle, visible: launch_visible };
        guard.requests_take_turns(calls);
    }
}

/// Through a life the guard mirrors the window: where the window was as the
/// window service reported it, and every request of the life is carried out,
/// the window ends as the last call on the guard asked, or, with no call, as
/// the launch was asked.
pub proof fn window_follows_life(
    launch_visible: bool,
    handle: HWND,
    reported: bool,
    calls: Seq<bool>,
)
    ensures
        window_after_all(
            handle,
            reported,
            life_requests(launch_visible, true, handle, reported, calls),
        ) == if calls.len() == 0 {
            launch_visible
        } else {
            calls.last()
        },
{
    let guard = ConsoleState { handle, visible: launch_visible };
    let launch = launch_requests(launch_visible, true, handle, reported);
    let life = life_requests(launch_visible, true, handle, reported, calls);
    granted_launch_yields_guard(launch_visible, handle, reported);
    guard.window_follows_guard(calls);
    guard.last_call_decides(calls);
    window_after_both(handle, reported, launch, guard.requests(calls));
    assert(life.drop_last() == launch + guard.requests(calls));
}

} // verus!
