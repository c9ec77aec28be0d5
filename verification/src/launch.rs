//! Bringing a console up: the calls that lead from nothing to a guard, one
//! decision after each answer of the operating system.

use crate::guard::ConsoleState;
use crate::request::{command, window_after_all, Reply, Request};
use vstd::prelude::*;
use windows::Win32::Foundation::HWND;

verus! {

/// A console on its way up. Each state waits for the answer to one request,
/// which [`Launch::request`] names. Past the first state a console is attached
/// to the process, so the host carries a launch to its end.
#[derive(Debug, PartialEq, Eq)]
pub enum Launch {
    /// Nothing is attached yet: the allocator's answer is awaited.
    Allocating { launch_visible: bool },
    /// A console is attached: its window is awaited.
    Locating { launch_visible: bool },
    /// The window is known: what the window service says of it is awaited.
    Probing { launch_visible: bool, handle: HWND },
}

/// Where a launch stands after an answer.
#[derive(Debug, PartialEq, Eq)]
pub enum Step {
    /// The launch goes on: its next request is due.
    Pending(Launch),
    /// The allocator refused: there is no console and no guard, and nothing
    /// more to ask.
    Refused,
    /// The console is up. The guard holds the visibility that was asked for;
    /// the request, where there is one, is still to be made, and brings the
    /// window there.
    Ready(ConsoleState, Option<Request>),
}

impl Launch {
    /// The state in which every launch begins.
    pub open spec fn begun(launch_visible: bool) -> Launch {
        Launch::Allocating { launch_visible }
    }

    /// The request whose answer this state waits for.
    pub open spec fn pending(self) -> Request {
        match self {
            Launch::Allocating { .. } => Request::Allocate,
            Launch::Locating { .. } => Request::Locate,
            Launch::Probing { handle, .. } => Request::Probe(handle),
        }
    }

    /// Where the launch stands after `reply`.
    ///
    /// A refusal of the allocator ends it with nothing. The window is fetched
    /// only once a console is attached, and probed only once it is known. The
    /// guard is made with what the window service reported and then brought to
    /// the visibility that was asked for, so a request is left over exactly
    /// where the two differ. An answer to a request that is not pending changes
    /// nothing.
    pub open spec fn advanced(self, reply: Reply) -> Step {
        match (self, reply) {
            (Launch::Allocating { launch_visible }, Reply::Allocated(true)) => Step::Pending(
                Launch::Locating { launch_visible },
            ),
            (Launch::Allocating { .. }, Reply::Allocated(false)) => Step::Refused,
            (Launch::Locating { launch_visible }, Reply::Window(handle)) => Step::Pending(
                Launch::Probing { launch_visible, handle },
            ),
            (Launch::Probing { launch_visible, handle }, Reply::Visible(visible)) => {
                let reported = ConsoleState { handle, visible };
                Step::Ready(
                    reported.with_visibility(launch_visible),
                    reported.request_for(launch_visible),
                )
            },
            _ => Step::Pending(self),
        }
    }

    /// The request that the host is to make now.
    pub fn request(&self) -> (request: Request)
        ensures
            request == self.pending(),
    {
        match self {
            Launch::Allocating { .. } => Request::Allocate,
            Launch::Locating { .. } => Request::Locate,
            Launch::Probing { handle, .. } => Request::Probe(*handle),
        }
    }

    /// Take the answer to the pending request and decide what follows.
    pub fn advance(self, reply: Reply) -> (step: Step)
        ensures
            step == self.advanced(reply),
    {
        match (self, reply) {
            (Launch::Allocating { launch_visible }, Reply::Allocated(allocated)) => {
                // A process that has a console is not given another.
                if allocated {
                    Step::Pending(Launch::Locating { launch_visible })
                } else {
                    Step::Refused
                }
            },
            (Launch::Locating { launch_visible }, Reply::Window(handle)) => Step::Pending(
                Launch::Probing { launch_visible, handle },
            ),
            (Launch::Probing { launch_visible, handle }, Reply::Visible(visible)) => {
                let mut state = ConsoleState { handle, visible };
                // Whatever was reported, the window is to be as the launch was asked.
                let request = if launch_visible {
                    state.show()
                } else {
                    state.hide_window()
                };
                Step::Ready(state, request)
            },
            (launch, _) => Step::Pending(launch),
        }
    }
}

impl ConsoleState {
    /// Begin to create a companion console window that is to be visible or not
    /// as `launch_visible` says. There can be at most one console per process.
    #[must_use]
    pub fn new(launch_visible: bool) -> (launch: Launch)
        ensures
            launch == Launch::begun(launch_visible),
    {
        Launch::Allocating { launch_visible }
    }
}

impl Step {
    /// Where the launch stands once `reply` has been handed to it; a launch
    /// that is over stays as it is.
    pub open spec fn answered(self, reply: Reply) -> Step {
        match self {
            Step::Pending(launch) => launch.advanced(reply),
            _ => self,
        }
    }

    /// What the host is to ask of the operating system at this step: the
    /// pending request of a launch that goes on, the request that a finished
    /// launch left over, or nothing.
    pub open spec fn due(self) -> Seq<Request> {
        match self {
            Step::Pending(launch) => seq![launch.pending()],
            Step::Ready(_, Some(request)) => seq![request],
            _ => Seq::empty(),
        }
    }
}

/// Where a launch ends when the allocator answers `allocated`, the console's
/// window is `handle` and the window service reports it as `reported`.
pub open spec fn launched(
    launch_visible: bool,
    allocated: bool,
    handle: HWND,
    reported: bool,
) -> Step {
    Step::Pending(Launch::begun(launch_visible)).answered(Reply::Allocated(allocated)).answered(
        Reply::Window(handle),
    ).answered(Reply::Visible(reported))
}

/// The requests of that launch, in the order in which they fall due.
pub open spec fn launch_requests(
    launch_visible: bool,
    allocated: bool,
    handle: HWND,
    reported: bool,
) -> Seq<Request> {
    let begun = Step::Pending(Launch::begun(launch_visible));
    let allocating = begun.answered(Reply::Allocated(allocated));
    let locating = allocating.answered(Reply::Window(handle));
    let probing = locating.answered(Reply::Visible(reported));
    begun.due() + allocating.due() + locating.due() + probing.due()
}

/// A launch that the allocator refuses yields no guard, whatever visibility
/// was asked for, and asks nothing of the operating system but the allocation:
/// no window is fetched and none is probed, shown or hidden.
pub proof fn refused_launch_yields_nothing(launch_visible: bool, handle: HWND, reported: bool)
    ensures
        Launch::begun(launch_visible).advanced(Reply::Allocated(false)) == Step::Refused,
        launched(launch_visible, false, handle, reported) == Step::Refused,
        launch_requests(launch_visible, false, handle, reported) == seq![Request::Allocate],
{
}

/// A launch that the allocator grants yields a guard of the console's window
/// that holds the visibility asked for, whatever the window service reported.
/// It allocates, fetches the window and probes it, in this order; one more
/// request, which brings the window to the visibility asked for, follows
/// exactly where the report differs from it. Where the window was as reported,
/// it is then as the guard says.
pub proof fn granted_launch_yields_guard(launch_visible: bool, handle: HWND, reported: bool)
    ensures
        launched(launch_visible, true, handle, reported) == Step::Ready(
            ConsoleState { handle, visible: launch_visible },
            if reported == launch_visible {
                None
            } else {
                Some(command(handle, launch_visible))
            },
        ),
        launch_requests(launch_visible, true, handle, reported) == if reported == launch_visible {
            seq![Request::Allocate, Request::Locate, Request::Probe(handle)]
        } else {
            seq![
                Request::Allocate,
                Request::Locate,
                Request::Probe(handle),
                command(handle, launch_visible),
            ]
        },
        window_after_all(
            handle,
            reported,
            launch_requests(launch_visible, true, handle, reported),
        ) == launch_visible,
{
    let requests = launch_requests(launch_visible, true, handle, reported);
    let asked = seq![Request::Allocate, Request::Locate, Request::Probe(handle)];
    assert(window_after_all(handle, reported, asked) == reported) by {
        reveal_with_fuel(window_after_all, 4);
    }
    if reported == launch_visible {
        assert(requests == asked);
    } else {
        assert(requests == asked.push(command(handle, launch_visible)));
        assert(requests.drop_last() == asked);
    }
}

} // verus!
