//! The guard of a console that is attached: its window and the visibility that
//! the guard last gave it.

use crate::request::{command, window_after_all, Request};
use vstd::prelude::*;
use windows::Win32::Foundation::HWND;

verus! {

/// A minimal helper to manage the visibility of an allocated console.
///
/// `visible` is what the guard last asked for, not what the window service
/// reports: a change made by anyone else goes unnoticed. The guard cannot be
/// duplicated, and [`ConsoleState::release`] consumes it.
#[derive(Debug, PartialEq, Eq)]
pub struct ConsoleState {
    pub handle: HWND,
    pub visible: bool,
}

impl ConsoleState {
    /// The guard after a call that asks for the visibility `shown`.
    pub open spec fn with_visibility(self, shown: bool) -> ConsoleState {
        ConsoleState { handle: self.handle, visible: shown }
    }

    /// The request that a call asking for the visibility `shown` hands out: none
    /// where the guard already holds that visibility.
    pub open spec fn request_for(self, shown: bool) -> Option<Request> {
        if self.visible == shown {
            None
        } else {
            Some(command(self.handle, shown))
        }
    }

    /// The guard after the calls `calls` in order, `true` standing for
    /// [`ConsoleState::show`] and `false` for [`ConsoleState::hide_window`].
    pub open spec fn after(self, calls: Seq<bool>) -> ConsoleState
        decreases calls.len(),
    {
        if calls.len() == 0 {
            self
        } else {
            self.after(calls.drop_last()).with_visibility(calls.last())
        }
    }

    /// The requests that the calls `calls` hand out, in order.
    pub open spec fn requests(self, calls: Seq<bool>) -> Seq<Request>
        decreases calls.len(),
    {
        if calls.len() == 0 {
            Seq::empty()
        } else {
            let earlier = self.requests(calls.drop_last());
            match self.after(calls.drop_last()).request_for(calls.last()) {
                Some(request) => earlier.push(request),
                None => earlier,
            }
        }
    }

    /// Hide the console window. The request to make is handed out; there is
    /// none where the window is hidden already.
    pub fn hide_window(&mut self) -> (request: Option<Request>)
        ensures
            *final(self) == old(self).with_visibility(false),
            request == old(self).request_for(false),
    {
        if self.visible {
            self.visible = false;
            Some(Request::Hide(self.handle))
        } else {
            None
        }
    }

    /// Show the console window. The request to make is handed out; there is
    /// none where the window is shown already.
    pub fn show(&mut self) -> (request: Option<Request>)
        ensures
            *final(self) == old(self).with_visibility(true),
            request == old(self).request_for(true),
    {
        if !self.visible {
            self.visible = true;
            Some(Request::Show(self.handle))
        } else {
            None
        }
    }

    /// Return the visibility that the guard last gave the console window.
    #[must_use]
    pub fn is_visible(&self) -> (visible: bool)
        ensures
            visible == self.visible,
    {
        self.visible
    }

    /// End the guard. The request that detaches the console is handed out,
    /// whatever the guard was asked before.
    pub fn release(self) -> (request: Request)
        ensures
            request == Request::Release,
    {
        Request::Release
    }

    /// After any calls the guard holds the window it was made with, and the
    /// visibility that the last call asked for; with no call, the visibility it
    /// had.
    pub proof fn last_call_decides(self, calls: Seq<bool>)
        ensures
            self.after(calls).handle == self.handle,
            self.after(calls).visible == if calls.len() == 0 {
                self.visible
            } else {
                calls.last()
            },
        decreases calls.len(),
    {
        if calls.len() > 0 {
            self.last_call_decides(calls.drop_last());
        }
    }

    /// A call that asks again for what the call before it asked hands out no
    /// request and leaves the guard as it is.
    pub proof fn repeated_call_is_silent(self, calls: Seq<bool>, shown: bool)
        ensures
            self.after(calls.push(shown)).request_for(shown) == None::<Request>,
            self.requests(calls.push(shown).push(shown)) == self.requests(calls.push(shown)),
            self.after(calls.push(shown).push(shown)) == self.after(calls.push(shown)),
    {
        let once = calls.push(shown);
        self.last_call_decides(once);
        assert(once.push(shown).drop_last() == once);
    }

    /// The requests of any calls take turns: the first goes against the
    /// visibility that the guard had, each later one against the one before it,
    /// and all are for the guard's window. So no request is made twice in a
    /// row, and the guard ends where an even or odd count of them leaves it.
    pub proof fn requests_take_turns(self, calls: Seq<bool>)
        ensures
            self.requests(calls).len() <= calls.len(),
            forall|i: int|
                0 <= i < self.requests(calls).len() ==> #[trigger] self.requests(calls)[i]
                    == command(self.handle, (i % 2 == 0) != self.visible),
            self.after(calls).visible == ((self.requests(calls).len() % 2 == 0) == self.visible),
        decreases calls.len(),
    {
        if calls.len() > 0 {
            self.requests_take_turns(calls.drop_last());
            self.last_call_decides(calls.drop_last());
        }
    }

    /// The guard mirrors the window: where the window was as the guard said
    /// before the calls, and the window service carries out their requests,
    /// the window is as the guard says after them.
    pub proof fn window_follows_guard(self, calls: Seq<bool>)
        ensures
            window_after_all(self.handle, self.visible, self.requests(calls)) == self.after(
                calls,
            ).visible,
        decreases calls.len(),
    {
        if calls.len() > 0 {
            let earlier = calls.drop_last();
            self.window_follows_guard(earlier);
            self.last_call_decides(earlier);
            match self.after(earlier).request_for(calls.last()) {
                Some(request) => {
                    assert(self.requests(earlier).push(request).drop_last() == self.requests(
                        earlier,
                    ));
                },
                None => {},
            }
        }
    }
}

} // verus!
