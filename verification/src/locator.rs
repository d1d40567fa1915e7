//! Finding the one window of a process that is eligible for hooking.
//!
//! The operating system hands out its top-level windows one at a time, in an
//! order of its own. The locator takes the first window that belongs to the
//! wanted process, has no owner and is visible.

use vstd::prelude::*;
use crate::window::{WindowHandle, WindowInfo};

verus! {

/// Why no window was located.
#[derive(Clone, Copy, Debug, PartialEq, Eq, Structural)]
pub enum LocateError {
    /// Every top-level window was seen and none is eligible.
    NotFound,
    /// The operating system could not enumerate its windows to the end, and
    /// none of those it did hand out is eligible.
    EnumerationFailed,
}

/// The state of one search: created for it, dropped after it.
#[derive(Clone, Copy, Debug, PartialEq, Eq, Structural)]
pub struct EnumerationContext {
    /// The process whose window is wanted.
    pub wanted_pid: u32,
    /// The window that was accepted; null until one is.
    pub handle: WindowHandle,
    /// Whether a window was accepted.
    pub found: bool,
}

/// A window is eligible when the wanted process owns it, no window owns it,
/// and it is visible.
pub open spec fn qualifies(window: WindowInfo, pid: u32) -> bool {
    &&& window.process_id == pid
    &&& window.owner.is_null()
    &&& window.visible
}

/// `i` is the position of the first eligible window in `windows`.
pub open spec fn is_first_match(windows: Seq<WindowInfo>, pid: u32, i: int) -> bool {
    &&& 0 <= i < windows.len()
    &&& qualifies(windows[i], pid)
    &&& forall|j: int| 0 <= j < i ==> !qualifies(#[trigger] windows[j], pid)
}

/// The position of the first eligible window in `windows`, if there is one.
pub open spec fn first_match(windows: Seq<WindowInfo>, pid: u32) -> Option<int> {
    if exists|i: int| is_first_match(windows, pid, i) {
        Some(choose|i: int| is_first_match(windows, pid, i))
    } else {
        None
    }
}

/// What a search over `windows`, taken in this order, comes to. `completed`
/// says whether the operating system enumerated its windows to the end.
///
/// A window that was accepted stands: the search stops at it, so whatever
/// the enumeration would have done afterwards does not count.
pub open spec fn locate(
    windows: Seq<WindowInfo>,
    pid: u32,
    completed: bool,
) -> Result<WindowHandle, LocateError> {
    match first_match(windows, pid) {
        Some(i) => Ok(windows[i].handle),
        None => if completed {
            Err(LocateError::NotFound)
        } else {
            Err(LocateError::EnumerationFailed)
        },
    }
}

impl EnumerationContext {
    /// The context of a search that has seen no window yet.
    pub open spec fn fresh(pid: u32) -> EnumerationContext {
        EnumerationContext { wanted_pid: pid, handle: WindowHandle::null(), found: false }
    }

    /// What the search comes to once the enumeration has returned.
    pub open spec fn outcome(self, completed: bool) -> Result<WindowHandle, LocateError> {
        if self.found {
            Ok(self.handle)
        } else if completed {
            Err(LocateError::NotFound)
        } else {
            Err(LocateError::EnumerationFailed)
        }
    }

    /// Starts a search for a window of process `pid`.
    pub fn new(pid: u32) -> (context: EnumerationContext)
        ensures
            context == EnumerationContext::fresh(pid),
    {
        EnumerationContext { wanted_pid: pid, handle: WindowHandle(0), found: false }
    }

    /// Ends the search. `completed` says whether the operating system
    /// enumerated its windows to the end.
    pub fn finish(&self, completed: bool) -> (result: Result<WindowHandle, LocateError>)
        ensures
            result == self.outcome(completed),
    {
        if self.found {
            Ok(self.handle)
        } else if completed {
            Err(LocateError::NotFound)
        } else {
            Err(LocateError::EnumerationFailed)
        }
    }
}

/// Judges one enumerated window. An eligible window is recorded in `data` and
/// ends the enumeration (`false`); any other leaves `data` as it was and lets
/// the enumeration go on (`true`).
pub fn enum_windows_callback(data: &mut EnumerationContext, window: &WindowInfo) -> (proceed: bool)
    ensures
        proceed == !qualifies(*window, old(data).wanted_pid),
        proceed ==> *final(data) == *old(data),
        !proceed ==> *final(data) == (EnumerationContext {
            wanted_pid: old(data).wanted_pid,
            handle: window.handle,
            found: true,
        }),
{
    if window.process_id == data.wanted_pid && window.owner.0 == 0 && window.visible {
        data.handle = window.handle;
        data.found = true;
        return false;
    }
    true
}

/// Searches `windows`, in the order given, for the first window that process
/// `pid` owns, that has no owner and that is visible.
///
/// `windows` holds what the operating system enumerated, in its order, and
/// `completed` says whether it enumerated to the end. An enumeration that
/// was stopped at the first eligible window serves as well as a whole one:
/// nothing after that window is looked at.
pub fn find_window_by_pid(
    pid: u32,
    windows: &Vec<WindowInfo>,
    completed: bool,
) -> (result: Result<WindowHandle, LocateError>)
    ensures
        result == locate(windows@, pid, completed),
        result matches Ok(handle) ==> exists|i: int|
            is_first_match(windows@, pid, i) && handle == windows@[i].handle,
        result is Err <==> forall|i: int|
            0 <= i < windows@.len() ==> !qualifies(#[trigger] windows@[i], pid),
        result == Err::<WindowHandle, LocateError>(LocateError::NotFound) ==> completed,
        result == Err::<WindowHandle, LocateError>(LocateError::EnumerationFailed) ==> !completed,
{
    let mut data = EnumerationContext::new(pid);
    let mut seen: usize = 0;
    let mut proceed = true;
    while proceed && seen < windows.len()
        invariant
            seen <= windows.len(),
            data.wanted_pid == pid,
            proceed ==> !data.found && forall|j: int|
                0 <= j < seen ==> !qualifies(#[trigger] windows@[j], pid),
            !proceed ==> data.found && is_first_match(windows@, pid, seen - 1) && data.handle
                == windows@[seen - 1].handle,
        decreases windows.len() - seen,
    {
        proceed = enum_windows_callback(&mut data, &windows[seen]);
        seen += 1;
    }
    proof {
        if data.found {
            lemma_first_match_is(windows@, pid, seen - 1);
        } else {
            lemma_no_match(windows@, pid);
        }
    }
    data.finish(completed)
}

/// The first eligible window is at one position only.
pub proof fn lemma_first_match_unique(windows: Seq<WindowInfo>, pid: u32, i: int, j: int)
    requires
        is_first_match(windows, pid, i),
        is_first_match(windows, pid, j),
    ensures
        i == j,
{
    if i < j {
        assert(!qualifies(windows[i], pid));
    } else if j < i {
        assert(!qualifies(windows[j], pid));
    }
}

/// A position that holds the first eligible window is what `first_match` gives.
pub proof fn lemma_first_match_is(windows: Seq<WindowInfo>, pid: u32, i: int)
    requires
        is_first_match(windows, pid, i),
    ensures
        first_match(windows, pid) == Some(i),
{
    let chosen = choose|k: int| is_first_match(windows, pid, k);
    lemma_first_match_unique(windows, pid, i, chosen);
}

/// Where no window is eligible, `first_match` gives nothing.
pub proof fn lemma_no_match(windows: Seq<WindowInfo>, pid: u32)
    requires
        forall|i: int| 0 <= i < windows.len() ==> !qualifies(#[trigger] windows[i], pid),
    ensures
        first_match(windows, pid) is None,
{
}

/// Where some window is eligible, the search accepts one, and it is the
/// first eligible one in the order given: none before it is eligible.
pub proof fn law_first_eligible_wins(windows: Seq<WindowInfo>, pid: u32, completed: bool, k: int)
    requires
        0 <= k < windows.len(),
        qualifies(windows[k], pid),
    ensures
        exists|i: int|
            0 <= i <= k && is_first_match(windows, pid, i) && locate(windows, pid, completed)
                == Ok::<WindowHandle, LocateError>(windows[i].handle),
    decreases k,
{
    if exists|j: int| 0 <= j < k && qualifies(#[trigger] windows[j], pid) {
        let j = choose|j: int| 0 <= j < k && qualifies(#[trigger] windows[j], pid);
        law_first_eligible_wins(windows, pid, completed, j);
    } else {
        assert(is_first_match(windows, pid, k));
        lemma_first_match_is(windows, pid, k);
    }
}

/// Where exactly one window is eligible, the search returns it, wherever in
/// the order it stands.
pub proof fn law_single_eligible_found(
    windows: Seq<WindowInfo>,
    pid: u32,
    completed: bool,
    k: int,
)
    requires
        0 <= k < windows.len(),
        qualifies(windows[k], pid),
        forall|j: int|
            0 <= j < windows.len() && j != k ==> !qualifies(#[trigger] windows[j], pid),
    ensures
        locate(windows, pid, completed) == Ok::<WindowHandle, LocateError>(windows[k].handle),
{
    assert(is_first_match(windows, pid, k));
    lemma_first_match_is(windows, pid, k);
}

/// Where no window is eligible, the search fails: with `NotFound` after a
/// complete enumeration, with `EnumerationFailed` after one that broke off.
pub proof fn law_none_eligible_not_found(windows: Seq<WindowInfo>, pid: u32)
    requires
        forall|i: int| 0 <= i < windows.len() ==> !qualifies(#[trigger] windows[i], pid),
    ensures
        locate(windows, pid, true) == Err::<WindowHandle, LocateError>(LocateError::NotFound),
        locate(windows, pid, false) == Err::<WindowHandle, LocateError>(
            LocateError::EnumerationFailed,
        ),
{
    lemma_no_match(windows, pid);
}

/// A search may stop at the first eligible window. The windows enumerated
/// up to and including it give the same result as the whole enumeration,
/// whether or not the operating system counts the stop as a failure.
pub proof fn law_stopping_at_first_match(
    windows: Seq<WindowInfo>,
    pid: u32,
    i: int,
    stopped: bool,
    completed: bool,
)
    requires
        is_first_match(windows, pid, i),
    ensures
        locate(windows.take(i + 1), pid, stopped) == locate(windows, pid, completed),
        locate(windows, pid, completed) == Ok::<WindowHandle, LocateError>(windows[i].handle),
{
    let seen = windows.take(i + 1);
    assert(is_first_match(seen, pid, i));
    lemma_first_match_is(seen, pid, i);
    lemma_first_match_is(windows, pid, i);
}

/// The order of enumeration does not matter where one window is eligible:
/// two enumerations of the same candidates, in whatever order each, both
/// come to that window.
pub proof fn law_order_independent(
    first: Seq<WindowInfo>,
    second: Seq<WindowInfo>,
    pid: u32,
    completed: bool,
    target: WindowInfo,
)
    requires
        forall|w: WindowInfo| first.contains(w) <==> second.contains(w),
        first.contains(target),
        qualifies(target, pid),
        forall|w: WindowInfo| first.contains(w) && qualifies(w, pid) ==> w == target,
    ensures
        locate(first, pid, completed) == Ok::<WindowHandle, LocateError>(target.handle),
        locate(second, pid, completed) == locate(first, pid, completed),
{
    lemma_only_eligible_found(first, pid, completed, target);
    lemma_only_eligible_found(second, pid, completed, target);
}

/// A search among candidates of which only `target` is eligible comes to `target`.
proof fn lemma_only_eligible_found(
    windows: Seq<WindowInfo>,
    pid: u32,
    completed: bool,
    target: WindowInfo,
)
    requires
        windows.contains(target),
        qualifies(target, pid),
        forall|w: WindowInfo| windows.contains(w) && qualifies(w, pid) ==> w == target,
    ensures
        locate(windows, pid, completed) == Ok::<WindowHandle, LocateError>(target.handle),
{
    let k = choose|k: int| 0 <= k < windows.len() && windows[k] == target;
    law_first_eligible_wins(windows, pid, completed, k);
    let i = choose|i: int|
        0 <= i <= k && is_first_match(windows, pid, i) && locate(windows, pid, completed)
            == Ok::<WindowHandle, LocateError>(windows[i].handle);
    assert(windows.contains(windows[i]));
}

} // verus!
