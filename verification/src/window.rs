//! Window selection: given a snapshot of the top-level windows (handle,
//! owning process, visibility), pick the first visible window owned by a
//! given process. The snapshot order is the enumeration order of the
//! windowing system; the first match in that order wins, which accepts
//! the system's non-determinism when a process owns several windows.

use vstd::prelude::*;

verus! {

/// One top-level window as reported by the window system.
#[derive(Clone, Copy)]
pub struct WindowInfo {
    pub handle: usize,
    pub pid: u32,
    pub visible: bool,
}

/// A window belongs to the process and is visible.
pub open spec fn window_matches(w: WindowInfo, pid: u32) -> bool {
    w.visible && w.pid == pid
}

/// The handle of the first visible window of `pid`, in snapshot order.
pub open spec fn first_window(ws: Seq<WindowInfo>, pid: u32) -> Option<usize>
    decreases ws.len(),
{
    if ws.len() == 0 {
        None
    } else if window_matches(ws[0], pid) {
        Some(ws[0].handle)
    } else {
        first_window(ws.drop_first(), pid)
    }
}

proof fn lemma_first_window_found(ws: Seq<WindowInfo>, pid: u32, i: int)
    requires
        0 <= i < ws.len(),
        window_matches(ws[i], pid),
        forall|k: int| 0 <= k < i ==> !window_matches(#[trigger] ws[k], pid),
    ensures
        first_window(ws, pid) == Some(ws[i].handle),
    decreases i,
{
    if i > 0 {
        let rest = ws.drop_first();
        assert(forall|k: int| 0 <= k < i - 1 ==> #[trigger] rest[k] == ws[k + 1]);
        lemma_first_window_found(rest, pid, i - 1);
    }
}

proof fn lemma_first_window_none(ws: Seq<WindowInfo>, pid: u32)
    requires
        forall|k: int| 0 <= k < ws.len() ==> !window_matches(#[trigger] ws[k], pid),
    ensures
        first_window(ws, pid) is None,
    decreases ws.len(),
{
    if ws.len() > 0 {
        let rest = ws.drop_first();
        assert(forall|k: int| 0 <= k < rest.len() ==> #[trigger] rest[k] == ws[k + 1]);
        lemma_first_window_none(rest, pid);
    }
}

/// The first visible window of `pid` in the snapshot, or none.
pub fn find_window(windows: &Vec<WindowInfo>, pid: u32) -> (r: Option<usize>)
    ensures
        r == first_window(windows@, pid),
{
    let mut i: usize = 0;
    while i < windows.len()
        invariant
            i <= windows.len(),
            forall|k: int| 0 <= k < i ==> !window_matches(#[trigger] windows@[k], pid),
        decreases windows.len() - i,
    {
        let w = windows[i];
        if w.visible && w.pid == pid {
            proof {
                lemma_first_window_found(windows@, pid, i as int);
            }
            return Some(w.handle);
        }
        i += 1;
    }
    proof {
        lemma_first_window_none(windows@, pid);
    }
    None
}

/// The first process in `pids` that owns a visible window in the snapshot.
pub open spec fn first_pid_with_window(pids: Seq<u32>, ws: Seq<WindowInfo>) -> Option<u32>
    decreases pids.len(),
{
    if pids.len() == 0 {
        None
    } else if first_window(ws, pids[0]) is Some {
        Some(pids[0])
    } else {
        first_pid_with_window(pids.drop_first(), ws)
    }
}

proof fn lemma_first_pid_found(pids: Seq<u32>, ws: Seq<WindowInfo>, i: int)
    requires
        0 <= i < pids.len(),
        first_window(ws, pids[i]) is Some,
        forall|k: int| 0 <= k < i ==> first_window(ws, #[trigger] pids[k]) is None,
    ensures
        first_pid_with_window(pids, ws) == Some(pids[i]),
    decreases i,
{
    if i > 0 {
        let rest = pids.drop_first();
        assert(forall|k: int| 0 <= k < rest.len() ==> #[trigger] rest[k] == pids[k + 1]);
        lemma_first_pid_found(rest, ws, i - 1);
    }
}

proof fn lemma_first_pid_none(pids: Seq<u32>, ws: Seq<WindowInfo>)
    requires
        forall|k: int| 0 <= k < pids.len() ==> first_window(ws, #[trigger] pids[k]) is None,
    ensures
        first_pid_with_window(pids, ws) is None,
    decreases pids.len(),
{
    if pids.len() > 0 {
        let rest = pids.drop_first();
        assert(forall|k: int| 0 <= k < rest.len() ==> #[trigger] rest[k] == pids[k + 1]);
        lemma_first_pid_none(rest, ws);
    }
}

/// Among the candidate processes, in order, the first one whose window
/// resolves against the snapshot.
pub fn select_pid_with_window(pids: &Vec<u32>, windows: &Vec<WindowInfo>) -> (r: Option<u32>)
    ensures
        r == first_pid_with_window(pids@, windows@),
{
    let mut i: usize = 0;
    while i < pids.len()
        invariant
            i <= pids.len(),
            forall|k: int| 0 <= k < i ==> first_window(windows@, #[trigger] pids@[k]) is None,
        decreases pids.len() - i,
    {
        let pid = pids[i];
        if find_window(windows, pid).is_some() {
            proof {
                lemma_first_pid_found(pids@, windows@, i as int);
            }
            return Some(pid);
        }
        i += 1;
    }
    proof {
        lemma_first_pid_none(pids@, windows@);
    }
    None
}

} // verus!
