//! The polling state machine. Each cycle the surrounding loop makes the
//! observation that the current state calls for — a process search while
//! no target is cached, a window-and-title probe while one is — and feeds
//! it to [`MonitorState::step`], which returns the next state, at most
//! one mute request, and the delay before the next poll.
//!
//! A mute request is issued only when a freshly read title differs from
//! the last one seen; repeated observations of the same title are
//! debounced. Losing the window clears the cached target, the last title
//! and the advertisement flag. The poll delay is long while searching —
//! the whole acquisition cycle counts as searching, whatever it finds —
//! short while an advertisement is suspected, and middling otherwise.

use vstd::prelude::*;
use crate::locator::ProcessInfo;
use crate::locator::collect_pids;
use crate::locator::pids_of_name;
use crate::locator::target_process_name;
use crate::locator::target_process_name_text;
use crate::text::is_advert_title;
use crate::text::title_is_advert;
use crate::window::WindowInfo;
use crate::window::first_pid_with_window;
use crate::window::select_pid_with_window;

verus! {

/// Poll delay while no target process is cached.
pub const SEARCH_INTERVAL_MS: u64 = 30000;

/// Poll delay while the target plays ordinary content.
pub const IDLE_INTERVAL_MS: u64 = 2000;

/// Poll delay while an advertisement is suspected, to catch its end fast.
pub const ADVERT_INTERVAL_MS: u64 = 300;

/// The loop's whole mutable state.
pub struct MonitorState {
    /// The process currently believed to host the media player.
    pub cached_pid: Option<u32>,
    /// The last window title observed for it; empty while none is cached.
    pub last_title: String,
    /// Whether that title indicated an advertisement.
    pub in_advert: bool,
}

/// The state as contracts speak of it.
#[verifier::ext_equal]
pub struct StateModel {
    pub cached_pid: Option<u32>,
    pub last_title: Seq<char>,
    pub in_advert: bool,
}

impl View for MonitorState {
    type V = StateModel;

    open spec fn view(&self) -> StateModel {
        StateModel {
            cached_pid: self.cached_pid,
            last_title: self.last_title@,
            in_advert: self.in_advert,
        }
    }
}

/// What a window-and-title probe of the cached process observed.
pub enum ProbeResult {
    /// No visible window resolved: the process is gone or windowless.
    WindowGone,
    /// A window resolved but its title read back empty.
    EmptyTitle,
    /// The window's title.
    Title(String),
}

/// The probe as contracts speak of it.
#[verifier::ext_equal]
pub enum ProbeModel {
    WindowGone,
    EmptyTitle,
    Title(Seq<char>),
}

impl View for ProbeResult {
    type V = ProbeModel;

    open spec fn view(&self) -> ProbeModel {
        match self {
            ProbeResult::WindowGone => ProbeModel::WindowGone,
            ProbeResult::EmptyTitle => ProbeModel::EmptyTitle,
            ProbeResult::Title(t) => ProbeModel::Title(t@),
        }
    }
}

/// What one poll cycle observed.
pub enum CycleEvent {
    /// No target was cached and the search found no candidate whose
    /// window resolves.
    SearchMissed,
    /// No target was cached; the search settled on this process, and the
    /// probe of its window followed in the same cycle.
    SearchFound(u32, ProbeResult),
    /// A target was cached and its window was probed.
    Probed(ProbeResult),
}

/// The event as contracts speak of it.
#[verifier::ext_equal]
pub enum CycleEventModel {
    SearchMissed,
    SearchFound(u32, ProbeModel),
    Probed(ProbeModel),
}

impl View for CycleEvent {
    type V = CycleEventModel;

    open spec fn view(&self) -> CycleEventModel {
        match self {
            CycleEvent::SearchMissed => CycleEventModel::SearchMissed,
            CycleEvent::SearchFound(pid, p) => CycleEventModel::SearchFound(*pid, p@),
            CycleEvent::Probed(p) => CycleEventModel::Probed(p@),
        }
    }
}

/// The state at startup: nothing cached, no title, no advertisement.
pub open spec fn init_state() -> StateModel {
    StateModel { cached_pid: None, last_title: Seq::empty(), in_advert: false }
}

/// While no process is cached the last title is empty and the
/// advertisement flag is down.
pub open spec fn state_wf(s: StateModel) -> bool {
    s.cached_pid is None ==> s.last_title.len() == 0 && !s.in_advert
}

/// The event kind answers the state: a search is made only while nothing
/// is cached, a probe only while something is.
pub open spec fn event_fits(s: StateModel, e: CycleEventModel) -> bool {
    match e {
        CycleEventModel::SearchMissed => s.cached_pid is None,
        CycleEventModel::SearchFound(_, _) => s.cached_pid is None,
        CycleEventModel::Probed(_) => s.cached_pid is Some,
    }
}

/// The state after a probe of process `pid`.
pub open spec fn probe_next(pid: u32, s: StateModel, p: ProbeModel) -> StateModel {
    match p {
        ProbeModel::WindowGone => init_state(),
        ProbeModel::EmptyTitle => StateModel { cached_pid: Some(pid), ..s },
        ProbeModel::Title(t) => if t == s.last_title {
            StateModel { cached_pid: Some(pid), ..s }
        } else {
            StateModel { cached_pid: Some(pid), last_title: t, in_advert: is_advert_title(t) }
        },
    }
}

/// The state after one poll cycle.
pub open spec fn next_state(s: StateModel, e: CycleEventModel) -> StateModel {
    match e {
        CycleEventModel::SearchMissed => s,
        CycleEventModel::SearchFound(pid, p) => probe_next(pid, s, p),
        CycleEventModel::Probed(p) => match s.cached_pid {
            Some(pid) => probe_next(pid, s, p),
            None => s,
        },
    }
}

/// The mute request a probe of `pid` gives rise to: only a title that
/// differs from the last one seen is classified and acted on.
pub open spec fn probe_mute(pid: u32, s: StateModel, p: ProbeModel) -> Option<(u32, bool)> {
    match p {
        ProbeModel::Title(t) => if t == s.last_title {
            None
        } else {
            Some((pid, is_advert_title(t)))
        },
        _ => None,
    }
}

/// The at most one mute request of one poll cycle.
pub open spec fn mute_request(s: StateModel, e: CycleEventModel) -> Option<(u32, bool)> {
    match e {
        CycleEventModel::SearchMissed => None,
        CycleEventModel::SearchFound(pid, p) => probe_mute(pid, s, p),
        CycleEventModel::Probed(p) => match s.cached_pid {
            Some(pid) => probe_mute(pid, s, p),
            None => None,
        },
    }
}

/// The delay after a probe: a fresh title sets it by its classification,
/// anything else keeps the cycle's base delay.
pub open spec fn probe_interval(base: u64, s: StateModel, p: ProbeModel) -> u64 {
    match p {
        ProbeModel::Title(t) => if t == s.last_title {
            base
        } else if is_advert_title(t) {
            ADVERT_INTERVAL_MS
        } else {
            IDLE_INTERVAL_MS
        },
        _ => base,
    }
}

/// The delay before the next poll: a search cycle waits the long search
/// delay whatever it found, so the loop never busy-polls while the
/// player is absent; a cycle with a cached target waits the short delay
/// while an advertisement is suspected and the middling delay otherwise,
/// a fresh title setting the delay by its classification.
pub open spec fn next_interval(s: StateModel, e: CycleEventModel) -> u64 {
    match e {
        CycleEventModel::SearchMissed => SEARCH_INTERVAL_MS,
        CycleEventModel::SearchFound(_, _) => SEARCH_INTERVAL_MS,
        CycleEventModel::Probed(p) => probe_interval(
            if s.in_advert {
                ADVERT_INTERVAL_MS
            } else {
                IDLE_INTERVAL_MS
            },
            s,
            p,
        ),
    }
}

/// What one poll cycle decides.
pub struct CycleOutcome {
    /// The state for the next cycle.
    pub state: MonitorState,
    /// The mute request to carry out, if any: the target process and the
    /// desired mute flag.
    pub mute: Option<(u32, bool)>,
    /// The delay before the next poll, in milliseconds.
    pub interval_ms: u64,
}

impl MonitorState {
    /// The state at startup.
    pub fn new() -> (r: MonitorState)
        ensures
            r@ == init_state(),
    {
        let r = MonitorState { cached_pid: None, last_title: String::new(), in_advert: false };
        proof {
            assert(r@ =~= init_state());
        }
        r
    }

    /// One poll cycle: from the current state and the cycle's observation
    /// to the next state, the at most one mute request, and the delay
    /// before the next poll.
    pub fn step(self, event: CycleEvent) -> (r: CycleOutcome)
        requires
            state_wf(self@),
            event_fits(self@, event@),
        ensures
            r.state@ == next_state(self@, event@),
            r.mute == mute_request(self@, event@),
            r.interval_ms == next_interval(self@, event@),
            state_wf(r.state@),
    {
        match event {
            CycleEvent::SearchMissed => CycleOutcome {
                state: self,
                mute: None,
                interval_ms: SEARCH_INTERVAL_MS,
            },
            CycleEvent::SearchFound(pid, probe) => {
                let mut r = after_probe(pid, self, probe, SEARCH_INTERVAL_MS);
                // The acquisition cycle waits the search delay whatever
                // the probe found; only later cycles pace by the title.
                r.interval_ms = SEARCH_INTERVAL_MS;
                r
            },
            CycleEvent::Probed(probe) => {
                let pid = self.cached_pid.unwrap();
                let base = if self.in_advert {
                    ADVERT_INTERVAL_MS
                } else {
                    IDLE_INTERVAL_MS
                };
                after_probe(pid, self, probe, base)
            },
        }
    }
}

fn after_probe(pid: u32, st: MonitorState, probe: ProbeResult, base: u64) -> (r: CycleOutcome)
    ensures
        r.state@ == probe_next(pid, st@, probe@),
        r.mute == probe_mute(pid, st@, probe@),
        r.interval_ms == probe_interval(base, st@, probe@),
        state_wf(r.state@),
{
    match probe {
        ProbeResult::WindowGone => {
            let cleared = MonitorState {
                cached_pid: None,
                last_title: String::new(),
                in_advert: false,
            };
            proof {
                assert(cleared@ =~= init_state());
            }
            CycleOutcome { state: cleared, mute: None, interval_ms: base }
        },
        ProbeResult::EmptyTitle => {
            let kept = MonitorState {
                cached_pid: Some(pid),
                last_title: st.last_title,
                in_advert: st.in_advert,
            };
            proof {
                assert(kept@ =~= probe_next(pid, st@, ProbeModel::EmptyTitle));
            }
            CycleOutcome { state: kept, mute: None, interval_ms: base }
        },
        ProbeResult::Title(t) => {
            if t == st.last_title {
                let kept = MonitorState {
                    cached_pid: Some(pid),
                    last_title: st.last_title,
                    in_advert: st.in_advert,
                };
                proof {
                    assert(kept@ =~= probe_next(pid, st@, ProbeModel::Title(t@)));
                }
                CycleOutcome { state: kept, mute: None, interval_ms: base }
            } else {
                let advert = title_is_advert(t.as_str());
                let interval = if advert {
                    ADVERT_INTERVAL_MS
                } else {
                    IDLE_INTERVAL_MS
                };
                CycleOutcome {
                    state: MonitorState {
                        cached_pid: Some(pid),
                        last_title: t,
                        in_advert: advert,
                    },
                    mute: Some((pid, advert)),
                    interval_ms: interval,
                }
            }
        },
    }
}

/// The cold-path search: among the processes bearing the target's exact
/// name, in enumeration order, the first whose window resolves against
/// the snapshot becomes the cached target.
pub fn locate_target(procs: &Vec<ProcessInfo>, windows: &Vec<WindowInfo>) -> (r: Option<u32>)
    ensures
        r == first_pid_with_window(pids_of_name(procs@, target_process_name()), windows@),
{
    let target: String = target_process_name_text().to_owned();
    let pids = collect_pids(procs, &target);
    select_pid_with_window(&pids, windows)
}

/// The state after a whole run of poll cycles.
pub open spec fn run_state(s: StateModel, evs: Seq<CycleEventModel>) -> StateModel
    decreases evs.len(),
{
    if evs.len() == 0 {
        s
    } else {
        run_state(next_state(s, evs[0]), evs.drop_first())
    }
}

/// How many cycles of the run issue a mute request.
pub open spec fn mute_call_count(s: StateModel, evs: Seq<CycleEventModel>) -> nat
    decreases evs.len(),
{
    if evs.len() == 0 {
        0
    } else {
        (if mute_request(s, evs[0]) is Some {
            1nat
        } else {
            0nat
        }) + mute_call_count(next_state(s, evs[0]), evs.drop_first())
    }
}

/// Debounce law, steady half: while the cached target keeps showing the
/// title already recorded, no cycle issues a mute request and the state
/// never moves.
pub proof fn lemma_debounce_steady(s: StateModel, t: Seq<char>, evs: Seq<CycleEventModel>)
    requires
        s.cached_pid is Some,
        s.last_title == t,
        forall|k: int|
            0 <= k < evs.len() ==> evs[k] == CycleEventModel::Probed(ProbeModel::Title(t)),
    ensures
        mute_call_count(s, evs) == 0,
        run_state(s, evs) == s,
    decreases evs.len(),
{
    if evs.len() > 0 {
        let s1 = next_state(s, evs[0]);
        assert(s1 =~= s);
        assert(forall|k: int|
            0 <= k < evs.drop_first().len() ==> #[trigger] evs.drop_first()[k] == evs[k + 1]);
        lemma_debounce_steady(s1, t, evs.drop_first());
    }
}

/// Debounce law: over any run of polls that all observe one and the same
/// title, the muter is asked to act at most once — on the first cycle
/// whose title differs from the one recorded — and never on a repeat.
pub proof fn lemma_debounce(s: StateModel, t: Seq<char>, evs: Seq<CycleEventModel>)
    requires
        s.cached_pid is Some,
        forall|k: int|
            0 <= k < evs.len() ==> evs[k] == CycleEventModel::Probed(ProbeModel::Title(t)),
    ensures
        mute_call_count(s, evs) <= 1,
        s.last_title == t ==> mute_call_count(s, evs) == 0,
        s.last_title != t && evs.len() > 0 ==> mute_request(s, evs[0]) is Some
            && mute_call_count(s, evs) == 1,
{
    if evs.len() == 0 {
    } else if s.last_title == t {
        lemma_debounce_steady(s, t, evs);
    } else {
        let s1 = next_state(s, evs[0]);
        assert(s1.cached_pid is Some);
        assert(s1.last_title == t);
        assert(forall|k: int|
            0 <= k < evs.drop_first().len() ==> #[trigger] evs.drop_first()[k] == evs[k + 1]);
        lemma_debounce_steady(s1, t, evs.drop_first());
    }
}

/// State-reset law: when the window of the cached process no longer
/// resolves, the cycle issues no mute request and the state returns to
/// the startup state — nothing cached, last title cleared, advertisement
/// flag down.
pub proof fn lemma_window_lost_resets(s: StateModel)
    requires
        s.cached_pid is Some,
    ensures
        next_state(s, CycleEventModel::Probed(ProbeModel::WindowGone)) == init_state(),
        mute_request(s, CycleEventModel::Probed(ProbeModel::WindowGone)) is None,
{
}

/// Classification law: a fresh title asks for mute exactly when it
/// contains the advertisement marker, and the request names the cached
/// process.
pub proof fn lemma_classification(s: StateModel, pid: u32, t: Seq<char>)
    requires
        s.cached_pid == Some(pid),
        t != s.last_title,
    ensures
        mute_request(s, CycleEventModel::Probed(ProbeModel::Title(t))) == Some(
            (pid, is_advert_title(t)),
        ),
        next_state(s, CycleEventModel::Probed(ProbeModel::Title(t))).in_advert == is_advert_title(
            t,
        ),
{
}

/// Poll-interval law: a cycle that starts without a cached target waits
/// the long search delay whatever it found; a cycle with a cached target
/// that asks for mute waits the short advertisement delay, one that asks
/// for unmute returns to the middling delay, and one with no fresh title
/// keeps the delay of its advertisement flag.
pub proof fn lemma_poll_intervals(s: StateModel, e: CycleEventModel)
    requires
        state_wf(s),
        event_fits(s, e),
    ensures
        s.cached_pid is None ==> next_interval(s, e) == SEARCH_INTERVAL_MS,
        s.cached_pid is Some && (exists|pid: u32| mute_request(s, e) == Some((pid, true)))
            ==> next_interval(s, e) == ADVERT_INTERVAL_MS,
        s.cached_pid is Some && (exists|pid: u32| mute_request(s, e) == Some((pid, false)))
            ==> next_interval(s, e) == IDLE_INTERVAL_MS,
        s.cached_pid is Some && s.in_advert && mute_request(s, e) is None ==> next_interval(s, e)
            == ADVERT_INTERVAL_MS,
        s.cached_pid is Some && !s.in_advert && mute_request(s, e) is None ==> next_interval(s, e)
            == IDLE_INTERVAL_MS,
{
}

} // verus!
