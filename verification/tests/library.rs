use spotify_auto_mute::audio::{sessions_to_flip, AudioSession};
use spotify_auto_mute::locator::{
    find_target_pids, matching_processes, search_pattern_text, target_process_name_text,
    ProcessInfo,
};
use spotify_auto_mute::monitor::{
    locate_target, CycleEvent, MonitorState, ProbeResult, ADVERT_INTERVAL_MS, IDLE_INTERVAL_MS,
    SEARCH_INTERVAL_MS,
};
use spotify_auto_mute::text::{name_matches, title_is_advert};
use spotify_auto_mute::title::read_title;
use spotify_auto_mute::window::{find_window, select_pid_with_window, WindowInfo};

fn proc(name: &str, pid: u32) -> ProcessInfo {
    ProcessInfo {
        name: String::from(name),
        pid,
    }
}

fn win(handle: usize, pid: u32, visible: bool) -> WindowInfo {
    WindowInfo {
        handle,
        pid,
        visible,
    }
}

#[test]
fn mixed_case_process_name_is_found() {
    assert!(name_matches("SPOTIFY.EXE", "spotify"));
    assert!(name_matches("SpOtIfY.exe", "spotify"));
    assert!(name_matches("spotify.exe", "SPOTIFY"));
    assert!(name_matches("a Spotify helper", "spotify"));
    assert!(!name_matches("chrome.exe", "spotify"));
    assert!(!name_matches("spot", "spotify"));
}

#[test]
fn advert_marker_classification() {
    assert!(title_is_advert("Advertisement - Brand X"));
    assert!(title_is_advert("xxAdvertisementyy"));
    assert!(title_is_advert("Advertisement"));
    assert!(!title_is_advert("Song A"));
    assert!(!title_is_advert(""));
    // The marker is matched exactly, not case-insensitively.
    assert!(!title_is_advert("ADVERTISEMENT"));
    assert!(!title_is_advert("advertisement"));
}

#[test]
fn grouping_by_exact_name() {
    let procs = vec![
        proc("Spotify.exe", 1),
        proc("chrome.exe", 2),
        proc("Spotify.exe", 3),
        proc("spotify helper", 4),
    ];
    let groups = find_target_pids(&procs, "spotify");
    assert_eq!(groups.len(), 2);
    assert_eq!(groups[0].name, "Spotify.exe");
    assert_eq!(groups[0].pids, vec![1, 3]);
    assert_eq!(groups[1].name, "spotify helper");
    assert_eq!(groups[1].pids, vec![4]);
}

#[test]
fn empty_when_no_match() {
    let procs = vec![proc("chrome.exe", 2), proc("firefox.exe", 9)];
    let groups = find_target_pids(&procs, "spotify");
    assert!(groups.is_empty());
}

#[test]
fn matching_processes_filters() {
    let procs = vec![
        proc("Spotify.exe", 1),
        proc("chrome.exe", 2),
        proc("SPOTIFY helper", 4),
    ];
    let matched = matching_processes(&procs, "spotify");
    assert_eq!(matched.len(), 2);
    assert_eq!(matched[0].name, "Spotify.exe");
    assert_eq!(matched[0].pid, 1);
    assert_eq!(matched[1].name, "SPOTIFY helper");
    assert_eq!(matched[1].pid, 4);
}

#[test]
fn first_visible_window_wins() {
    let windows = vec![win(11, 5, false), win(22, 5, true), win(33, 5, true)];
    assert_eq!(find_window(&windows, 5), Some(22));
    assert_eq!(find_window(&windows, 7), None);
    assert_eq!(find_window(&Vec::new(), 5), None);
}

#[test]
fn select_first_pid_with_window() {
    let windows = vec![win(22, 5, true), win(33, 6, true)];
    let pids = vec![4, 5, 6];
    assert_eq!(select_pid_with_window(&pids, &windows), Some(5));
    assert_eq!(select_pid_with_window(&vec![4, 7], &windows), None);
}

#[test]
fn locate_target_picks_named_process() {
    assert_eq!(target_process_name_text(), "Spotify.exe");
    assert_eq!(search_pattern_text(), "spotify");
    let procs = vec![
        proc("spotify helper", 8),
        proc("Spotify.exe", 9),
        proc("Spotify.exe", 10),
    ];
    // Process 9 has no visible window; 8 bears the wrong exact name.
    let windows = vec![win(11, 8, true), win(22, 9, false), win(33, 10, true)];
    assert_eq!(locate_target(&procs, &windows), Some(10));
    let no_target = vec![proc("chrome.exe", 2)];
    assert_eq!(locate_target(&no_target, &windows), None);
}

#[test]
fn read_title_empty_and_decode() {
    assert_eq!(read_title(&[]), None);
    let hello: Vec<u16> = "Hello".encode_utf16().collect();
    assert_eq!(read_title(&hello), Some(String::from("Hello")));
    let clef: Vec<u16> = "\u{1D11E}".encode_utf16().collect();
    assert_eq!(read_title(&clef), Some(String::from("\u{1D11E}")));
    // A lone surrogate decodes lossily to the replacement character.
    assert_eq!(read_title(&[0xD834]), Some(String::from("\u{FFFD}")));
}

#[test]
fn differential_mute_only_flips_differing() {
    let sessions = vec![
        AudioSession {
            pid: 1,
            muted: false,
        },
        AudioSession { pid: 2, muted: true },
        AudioSession { pid: 1, muted: true },
        AudioSession {
            pid: 1,
            muted: false,
        },
    ];
    assert_eq!(sessions_to_flip(&sessions, 1, true), vec![0, 3]);
    assert_eq!(sessions_to_flip(&sessions, 1, false), vec![2]);
    assert_eq!(sessions_to_flip(&sessions, 3, true), Vec::<usize>::new());
    assert_eq!(sessions_to_flip(&sessions, 3, false), Vec::<usize>::new());
}

#[test]
fn step_scenario_title_sequence() {
    // Reach the state where "Song A" is the recorded title of process 7.
    let state = MonitorState::new();
    let out = state.step(CycleEvent::SearchFound(
        7,
        ProbeResult::Title(String::from("Song A")),
    ));
    assert_eq!(out.mute, Some((7, false)));
    let mut state = out.state;

    // Polls observing "Song A", "Song A", the advertisement, "Song B"
    // yield exactly two mute calls: mute on the advertisement, unmute on
    // "Song B", and none on the repeats.
    let titles = ["Song A", "Song A", "Advertisement - Brand X", "Song B"];
    let mut calls = Vec::new();
    for title in titles {
        let out = state.step(CycleEvent::Probed(ProbeResult::Title(String::from(title))));
        if let Some(call) = out.mute {
            calls.push(call);
        }
        state = out.state;
    }
    assert_eq!(calls, vec![(7, true), (7, false)]);
}

#[test]
fn process_never_found_stays_searching() {
    let mut state = MonitorState::new();
    for _ in 0..3 {
        let out = state.step(CycleEvent::SearchMissed);
        assert_eq!(out.mute, None);
        assert_eq!(out.interval_ms, SEARCH_INTERVAL_MS);
        state = out.state;
        assert_eq!(state.cached_pid, None);
        assert!(state.last_title.is_empty());
        assert!(!state.in_advert);
    }
}

#[test]
fn window_lost_resets_state() {
    let state = MonitorState::new();
    let out = state.step(CycleEvent::SearchFound(
        7,
        ProbeResult::Title(String::from("Advertisement - Brand X")),
    ));
    assert_eq!(out.mute, Some((7, true)));
    let state = out.state;
    assert_eq!(state.cached_pid, Some(7));
    assert!(state.in_advert);

    let out = state.step(CycleEvent::Probed(ProbeResult::WindowGone));
    assert_eq!(out.mute, None);
    assert_eq!(out.state.cached_pid, None);
    assert!(out.state.last_title.is_empty());
    assert!(!out.state.in_advert);
}

#[test]
fn poll_intervals() {
    let state = MonitorState::new();
    let out = state.step(CycleEvent::SearchMissed);
    assert_eq!(out.interval_ms, SEARCH_INTERVAL_MS);

    // A found process with an unreadable title keeps the search delay.
    let out = out.state.step(CycleEvent::SearchFound(7, ProbeResult::EmptyTitle));
    assert_eq!(out.mute, None);
    assert_eq!(out.interval_ms, SEARCH_INTERVAL_MS);

    // Entering the advertisement sets the short delay.
    let out = out.state.step(CycleEvent::Probed(ProbeResult::Title(String::from(
        "Advertisement - Brand X",
    ))));
    assert_eq!(out.mute, Some((7, true)));
    assert_eq!(out.interval_ms, ADVERT_INTERVAL_MS);

    // While the advertisement title repeats, the short delay stays.
    let out = out.state.step(CycleEvent::Probed(ProbeResult::Title(String::from(
        "Advertisement - Brand X",
    ))));
    assert_eq!(out.mute, None);
    assert_eq!(out.interval_ms, ADVERT_INTERVAL_MS);

    // Leaving the advertisement returns to the middling delay.
    let out = out.state.step(CycleEvent::Probed(ProbeResult::Title(String::from("Song B"))));
    assert_eq!(out.mute, Some((7, false)));
    assert_eq!(out.interval_ms, IDLE_INTERVAL_MS);

    // An unchanged ordinary title keeps the middling delay.
    let out = out.state.step(CycleEvent::Probed(ProbeResult::Title(String::from("Song B"))));
    assert_eq!(out.mute, None);
    assert_eq!(out.interval_ms, IDLE_INTERVAL_MS);

    // An acquisition cycle waits the long search delay whatever it found:
    // even a first title read that classifies as an advertisement leaves
    // this cycle's delay at the search value.
    let state = MonitorState::new();
    let out = state.step(CycleEvent::SearchFound(
        9,
        ProbeResult::Title(String::from("Advertisement - Brand X")),
    ));
    assert_eq!(out.mute, Some((9, true)));
    assert!(out.state.in_advert);
    assert_eq!(out.interval_ms, SEARCH_INTERVAL_MS);
}
