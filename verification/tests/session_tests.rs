use donaldswap::config::{AppConfig, GameConfig};
use donaldswap::session::{
    leave_key_is_due, SwapAction, SwapEvent, SwapOutcome, SwapPhase, SwapSession, SETTLE_MILLIS,
};
use donaldswap::state::SwapState;
use donaldswap::swapper::SwapError;
use donaldswap::time::Timestamp;
use donaldswap::windows::WindowInfo;
use rand::rngs::StdRng;
use rand::SeedableRng;

fn at(secs: i64, nanos: u32) -> Timestamp {
    Timestamp::new(secs, nanos).expect("fewer nanoseconds than a second")
}

fn game(exe_name: &str, display_name: &str) -> GameConfig {
    GameConfig {
        exe_name: exe_name.to_string(),
        display_name: display_name.to_string(),
        send_esc_on_leave: false,
        send_esc_on_enter: false,
        enabled: true,
        obs_scene: None,
    }
}

fn window(hwnd: isize, exe_name: &str) -> WindowInfo {
    WindowInfo { hwnd, title: format!("window {}", hwnd), exe_name: exe_name.to_string() }
}

fn config(games: Vec<GameConfig>) -> AppConfig {
    let mut c = AppConfig::default();
    c.games = games;
    c
}

fn listed(windows: &[WindowInfo]) -> SwapEvent {
    SwapEvent::WindowsListed { windows: windows.to_vec() }
}

/// A state in which `current` holds the focus since second 100.
fn state_with(current: &GameConfig) -> SwapState {
    let mut state = SwapState::default();
    state.record_swap(current, at(100, 0));
    state
}

fn parts(time: &Option<Timestamp>) -> Option<(i64, u32)> {
    time.as_ref().map(|t| (t.secs(), t.nanos()))
}

/// The fields of a state that a swap writes.
fn record(state: &SwapState) -> (Option<String>, Option<String>, Option<(i64, u32)>, u64, Vec<(String, u64)>) {
    (
        state.current_game.clone(),
        state.current_exe.clone(),
        parts(&state.last_swap_at),
        state.swap_count,
        state.history.iter().map(|e| (e.game_name.clone(), e.duration_seconds)).collect(),
    )
}

#[test]
fn a_swap_runs_from_selection_to_commit() {
    let a = game("a.exe", "Game A");
    let b = game("b.exe", "Game B");
    let mut state = state_with(&a);
    let mut rng = StdRng::seed_from_u64(1);
    let windows = [window(11, "a.exe"), window(22, "b.exe")];

    let mut session = SwapSession::begin(&config(vec![a, b]));
    assert_eq!(session.phase(), SwapPhase::Selecting);
    assert!(matches!(session.pending_action(), SwapAction::ListWindows));
    assert_eq!(session.result(), None);
    assert!(session.target().is_none());

    let action = session.step(listed(&windows), &mut state, &mut rng);
    assert!(matches!(action, SwapAction::Settle { millis: 100 }));
    assert_eq!(SETTLE_MILLIS, 100);
    assert_eq!(session.phase(), SwapPhase::SettlingBeforeFocus);
    assert_eq!(session.target().expect("a target").exe_name, "b.exe");

    let action = session.step(SwapEvent::Settled, &mut state, &mut rng);
    assert!(matches!(action, SwapAction::ListWindows));
    assert_eq!(session.phase(), SwapPhase::Locating);

    let action = session.step(listed(&windows), &mut state, &mut rng);
    assert!(matches!(action, SwapAction::AcquireFocus { hwnd: 22 }));
    assert_eq!(session.phase(), SwapPhase::Focusing);

    let action = session.step(SwapEvent::FocusSettled { acquired: true }, &mut state, &mut rng);
    assert!(matches!(action, SwapAction::Settle { millis: 100 }));
    assert_eq!(session.phase(), SwapPhase::SettlingAfterFocus);

    let action = session.step(SwapEvent::Settled, &mut state, &mut rng);
    assert!(matches!(action, SwapAction::ReadClock));
    assert_eq!(session.phase(), SwapPhase::Committing);
    assert_eq!(state.swap_count, 1);
    assert_eq!(state.current_exe.as_deref(), Some("a.exe"));

    let action = session.step(SwapEvent::ClockRead { now: at(160, 5) }, &mut state, &mut rng);
    assert!(matches!(action, SwapAction::Finish { result: Ok(SwapOutcome::Swapped) }));
    assert!(session.is_finished());
    assert_eq!(session.result(), Some(Ok(SwapOutcome::Swapped)));
    assert_eq!(
        record(&state),
        (
            Some("Game B".to_string()),
            Some("b.exe".to_string()),
            Some((160, 5)),
            2,
            vec![("Game A".to_string(), 60)]
        )
    );
    assert_eq!(state.time_since_swap_seconds, Some(0));
}

#[test]
fn without_enabled_games_a_swap_ends_at_once_and_writes_nothing() {
    let mut a = game("a.exe", "A");
    a.enabled = false;
    let mut b = game("b.exe", "B");
    b.enabled = false;
    let mut state = state_with(&a);
    let before = record(&state);
    let mut rng = StdRng::seed_from_u64(1);
    for games in [Vec::new(), vec![a, b]] {
        let mut session = SwapSession::begin(&config(games));
        assert!(session.is_finished());
        assert_eq!(session.phase(), SwapPhase::Finished);
        assert_eq!(session.result(), Some(Ok(SwapOutcome::NoGamesEnabled)));
        assert!(matches!(
            session.pending_action(),
            SwapAction::Finish { result: Ok(SwapOutcome::NoGamesEnabled) }
        ));
        let action = session.step(listed(&[window(1, "a.exe")]), &mut state, &mut rng);
        assert!(matches!(action, SwapAction::Finish { result: Ok(SwapOutcome::NoGamesEnabled) }));
        let action = session.step(SwapEvent::ClockRead { now: at(500, 0) }, &mut state, &mut rng);
        assert!(matches!(action, SwapAction::Finish { result: Ok(SwapOutcome::NoGamesEnabled) }));
        assert_eq!(record(&state), before);
    }
}

#[test]
fn disabled_games_are_never_the_target() {
    let a = game("a.exe", "A");
    let mut b = game("b.exe", "B");
    b.enabled = false;
    let c = game("c.exe", "C");
    let windows = [window(1, "a.exe"), window(2, "b.exe"), window(3, "c.exe")];
    for seed in 0..100u64 {
        let mut state = state_with(&a);
        let mut rng = StdRng::seed_from_u64(seed);
        let mut session = SwapSession::begin(&config(vec![a.clone(), b.clone(), c.clone()]));
        session.step(listed(&windows), &mut state, &mut rng);
        assert_eq!(session.target().expect("a target").exe_name, "c.exe");
    }
}

#[test]
fn the_only_live_game_is_the_target_even_where_it_holds_the_focus() {
    // A is enabled and live, B is enabled and not live, and A holds the focus.
    let a = game("a.exe", "Game A");
    let b = game("b.exe", "Game B");
    let mut state = state_with(&a);
    let mut rng = StdRng::seed_from_u64(8);
    let windows = [window(11, "a.exe")];
    let mut session = SwapSession::begin(&config(vec![a, b]));
    session.step(listed(&windows), &mut state, &mut rng);
    assert_eq!(session.target().expect("a target").exe_name, "a.exe");
    session.step(SwapEvent::Settled, &mut state, &mut rng);
    let action = session.step(listed(&windows), &mut state, &mut rng);
    assert!(matches!(action, SwapAction::AcquireFocus { hwnd: 11 }));
    session.step(SwapEvent::FocusSettled { acquired: true }, &mut state, &mut rng);
    session.step(SwapEvent::Settled, &mut state, &mut rng);
    let action = session.step(SwapEvent::ClockRead { now: at(130, 0) }, &mut state, &mut rng);
    assert!(matches!(action, SwapAction::Finish { result: Ok(SwapOutcome::Swapped) }));
    assert_eq!(
        record(&state),
        (
            Some("Game A".to_string()),
            Some("a.exe".to_string()),
            Some((130, 0)),
            2,
            vec![("Game A".to_string(), 30)]
        )
    );
}

#[test]
fn a_target_whose_window_is_gone_ends_the_swap_without_a_record() {
    let a = game("a.exe", "A");
    let b = game("b.exe", "B");
    let mut state = state_with(&a);
    let before = record(&state);
    let mut rng = StdRng::seed_from_u64(1);
    let mut session = SwapSession::begin(&config(vec![a, b]));
    session.step(listed(&[window(11, "a.exe"), window(22, "b.exe")]), &mut state, &mut rng);
    session.step(SwapEvent::Settled, &mut state, &mut rng);
    let action = session.step(listed(&[window(11, "a.exe")]), &mut state, &mut rng);
    assert!(matches!(action, SwapAction::Finish { result: Ok(SwapOutcome::WindowMissing) }));
    assert_eq!(session.result(), Some(Ok(SwapOutcome::WindowMissing)));
    assert_eq!(record(&state), before);
}

#[test]
fn the_fallback_on_a_game_that_is_not_open_ends_as_window_missing() {
    let a = game("a.exe", "A");
    let b = game("b.exe", "B");
    let mut state = SwapState::default();
    let mut rng = StdRng::seed_from_u64(1);
    let mut session = SwapSession::begin(&config(vec![a, b]));
    session.step(listed(&[]), &mut state, &mut rng);
    assert_eq!(session.target().expect("a target").exe_name, "a.exe");
    session.step(SwapEvent::Settled, &mut state, &mut rng);
    let action = session.step(listed(&[]), &mut state, &mut rng);
    assert!(matches!(action, SwapAction::Finish { result: Ok(SwapOutcome::WindowMissing) }));
    assert_eq!(state.swap_count, 0);
    assert!(state.last_swap_at.is_none());
}

#[test]
fn a_focus_that_cannot_be_had_fails_the_swap_without_a_record() {
    let a = game("a.exe", "A");
    let b = game("b.exe", "B");
    let mut state = state_with(&a);
    let before = record(&state);
    let mut rng = StdRng::seed_from_u64(1);
    let windows = [window(11, "a.exe"), window(22, "b.exe")];
    let mut session = SwapSession::begin(&config(vec![a, b]));
    session.step(listed(&windows), &mut state, &mut rng);
    session.step(SwapEvent::Settled, &mut state, &mut rng);
    session.step(listed(&windows), &mut state, &mut rng);
    let action = session.step(SwapEvent::FocusSettled { acquired: false }, &mut state, &mut rng);
    assert!(matches!(action, SwapAction::Finish { result: Err(SwapError::FocusUnobtainable) }));
    assert_eq!(session.result(), Some(Err(SwapError::FocusUnobtainable)));
    assert_eq!(record(&state), before);
    // nothing that is reported afterwards is taken
    let action = session.step(SwapEvent::ClockRead { now: at(900, 0) }, &mut state, &mut rng);
    assert!(matches!(action, SwapAction::Finish { result: Err(SwapError::FocusUnobtainable) }));
    assert_eq!(record(&state), before);
}

#[test]
fn the_game_that_leaves_is_sent_the_key_where_it_asks_for_it() {
    let mut a = game("a.exe", "A");
    a.send_esc_on_leave = true;
    let b = game("b.exe", "B");
    let mut state = state_with(&a);
    let mut rng = StdRng::seed_from_u64(1);
    let windows = [window(11, "a.exe"), window(22, "b.exe")];
    let mut session = SwapSession::begin(&config(vec![a, b]));
    let action = session.step(listed(&windows), &mut state, &mut rng);
    assert!(matches!(action, SwapAction::SendKey));
    assert_eq!(session.phase(), SwapPhase::Leaving);
    let action = session.step(SwapEvent::KeySent, &mut state, &mut rng);
    assert!(matches!(action, SwapAction::Settle { millis: 100 }));
    assert_eq!(session.phase(), SwapPhase::SettlingBeforeFocus);
}

#[test]
fn the_leave_key_goes_by_the_first_configured_game_of_that_name() {
    let mut a = game("a.exe", "A");
    a.send_esc_on_leave = true;
    a.enabled = false;
    let b = game("b.exe", "B");
    let mut again = game("A.EXE", "A again");
    again.send_esc_on_leave = false;
    let c = config(vec![b, a, again]);
    assert!(leave_key_is_due(&c, &Some("a.exe".to_string())));
    assert!(leave_key_is_due(&c, &Some("A.exe".to_string())));
    assert!(!leave_key_is_due(&c, &Some("b.exe".to_string())));
    assert!(!leave_key_is_due(&c, &Some("gone.exe".to_string())));
    assert!(!leave_key_is_due(&c, &None));
}

#[test]
fn no_key_is_sent_where_no_game_holds_the_focus() {
    let mut a = game("a.exe", "A");
    a.send_esc_on_leave = true;
    let mut state = SwapState::default();
    let mut rng = StdRng::seed_from_u64(1);
    let mut session = SwapSession::begin(&config(vec![a]));
    let action = session.step(listed(&[window(11, "a.exe")]), &mut state, &mut rng);
    assert!(matches!(action, SwapAction::Settle { millis: 100 }));
}

#[test]
fn the_target_is_sent_the_key_where_it_asks_for_it() {
    let a = game("a.exe", "A");
    let mut b = game("b.exe", "B");
    b.send_esc_on_enter = true;
    let mut state = state_with(&a);
    let mut rng = StdRng::seed_from_u64(1);
    let windows = [window(11, "a.exe"), window(22, "b.exe")];
    let mut session = SwapSession::begin(&config(vec![a, b]));
    session.step(listed(&windows), &mut state, &mut rng);
    session.step(SwapEvent::Settled, &mut state, &mut rng);
    session.step(listed(&windows), &mut state, &mut rng);
    session.step(SwapEvent::FocusSettled { acquired: true }, &mut state, &mut rng);
    let action = session.step(SwapEvent::Settled, &mut state, &mut rng);
    assert!(matches!(action, SwapAction::SendKey));
    assert_eq!(session.phase(), SwapPhase::Entering);
    assert_eq!(state.swap_count, 1);
    let action = session.step(SwapEvent::KeySent, &mut state, &mut rng);
    assert!(matches!(action, SwapAction::ReadClock));
    assert_eq!(state.swap_count, 1);
}

#[test]
fn the_scene_is_switched_after_the_commit() {
    let a = game("a.exe", "A");
    let mut b = game("b.exe", "B");
    b.obs_scene = Some("Scene B".to_string());
    let mut state = state_with(&a);
    let mut rng = StdRng::seed_from_u64(1);
    let windows = [window(11, "a.exe"), window(22, "b.exe")];
    let mut session = SwapSession::begin(&config(vec![a, b]));
    session.step(listed(&windows), &mut state, &mut rng);
    session.step(SwapEvent::Settled, &mut state, &mut rng);
    session.step(listed(&windows), &mut state, &mut rng);
    session.step(SwapEvent::FocusSettled { acquired: true }, &mut state, &mut rng);
    session.step(SwapEvent::Settled, &mut state, &mut rng);
    let action = session.step(SwapEvent::ClockRead { now: at(150, 0) }, &mut state, &mut rng);
    match action {
        SwapAction::SwitchScene { scene } => assert_eq!(scene, "Scene B"),
        other => panic!("{:?}", other),
    }
    assert_eq!(session.phase(), SwapPhase::Notifying);
    assert_eq!(session.result(), None);
    // the swap is recorded already, whatever becomes of the scene
    assert_eq!(state.swap_count, 2);
    assert_eq!(state.current_exe.as_deref(), Some("b.exe"));
    let action = session.step(SwapEvent::SceneSwitched, &mut state, &mut rng);
    assert!(matches!(action, SwapAction::Finish { result: Ok(SwapOutcome::Swapped) }));
    assert_eq!(state.swap_count, 2);
}

#[test]
fn an_event_that_is_not_waited_for_changes_nothing() {
    let a = game("a.exe", "A");
    let b = game("b.exe", "B");
    let mut state = state_with(&a);
    let before = record(&state);
    let mut rng = StdRng::seed_from_u64(1);
    let mut session = SwapSession::begin(&config(vec![a, b]));
    for event in [
        SwapEvent::KeySent,
        SwapEvent::Settled,
        SwapEvent::FocusSettled { acquired: true },
        SwapEvent::ClockRead { now: at(900, 0) },
        SwapEvent::SceneSwitched,
    ] {
        let action = session.step(event, &mut state, &mut rng);
        assert!(matches!(action, SwapAction::ListWindows));
        assert_eq!(session.phase(), SwapPhase::Selecting);
        assert_eq!(record(&state), before);
    }
    session.step(listed(&[window(22, "b.exe")]), &mut state, &mut rng);
    let action = session.step(SwapEvent::ClockRead { now: at(900, 0) }, &mut state, &mut rng);
    assert!(matches!(action, SwapAction::Settle { millis: 100 }));
    assert_eq!(record(&state), before);
}

#[test]
fn a_change_of_the_configuration_does_not_reach_a_running_swap() {
    let a = game("a.exe", "A");
    let b = game("b.exe", "B");
    let mut c = config(vec![a.clone(), b]);
    let mut state = state_with(&a);
    let mut rng = StdRng::seed_from_u64(1);
    let mut session = SwapSession::begin(&c);
    c.games.clear();
    session.step(listed(&[window(22, "b.exe")]), &mut state, &mut rng);
    assert_eq!(session.target().expect("a target").exe_name, "b.exe");
}

#[test]
fn two_swaps_that_run_side_by_side_leave_one_record_each() {
    let a = game("a.exe", "Game A");
    let b = game("b.exe", "Game B");
    let c = game("c.exe", "Game C");
    let mut state = state_with(&a);
    let mut rng = StdRng::seed_from_u64(1);
    let only_b = [window(22, "b.exe")];
    let only_c = [window(33, "c.exe")];
    let cfg = config(vec![a, b, c]);

    let mut first = SwapSession::begin(&cfg);
    let mut second = SwapSession::begin(&cfg);
    first.step(listed(&only_b), &mut state, &mut rng);
    second.step(listed(&only_c), &mut state, &mut rng);
    first.step(SwapEvent::Settled, &mut state, &mut rng);
    second.step(SwapEvent::Settled, &mut state, &mut rng);
    second.step(listed(&only_c), &mut state, &mut rng);
    first.step(listed(&only_b), &mut state, &mut rng);
    first.step(SwapEvent::FocusSettled { acquired: true }, &mut state, &mut rng);
    second.step(SwapEvent::FocusSettled { acquired: true }, &mut state, &mut rng);
    second.step(SwapEvent::Settled, &mut state, &mut rng);
    first.step(SwapEvent::Settled, &mut state, &mut rng);
    assert_eq!(state.swap_count, 1);

    second.step(SwapEvent::ClockRead { now: at(140, 0) }, &mut state, &mut rng);
    assert_eq!(state.swap_count, 2);
    assert_eq!(state.history.len(), 1);
    first.step(SwapEvent::ClockRead { now: at(141, 0) }, &mut state, &mut rng);

    assert_eq!(first.result(), Some(Ok(SwapOutcome::Swapped)));
    assert_eq!(second.result(), Some(Ok(SwapOutcome::Swapped)));
    assert_eq!(
        record(&state),
        (
            Some("Game B".to_string()),
            Some("b.exe".to_string()),
            Some((141, 0)),
            3,
            vec![("Game C".to_string(), 1), ("Game A".to_string(), 40)]
        )
    );
    // a clock reported once more to a swap that has ended records nothing
    first.step(SwapEvent::ClockRead { now: at(150, 0) }, &mut state, &mut rng);
    second.step(SwapEvent::ClockRead { now: at(150, 0) }, &mut state, &mut rng);
    assert_eq!(state.swap_count, 3);
    assert_eq!(state.history.len(), 2);
}

#[test]
fn the_counter_never_goes_down_over_swaps_that_end_in_every_way() {
    let a = game("a.exe", "A");
    let b = game("b.exe", "B");
    let cfg = config(vec![a.clone(), b]);
    let mut state = state_with(&a);
    let mut rng = StdRng::seed_from_u64(77);
    let both = [window(11, "a.exe"), window(22, "b.exe")];
    let mut last = state.swap_count;
    let mut swapped = 0;
    for round in 0..30i64 {
        let mut session = SwapSession::begin(&cfg);
        let mut action = session.pending_action();
        let mut steps = 0;
        loop {
            let event = match action {
                SwapAction::ListWindows if round % 5 == 3 && session.phase() == SwapPhase::Locating => listed(&[]),
                SwapAction::ListWindows => listed(&both),
                SwapAction::SendKey => SwapEvent::KeySent,
                SwapAction::Settle { .. } => SwapEvent::Settled,
                SwapAction::AcquireFocus { .. } => SwapEvent::FocusSettled { acquired: round % 3 != 0 },
                SwapAction::ReadClock => SwapEvent::ClockRead { now: at(200 + round, 0) },
                SwapAction::SwitchScene { .. } => SwapEvent::SceneSwitched,
                SwapAction::Finish { result } => {
                    if result == Ok(SwapOutcome::Swapped) {
                        swapped += 1;
                    }
                    break;
                }
            };
            action = session.step(event, &mut state, &mut rng);
            assert!(state.swap_count >= last);
            assert!(state.history.len() <= 10);
            last = state.swap_count;
            steps += 1;
            assert!(steps < 20);
        }
    }
    assert_eq!(state.swap_count, 1 + swapped);
    assert!(swapped > 0 && swapped < 30);
}
