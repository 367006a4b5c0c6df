use donaldswap::config::{AppConfig, GameConfig};
use donaldswap::state::SwapState;
use donaldswap::swapper::{
    calculate_delay, choose_game, find_next_game, live_candidates, plan_cycle, CyclePlan,
    Scheduler, SchedulerAction, SwapError, IDLE_POLL_SECONDS,
};
use donaldswap::time::Timestamp;
use donaldswap::windows::WindowInfo;
use rand::rngs::StdRng;
use rand::SeedableRng;

fn at(secs: i64, nanos: u32) -> Timestamp {
    Timestamp::new(secs, nanos).expect("fewer nanoseconds than a second")
}

fn game(exe_name: &str, display_name: &str) -> GameConfig {
    GameConfig {
        exe_name: exe_name.to_string(),
        display_name: display_name.to_string(),
        send_esc_on_leave: true,
        send_esc_on_enter: true,
        enabled: true,
        obs_scene: None,
    }
}

fn window(hwnd: isize, exe_name: &str) -> WindowInfo {
    WindowInfo { hwnd, title: format!("window {}", hwnd), exe_name: exe_name.to_string() }
}

fn config(min: u32, max: u32) -> AppConfig {
    let mut c = AppConfig::default();
    c.min_swap_minutes = min;
    c.max_swap_minutes = max;
    c.games = vec![game("a.exe", "A"), game("b.exe", "B")];
    c
}

fn parts(time: &Option<Timestamp>) -> Option<(i64, u32)> {
    time.as_ref().map(|t| (t.secs(), t.nanos()))
}

#[test]
fn the_delay_lies_between_the_bounds_in_seconds() {
    let c = config(5, 15);
    for seed in 0..200u64 {
        let mut rng = StdRng::seed_from_u64(seed);
        let delay = calculate_delay(&c, &mut rng);
        assert!((300..=900).contains(&delay), "{}", delay);
    }
}

#[test]
fn the_delay_is_drawn_not_fixed() {
    let c = config(5, 15);
    let mut rng = StdRng::seed_from_u64(1);
    let first = calculate_delay(&c, &mut rng);
    let mut differs = false;
    let mut inside = false;
    for _ in 0..100 {
        let delay = calculate_delay(&c, &mut rng);
        differs = differs || delay != first;
        inside = inside || (delay != 300 && delay != 900);
    }
    assert!(differs);
    assert!(inside);
}

#[test]
fn the_delay_reaches_both_bounds() {
    let c = config(1, 1);
    let mut narrow = config(0, 0);
    narrow.max_swap_minutes = 1;
    let mut rng = StdRng::seed_from_u64(3);
    assert_eq!(calculate_delay(&c, &mut rng), 60);
    let mut low = false;
    let mut high = false;
    let mut tight = AppConfig::default();
    tight.min_swap_minutes = 0;
    tight.max_swap_minutes = 0;
    assert_eq!(calculate_delay(&tight, &mut rng), 0);
    for _ in 0..20_000 {
        let delay = calculate_delay(&narrow, &mut rng);
        assert!(delay <= 60);
        low = low || delay == 0;
        high = high || delay == 60;
    }
    assert!(low && high);
}

#[test]
fn the_delay_is_the_upper_bound_where_the_lower_is_not_below_it() {
    let mut rng = StdRng::seed_from_u64(9);
    assert_eq!(calculate_delay(&config(15, 15), &mut rng), 900);
    assert_eq!(calculate_delay(&config(20, 15), &mut rng), 900);
    assert_eq!(calculate_delay(&config(u32::MAX, 0), &mut rng), 0);
    assert_eq!(calculate_delay(&config(7, 2), &mut rng), 120);
}

#[test]
fn the_delay_fits_the_largest_bounds() {
    let mut rng = StdRng::seed_from_u64(9);
    let top = u32::MAX as u64 * 60;
    assert_eq!(calculate_delay(&config(u32::MAX, u32::MAX), &mut rng), top);
    let delay = calculate_delay(&config(u32::MAX - 1, u32::MAX), &mut rng);
    assert!(delay >= top - 60 && delay <= top);
}

#[test]
fn the_same_seed_gives_the_same_delay() {
    let c = config(5, 15);
    let mut one = StdRng::seed_from_u64(42);
    let mut two = StdRng::seed_from_u64(42);
    for _ in 0..10 {
        assert_eq!(calculate_delay(&c, &mut one), calculate_delay(&c, &mut two));
    }
}

#[test]
fn candidates_are_live_and_not_current() {
    let games = vec![game("a.exe", "A"), game("b.exe", "B"), game("c.exe", "C"), game("d.exe", "D")];
    let windows = vec![window(1, "A.EXE"), window(2, "c.exe"), window(3, "d.exe"), window(4, "x.exe")];
    assert_eq!(live_candidates(&games, &None, &windows), vec![0, 2, 3]);
    assert_eq!(live_candidates(&games, &Some("c.exe".to_string()), &windows), vec![0, 3]);
    assert_eq!(live_candidates(&games, &Some("C.EXE".to_string()), &windows), vec![0, 3]);
    assert_eq!(live_candidates(&games, &Some("b.exe".to_string()), &windows), vec![0, 2, 3]);
    assert_eq!(live_candidates(&games, &None, &Vec::new()), Vec::<usize>::new());
    assert_eq!(live_candidates(&Vec::new(), &None, &windows), Vec::<usize>::new());
}

#[test]
fn the_drawn_candidate_is_chosen() {
    let games = vec![game("a.exe", "A"), game("b.exe", "B"), game("c.exe", "C")];
    let positions = vec![0, 2];
    assert_eq!(choose_game(&games, &positions, 0).expect("a game").exe_name, "a.exe");
    assert_eq!(choose_game(&games, &positions, 1).expect("a game").exe_name, "c.exe");
}

#[test]
fn without_candidates_the_first_game_is_chosen() {
    let games = vec![game("a.exe", "A"), game("b.exe", "B")];
    assert_eq!(choose_game(&games, &Vec::new(), 0).expect("a game").exe_name, "a.exe");
    assert_eq!(choose_game(&games, &Vec::new(), 5).expect("a game").exe_name, "a.exe");
}

#[test]
fn without_games_nothing_is_chosen() {
    assert_eq!(choose_game(&Vec::new(), &Vec::new(), 0).err(), Some(SwapError::NoGamesConfigured));
    let mut rng = StdRng::seed_from_u64(5);
    let windows = vec![window(1, "a.exe")];
    assert_eq!(
        find_next_game(&Vec::new(), &None, &windows, &mut rng).err(),
        Some(SwapError::NoGamesConfigured)
    );
    assert_eq!(
        find_next_game(&Vec::new(), &Some("a.exe".to_string()), &Vec::new(), &mut rng).err(),
        Some(SwapError::NoGamesConfigured)
    );
}

#[test]
fn the_current_game_is_never_selected_while_another_is_live() {
    let games = vec![game("a.exe", "A"), game("b.exe", "B"), game("c.exe", "C")];
    let windows = vec![window(1, "a.exe"), window(2, "b.exe"), window(3, "c.exe")];
    for seed in 0..300u64 {
        let mut rng = StdRng::seed_from_u64(seed);
        let current = games[(seed % 3) as usize].exe_name.to_uppercase();
        let next = find_next_game(&games, &Some(current.clone()), &windows, &mut rng).expect("a game");
        assert!(!next.exe_name.eq_ignore_ascii_case(&current));
    }
}

#[test]
fn only_live_games_are_selected_while_one_is_live() {
    let games = vec![game("a.exe", "A"), game("b.exe", "B"), game("c.exe", "C")];
    let windows = vec![window(3, "c.exe")];
    for seed in 0..50u64 {
        let mut rng = StdRng::seed_from_u64(seed);
        assert_eq!(find_next_game(&games, &None, &windows, &mut rng).expect("a game").exe_name, "c.exe");
        assert_eq!(
            find_next_game(&games, &Some("a.exe".to_string()), &windows, &mut rng).expect("a game").exe_name,
            "c.exe"
        );
    }
}

#[test]
fn every_candidate_is_selected_sooner_or_later() {
    let games = vec![game("a.exe", "A"), game("b.exe", "B"), game("c.exe", "C"), game("d.exe", "D")];
    let windows = vec![window(1, "a.exe"), window(2, "b.exe"), window(3, "c.exe"), window(4, "d.exe")];
    let mut rng = StdRng::seed_from_u64(11);
    let mut seen = [false; 4];
    for _ in 0..400 {
        let next = find_next_game(&games, &Some("b.exe".to_string()), &windows, &mut rng).expect("a game");
        let position = games.iter().position(|g| g.exe_name == next.exe_name).expect("one of the games");
        seen[position] = true;
    }
    assert_eq!(seen, [true, false, true, true]);
}

#[test]
fn the_only_live_game_is_selected_again_where_it_is_current() {
    // A is live and current, B is not live: no candidate, so the first game it is.
    let games = vec![game("a.exe", "A"), game("b.exe", "B")];
    let windows = vec![window(1, "a.exe")];
    let mut rng = StdRng::seed_from_u64(2);
    let next = find_next_game(&games, &Some("a.exe".to_string()), &windows, &mut rng).expect("a game");
    assert_eq!(next.exe_name, "a.exe");
    assert_eq!(next.display_name, "A");
}

#[test]
fn the_first_game_is_the_fallback_even_where_it_is_not_open() {
    let games = vec![game("a.exe", "A"), game("b.exe", "B")];
    let mut rng = StdRng::seed_from_u64(2);
    let next = find_next_game(&games, &Some("b.exe".to_string()), &Vec::new(), &mut rng).expect("a game");
    assert_eq!(next.exe_name, "a.exe");
    let windows = vec![window(1, "b.exe")];
    let again = find_next_game(&games, &Some("b.exe".to_string()), &windows, &mut rng).expect("a game");
    assert_eq!(again.exe_name, "a.exe");
}

#[test]
fn a_paused_rotation_schedules_nothing() {
    let mut state = SwapState::default();
    state.is_paused = true;
    state.next_swap_at = Some(at(5_000, 0));
    state.swap_count = 3;
    let mut rng = StdRng::seed_from_u64(1);
    let plan = plan_cycle(&mut state, &config(5, 15), at(1_000, 0), &mut rng);
    assert_eq!(plan, CyclePlan::Idle { seconds: 1 });
    assert_eq!(IDLE_POLL_SECONDS, 1);
    assert!(state.next_swap_at.is_none());
    assert_eq!(state.time_until_swap_seconds, None);
    assert_eq!(state.swap_count, 3);
    assert!(state.is_paused);
}

#[test]
fn a_rotation_that_is_switched_off_schedules_nothing() {
    let mut state = SwapState::default();
    state.next_swap_at = Some(at(5_000, 0));
    let mut off = config(5, 15);
    off.auto_swap_enabled = false;
    let mut rng = StdRng::seed_from_u64(1);
    assert_eq!(plan_cycle(&mut state, &off, at(1_000, 0), &mut rng), CyclePlan::Idle { seconds: 1 });
    assert!(state.next_swap_at.is_none());
}

#[test]
fn a_running_rotation_schedules_the_next_swap() {
    let mut state = SwapState::default();
    state.last_swap_at = Some(at(940, 0));
    let mut rng = StdRng::seed_from_u64(1);
    match plan_cycle(&mut state, &config(5, 15), at(1_000, 250), &mut rng) {
        CyclePlan::Wait { seconds } => {
            assert!((300..=900).contains(&seconds));
            assert_eq!(parts(&state.next_swap_at), Some((1_000 + seconds as i64, 250)));
            assert_eq!(state.time_until_swap_seconds, Some(seconds as i64));
            assert_eq!(state.time_since_swap_seconds, Some(60));
        }
        plan => panic!("{:?}", plan),
    }
}

#[test]
fn a_swap_beyond_the_last_second_has_no_time() {
    let mut state = SwapState::default();
    let mut rng = StdRng::seed_from_u64(1);
    let plan = plan_cycle(&mut state, &config(10, 10), at(i64::MAX - 599, 0), &mut rng);
    assert_eq!(plan, CyclePlan::Wait { seconds: 600 });
    assert!(state.next_swap_at.is_none());
    let plan = plan_cycle(&mut state, &config(10, 10), at(i64::MAX - 600, 0), &mut rng);
    assert_eq!(plan, CyclePlan::Wait { seconds: 600 });
    assert_eq!(parts(&state.next_swap_at), Some((i64::MAX, 0)));
}

#[test]
fn the_scheduler_swaps_after_the_wait() {
    let mut state = SwapState::default();
    let mut scheduler = Scheduler::new();
    let mut rng = StdRng::seed_from_u64(4);
    let c = config(2, 2);
    assert_eq!(scheduler.next(&mut state, &c, at(100, 0), &mut rng), SchedulerAction::Sleep { seconds: 120 });
    assert_eq!(parts(&state.next_swap_at), Some((220, 0)));
    assert_eq!(scheduler.next(&mut state, &c, at(220, 0), &mut rng), SchedulerAction::Swap);
    assert_eq!(parts(&state.next_swap_at), Some((220, 0)));
    assert_eq!(scheduler.next(&mut state, &c, at(221, 0), &mut rng), SchedulerAction::Sleep { seconds: 120 });
    assert_eq!(parts(&state.next_swap_at), Some((341, 0)));
}

#[test]
fn a_pause_during_the_wait_skips_the_swap() {
    let mut state = SwapState::default();
    state.record_swap(&game("a.exe", "A"), at(50, 0));
    let mut scheduler = Scheduler::new();
    let mut rng = StdRng::seed_from_u64(4);
    let c = config(2, 2);
    assert_eq!(scheduler.next(&mut state, &c, at(100, 0), &mut rng), SchedulerAction::Sleep { seconds: 120 });
    state.set_paused(true, at(150, 0));
    // the wait is over: no swap, the scheduler idles
    assert_eq!(scheduler.next(&mut state, &c, at(220, 0), &mut rng), SchedulerAction::Sleep { seconds: 1 });
    assert_eq!(parts(&state.last_swap_at), Some((50, 0)));
    assert_eq!(state.swap_count, 1);
    assert!(state.history.is_empty());
    assert!(state.next_swap_at.is_none());
    assert_eq!(scheduler.next(&mut state, &c, at(221, 0), &mut rng), SchedulerAction::Sleep { seconds: 1 });
    // resumed: a new wait begins, and no swap is made before it is over
    state.set_paused(false, at(222, 0));
    assert_eq!(scheduler.next(&mut state, &c, at(222, 0), &mut rng), SchedulerAction::Sleep { seconds: 120 });
    assert_eq!(scheduler.next(&mut state, &c, at(342, 0), &mut rng), SchedulerAction::Swap);
    assert_eq!(state.swap_count, 1);
}

#[test]
fn the_scheduler_idles_while_switched_off() {
    let mut state = SwapState::default();
    let mut scheduler = Scheduler::new();
    let mut rng = StdRng::seed_from_u64(4);
    let mut c = config(2, 2);
    c.auto_swap_enabled = false;
    for i in 0..5 {
        assert_eq!(scheduler.next(&mut state, &c, at(100 + i, 0), &mut rng), SchedulerAction::Sleep { seconds: 1 });
        assert!(state.next_swap_at.is_none());
    }
    c.auto_swap_enabled = true;
    assert_eq!(scheduler.next(&mut state, &c, at(105, 0), &mut rng), SchedulerAction::Sleep { seconds: 120 });
    // switched off during the wait: the swap that was waited for is still made
    c.auto_swap_enabled = false;
    assert_eq!(scheduler.next(&mut state, &c, at(225, 0), &mut rng), SchedulerAction::Swap);
    assert_eq!(scheduler.next(&mut state, &c, at(226, 0), &mut rng), SchedulerAction::Sleep { seconds: 1 });
}
