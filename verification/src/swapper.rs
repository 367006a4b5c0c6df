//! The swap scheduler: how long to wait for the next swap, which game the
//! focus moves to, and what the timing loop does next.

use crate::config::{game_views, optional_text, AppConfig, AppConfigView, GameConfig, GameConfigView};
use crate::random::draw_in_range;
use crate::state::{SwapState, SwapStateView};
use crate::text::{eq_ignore_ascii_case, same_name};
use crate::time::Timestamp;
use crate::windows::{find_window_by_exe, is_live, window_views, WindowInfo, WindowInfoView};
use rand::rngs::StdRng;
use vstd::prelude::*;

verus! {

/// Seconds in one minute.
pub const SECONDS_PER_MINUTE: u64 = 60;

/// The shortest delay that `config` asks for, in seconds.
pub open spec fn min_delay_seconds(config: AppConfigView) -> int {
    config.min_swap_minutes * 60
}

/// The longest delay that `config` allows, in seconds.
pub open spec fn max_delay_seconds(config: AppConfigView) -> int {
    config.max_swap_minutes * 60
}

/// Whether `delay` is a delay that `config` allows: a number of seconds
/// between its two bounds, and the upper bound itself where the lower one
/// is not below it.
pub open spec fn is_delay_for(config: AppConfigView, delay: int) -> bool {
    if min_delay_seconds(config) >= max_delay_seconds(config) {
        delay == max_delay_seconds(config)
    } else {
        min_delay_seconds(config) <= delay <= max_delay_seconds(config)
    }
}

/// Picks the seconds to wait before the next swap: a number drawn from
/// `rng` between the two bounds of `config`, both included.
pub fn calculate_delay(config: &AppConfig, rng: &mut StdRng) -> (delay: u64)
    ensures
        is_delay_for(config@, delay as int),
        min_delay_seconds(config@) >= max_delay_seconds(config@) ==> delay == max_delay_seconds(
            config@,
        ),
        min_delay_seconds(config@) <= max_delay_seconds(config@) ==> min_delay_seconds(config@)
            <= delay <= max_delay_seconds(config@),
{
    let min: u64 = config.min_swap_minutes as u64 * SECONDS_PER_MINUTE;
    let max: u64 = config.max_swap_minutes as u64 * SECONDS_PER_MINUTE;
    if min >= max {
        max
    } else {
        draw_in_range(rng, min, max)
    }
}

/// Why a swap did not take place.
#[derive(Clone, Copy, Debug, PartialEq, Eq, Structural)]
pub enum SwapError {
    /// There is no game to select from.
    NoGamesConfigured,
    /// The window of the selected game did not take the focus.
    FocusUnobtainable,
}

/// A game is a candidate for the next swap when it is not the one that
/// holds the focus and one of the open windows is its own.
pub open spec fn is_candidate(
    game: GameConfigView,
    current_exe: Option<Seq<char>>,
    windows: Seq<WindowInfoView>,
) -> bool {
    &&& match current_exe {
        Some(exe) => !same_name(game.exe_name, exe),
        None => true,
    }
    &&& is_live(windows, game.exe_name)
}

/// The candidates among `games`, in the order of `games`.
pub open spec fn candidates(
    games: Seq<GameConfigView>,
    current_exe: Option<Seq<char>>,
    windows: Seq<WindowInfoView>,
) -> Seq<GameConfigView> {
    games.filter(|game: GameConfigView| is_candidate(game, current_exe, windows))
}

/// Whether `positions` lists, in ascending order, where in `games` the
/// games `chosen` stand.
pub open spec fn positions_of(
    positions: Seq<usize>,
    games: Seq<GameConfigView>,
    chosen: Seq<GameConfigView>,
) -> bool {
    &&& positions.len() == chosen.len()
    &&& forall|k: int|
        0 <= k < positions.len() ==> (#[trigger] positions[k]) < games.len()
            && games[positions[k] as int] == chosen[k]
    &&& forall|j: int, k: int|
        0 <= j < k < positions.len() ==> (#[trigger] positions[j]) < (#[trigger] positions[k])
}

/// The positions in `games` of the candidates for the next swap, in
/// ascending order. `windows` are the windows that are open now, and
/// `current_exe` is the executable that holds the focus.
pub fn live_candidates(
    games: &Vec<GameConfig>,
    current_exe: &Option<String>,
    windows: &Vec<WindowInfo>,
) -> (positions: Vec<usize>)
    ensures
        positions_of(
            positions@,
            game_views(games@),
            candidates(game_views(games@), optional_text(*current_exe), window_views(windows@)),
        ),
{
    let ghost all = game_views(games@);
    let ghost current = optional_text(*current_exe);
    let ghost open_windows = window_views(windows@);
    let ghost eligible = |game: GameConfigView| is_candidate(game, current, open_windows);
    let mut positions: Vec<usize> = Vec::new();
    let mut i: usize = 0;
    proof {
        reveal(Seq::filter);
        assert(all.take(0) =~= Seq::empty());
    }
    while i < games.len()
        invariant
            i <= games.len(),
            all == game_views(games@),
            current == optional_text(*current_exe),
            open_windows == window_views(windows@),
            eligible == |game: GameConfigView| is_candidate(game, current, open_windows),
            positions_of(positions@, all, all.take(i as int).filter(eligible)),
            forall|k: int| 0 <= k < positions@.len() ==> (#[trigger] positions@[k]) < i,
        decreases games.len() - i,
    {
        let ghost before = all.take(i as int);
        let ghost after = all.take(i + 1);
        let ghost found = positions@;
        proof {
            reveal(Seq::filter);
            assert(after.drop_last() =~= before);
            assert(after.last() == games@[i as int]@);
        }
        let other = match current_exe {
            Some(exe) => !eq_ignore_ascii_case(games[i].exe_name.as_str(), exe.as_str()),
            None => true,
        };
        if other && find_window_by_exe(windows, games[i].exe_name.as_str()).is_some() {
            positions.push(i);
            proof {
                assert(is_candidate(games@[i as int]@, current, open_windows));
                assert(after.filter(eligible) == before.filter(eligible).push(
                    games@[i as int]@,
                ));
                assert forall|k: int| 0 <= k < positions@.len() implies (
                #[trigger] positions@[k]) < all.len() && all[positions@[k] as int]
                    == after.filter(eligible)[k] by {
                    if k < found.len() {
                        assert(positions@[k] == found[k]);
                    }
                }
            }
        } else {
            proof {
                assert(!is_candidate(games@[i as int]@, current, open_windows));
                assert(after.filter(eligible) == before.filter(eligible));
            }
        }
        i += 1;
    }
    proof {
        assert(all.take(games.len() as int) =~= all);
    }
    positions
}

/// What `choose_game` returns: the game at the picked position where there
/// are candidates, the first game where there are none, and an error where
/// there is no game at all.
pub open spec fn chosen_game(
    games: Seq<GameConfigView>,
    positions: Seq<usize>,
    pick: int,
) -> Result<GameConfigView, SwapError> {
    if positions.len() > 0 {
        Ok(games[positions[pick] as int])
    } else if games.len() > 0 {
        Ok(games[0])
    } else {
        Err(SwapError::NoGamesConfigured)
    }
}

/// The view of the outcome of a selection.
pub open spec fn selection_view(selection: Result<GameConfig, SwapError>) -> Result<
    GameConfigView,
    SwapError,
> {
    match selection {
        Ok(game) => Ok(game@),
        Err(error) => Err(error),
    }
}

/// The game that a swap goes to, given the positions of the candidates and
/// which of them was drawn. Without candidates the swap falls back on the
/// first game, whether or not its window is open.
pub fn choose_game(games: &Vec<GameConfig>, positions: &Vec<usize>, pick: usize) -> (selection:
    Result<GameConfig, SwapError>)
    requires
        positions@.len() > 0 ==> pick < positions@.len(),
        forall|k: int| 0 <= k < positions@.len() ==> (#[trigger] positions@[k]) < games@.len(),
    ensures
        selection_view(selection) == chosen_game(game_views(games@), positions@, pick as int),
{
    if positions.len() > 0 {
        Ok(games[positions[pick]].clone())
    } else if games.len() > 0 {
        Ok(games[0].clone())
    } else {
        Err(SwapError::NoGamesConfigured)
    }
}

/// Whether a swap may go to `target`: one of the candidates where there
/// are any, else the first of `games`.
pub open spec fn may_select(
    games: Seq<GameConfigView>,
    current_exe: Option<Seq<char>>,
    windows: Seq<WindowInfoView>,
    target: GameConfigView,
) -> bool {
    if candidates(games, current_exe, windows).len() > 0 {
        candidates(games, current_exe, windows).contains(target)
    } else {
        games.len() > 0 && target == games[0]
    }
}

/// There are candidates exactly when one of `games` is a candidate; and a
/// swap that may go to `target` while there are candidates goes to one of
/// them: to a game whose window is open, and never to the game that holds
/// the focus.
pub proof fn lemma_selection_avoids_current(
    games: Seq<GameConfigView>,
    current_exe: Option<Seq<char>>,
    windows: Seq<WindowInfoView>,
    target: GameConfigView,
)
    ensures
        candidates(games, current_exe, windows).len() > 0 <==> exists|i: int|
            0 <= i < games.len() && is_candidate(#[trigger] games[i], current_exe, windows),
        may_select(games, current_exe, windows, target) ==> games.contains(target),
        may_select(games, current_exe, windows, target) && candidates(
            games,
            current_exe,
            windows,
        ).len() > 0 ==> is_candidate(target, current_exe, windows) && is_live(
            windows,
            target.exe_name,
        ) && (current_exe matches Some(exe) ==> !same_name(target.exe_name, exe)),
{
    let eligible = |game: GameConfigView| is_candidate(game, current_exe, windows);
    let found = games.filter(eligible);
    if found.len() > 0 {
        games.lemma_filter_pred(eligible, 0);
        assert(found.contains(found[0]));
        games.lemma_filter_contains_rev(eligible, found[0]);
        let i = choose|i: int| 0 <= i < games.len() && games[i] == found[0];
        assert(is_candidate(games[i], current_exe, windows));
    }
    if exists|i: int|
        0 <= i < games.len() && is_candidate(#[trigger] games[i], current_exe, windows) {
        let i = choose|i: int|
            0 <= i < games.len() && is_candidate(#[trigger] games[i], current_exe, windows);
        games.lemma_filter_contains(eligible, i);
    }
    if may_select(games, current_exe, windows, target) {
        if found.len() > 0 {
            games.lemma_filter_contains_rev(eligible, target);
            let k = choose|k: int| 0 <= k < found.len() && found[k] == target;
            games.lemma_filter_pred(eligible, k);
        } else {
            assert(games[0] == target);
        }
    }
}

/// Selects the game that the focus moves to: one of the candidates, drawn
/// from `rng`; the first of `games` where none of them is a candidate; an
/// error where `games` is empty. While there is a candidate, the game that
/// holds the focus is never selected.
pub fn find_next_game(
    games: &Vec<GameConfig>,
    current_exe: &Option<String>,
    windows: &Vec<WindowInfo>,
    rng: &mut StdRng,
) -> (selection: Result<GameConfig, SwapError>)
    ensures
        games@.len() == 0 <==> selection is Err,
        selection matches Err(error) ==> error == SwapError::NoGamesConfigured,
        selection matches Ok(game) ==> may_select(
            game_views(games@),
            optional_text(*current_exe),
            window_views(windows@),
            game@,
        ),
        selection matches Ok(game) ==> candidates(
            game_views(games@),
            optional_text(*current_exe),
            window_views(windows@),
        ).len() > 0 ==> is_candidate(
            game@,
            optional_text(*current_exe),
            window_views(windows@),
        ),
{
    let positions = live_candidates(games, current_exe, windows);
    let mut pick: usize = 0;
    if positions.len() > 0 {
        let drawn: u64 = draw_in_range(rng, 0, (positions.len() - 1) as u64);
        pick = drawn as usize;
    }
    let selection = choose_game(games, &positions, pick);
    proof {
        let all = game_views(games@);
        let found = candidates(all, optional_text(*current_exe), window_views(windows@));
        if found.len() > 0 {
            assert(found[pick as int] == all[positions@[pick as int] as int]);
            all.lemma_filter_pred(
                |game: GameConfigView|
                    is_candidate(game, optional_text(*current_exe), window_views(windows@)),
                pick as int,
            );
        }
    }
    selection
}

/// The seconds after which the scheduler looks again while there is
/// nothing to schedule.
pub const IDLE_POLL_SECONDS: u64 = 1;

/// What the scheduler does in one cycle.
#[derive(Clone, Copy, Debug, PartialEq, Eq, Structural)]
pub enum CyclePlan {
    /// The rotation is paused or switched off: sleep for so many seconds
    /// and plan again.
    Idle { seconds: u64 },
    /// A swap is scheduled: sleep for so many seconds, then swap if
    /// `swap_is_due` still says so.
    Wait { seconds: u64 },
}

/// The time `seconds` after `now`, in nanoseconds since the epoch; `None`
/// where its seconds are beyond an `i64`.
pub open spec fn time_after(now: int, seconds: int) -> Option<int> {
    if now / 1_000_000_000 + seconds <= i64::MAX {
        Some(now + seconds * 1_000_000_000)
    } else {
        None
    }
}

/// Whether `plan` and `after` are what a cycle that starts at `now` may
/// make of the state `before` under `config`.
pub open spec fn is_cycle(
    before: SwapStateView,
    config: AppConfigView,
    now: int,
    plan: CyclePlan,
    after: SwapStateView,
) -> bool {
    if before.is_paused || !config.auto_swap_enabled {
        &&& plan == (CyclePlan::Idle { seconds: IDLE_POLL_SECONDS })
        &&& after == before.with_next_swap(None).refreshed(now)
    } else {
        &&& plan matches CyclePlan::Wait { seconds }
        &&& is_delay_for(config, seconds as int)
        &&& after == before.with_next_swap(time_after(now, seconds as int)).refreshed(now)
    }
}

/// Plans one cycle of the scheduler at `now`. While the rotation is paused
/// or automatic swapping is off, no swap is scheduled and the state shows
/// none. Otherwise a delay is picked, and the state shows when the swap is
/// due. Of the state nothing else changes but the derived fields.
pub fn plan_cycle(state: &mut SwapState, config: &AppConfig, now: Timestamp, rng: &mut StdRng) -> (plan:
    CyclePlan)
    ensures
        is_cycle(old(state)@, config@, now@, plan, final(state)@),
        final(state)@.swap_count == old(state)@.swap_count,
        final(state)@.last_swap_at == old(state)@.last_swap_at,
        final(state)@.history == old(state)@.history,
{
    if state.is_paused || !config.auto_swap_enabled {
        state.schedule_next(None, now);
        CyclePlan::Idle { seconds: IDLE_POLL_SECONDS }
    } else {
        let seconds = calculate_delay(config, rng);
        state.schedule_next(now.plus_seconds(seconds), now);
        CyclePlan::Wait { seconds }
    }
}

/// What the scheduler's loop is to do next.
#[derive(Clone, Copy, Debug, PartialEq, Eq, Structural)]
pub enum SchedulerAction {
    /// Sleep for so many seconds, then ask again.
    Sleep { seconds: u64 },
    /// Perform a swap, then ask again. A swap that fails does not end the
    /// loop.
    Swap,
}

/// The scheduler's timing loop: between two questions it only remembers
/// whether it has slept for a scheduled swap.
#[derive(Debug)]
pub struct Scheduler {
    waiting: bool,
}

impl Scheduler {
    /// Whether the sleep that came last was the wait for a scheduled swap.
    pub closed spec fn is_waiting(&self) -> bool {
        self.waiting
    }

    /// A scheduler that has not scheduled anything yet.
    pub fn new() -> (scheduler: Scheduler)
        ensures
            !scheduler.is_waiting(),
    {
        Scheduler { waiting: false }
    }

    /// Says at `now` what the loop is to do next.
    ///
    /// After the wait for a scheduled swap the swap is due, unless the
    /// rotation was paused in the meantime: then the swap is skipped, and
    /// the state keeps its record of the last one. In every other case a
    /// new cycle is planned, as `plan_cycle` does it, and the loop sleeps:
    /// for the delay that was picked, or for `IDLE_POLL_SECONDS` while
    /// there is nothing to schedule.
    pub fn next(
        &mut self,
        state: &mut SwapState,
        config: &AppConfig,
        now: Timestamp,
        rng: &mut StdRng,
    ) -> (action: SchedulerAction)
        ensures
            old(self).is_waiting() && !old(state)@.is_paused ==> action == SchedulerAction::Swap
                && !final(self).is_waiting() && final(state)@ == old(state)@,
            !(old(self).is_waiting() && !old(state)@.is_paused) ==> (action matches SchedulerAction::Sleep {
                seconds,
            } && is_cycle(
                old(state)@,
                config@,
                now@,
                if final(self).is_waiting() {
                    CyclePlan::Wait { seconds }
                } else {
                    CyclePlan::Idle { seconds }
                },
                final(state)@,
            )),
            final(state)@.swap_count == old(state)@.swap_count,
            final(state)@.last_swap_at == old(state)@.last_swap_at,
            final(state)@.history == old(state)@.history,
    {
        if self.waiting && !state.is_paused {
            self.waiting = false;
            SchedulerAction::Swap
        } else {
            match plan_cycle(state, config, now, rng) {
                CyclePlan::Idle { seconds } => {
                    self.waiting = false;
                    SchedulerAction::Sleep { seconds }
                },
                CyclePlan::Wait { seconds } => {
                    self.waiting = true;
                    SchedulerAction::Sleep { seconds }
                },
            }
        }
    }
}

} // verus!
