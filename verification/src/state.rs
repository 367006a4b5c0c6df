//! The state of the rotation: which game holds the focus, since when, how
//! often the focus has moved, and the most recent games that gave it up.

use crate::config::{clone_optional_text, optional_text, GameConfig, GameConfigView};
use crate::time::{clamp_to_i64, whole_seconds, Timestamp};
use vstd::prelude::*;

verus! {

/// The number of entries that the history keeps.
pub const HISTORY_CAPACITY: usize = 10;

/// What a [`SwapHistoryItem`] stands for in specifications.
pub struct SwapHistoryItemView {
    pub game_name: Seq<char>,
    pub duration_seconds: u64,
}

/// A game that gave up the focus, and for how many seconds it had held it.
#[derive(Debug)]
pub struct SwapHistoryItem {
    pub game_name: String,
    pub duration_seconds: u64,
}

impl View for SwapHistoryItem {
    type V = SwapHistoryItemView;

    open spec fn view(&self) -> SwapHistoryItemView {
        SwapHistoryItemView {
            game_name: self.game_name@,
            duration_seconds: self.duration_seconds,
        }
    }
}

impl Clone for SwapHistoryItem {
    fn clone(&self) -> (copy: Self)
        ensures
            copy == *self,
    {
        SwapHistoryItem {
            game_name: self.game_name.clone(),
            duration_seconds: self.duration_seconds,
        }
    }
}

/// The views of a sequence of history entries, in order.
pub open spec fn history_views(items: Seq<SwapHistoryItem>) -> Seq<SwapHistoryItemView> {
    items.map_values(|item: SwapHistoryItem| item@)
}

/// What a [`GameTotal`] stands for in specifications.
pub struct GameTotalView {
    pub game_name: Seq<char>,
    pub total_seconds: u64,
}

/// The seconds for which a game has held the focus, all told.
#[derive(Debug)]
pub struct GameTotal {
    pub game_name: String,
    pub total_seconds: u64,
}

impl View for GameTotal {
    type V = GameTotalView;

    open spec fn view(&self) -> GameTotalView {
        GameTotalView { game_name: self.game_name@, total_seconds: self.total_seconds }
    }
}

impl Clone for GameTotal {
    fn clone(&self) -> (copy: Self)
        ensures
            copy == *self,
    {
        GameTotal { game_name: self.game_name.clone(), total_seconds: self.total_seconds }
    }
}

/// The views of a sequence of totals, in order.
pub open spec fn total_views(totals: Seq<GameTotal>) -> Seq<GameTotalView> {
    totals.map_values(|total: GameTotal| total@)
}

/// The nanoseconds since the epoch of an optional timestamp.
pub open spec fn optional_time(time: Option<Timestamp>) -> Option<int> {
    match time {
        Some(t) => Some(t@),
        None => None,
    }
}

/// The whole seconds from `earlier` to `later`, toward zero, as an `i64`.
pub open spec fn seconds_between(earlier: int, later: int) -> i64 {
    clamp_to_i64(whole_seconds(later - earlier)) as i64
}

/// The whole seconds that have passed at `now` since `since`, and none
/// where `now` is the earlier of the two.
pub open spec fn elapsed_seconds(since: int, now: int) -> u64 {
    if seconds_between(since, now) < 0 {
        0
    } else {
        seconds_between(since, now) as u64
    }
}

/// `count` and one more, as far as a `u64` goes.
pub open spec fn next_count(count: u64) -> u64 {
    if count < u64::MAX {
        (count + 1) as u64
    } else {
        count
    }
}

/// The first `HISTORY_CAPACITY` entries of `history`: all where it has
/// no more.
pub open spec fn capped(history: Seq<SwapHistoryItemView>) -> Seq<SwapHistoryItemView> {
    if history.len() > HISTORY_CAPACITY {
        history.take(HISTORY_CAPACITY as int)
    } else {
        history
    }
}

/// What a [`SwapState`] stands for in specifications. Times are in
/// nanoseconds since the epoch.
pub struct SwapStateView {
    pub current_game: Option<Seq<char>>,
    pub current_exe: Option<Seq<char>>,
    pub last_swap_at: Option<int>,
    pub next_swap_at: Option<int>,
    pub is_paused: bool,
    pub swap_count: u64,
    pub time_since_swap_seconds: Option<i64>,
    pub time_until_swap_seconds: Option<i64>,
    pub history: Seq<SwapHistoryItemView>,
    pub total_times: Seq<GameTotalView>,
}

impl SwapStateView {
    /// The history holds no more entries than it may keep.
    pub open spec fn wf(self) -> bool {
        self.history.len() <= HISTORY_CAPACITY
    }

    /// The state with the two derived fields as they are at `now`: the
    /// seconds since the last swap and the seconds until the next one.
    pub open spec fn refreshed(self, now: int) -> SwapStateView {
        SwapStateView {
            time_since_swap_seconds: match self.last_swap_at {
                Some(at) => Some(seconds_between(at, now)),
                None => None,
            },
            time_until_swap_seconds: match self.next_swap_at {
                Some(at) => Some(seconds_between(now, at)),
                None => None,
            },
            ..self
        }
    }

    /// The state with the rotation paused or running. A paused rotation has
    /// no next swap.
    pub open spec fn with_pause(self, paused: bool) -> SwapStateView {
        SwapStateView {
            is_paused: paused,
            next_swap_at: if paused {
                None
            } else {
                self.next_swap_at
            },
            ..self
        }
    }

    /// The state with the next swap due at `next`, or with none due.
    pub open spec fn with_next_swap(self, next: Option<int>) -> SwapStateView {
        SwapStateView { next_swap_at: next, ..self }
    }

    /// The entry that a swap at `now` adds to the history: the game that
    /// gives up the focus with the time it held it, where a game holds the
    /// focus and the time of its swap is known.
    pub open spec fn departure(self, now: int) -> Option<SwapHistoryItemView> {
        match (self.current_game, self.last_swap_at) {
            (Some(game), Some(at)) => Some(
                SwapHistoryItemView {
                    game_name: game,
                    duration_seconds: elapsed_seconds(at, now),
                },
            ),
            _ => None,
        }
    }

    /// The history after a swap at `now`: the departing game in front of
    /// the earlier entries, the oldest of which leave once there are more
    /// than the history keeps.
    pub open spec fn history_after_swap(self, now: int) -> Seq<SwapHistoryItemView> {
        match self.departure(now) {
            Some(entry) => capped(seq![entry] + self.history),
            None => capped(self.history),
        }
    }

    /// The state once the focus has moved to `target` at `now`.
    pub open spec fn swapped(self, target: GameConfigView, now: int) -> SwapStateView {
        (SwapStateView {
            current_game: Some(target.display_name),
            current_exe: Some(target.exe_name),
            last_swap_at: Some(now),
            swap_count: next_count(self.swap_count),
            history: self.history_after_swap(now),
            ..self
        }).refreshed(now)
    }
}

/// The rotation's state. It starts out empty. Its owner keeps it behind a
/// lock and changes it through the methods below, each of which is one
/// read-modify-write of the whole state and leaves the history within its
/// bound. The totals by game are carried along; no method writes them.
#[derive(Debug)]
pub struct SwapState {
    pub current_game: Option<String>,
    pub current_exe: Option<String>,
    pub last_swap_at: Option<Timestamp>,
    pub next_swap_at: Option<Timestamp>,
    pub is_paused: bool,
    pub swap_count: u64,
    pub time_since_swap_seconds: Option<i64>,
    pub time_until_swap_seconds: Option<i64>,
    pub history: Vec<SwapHistoryItem>,
    pub total_times: Vec<GameTotal>,
}

impl View for SwapState {
    type V = SwapStateView;

    open spec fn view(&self) -> SwapStateView {
        SwapStateView {
            current_game: optional_text(self.current_game),
            current_exe: optional_text(self.current_exe),
            last_swap_at: optional_time(self.last_swap_at),
            next_swap_at: optional_time(self.next_swap_at),
            is_paused: self.is_paused,
            swap_count: self.swap_count,
            time_since_swap_seconds: self.time_since_swap_seconds,
            time_until_swap_seconds: self.time_until_swap_seconds,
            history: history_views(self.history@),
            total_times: total_views(self.total_times@),
        }
    }
}

/// A copy of a history.
pub fn clone_history(history: &Vec<SwapHistoryItem>) -> (copy: Vec<SwapHistoryItem>)
    ensures
        copy@ == history@,
{
    let mut copy: Vec<SwapHistoryItem> = Vec::new();
    let mut i: usize = 0;
    while i < history.len()
        invariant
            i <= history.len(),
            copy@ == history@.take(i as int),
        decreases history.len() - i,
    {
        copy.push(history[i].clone());
        i += 1;
        assert(copy@ =~= history@.take(i as int));
    }
    assert(history@.take(history.len() as int) =~= history@);
    copy
}

/// A copy of a list of totals.
pub fn clone_totals(totals: &Vec<GameTotal>) -> (copy: Vec<GameTotal>)
    ensures
        copy@ == totals@,
{
    let mut copy: Vec<GameTotal> = Vec::new();
    let mut i: usize = 0;
    while i < totals.len()
        invariant
            i <= totals.len(),
            copy@ == totals@.take(i as int),
        decreases totals.len() - i,
    {
        copy.push(totals[i].clone());
        i += 1;
        assert(copy@ =~= totals@.take(i as int));
    }
    assert(totals@.take(totals.len() as int) =~= totals@);
    copy
}

impl Clone for SwapState {
    fn clone(&self) -> (copy: Self)
        ensures
            copy@ == self@,
    {
        SwapState {
            current_game: clone_optional_text(&self.current_game),
            current_exe: clone_optional_text(&self.current_exe),
            last_swap_at: self.last_swap_at,
            next_swap_at: self.next_swap_at,
            is_paused: self.is_paused,
            swap_count: self.swap_count,
            time_since_swap_seconds: self.time_since_swap_seconds,
            time_until_swap_seconds: self.time_until_swap_seconds,
            history: clone_history(&self.history),
            total_times: clone_totals(&self.total_times),
        }
    }
}

impl Default for SwapState {
    /// The state before the first swap: no game holds the focus, nothing is
    /// scheduled, the rotation runs, and the history is empty.
    fn default() -> (state: Self)
        ensures
            state@ == (SwapStateView {
                current_game: None,
                current_exe: None,
                last_swap_at: None,
                next_swap_at: None,
                is_paused: false,
                swap_count: 0,
                time_since_swap_seconds: None,
                time_until_swap_seconds: None,
                history: Seq::empty(),
                total_times: Seq::empty(),
            }),
            state@.wf(),
    {
        let state = SwapState {
            current_game: None,
            current_exe: None,
            last_swap_at: None,
            next_swap_at: None,
            is_paused: false,
            swap_count: 0,
            time_since_swap_seconds: None,
            time_until_swap_seconds: None,
            history: Vec::new(),
            total_times: Vec::new(),
        };
        assert(state@.history =~= Seq::empty());
        assert(state@.total_times =~= Seq::empty());
        state
    }
}

impl SwapState {
    /// Brings the two derived fields up to `now`. Nothing else changes.
    pub fn refresh(&mut self, now: Timestamp)
        ensures
            final(self)@ == old(self)@.refreshed(now@),
            final(self)@.wf() == old(self)@.wf(),
    {
        self.time_since_swap_seconds = match &self.last_swap_at {
            Some(at) => Some(now.whole_seconds_since(at)),
            None => None,
        };
        self.time_until_swap_seconds = match &self.next_swap_at {
            Some(at) => Some(at.whole_seconds_since(&now)),
            None => None,
        };
    }

    /// A copy of the state as a reader sees it at `now`: with the derived
    /// fields computed for that moment, whatever was stored in them.
    pub fn snapshot(&self, now: Timestamp) -> (copy: SwapState)
        ensures
            copy@ == self@.refreshed(now@),
            copy@.wf() == self@.wf(),
    {
        let mut copy = self.clone();
        copy.refresh(now);
        copy
    }

    /// Pauses or resumes the rotation at `now`. While the rotation is paused
    /// no swap is due, so pausing clears the time of the next one.
    pub fn set_paused(&mut self, paused: bool, now: Timestamp)
        ensures
            final(self)@ == old(self)@.with_pause(paused).refreshed(now@),
            final(self)@.wf() == old(self)@.wf(),
    {
        self.is_paused = paused;
        if paused {
            self.next_swap_at = None;
        }
        self.refresh(now);
    }

    /// Announces at `now` when the next swap is due, or that none is.
    pub fn schedule_next(&mut self, next: Option<Timestamp>, now: Timestamp)
        ensures
            final(self)@ == old(self)@.with_next_swap(optional_time(next)).refreshed(now@),
            final(self)@.wf() == old(self)@.wf(),
    {
        self.next_swap_at = next;
        self.refresh(now);
    }

    /// Records that the focus has moved to `target` at `now`. The game that
    /// held the focus enters the history in front, with the whole seconds
    /// it held it; the history is cut to its ten newest entries; the swap
    /// counter goes up by one, and stays where it is once it has reached
    /// the largest `u64`.
    pub fn record_swap(&mut self, target: &GameConfig, now: Timestamp)
        ensures
            final(self)@ == old(self)@.swapped(target@, now@),
            final(self)@.wf(),
            final(self)@.swap_count >= old(self)@.swap_count,
    {
        let ghost before = self@;
        match (&self.current_game, &self.last_swap_at) {
            (Some(game), Some(at)) => {
                let held: i64 = now.whole_seconds_since(at);
                let entry = SwapHistoryItem {
                    game_name: game.clone(),
                    duration_seconds: if held < 0 {
                        0
                    } else {
                        held as u64
                    },
                };
                assert(Some(entry@) == before.departure(now@));
                self.history.insert(0, entry);
                assert(history_views(self.history@) =~= seq![entry@] + before.history);
            },
            _ => {
                assert(before.departure(now@) is None);
            },
        }
        let ghost grown = history_views(self.history@);
        if self.history.len() > HISTORY_CAPACITY {
            self.history.truncate(HISTORY_CAPACITY);
        }
        assert(history_views(self.history@) =~= capped(grown));
        if self.swap_count < u64::MAX {
            self.swap_count = self.swap_count + 1;
        }
        self.current_game = Some(target.display_name.clone());
        self.current_exe = Some(target.exe_name.clone());
        self.last_swap_at = Some(now);
        self.refresh(now);
    }
}

/// A change that the operations of [`SwapState`] make to the state.
pub enum StateChange {
    /// `refresh` at `now`.
    Refresh { now: int },
    /// `set_paused` at `now`.
    Pause { paused: bool, now: int },
    /// `schedule_next` at `now`.
    Schedule { next: Option<int>, now: int },
    /// `record_swap` at `now`, with the focus moving to `target`.
    Swap { target: GameConfigView, now: int },
}

impl SwapStateView {
    /// The state after `change`.
    pub open spec fn changed(self, change: StateChange) -> SwapStateView {
        match change {
            StateChange::Refresh { now } => self.refreshed(now),
            StateChange::Pause { paused, now } => self.with_pause(paused).refreshed(now),
            StateChange::Schedule { next, now } => self.with_next_swap(next).refreshed(now),
            StateChange::Swap { target, now } => self.swapped(target, now),
        }
    }

    /// The state after `changes`, made one after the other.
    pub open spec fn changed_by_all(self, changes: Seq<StateChange>) -> SwapStateView
        decreases changes.len(),
    {
        if changes.len() == 0 {
            self
        } else {
            self.changed_by_all(changes.drop_last()).changed(changes.last())
        }
    }
}

/// The number of swaps among `changes`.
pub open spec fn swaps_among(changes: Seq<StateChange>) -> nat
    decreases changes.len(),
{
    if changes.len() == 0 {
        0
    } else if changes.last() is Swap {
        swaps_among(changes.drop_last()) + 1
    } else {
        swaps_among(changes.drop_last())
    }
}

/// A swap leaves a history of at most `HISTORY_CAPACITY` entries, newest
/// first: the game that gave up the focus stands in front, and behind it
/// the earlier entries in the order they had.
pub proof fn lemma_history_newest_first(state: SwapStateView, target: GameConfigView, now: int)
    ensures
        state.swapped(target, now).wf(),
        match state.departure(now) {
            Some(entry) => {
                let history = state.swapped(target, now).history;
                &&& history.len() > 0
                &&& history[0] == entry
                &&& forall|i: int| 1 <= i < history.len() ==> history[i] == state.history[i - 1]
                &&& state.wf() ==> history.len() == if state.history.len() < HISTORY_CAPACITY {
                    state.history.len() + 1
                } else {
                    HISTORY_CAPACITY as nat
                }
            },
            None => state.swapped(target, now).history == capped(state.history),
        },
{
}

/// Whatever changes are made to a state in whatever order, the swap
/// counter never goes down, and no swap is lost: the counter has gone up
/// by the number of swaps among the changes, as far as a `u64` goes. A
/// history within its bound stays within it.
pub proof fn lemma_counter_counts_swaps(state: SwapStateView, changes: Seq<StateChange>)
    ensures
        state.changed_by_all(changes).swap_count >= state.swap_count,
        state.changed_by_all(changes).swap_count == if state.swap_count + swaps_among(changes)
            <= u64::MAX {
            state.swap_count + swaps_among(changes)
        } else {
            u64::MAX as int
        },
        state.wf() ==> state.changed_by_all(changes).wf(),
    decreases changes.len(),
{
    if changes.len() > 0 {
        lemma_counter_counts_swaps(state, changes.drop_last());
    }
}

/// Only a swap changes what the history, the counter, the current game and
/// the time of the last swap say.
pub proof fn lemma_only_swaps_touch_the_record(state: SwapStateView, change: StateChange)
    requires
        !(change is Swap),
    ensures
        state.changed(change).swap_count == state.swap_count,
        state.changed(change).history == state.history,
        state.changed(change).last_swap_at == state.last_swap_at,
        state.changed(change).current_game == state.current_game,
        state.changed(change).current_exe == state.current_exe,
        state.changed(change).total_times == state.total_times,
{
}

} // verus!
