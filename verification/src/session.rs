//! The course of one swap. A swap needs the operating system at several
//! points: to list the open windows, to send a key, to pause, to move the
//! focus, to read the clock, to switch the scene. A session says which of
//! these comes next and takes what came of it; the caller does the work.
//! The rotation's state changes at one point only, when the swap commits.

use crate::config::{
    enabled_games, game_views, optional_text, position_of_game, AppConfig, AppConfigView,
    GameConfig, GameConfigView,
};
use crate::state::{SwapState, SwapStateView};
use crate::swapper::{find_next_game, lemma_selection_avoids_current, may_select, SwapError};
use crate::time::Timestamp;
use crate::windows::{find_window_by_exe, first_window_of, window_views, WindowInfo, WindowInfoView};
use rand::rngs::StdRng;
use vstd::prelude::*;

verus! {

/// The pause that lets the operating system finish moving its windows
/// before the next step, in milliseconds.
pub const SETTLE_MILLIS: u64 = 100;

/// How a swap ended where it did not fail.
#[derive(Clone, Copy, Debug, PartialEq, Eq, Structural)]
pub enum SwapOutcome {
    /// The focus moved, and the state shows it.
    Swapped,
    /// No game is enabled: nothing was done.
    NoGamesEnabled,
    /// The window of the selected game was gone when the focus was to move:
    /// nothing was recorded.
    WindowMissing,
}

/// Where a swap stands: what it is waiting for.
#[derive(Clone, Copy, Debug, PartialEq, Eq, Structural)]
pub enum SwapPhase {
    /// For the open windows, to select the next game among them.
    Selecting,
    /// For the key that tells the current game that it loses the focus.
    Leaving,
    /// For the pause before the target's window is looked up.
    SettlingBeforeFocus,
    /// For the open windows, to find the target's among them.
    Locating,
    /// For the focus to move to the target's window.
    Focusing,
    /// For the pause after the focus has moved.
    SettlingAfterFocus,
    /// For the key that tells the target that it has the focus.
    Entering,
    /// For the time at which the swap is recorded.
    Committing,
    /// For the scene to be switched.
    Notifying,
    /// For nothing: the swap has ended.
    Finished,
}

/// What a [`SwapAction`] stands for in specifications.
pub enum SwapActionView {
    ListWindows,
    SendKey,
    Settle { millis: u64 },
    AcquireFocus { hwnd: isize },
    ReadClock,
    SwitchScene { scene: Seq<char> },
    Finish { result: Result<SwapOutcome, SwapError> },
}

/// What the caller is to do next.
#[derive(Debug)]
pub enum SwapAction {
    /// List the open windows and report them as `WindowsListed`.
    ListWindows,
    /// Send the neutral key and report `KeySent`, whether or not it could
    /// be sent.
    SendKey,
    /// Pause for so many milliseconds and report `Settled`.
    Settle { millis: u64 },
    /// Move the focus to this window and report as `FocusSettled` whether
    /// it holds the focus now.
    AcquireFocus { hwnd: isize },
    /// Read the clock and report the time as `ClockRead`.
    ReadClock,
    /// Ask for this scene and report `SceneSwitched`, whether or not the
    /// request went through.
    SwitchScene { scene: String },
    /// Nothing more: the swap has ended with this result.
    Finish { result: Result<SwapOutcome, SwapError> },
}

impl View for SwapAction {
    type V = SwapActionView;

    open spec fn view(&self) -> SwapActionView {
        match *self {
            SwapAction::ListWindows => SwapActionView::ListWindows,
            SwapAction::SendKey => SwapActionView::SendKey,
            SwapAction::Settle { millis } => SwapActionView::Settle { millis },
            SwapAction::AcquireFocus { hwnd } => SwapActionView::AcquireFocus { hwnd },
            SwapAction::ReadClock => SwapActionView::ReadClock,
            SwapAction::SwitchScene { scene } => SwapActionView::SwitchScene { scene: scene@ },
            SwapAction::Finish { result } => SwapActionView::Finish { result },
        }
    }
}

/// What a [`SwapEvent`] stands for in specifications.
pub enum SwapEventView {
    WindowsListed { windows: Seq<WindowInfoView> },
    KeySent,
    Settled,
    FocusSettled { acquired: bool },
    ClockRead { now: int },
    SceneSwitched,
}

/// What came of the action that a session asked for.
#[derive(Debug)]
pub enum SwapEvent {
    /// The windows that are open now.
    WindowsListed { windows: Vec<WindowInfo> },
    /// The key was sent, or could not be sent.
    KeySent,
    /// The pause is over.
    Settled,
    /// The attempts to move the focus have ended, and the window holds the
    /// focus or does not.
    FocusSettled { acquired: bool },
    /// The time now.
    ClockRead { now: Timestamp },
    /// The scene was asked for, successfully or not.
    SceneSwitched,
}

impl View for SwapEvent {
    type V = SwapEventView;

    open spec fn view(&self) -> SwapEventView {
        match *self {
            SwapEvent::WindowsListed { windows } => SwapEventView::WindowsListed {
                windows: window_views(windows@),
            },
            SwapEvent::KeySent => SwapEventView::KeySent,
            SwapEvent::Settled => SwapEventView::Settled,
            SwapEvent::FocusSettled { acquired } => SwapEventView::FocusSettled { acquired },
            SwapEvent::ClockRead { now } => SwapEventView::ClockRead { now: now@ },
            SwapEvent::SceneSwitched => SwapEventView::SceneSwitched,
        }
    }
}

/// Whether the game that holds the focus is to be sent the key before it
/// loses it: where a game holds the focus, the configuration knows its
/// executable, and the first game of that name asks for the key.
pub open spec fn leave_key_due(games: Seq<GameConfigView>, current_exe: Option<Seq<char>>) -> bool {
    match current_exe {
        Some(exe) => match position_of_game(games, exe) {
            Some(at) => games[at].send_esc_on_leave,
            None => false,
        },
        None => false,
    }
}

/// What a [`SwapSession`] stands for in specifications.
pub struct SwapSessionView {
    /// What the swap is waiting for.
    pub phase: SwapPhase,
    /// The configuration as it was when the swap began.
    pub config: AppConfigView,
    /// The game that the focus moves to, once it is selected.
    pub target: Option<GameConfigView>,
    /// The target's window, once it is found.
    pub hwnd: isize,
    /// How the swap ended, once it has.
    pub result: Result<SwapOutcome, SwapError>,
}

impl SwapSessionView {
    /// From selection to the end of the swap there is a target, and a scene
    /// is only waited for where the target names one.
    pub open spec fn wf(self) -> bool {
        &&& self.phase != SwapPhase::Selecting && self.phase != SwapPhase::Finished
            ==> self.target is Some
        &&& self.phase == SwapPhase::Notifying ==> self.target->0.obs_scene is Some
    }

    /// The session as it begins under `config`: finished at once where no
    /// game is enabled, else waiting to select.
    pub open spec fn begun(config: AppConfigView) -> SwapSessionView {
        SwapSessionView {
            phase: if enabled_games(config.games).len() == 0 {
                SwapPhase::Finished
            } else {
                SwapPhase::Selecting
            },
            config,
            target: None,
            hwnd: 0,
            result: Ok(SwapOutcome::NoGamesEnabled),
        }
    }

    /// The action that the session is waiting on.
    pub open spec fn pending(self) -> SwapActionView {
        match self.phase {
            SwapPhase::Selecting | SwapPhase::Locating => SwapActionView::ListWindows,
            SwapPhase::Leaving | SwapPhase::Entering => SwapActionView::SendKey,
            SwapPhase::SettlingBeforeFocus | SwapPhase::SettlingAfterFocus => {
                SwapActionView::Settle { millis: SETTLE_MILLIS }
            },
            SwapPhase::Focusing => SwapActionView::AcquireFocus { hwnd: self.hwnd },
            SwapPhase::Committing => SwapActionView::ReadClock,
            SwapPhase::Notifying => SwapActionView::SwitchScene {
                scene: self.target->0.obs_scene->0,
            },
            SwapPhase::Finished => SwapActionView::Finish { result: self.result },
        }
    }

    /// Whether `event` is what the session is waiting for.
    pub open spec fn accepts(self, event: SwapEventView) -> bool {
        match self.phase {
            SwapPhase::Selecting | SwapPhase::Locating => event is WindowsListed,
            SwapPhase::Leaving | SwapPhase::Entering => event is KeySent,
            SwapPhase::SettlingBeforeFocus | SwapPhase::SettlingAfterFocus => event is Settled,
            SwapPhase::Focusing => event is FocusSettled,
            SwapPhase::Committing => event is ClockRead,
            SwapPhase::Notifying => event is SceneSwitched,
            SwapPhase::Finished => false,
        }
    }

    /// The session in another phase.
    pub open spec fn at(self, phase: SwapPhase) -> SwapSessionView {
        SwapSessionView { phase, ..self }
    }

    /// The session ended with `result`.
    pub open spec fn ended(self, result: Result<SwapOutcome, SwapError>) -> SwapSessionView {
        SwapSessionView { phase: SwapPhase::Finished, result, ..self }
    }

    /// The session once `target` is selected, while `current_exe` holds the
    /// focus: the current game is sent its key first where it asks for it.
    pub open spec fn selected(
        self,
        current_exe: Option<Seq<char>>,
        target: GameConfigView,
    ) -> SwapSessionView {
        SwapSessionView {
            phase: if leave_key_due(self.config.games, current_exe) {
                SwapPhase::Leaving
            } else {
                SwapPhase::SettlingBeforeFocus
            },
            target: Some(target),
            ..self
        }
    }

    /// Whether `after` is what the selection among `windows` may make of
    /// the session: with a target that may be selected, or ended with the
    /// error where there is no game to select.
    pub open spec fn selects(
        self,
        current_exe: Option<Seq<char>>,
        windows: Seq<WindowInfoView>,
        after: SwapSessionView,
    ) -> bool {
        if enabled_games(self.config.games).len() == 0 {
            after == self.ended(Err(SwapError::NoGamesConfigured))
        } else {
            &&& after.target matches Some(target)
            &&& may_select(enabled_games(self.config.games), current_exe, windows, target)
            &&& after == self.selected(current_exe, target)
        }
    }

    /// The session after an event that it accepts in a phase past the
    /// selection.
    pub open spec fn advanced(self, event: SwapEventView) -> SwapSessionView {
        match self.phase {
            SwapPhase::Leaving => self.at(SwapPhase::SettlingBeforeFocus),
            SwapPhase::SettlingBeforeFocus => self.at(SwapPhase::Locating),
            SwapPhase::Locating => match first_window_of(
                event->windows,
                self.target->0.exe_name,
            ) {
                Some(hwnd) => SwapSessionView { phase: SwapPhase::Focusing, hwnd, ..self },
                None => self.ended(Ok(SwapOutcome::WindowMissing)),
            },
            SwapPhase::Focusing => if event->acquired {
                self.at(SwapPhase::SettlingAfterFocus)
            } else {
                self.ended(Err(SwapError::FocusUnobtainable))
            },
            SwapPhase::SettlingAfterFocus => if self.target->0.send_esc_on_enter {
                self.at(SwapPhase::Entering)
            } else {
                self.at(SwapPhase::Committing)
            },
            SwapPhase::Entering => self.at(SwapPhase::Committing),
            SwapPhase::Committing => if self.target->0.obs_scene is Some {
                self.at(SwapPhase::Notifying)
            } else {
                self.ended(Ok(SwapOutcome::Swapped))
            },
            SwapPhase::Notifying => self.ended(Ok(SwapOutcome::Swapped)),
            _ => self,
        }
    }

    /// Whether the session and the state `after` are what `event` may make
    /// of them. An event that the session is not waiting for changes
    /// nothing. The state changes only when the swap commits.
    pub open spec fn steps(
        self,
        state: SwapStateView,
        event: SwapEventView,
        after: SwapSessionView,
        state_after: SwapStateView,
    ) -> bool {
        if !self.accepts(event) {
            after == self && state_after == state
        } else if self.phase == SwapPhase::Selecting {
            self.selects(state.current_exe, event->windows, after) && state_after == state
        } else if self.phase == SwapPhase::Committing {
            after == self.advanced(event) && state_after == state.swapped(
                self.target->0,
                event->now,
            )
        } else {
            after == self.advanced(event) && state_after == state
        }
    }
}

/// The view of an optional game.
pub open spec fn optional_game(game: Option<GameConfig>) -> Option<GameConfigView> {
    match game {
        Some(g) => Some(g@),
        None => None,
    }
}

/// Whether the game that holds the focus is to be sent the key before it
/// loses the focus.
pub fn leave_key_is_due(config: &AppConfig, current_exe: &Option<String>) -> (due: bool)
    ensures
        due == leave_key_due(config@.games, optional_text(*current_exe)),
{
    match current_exe {
        Some(exe) => match config.find_game(exe.as_str()) {
            Some(at) => {
                assert(config@.games[at as int] == config.games@[at as int]@);
                config.games[at].send_esc_on_leave
            },
            None => false,
        },
        None => false,
    }
}

/// One swap, from its beginning to its end.
#[derive(Debug)]
pub struct SwapSession {
    phase: SwapPhase,
    config: AppConfig,
    target: Option<GameConfig>,
    hwnd: isize,
    result: Result<SwapOutcome, SwapError>,
}

impl View for SwapSession {
    type V = SwapSessionView;

    closed spec fn view(&self) -> SwapSessionView {
        SwapSessionView {
            phase: self.phase,
            config: self.config@,
            target: optional_game(self.target),
            hwnd: self.hwnd,
            result: self.result,
        }
    }
}

impl SwapSession {
    #[verifier::type_invariant]
    spec fn well_formed(self) -> bool {
        self@.wf()
    }

    /// Begins a swap under a copy of `config`, which the swap keeps to its
    /// end. Where no game is enabled the swap has ended already, as
    /// `NoGamesEnabled`.
    pub fn begin(config: &AppConfig) -> (session: SwapSession)
        ensures
            session@ == SwapSessionView::begun(config@),
            session@.wf(),
    {
        let enabled = config.enabled_games();
        assert(enabled@.len() == game_views(enabled@).len());
        SwapSession {
            phase: if enabled.len() == 0 {
                SwapPhase::Finished
            } else {
                SwapPhase::Selecting
            },
            config: config.clone(),
            target: None,
            hwnd: 0,
            result: Ok(SwapOutcome::NoGamesEnabled),
        }
    }

    /// What the swap is waiting for.
    pub fn phase(&self) -> (phase: SwapPhase)
        ensures
            phase == self@.phase,
            self@.wf(),
    {
        proof {
            use_type_invariant(self);
        }
        self.phase
    }

    /// Whether the swap has ended.
    pub fn is_finished(&self) -> (finished: bool)
        ensures
            finished == (self@.phase == SwapPhase::Finished),
    {
        match self.phase {
            SwapPhase::Finished => true,
            _ => false,
        }
    }

    /// How the swap ended; `None` while it has not.
    pub fn result(&self) -> (result: Option<Result<SwapOutcome, SwapError>>)
        ensures
            result == (if self@.phase == SwapPhase::Finished {
                Some(self@.result)
            } else {
                None
            }),
    {
        match self.phase {
            SwapPhase::Finished => Some(self.result),
            _ => None,
        }
    }

    /// The game that the focus moves to; `None` before it is selected.
    pub fn target(&self) -> (target: Option<GameConfig>)
        ensures
            optional_game(target) == self@.target,
    {
        match &self.target {
            Some(game) => Some(game.clone()),
            None => None,
        }
    }

    /// The action that the swap is waiting on: what the caller is to do
    /// next.
    pub fn pending_action(&self) -> (action: SwapAction)
        ensures
            action@ == self@.pending(),
    {
        proof {
            use_type_invariant(self);
        }
        match self.phase {
            SwapPhase::Selecting | SwapPhase::Locating => SwapAction::ListWindows,
            SwapPhase::Leaving | SwapPhase::Entering => SwapAction::SendKey,
            SwapPhase::SettlingBeforeFocus | SwapPhase::SettlingAfterFocus => SwapAction::Settle {
                millis: SETTLE_MILLIS,
            },
            SwapPhase::Focusing => SwapAction::AcquireFocus { hwnd: self.hwnd },
            SwapPhase::Committing => SwapAction::ReadClock,
            SwapPhase::Notifying => match &self.target {
                Some(GameConfig { obs_scene: Some(scene), .. }) => SwapAction::SwitchScene {
                    scene: scene.clone(),
                },
                _ => SwapAction::Finish { result: self.result },
            },
            SwapPhase::Finished => SwapAction::Finish { result: self.result },
        }
    }
}

impl SwapSession {
    /// Takes what came of the pending action and says what comes next.
    ///
    /// The open windows lead to a target, selected with `rng` among the
    /// enabled games that are live and do not hold the focus; then to its
    /// window, without which the swap ends as `WindowMissing`. A focus that
    /// could not be moved ends the swap with `FocusUnobtainable`. The time
    /// read from the clock commits the swap: the one step that changes
    /// `state`. An event that the session is not waiting for changes
    /// nothing, and the pending action is returned once more.
    pub fn step(&mut self, event: SwapEvent, state: &mut SwapState, rng: &mut StdRng) -> (action:
        SwapAction)
        ensures
            old(self)@.steps(old(state)@, event@, final(self)@, final(state)@),
            action@ == final(self)@.pending(),
            final(self)@.wf(),
            final(state)@.swap_count >= old(state)@.swap_count,
            old(state)@.wf() ==> final(state)@.wf(),
    {
        proof {
            use_type_invariant(&*self);
        }
        match (self.phase, event) {
            (SwapPhase::Selecting, SwapEvent::WindowsListed { windows }) => {
                let enabled = self.config.enabled_games();
                assert(enabled@.len() == game_views(enabled@).len());
                match find_next_game(&enabled, &state.current_exe, &windows, rng) {
                    Ok(target) => {
                        let leave = leave_key_is_due(&self.config, &state.current_exe);
                        self.target = Some(target);
                        self.phase = if leave {
                            SwapPhase::Leaving
                        } else {
                            SwapPhase::SettlingBeforeFocus
                        };
                    },
                    Err(error) => {
                        self.result = Err(error);
                        self.phase = SwapPhase::Finished;
                    },
                }
            },
            (SwapPhase::Leaving, SwapEvent::KeySent) => {
                self.phase = SwapPhase::SettlingBeforeFocus;
            },
            (SwapPhase::SettlingBeforeFocus, SwapEvent::Settled) => {
                self.phase = SwapPhase::Locating;
            },
            (SwapPhase::Locating, SwapEvent::WindowsListed { windows }) => {
                let found = match &self.target {
                    Some(target) => find_window_by_exe(&windows, target.exe_name.as_str()),
                    None => None,
                };
                match found {
                    Some(hwnd) => {
                        self.hwnd = hwnd;
                        self.phase = SwapPhase::Focusing;
                    },
                    None => {
                        self.result = Ok(SwapOutcome::WindowMissing);
                        self.phase = SwapPhase::Finished;
                    },
                }
            },
            (SwapPhase::Focusing, SwapEvent::FocusSettled { acquired }) => {
                if acquired {
                    self.phase = SwapPhase::SettlingAfterFocus;
                } else {
                    self.result = Err(SwapError::FocusUnobtainable);
                    self.phase = SwapPhase::Finished;
                }
            },
            (SwapPhase::SettlingAfterFocus, SwapEvent::Settled) => {
                let enter = match &self.target {
                    Some(target) => target.send_esc_on_enter,
                    None => false,
                };
                self.phase = if enter {
                    SwapPhase::Entering
                } else {
                    SwapPhase::Committing
                };
            },
            (SwapPhase::Entering, SwapEvent::KeySent) => {
                self.phase = SwapPhase::Committing;
            },
            (SwapPhase::Committing, SwapEvent::ClockRead { now }) => {
                let mut with_scene = false;
                match &self.target {
                    Some(target) => {
                        state.record_swap(target, now);
                        with_scene = target.obs_scene.is_some();
                    },
                    None => {},
                }
                if with_scene {
                    self.phase = SwapPhase::Notifying;
                } else {
                    self.result = Ok(SwapOutcome::Swapped);
                    self.phase = SwapPhase::Finished;
                }
            },
            (SwapPhase::Notifying, SwapEvent::SceneSwitched) => {
                self.result = Ok(SwapOutcome::Swapped);
                self.phase = SwapPhase::Finished;
            },
            _ => {},
        }
        self.pending_action()
    }
}

impl SwapSessionView {
    /// The swap has been recorded in the state.
    pub open spec fn committed(self) -> bool {
        self.phase == SwapPhase::Notifying || (self.phase == SwapPhase::Finished && self.result
            == Ok::<SwapOutcome, SwapError>(SwapOutcome::Swapped))
    }
}

/// Whether `sessions` and `states` are what a session and the state it
/// works on go through, step by step, as `events` come in.
pub open spec fn is_course(
    sessions: Seq<SwapSessionView>,
    states: Seq<SwapStateView>,
    events: Seq<SwapEventView>,
) -> bool {
    &&& sessions.len() == events.len() + 1
    &&& states.len() == events.len() + 1
    &&& forall|i: int|
        0 <= i < events.len() ==> (#[trigger] sessions[i]).steps(
            states[i],
            events[i],
            sessions[i + 1],
            states[i + 1],
        )
}

/// Whatever events come in, a swap writes the state at most once. Until it
/// commits the state is as it was when the swap began; from then on it is
/// that state with one swap recorded, to the session's target at the time
/// that was read from the clock. A swap that ends in any other way,
/// because no game is enabled, because the target's window is gone or
/// because the focus could not be moved, leaves the state untouched. The
/// swap ends as `NoGamesEnabled` exactly when no game is enabled, and its
/// target is always one of the enabled games.
pub proof fn lemma_course_of_a_swap(
    config: AppConfigView,
    sessions: Seq<SwapSessionView>,
    states: Seq<SwapStateView>,
    events: Seq<SwapEventView>,
)
    requires
        is_course(sessions, states, events),
        sessions[0] == SwapSessionView::begun(config),
    ensures
        ({
            let end = sessions.last();
            let state = states.last();
            &&& end.wf()
            &&& end.config == config
            &&& enabled_games(config.games).len() == 0 <==> end.phase == SwapPhase::Finished
                && end.result == Ok::<SwapOutcome, SwapError>(SwapOutcome::NoGamesEnabled)
            &&& end.target matches Some(target) ==> enabled_games(config.games).contains(target)
            &&& if end.committed() {
                exists|i: int|
                    0 <= i < events.len() && (#[trigger] events[i]) is ClockRead && state
                        == states[0].swapped(end.target->0, events[i]->now)
            } else {
                state == states[0]
            }
        }),
    decreases events.len(),
{
    if events.len() > 0 {
        let n = events.len() - 1;
        let earlier = events.drop_last();
        lemma_course_of_a_swap(config, sessions.drop_last(), states.drop_last(), earlier);
        let before = sessions[n];
        let state = states[n];
        let event = events[n];
        let after = sessions[n + 1];
        assert(sessions.drop_last().last() == before);
        assert(states.drop_last().last() == state);
        assert(states.drop_last()[0] == states[0]);
        assert(before.steps(state, event, after, states[n + 1]));
        if before.accepts(event) && before.phase == SwapPhase::Selecting {
            let enabled = enabled_games(config.games);
            lemma_selection_avoids_current(
                enabled,
                state.current_exe,
                event->windows,
                after.target->0,
            );
        }
        if before.committed() {
            let i = choose|i: int|
                0 <= i < earlier.len() && (#[trigger] earlier[i]) is ClockRead && state
                    == states[0].swapped(before.target->0, earlier[i]->now);
            assert(events[i] == earlier[i]);
        } else if after.committed() {
            assert(events[n] is ClockRead);
        }
    }
}

/// While no game is enabled, a swap does nothing whatever is reported to
/// it: the session stays as it began, ended as `NoGamesEnabled`, and the
/// state stays as it was.
pub proof fn lemma_no_games_no_change(
    config: AppConfigView,
    sessions: Seq<SwapSessionView>,
    states: Seq<SwapStateView>,
    events: Seq<SwapEventView>,
)
    requires
        is_course(sessions, states, events),
        sessions[0] == SwapSessionView::begun(config),
        enabled_games(config.games).len() == 0,
    ensures
        sessions.last() == SwapSessionView::begun(config),
        sessions.last().phase == SwapPhase::Finished,
        sessions.last().result == Ok::<SwapOutcome, SwapError>(SwapOutcome::NoGamesEnabled),
        states.last() == states[0],
    decreases events.len(),
{
    if events.len() > 0 {
        let n = events.len() - 1;
        lemma_no_games_no_change(
            config,
            sessions.drop_last(),
            states.drop_last(),
            events.drop_last(),
        );
        assert(sessions.drop_last().last() == sessions[n]);
        assert(states.drop_last().last() == states[n]);
        assert(states.drop_last()[0] == states[0]);
        assert(sessions[n].steps(states[n], events[n], sessions[n + 1], states[n + 1]));
    }
}

} // verus!
