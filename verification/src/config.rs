//! The rotation's configuration: the games it cycles through and the bounds
//! of the interval between swaps.

use crate::text::{eq_ignore_ascii_case, same_name};
use vstd::prelude::*;
use vstd::string::StringExecFns;

verus! {

/// What a [`GameConfig`] stands for in specifications.
pub struct GameConfigView {
    pub exe_name: Seq<char>,
    pub display_name: Seq<char>,
    pub send_esc_on_leave: bool,
    pub send_esc_on_enter: bool,
    pub enabled: bool,
    pub obs_scene: Option<Seq<char>>,
}

/// One window of the rotation. A game is identified by the name of its
/// executable, compared without regard to ASCII case.
#[derive(Debug)]
pub struct GameConfig {
    pub exe_name: String,
    pub display_name: String,
    pub send_esc_on_leave: bool,
    pub send_esc_on_enter: bool,
    pub enabled: bool,
    pub obs_scene: Option<String>,
}

/// The characters of an optional string.
pub open spec fn optional_text(text: Option<String>) -> Option<Seq<char>> {
    match text {
        Some(s) => Some(s@),
        None => None,
    }
}

/// A copy of an optional string.
pub fn clone_optional_text(text: &Option<String>) -> (copy: Option<String>)
    ensures
        copy == *text,
{
    match text {
        Some(s) => Some(s.clone()),
        None => None,
    }
}

impl View for GameConfig {
    type V = GameConfigView;

    open spec fn view(&self) -> GameConfigView {
        GameConfigView {
            exe_name: self.exe_name@,
            display_name: self.display_name@,
            send_esc_on_leave: self.send_esc_on_leave,
            send_esc_on_enter: self.send_esc_on_enter,
            enabled: self.enabled,
            obs_scene: optional_text(self.obs_scene),
        }
    }
}

impl Clone for GameConfig {
    fn clone(&self) -> (copy: Self)
        ensures
            copy == *self,
    {
        GameConfig {
            exe_name: self.exe_name.clone(),
            display_name: self.display_name.clone(),
            send_esc_on_leave: self.send_esc_on_leave,
            send_esc_on_enter: self.send_esc_on_enter,
            enabled: self.enabled,
            obs_scene: clone_optional_text(&self.obs_scene),
        }
    }
}

/// The value of a game's switches where none is given: on.
pub fn default_true() -> (value: bool)
    ensures
        value,
{
    true
}

impl Default for GameConfig {
    /// A game without names or scene, enabled, that sends the key both on
    /// leaving and on entering.
    fn default() -> (game: Self)
        ensures
            game@ == (GameConfigView {
                exe_name: Seq::empty(),
                display_name: Seq::empty(),
                send_esc_on_leave: true,
                send_esc_on_enter: true,
                enabled: true,
                obs_scene: None,
            }),
    {
        GameConfig {
            exe_name: String::new(),
            display_name: String::new(),
            send_esc_on_leave: default_true(),
            send_esc_on_enter: default_true(),
            enabled: default_true(),
            obs_scene: None,
        }
    }
}

/// The views of a sequence of games, in order.
pub open spec fn game_views(games: Seq<GameConfig>) -> Seq<GameConfigView> {
    games.map_values(|game: GameConfig| game@)
}

/// What an [`AppConfig`] stands for in specifications.
pub struct AppConfigView {
    pub games: Seq<GameConfigView>,
    pub min_swap_minutes: u32,
    pub max_swap_minutes: u32,
    pub auto_swap_enabled: bool,
    pub hide_next_swap: bool,
    pub obs_ws_host: Seq<char>,
    pub obs_ws_port: u16,
    pub obs_ws_password: Option<Seq<char>>,
}

/// The whole configuration: the games in their configured order, the bounds
/// of the swap interval in minutes, and where the scene switcher listens.
/// The lower bound is meant not to exceed the upper one; where it does, the
/// upper bound alone counts.
#[derive(Debug)]
pub struct AppConfig {
    pub games: Vec<GameConfig>,
    pub min_swap_minutes: u32,
    pub max_swap_minutes: u32,
    pub auto_swap_enabled: bool,
    pub hide_next_swap: bool,
    pub obs_ws_host: String,
    pub obs_ws_port: u16,
    pub obs_ws_password: Option<String>,
}

impl View for AppConfig {
    type V = AppConfigView;

    open spec fn view(&self) -> AppConfigView {
        AppConfigView {
            games: game_views(self.games@),
            min_swap_minutes: self.min_swap_minutes,
            max_swap_minutes: self.max_swap_minutes,
            auto_swap_enabled: self.auto_swap_enabled,
            hide_next_swap: self.hide_next_swap,
            obs_ws_host: self.obs_ws_host@,
            obs_ws_port: self.obs_ws_port,
            obs_ws_password: optional_text(self.obs_ws_password),
        }
    }
}

/// A copy of a list of games.
pub fn clone_games(games: &Vec<GameConfig>) -> (copy: Vec<GameConfig>)
    ensures
        copy@ == games@,
{
    let mut copy: Vec<GameConfig> = Vec::new();
    let mut i: usize = 0;
    while i < games.len()
        invariant
            i <= games.len(),
            copy@ == games@.take(i as int),
        decreases games.len() - i,
    {
        copy.push(games[i].clone());
        i += 1;
        assert(copy@ =~= games@.take(i as int));
    }
    assert(games@.take(games.len() as int) =~= games@);
    copy
}

impl Clone for AppConfig {
    fn clone(&self) -> (copy: Self)
        ensures
            copy@ == self@,
            copy.games@ == self.games@,
    {
        AppConfig {
            games: clone_games(&self.games),
            min_swap_minutes: self.min_swap_minutes,
            max_swap_minutes: self.max_swap_minutes,
            auto_swap_enabled: self.auto_swap_enabled,
            hide_next_swap: self.hide_next_swap,
            obs_ws_host: self.obs_ws_host.clone(),
            obs_ws_port: self.obs_ws_port,
            obs_ws_password: clone_optional_text(&self.obs_ws_password),
        }
    }
}

/// The shortest interval between swaps where none is given, in minutes.
pub fn default_min_swap() -> (minutes: u32)
    ensures
        minutes == 5,
{
    5
}

/// The longest interval between swaps where none is given, in minutes.
pub fn default_max_swap() -> (minutes: u32)
    ensures
        minutes == 15,
{
    15
}

/// The host of the scene switcher where none is given.
pub fn default_obs_host() -> (host: String)
    ensures
        host@ == "localhost"@,
{
    String::from_str("localhost")
}

/// The port of the scene switcher where none is given.
pub fn default_obs_port() -> (port: u16)
    ensures
        port == 4455,
{
    4455
}

impl Default for AppConfig {
    /// No games, swaps every 5 to 15 minutes, automatic swapping on, and a
    /// scene switcher on the local machine without a password.
    fn default() -> (config: Self)
        ensures
            config@ == (AppConfigView {
                games: Seq::empty(),
                min_swap_minutes: 5,
                max_swap_minutes: 15,
                auto_swap_enabled: true,
                hide_next_swap: false,
                obs_ws_host: "localhost"@,
                obs_ws_port: 4455,
                obs_ws_password: None,
            }),
    {
        let config = AppConfig {
            games: Vec::new(),
            min_swap_minutes: default_min_swap(),
            max_swap_minutes: default_max_swap(),
            auto_swap_enabled: default_true(),
            hide_next_swap: false,
            obs_ws_host: default_obs_host(),
            obs_ws_port: default_obs_port(),
            obs_ws_password: None,
        };
        assert(config@.games =~= Seq::empty());
        config
    }
}

/// The games among `games` that take part in the rotation, in their
/// configured order.
pub open spec fn enabled_games(games: Seq<GameConfigView>) -> Seq<GameConfigView> {
    games.filter(|game: GameConfigView| game.enabled)
}

/// The position of the first of `games` whose executable goes by `name`.
pub open spec fn position_of_game(games: Seq<GameConfigView>, name: Seq<char>) -> Option<int>
    decreases games.len(),
{
    if games.len() == 0 {
        None
    } else if same_name(games.last().exe_name, name) && position_of_game(
        games.drop_last(),
        name,
    ) is None {
        Some(games.len() - 1)
    } else {
        position_of_game(games.drop_last(), name)
    }
}

/// `position_of_game` finds a game exactly when one goes by the name, and
/// then it is the earliest of them.
pub proof fn lemma_position_of_game(games: Seq<GameConfigView>, name: Seq<char>)
    ensures
        match position_of_game(games, name) {
            Some(at) => 0 <= at < games.len() && same_name(games[at].exe_name, name) && forall|
                j: int,
            |
                0 <= j < at ==> !same_name(#[trigger] games[j].exe_name, name),
            None => forall|j: int|
                0 <= j < games.len() ==> !same_name(#[trigger] games[j].exe_name, name),
        },
    decreases games.len(),
{
    if games.len() > 0 {
        lemma_position_of_game(games.drop_last(), name);
        assert forall|j: int| 0 <= j < games.len() - 1 implies games.drop_last()[j]
            == games[j] by {}
    }
}

impl AppConfig {
    /// The games that take part in the rotation, in their configured order.
    pub fn enabled_games(&self) -> (enabled: Vec<GameConfig>)
        ensures
            game_views(enabled@) == enabled_games(self@.games),
    {
        let ghost takes_part = |game: GameConfigView| game.enabled;
        let ghost all = self@.games;
        let mut enabled: Vec<GameConfig> = Vec::new();
        let mut i: usize = 0;
        proof {
            reveal(Seq::filter);
            assert(all.take(0) =~= Seq::empty());
            assert(game_views(enabled@) =~= enabled_games(all.take(0)));
        }
        while i < self.games.len()
            invariant
                i <= self.games.len(),
                all == self@.games,
                all.len() == self.games.len(),
                takes_part == |game: GameConfigView| game.enabled,
                game_views(enabled@) == enabled_games(all.take(i as int)),
            decreases self.games.len() - i,
        {
            let ghost before = all.take(i as int);
            let ghost after = all.take(i + 1);
            let ghost found = game_views(enabled@);
            proof {
                reveal(Seq::filter);
                assert(after.drop_last() =~= before);
                assert(after.last() == self.games@[i as int]@);
            }
            if self.games[i].enabled {
                enabled.push(self.games[i].clone());
                proof {
                    assert(after.filter(takes_part) == before.filter(takes_part).push(
                        self.games@[i as int]@,
                    ));
                    assert(game_views(enabled@) =~= found.push(self.games@[i as int]@));
                }
            } else {
                proof {
                    assert(after.filter(takes_part) == before.filter(takes_part));
                }
            }
            i += 1;
        }
        proof {
            assert(all.take(self.games.len() as int) =~= all);
        }
        enabled
    }

    /// The position of the first configured game, enabled or not, whose
    /// executable goes by `exe_name`.
    pub fn find_game(&self, exe_name: &str) -> (position: Option<usize>)
        ensures
            match position {
                Some(at) => at < self.games@.len() && position_of_game(self@.games, exe_name@)
                    == Some(at as int),
                None => position_of_game(self@.games, exe_name@) is None,
            },
    {
        let ghost all = self@.games;
        let mut i: usize = 0;
        while i < self.games.len()
            invariant
                i <= self.games.len(),
                all == self@.games,
                all.len() == self.games.len(),
                position_of_game(all.take(i as int), exe_name@) is None,
            decreases self.games.len() - i,
        {
            let ghost after = all.take(i + 1);
            proof {
                assert(after.drop_last() =~= all.take(i as int));
                assert(after.last() == self.games@[i as int]@);
            }
            if eq_ignore_ascii_case(self.games[i].exe_name.as_str(), exe_name) {
                proof {
                    lemma_position_found(all, exe_name@, i as int);
                }
                return Some(i);
            }
            i += 1;
        }
        proof {
            assert(all.take(self.games.len() as int) =~= all);
        }
        None
    }
}

/// A match that no earlier game precedes is the position of the name in
/// every longer list as well.
proof fn lemma_position_found(games: Seq<GameConfigView>, name: Seq<char>, at: int)
    requires
        0 <= at < games.len(),
        position_of_game(games.take(at + 1), name) == Some(at),
    ensures
        position_of_game(games, name) == Some(at),
    decreases games.len(),
{
    if games.len() == at + 1 {
        assert(games.take(at + 1) =~= games);
    } else {
        assert(games.drop_last().take(at + 1) =~= games.take(at + 1));
        lemma_position_found(games.drop_last(), name, at);
    }
}

} // verus!
