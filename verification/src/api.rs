//! What the dashboard sends and receives: a request to change part of the
//! configuration, and the open windows as they are shown.

use crate::config::{game_views, optional_text, AppConfig, AppConfigView, GameConfig, GameConfigView};
use crate::windows::{window_views, WindowInfo, WindowInfoView};
use vstd::prelude::*;

verus! {

/// What a [`WindowInfoResponse`] stands for in specifications.
pub struct WindowInfoResponseView {
    pub hwnd: isize,
    pub title: Seq<char>,
    pub exe_name: Seq<char>,
}

/// An open window, as the dashboard shows it.
#[derive(Debug)]
pub struct WindowInfoResponse {
    pub hwnd: isize,
    pub title: String,
    pub exe_name: String,
}

impl View for WindowInfoResponse {
    type V = WindowInfoResponseView;

    open spec fn view(&self) -> WindowInfoResponseView {
        WindowInfoResponseView { hwnd: self.hwnd, title: self.title@, exe_name: self.exe_name@ }
    }
}

/// The response that shows `window`.
pub open spec fn response_for(window: WindowInfoView) -> WindowInfoResponseView {
    WindowInfoResponseView { hwnd: window.hwnd, title: window.title, exe_name: window.exe_name }
}

/// The views of a sequence of responses, in order.
pub open spec fn response_views(responses: Seq<WindowInfoResponse>) -> Seq<
    WindowInfoResponseView,
> {
    responses.map_values(|response: WindowInfoResponse| response@)
}

/// The responses that show `windows`, one for each, in the same order.
pub fn window_responses(windows: Vec<WindowInfo>) -> (responses: Vec<WindowInfoResponse>)
    ensures
        response_views(responses@) == window_views(windows@).map_values(
            |window: WindowInfoView| response_for(window),
        ),
{
    let mut responses: Vec<WindowInfoResponse> = Vec::new();
    let mut i: usize = 0;
    while i < windows.len()
        invariant
            i <= windows.len(),
            responses@.len() == i,
            forall|k: int| 0 <= k < i ==> (#[trigger] responses@[k])@ == response_for(windows@[k]@),
        decreases windows.len() - i,
    {
        responses.push(
            WindowInfoResponse {
                hwnd: windows[i].hwnd,
                title: windows[i].title.clone(),
                exe_name: windows[i].exe_name.clone(),
            },
        );
        i += 1;
    }
    assert(response_views(responses@) =~= window_views(windows@).map_values(
        |window: WindowInfoView| response_for(window),
    ));
    responses
}

/// What an [`UpdateConfigRequest`] stands for in specifications.
pub struct UpdateConfigRequestView {
    pub games: Option<Seq<GameConfigView>>,
    pub min_swap_minutes: Option<u32>,
    pub max_swap_minutes: Option<u32>,
    pub auto_swap_enabled: Option<bool>,
    pub hide_next_swap: Option<bool>,
    pub obs_ws_host: Option<Seq<char>>,
    pub obs_ws_port: Option<u16>,
    pub obs_ws_password: Option<Option<Seq<char>>>,
}

/// A request to change the configuration. A field that is `None` leaves
/// its setting as it is. The password can be set, with `Some(Some(..))`,
/// and removed, with `Some(None)`.
#[derive(Debug)]
pub struct UpdateConfigRequest {
    pub games: Option<Vec<GameConfig>>,
    pub min_swap_minutes: Option<u32>,
    pub max_swap_minutes: Option<u32>,
    pub auto_swap_enabled: Option<bool>,
    pub hide_next_swap: Option<bool>,
    pub obs_ws_host: Option<String>,
    pub obs_ws_port: Option<u16>,
    pub obs_ws_password: Option<Option<String>>,
}

impl View for UpdateConfigRequest {
    type V = UpdateConfigRequestView;

    open spec fn view(&self) -> UpdateConfigRequestView {
        UpdateConfigRequestView {
            games: match self.games {
                Some(games) => Some(game_views(games@)),
                None => None,
            },
            min_swap_minutes: self.min_swap_minutes,
            max_swap_minutes: self.max_swap_minutes,
            auto_swap_enabled: self.auto_swap_enabled,
            hide_next_swap: self.hide_next_swap,
            obs_ws_host: optional_text(self.obs_ws_host),
            obs_ws_port: self.obs_ws_port,
            obs_ws_password: match self.obs_ws_password {
                Some(password) => Some(optional_text(password)),
                None => None,
            },
        }
    }
}

/// `wanted` where the request names a value, else `kept`.
pub open spec fn wanted_or<T>(wanted: Option<T>, kept: T) -> T {
    match wanted {
        Some(value) => value,
        None => kept,
    }
}

/// The configuration that `request` makes of `config`.
pub open spec fn updated(config: AppConfigView, request: UpdateConfigRequestView) -> AppConfigView {
    AppConfigView {
        games: wanted_or(request.games, config.games),
        min_swap_minutes: wanted_or(request.min_swap_minutes, config.min_swap_minutes),
        max_swap_minutes: wanted_or(request.max_swap_minutes, config.max_swap_minutes),
        auto_swap_enabled: wanted_or(request.auto_swap_enabled, config.auto_swap_enabled),
        hide_next_swap: wanted_or(request.hide_next_swap, config.hide_next_swap),
        obs_ws_host: wanted_or(request.obs_ws_host, config.obs_ws_host),
        obs_ws_port: wanted_or(request.obs_ws_port, config.obs_ws_port),
        obs_ws_password: wanted_or(request.obs_ws_password, config.obs_ws_password),
    }
}

/// Changes in `config` the settings that `request` names, and no others.
pub fn update_config(config: &mut AppConfig, request: UpdateConfigRequest)
    ensures
        final(config)@ == updated(old(config)@, request@),
{
    if let Some(games) = request.games {
        config.games = games;
    }
    if let Some(min) = request.min_swap_minutes {
        config.min_swap_minutes = min;
    }
    if let Some(max) = request.max_swap_minutes {
        config.max_swap_minutes = max;
    }
    if let Some(enabled) = request.auto_swap_enabled {
        config.auto_swap_enabled = enabled;
    }
    if let Some(hide) = request.hide_next_swap {
        config.hide_next_swap = hide;
    }
    if let Some(host) = request.obs_ws_host {
        config.obs_ws_host = host;
    }
    if let Some(port) = request.obs_ws_port {
        config.obs_ws_port = port;
    }
    if let Some(password) = request.obs_ws_password {
        config.obs_ws_password = password;
    }
}

} // verus!
