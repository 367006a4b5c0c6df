//! The windows that are open: which of them count, and how a game's
//! executable name is resolved to one of them.

use crate::text::{eq_ignore_ascii_case, same_name};
use vstd::prelude::*;
use vstd::string::{StrSliceExecFns, StringExecFns};

verus! {

/// What a [`WindowInfo`] stands for in specifications.
pub struct WindowInfoView {
    pub hwnd: isize,
    pub title: Seq<char>,
    pub exe_name: Seq<char>,
}

/// A visible, titled top-level window and the name of the executable that
/// owns it. The handle is only good for as long as the window stays open.
#[derive(Debug)]
pub struct WindowInfo {
    pub hwnd: isize,
    pub title: String,
    pub exe_name: String,
}

impl View for WindowInfo {
    type V = WindowInfoView;

    open spec fn view(&self) -> WindowInfoView {
        WindowInfoView { hwnd: self.hwnd, title: self.title@, exe_name: self.exe_name@ }
    }
}

impl Clone for WindowInfo {
    fn clone(&self) -> (copy: Self)
        ensures
            copy == *self,
    {
        WindowInfo {
            hwnd: self.hwnd,
            title: self.title.clone(),
            exe_name: self.exe_name.clone(),
        }
    }
}

/// The views of a sequence of windows, in order.
pub open spec fn window_views(windows: Seq<WindowInfo>) -> Seq<WindowInfoView> {
    windows.map_values(|window: WindowInfo| window@)
}

/// The part of `path` after its last backslash: all of it where it holds
/// none.
pub open spec fn file_name(path: Seq<char>) -> Seq<char>
    decreases path.len(),
{
    if path.len() == 0 {
        path
    } else if path.last() == '\\' {
        Seq::empty()
    } else {
        file_name(path.drop_last()).push(path.last())
    }
}

/// The name of an executable, given the path of its file.
pub fn exe_name_from_path(path: &str) -> (name: String)
    ensures
        name@ == file_name(path@),
{
    let length: usize = path.unicode_len();
    let mut start: usize = 0;
    let mut position: usize = 0;
    let chars = path.chars();
    for c in it: chars
        invariant
            position == it.index(),
            start <= position <= length,
            length == path@.len(),
            it.seq() == path@,
            file_name(path@.take(position as int)) == path@.subrange(
                start as int,
                position as int,
            ),
    {
        proof {
            let before = path@.take(position as int);
            let after = path@.take(position + 1);
            assert(after.drop_last() =~= before);
            assert(after.last() == c);
            assert(path@.subrange(start as int, position as int).push(c) =~= path@.subrange(
                start as int,
                position + 1,
            ));
        }
        position = position + 1;
        if c == '\\' {
            start = position;
        }
    }
    proof {
        assert(path@.take(position as int) =~= path@);
    }
    String::from_str(path.substring_char(start, position))
}

/// The number of code units of `buffer` before its first zero: all of them
/// where it holds none.
pub fn nul_terminated_len(buffer: &[u16]) -> (length: usize)
    ensures
        length <= buffer@.len(),
        forall|i: int| 0 <= i < length ==> buffer@[i] != 0,
        length < buffer@.len() ==> buffer@[length as int] == 0,
{
    let mut length: usize = 0;
    while length < buffer.len() && buffer[length] != 0
        invariant
            length <= buffer@.len(),
            forall|i: int| 0 <= i < length ==> buffer@[i] != 0,
        decreases buffer@.len() - length,
    {
        length += 1;
    }
    length
}

/// What a [`RawWindow`] stands for in specifications.
pub struct RawWindowView {
    pub hwnd: isize,
    pub visible: bool,
    pub title: Seq<char>,
    pub exe_path: Seq<char>,
}

/// A top-level window as the operating system reports it: whether it is
/// visible, its title (empty where it has none) and the path of the
/// executable that owns it (empty where that could not be found out).
#[derive(Debug)]
pub struct RawWindow {
    pub hwnd: isize,
    pub visible: bool,
    pub title: String,
    pub exe_path: String,
}

impl View for RawWindow {
    type V = RawWindowView;

    open spec fn view(&self) -> RawWindowView {
        RawWindowView {
            hwnd: self.hwnd,
            visible: self.visible,
            title: self.title@,
            exe_path: self.exe_path@,
        }
    }
}

/// The views of a sequence of raw windows, in order.
pub open spec fn raw_window_views(windows: Seq<RawWindow>) -> Seq<RawWindowView> {
    windows.map_values(|window: RawWindow| window@)
}

/// A window counts when it is visible, has a title, and the name of its
/// executable is known.
pub open spec fn is_listed(window: RawWindowView) -> bool {
    window.visible && window.title.len() > 0 && file_name(window.exe_path).len() > 0
}

/// A window that counts, as it is listed.
pub open spec fn listing(window: RawWindowView) -> WindowInfoView {
    WindowInfoView {
        hwnd: window.hwnd,
        title: window.title,
        exe_name: file_name(window.exe_path),
    }
}

/// The windows among `raw` that count, in the order in which they came.
pub open spec fn listed_windows(raw: Seq<RawWindowView>) -> Seq<WindowInfoView> {
    raw.filter(|window: RawWindowView| is_listed(window)).map_values(
        |window: RawWindowView| listing(window),
    )
}

/// The visible, titled windows among `raw` whose executable is known, each
/// with the name of that executable.
pub fn enumerate_windows(raw: &Vec<RawWindow>) -> (windows: Vec<WindowInfo>)
    ensures
        window_views(windows@) == listed_windows(raw_window_views(raw@)),
{
    let ghost counts = |window: RawWindowView| is_listed(window);
    let ghost all = raw_window_views(raw@);
    let mut windows: Vec<WindowInfo> = Vec::new();
    let mut i: usize = 0;
    proof {
        reveal(Seq::filter);
        assert(all.take(0).filter(counts) =~= Seq::empty());
        assert(window_views(windows@) =~= listed_windows(all.take(0)));
    }
    while i < raw.len()
        invariant
            i <= raw.len(),
            all == raw_window_views(raw@),
            counts == |window: RawWindowView| is_listed(window),
            window_views(windows@) == listed_windows(all.take(i as int)),
        decreases raw.len() - i,
    {
        let window = &raw[i];
        let ghost before = all.take(i as int);
        let ghost after = all.take(i + 1);
        proof {
            reveal(Seq::filter);
            assert(after.drop_last() =~= before);
            assert(after.last() == window@);
        }
        let ghost listed_before = window_views(windows@);
        let mut counted = false;
        if window.visible && !window.title.as_str().is_empty() {
            let exe_name = exe_name_from_path(window.exe_path.as_str());
            if !exe_name.as_str().is_empty() {
                counted = true;
                windows.push(
                    WindowInfo { hwnd: window.hwnd, title: window.title.clone(), exe_name },
                );
            }
        }
        proof {
            assert(counted == is_listed(window@));
            if counted {
                assert(after.filter(counts) == before.filter(counts).push(window@));
                assert(windows@.last()@ == listing(window@));
                assert(window_views(windows@) =~= listed_before.push(listing(window@)));
                assert(listed_windows(after) =~= listed_windows(before).push(listing(window@)));
            } else {
                assert(after.filter(counts) == before.filter(counts));
            }
        }
        i += 1;
    }
    proof {
        assert(all.take(raw.len() as int) =~= all);
    }
    windows
}

/// The handle of the first of `windows` whose executable goes by `name`.
pub open spec fn first_window_of(windows: Seq<WindowInfoView>, name: Seq<char>) -> Option<isize>
    decreases windows.len(),
{
    if windows.len() == 0 {
        None
    } else if same_name(windows[0].exe_name, name) {
        Some(windows[0].hwnd)
    } else {
        first_window_of(windows.drop_first(), name)
    }
}

/// A game is live when one of the open windows belongs to its executable.
pub open spec fn is_live(windows: Seq<WindowInfoView>, name: Seq<char>) -> bool {
    first_window_of(windows, name) is Some
}

/// The handle of the first window in `windows` that belongs to the
/// executable `exe_name`, compared without regard to ASCII case; `None`
/// where there is no such window.
pub fn find_window_by_exe(windows: &Vec<WindowInfo>, exe_name: &str) -> (handle: Option<isize>)
    ensures
        handle == first_window_of(window_views(windows@), exe_name@),
{
    let ghost all = window_views(windows@);
    let mut i: usize = 0;
    proof {
        assert(all.skip(0) =~= all);
    }
    while i < windows.len()
        invariant
            i <= windows.len(),
            all == window_views(windows@),
            first_window_of(all, exe_name@) == first_window_of(all.skip(i as int), exe_name@),
        decreases windows.len() - i,
    {
        proof {
            assert(all.skip(i as int)[0] == windows@[i as int]@);
            assert(all.skip(i as int).drop_first() =~= all.skip(i + 1));
        }
        if eq_ignore_ascii_case(windows[i].exe_name.as_str(), exe_name) {
            return Some(windows[i].hwnd);
        }
        i += 1;
    }
    None
}

/// `first_window_of` finds a window exactly when one of the executable's
/// is there, and then it is the earliest of them.
pub proof fn lemma_first_window_of(windows: Seq<WindowInfoView>, name: Seq<char>)
    ensures
        match first_window_of(windows, name) {
            Some(handle) => exists|i: int|
                0 <= i < windows.len() && same_name(#[trigger] windows[i].exe_name, name)
                    && windows[i].hwnd == handle && forall|j: int|
                    0 <= j < i ==> !same_name(#[trigger] windows[j].exe_name, name),
            None => forall|i: int|
                0 <= i < windows.len() ==> !same_name(#[trigger] windows[i].exe_name, name),
        },
    decreases windows.len(),
{
    if windows.len() > 0 && !same_name(windows[0].exe_name, name) {
        let rest = windows.drop_first();
        lemma_first_window_of(rest, name);
        match first_window_of(rest, name) {
            Some(handle) => {
                let i = choose|i: int|
                    0 <= i < rest.len() && same_name(#[trigger] rest[i].exe_name, name)
                        && rest[i].hwnd == handle && forall|j: int|
                        0 <= j < i ==> !same_name(#[trigger] rest[j].exe_name, name);
                assert(windows[i + 1] == rest[i]);
                assert forall|j: int| 0 <= j < i + 1 implies !same_name(
                    #[trigger] windows[j].exe_name,
                    name,
                ) by {
                    if j > 0 {
                        assert(windows[j] == rest[j - 1]);
                    }
                }
            },
            None => {
                assert forall|i: int| 0 <= i < windows.len() implies !same_name(
                    #[trigger] windows[i].exe_name,
                    name,
                ) by {
                    if i > 0 {
                        assert(windows[i] == rest[i - 1]);
                    }
                }
            },
        }
    } else if windows.len() > 0 {
        assert(same_name(windows[0].exe_name, name));
    }
}

} // verus!
