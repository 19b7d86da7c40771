//! Finding the game's window among the desktop's windows: which windows
//! can be captured at all, and which one is the game's.
//!
//! What the window system reports about a window is read by the caller.

use vstd::prelude::*;

use crate::text::{chars_of, first_index_of, lemma_first_index_of};

verus! {

/// Class name of the game's window.
pub const LOLCLASS: &'static str = "RiotWindowClass";
/// Title of the game's window.
pub const LOLWNAME: &'static str = "League of Legends (TM) Client";

/// The `WS_DISABLED` window style bit.
pub const WS_DISABLED: i32 = 0x0800_0000;
/// The `WS_EX_TOOLWINDOW` extended window style bit.
pub const WS_EX_TOOLWINDOW: i32 = 0x0000_0080;
/// The `DWM_CLOAKED_SHELL` cloak reason.
pub const DWM_CLOAKED_SHELL: u32 = 2;

/// The text of `s` up to its first NUL character.
pub open spec fn before_first_nul(s: Seq<char>) -> Seq<char> {
    let i = first_index_of(s, '\0');
    if i < 0 { s } else { s.subrange(0, i) }
}

/// Cuts a string read from a fixed-size buffer at its first NUL character.
pub fn truncate_to_first_null_char(input: &mut String)
    ensures
        final(input)@ == before_first_nul(old(input)@),
{
    let cs = chars_of(input.as_str());
    proof {
        lemma_first_index_of(cs@, '\0');
    }
    match crate::text::find_char(&cs, '\0') {
        Some(i) => {
            let kept = crate::text::slice_of(&cs, 0, i);
            *input = crate::text::string_of(&kept);
        },
        None => {},
    }
}

/// What the window system reports about one window.
pub struct WindowInfo {
    pub title: String,
    pub class_name: String,
    /// The window is the shell's window.
    pub is_shell_window: bool,
    pub is_visible: bool,
    /// The window is its own root ancestor.
    pub is_root: bool,
    /// Its `GWL_STYLE` bits.
    pub style: i32,
    /// Its `GWL_EXSTYLE` bits.
    pub ex_style: i32,
    /// Its `DWMWA_CLOAKED` attribute, where it could be read.
    pub cloaked: Option<u32>,
}

impl WindowInfo {
    /// The report of a window, with title and class name cut at their
    /// first NUL character.
    pub fn new(
        title: String,
        class_name: String,
        is_shell_window: bool,
        is_visible: bool,
        is_root: bool,
        style: i32,
        ex_style: i32,
        cloaked: Option<u32>,
    ) -> (r: Self)
        ensures
            r.title@ == before_first_nul(title@),
            r.class_name@ == before_first_nul(class_name@),
            r.is_shell_window == is_shell_window,
            r.is_visible == is_visible,
            r.is_root == is_root,
            r.style == style,
            r.ex_style == ex_style,
            r.cloaked == cloaked,
    {
        let mut title = title;
        truncate_to_first_null_char(&mut title);
        let mut class_name = class_name;
        truncate_to_first_null_char(&mut class_name);
        WindowInfo { title, class_name, is_shell_window, is_visible, is_root, style, ex_style, cloaked }
    }

    /// Whether title and class name are exactly these.
    pub fn matches_title_and_class_name(&self, title: &str, class_name: &str) -> (r: bool)
        ensures
            r == (self.title@ == title@ && self.class_name@ == class_name@),
    {
        crate::text::str_eq(self.title.as_str(), title) && crate::text::str_eq(self.class_name.as_str(), class_name)
    }

    /// Whether the window is one of the system's windows that look
    /// capturable but are not: Task View, XAML islands and XAML popups.
    pub fn is_known_blocked_window(&self) -> (r: bool)
        ensures
            r == is_known_blocked(*self),
    {
        self.matches_title_and_class_name("Task View", "Windows.UI.Core.CoreWindow")
            || self.matches_title_and_class_name("DesktopWindowXamlSource", "Windows.UI.Core.CoreWindow")
            || self.matches_title_and_class_name("PopupHost", "Xaml_WindowedPopupClass")
    }

    /// Whether the window can be captured: it has a title, is not the
    /// shell's window, is visible and is a root window, is not disabled and
    /// not a tool window (as the style tests are written), is not a UWP
    /// window that the shell cloaked, and is not a known blocked window.
    pub fn is_capturable_window(&self) -> (r: bool)
        ensures
            r == is_capturable(*self),
    {
        if self.title.unicode_len() == 0 || self.is_shell_window || !self.is_visible || !self.is_root {
            return false;
        }
        if self.style & WS_DISABLED == 1 {
            return false;
        }
        if self.ex_style & WS_EX_TOOLWINDOW == 1 {
            return false;
        }
        if crate::text::str_eq(self.class_name.as_str(), "Windows.UI.Core.CoreWindow")
            || crate::text::str_eq(self.class_name.as_str(), "ApplicationFrameWindow") {
            if self.cloaked == Some(DWM_CLOAKED_SHELL) {
                return false;
            }
        }
        if self.is_known_blocked_window() {
            return false;
        }
        true
    }

    /// Whether the window is the game's window.
    pub fn is_league_window(&self) -> (r: bool)
        ensures
            r == (is_capturable(*self) && self.class_name@ == LOLCLASS@ && self.title@ == LOLWNAME@),
    {
        self.is_capturable_window() && crate::text::str_eq(self.class_name.as_str(), LOLCLASS)
            && crate::text::str_eq(self.title.as_str(), LOLWNAME)
    }
}

/// The known blocked windows by title and class name.
pub open spec fn is_known_blocked(w: WindowInfo) -> bool {
    ||| w.title@ == "Task View"@ && w.class_name@ == "Windows.UI.Core.CoreWindow"@
    ||| w.title@ == "DesktopWindowXamlSource"@ && w.class_name@ == "Windows.UI.Core.CoreWindow"@
    ||| w.title@ == "PopupHost"@ && w.class_name@ == "Xaml_WindowedPopupClass"@
}

/// Whether a window can be captured.
pub open spec fn is_capturable(w: WindowInfo) -> bool {
    &&& w.title@.len() > 0
    &&& !w.is_shell_window
    &&& w.is_visible
    &&& w.is_root
    &&& (w.style & WS_DISABLED) != 1
    &&& (w.ex_style & WS_EX_TOOLWINDOW) != 1
    &&& !((w.class_name@ == "Windows.UI.Core.CoreWindow"@ || w.class_name@ == "ApplicationFrameWindow"@)
        && w.cloaked == Some(DWM_CLOAKED_SHELL))
    &&& !is_known_blocked(w)
}

/// The position of the first window that is the game's, in the order the
/// window system listed them.
pub fn find_league_window(windows: &Vec<WindowInfo>) -> (r: Option<usize>)
    ensures
        r matches Some(i) ==> i < windows.len() && {
            let w = windows@[i as int];
            is_capturable(w) && w.class_name@ == LOLCLASS@ && w.title@ == LOLWNAME@
        },
        r matches Some(i) ==> forall|j: int| 0 <= j < i ==> !(#[trigger] is_capturable(windows@[j])
            && windows@[j].class_name@ == LOLCLASS@ && windows@[j].title@ == LOLWNAME@),
        r is None ==> forall|j: int| 0 <= j < windows.len() ==> !(#[trigger] is_capturable(windows@[j])
            && windows@[j].class_name@ == LOLCLASS@ && windows@[j].title@ == LOLWNAME@),
{
    let mut i: usize = 0;
    while i < windows.len()
        invariant
            i <= windows.len(),
            forall|j: int| 0 <= j < i ==> !(#[trigger] is_capturable(windows@[j])
                && windows@[j].class_name@ == LOLCLASS@ && windows@[j].title@ == LOLWNAME@),
        decreases windows.len() - i,
    {
        if windows[i].is_league_window() {
            return Some(i);
        }
        i = i + 1;
    }
    None
}

/// Cutting at the first NUL character keeps the text before it: the result
/// is a prefix of the text without any NUL character, followed in the text
/// by a NUL character unless it is the whole text; a text without NUL
/// characters stays as it is, and cutting twice is cutting once.
pub proof fn lemma_before_first_nul(s: Seq<char>)
    ensures
        before_first_nul(s).len() <= s.len(),
        before_first_nul(s) == s.subrange(0, before_first_nul(s).len() as int),
        forall|i: int| 0 <= i < before_first_nul(s).len() ==> #[trigger] before_first_nul(s)[i] != '\0',
        before_first_nul(s).len() < s.len() ==> s[before_first_nul(s).len() as int] == '\0',
        (forall|i: int| 0 <= i < s.len() ==> #[trigger] s[i] != '\0') ==> before_first_nul(s) == s,
        before_first_nul(before_first_nul(s)) == before_first_nul(s),
{
    lemma_first_index_of(s, '\0');
    let t = before_first_nul(s);
    assert(t =~= s.subrange(0, t.len() as int));
    if forall|i: int| 0 <= i < s.len() ==> #[trigger] s[i] != '\0' {
        if first_index_of(s, '\0') >= 0 {
            assert(s[first_index_of(s, '\0')] == '\0');
        }
    }
    lemma_first_index_of(t, '\0');
    if first_index_of(t, '\0') >= 0 {
        assert(t[first_index_of(t, '\0')] == '\0');
    }
}

/// The game's window is captured: a visible root window that is not the
/// shell's, with the game's title and class name and no disabled or tool
/// window bits, is capturable whatever its cloaking. No window without a
/// title, the shell's window, a hidden window or one that is not a root
/// window is capturable, nor one of the known blocked windows.
pub proof fn lemma_capturable_windows(w: WindowInfo)
    ensures
        w.title@ == LOLWNAME@ && w.class_name@ == LOLCLASS@ && !w.is_shell_window && w.is_visible && w.is_root
            && w.style == 0 && w.ex_style == 0 ==> is_capturable(w),
        w.title@.len() == 0 || w.is_shell_window || !w.is_visible || !w.is_root ==> !is_capturable(w),
        w.title@ == "Task View"@ && w.class_name@ == "Windows.UI.Core.CoreWindow"@ ==> !is_capturable(w),
        w.title@ == "PopupHost"@ && w.class_name@ == "Xaml_WindowedPopupClass"@ ==> !is_capturable(w),
{
    reveal_strlit("League of Legends (TM) Client");
    reveal_strlit("RiotWindowClass");
    reveal_strlit("Task View");
    reveal_strlit("DesktopWindowXamlSource");
    reveal_strlit("PopupHost");
    reveal_strlit("Windows.UI.Core.CoreWindow");
    reveal_strlit("ApplicationFrameWindow");
    reveal_strlit("Xaml_WindowedPopupClass");
    assert(LOLWNAME@.len() == 29);
    assert(LOLCLASS@.len() == 15);
    assert(LOLWNAME@ != "Task View"@ && LOLWNAME@ != "DesktopWindowXamlSource"@ && LOLWNAME@ != "PopupHost"@);
    assert(LOLCLASS@ != "Windows.UI.Core.CoreWindow"@ && LOLCLASS@ != "ApplicationFrameWindow"@);
    assert(0i32 & WS_DISABLED == 0i32) by (bit_vector);
    assert(0i32 & WS_EX_TOOLWINDOW == 0i32) by (bit_vector);
}

} // verus!
