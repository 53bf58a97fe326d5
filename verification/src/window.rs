//! The browser window's state and decisions: which tab is shown, the
//! topbar / sidebar layout and its auto-hide, the theme, the keyboard
//! shortcuts, and what the window does when a tab reports an event.

use vstd::prelude::*;
use crate::labels::{
    address_text_for,
    address_text_spec,
    error_page_html,
    error_page_spec,
    is_blank_page,
    is_blank_url,
    short_title,
    short_title_spec,
    short_url,
    short_url_spec,
    sidebar_tab_label_for,
    sidebar_tab_label_spec,
    tab_label_for,
    tab_label_spec,
};
use crate::config;
use crate::tab::{navigate_step, Tab, TabAction, TabActionView, TabEvent, TabEventView, TabModel};
use crate::text::{contains_seq, contains_str, lowercase_of, to_lowercase};

verus! {

/// Commands produced by the key dispatcher that the window handles.
#[derive(Debug, Clone, Copy, PartialEq, Eq, Structural)]
pub enum WinCmd {
    Back,
    Forward,
    Reload,
    Stop,
    FocusAddress,
    NewTab,
    CloseTab,
    NextTab,
    NextWorkspace,
    PrevTab,
    SwitchTab(i32),
    ToggleSidebar,
    TogglePin,
    OpenBrowserMenu,
    OpenSettings,
}

/// Theme preferences supported by the browser.
#[derive(Debug, Clone, Copy, PartialEq, Eq, Structural)]
pub enum ThemePreference {
    System,
    Light,
    Dark,
}

#[derive(Debug, Clone, Copy, PartialEq, Eq, Structural)]
pub enum ChromeLayout {
    Topbar,
    Sidebar,
}

/// Where the pointer is, seen from the top edge of the window.
#[derive(Debug, Clone, Copy, PartialEq, Eq, Structural)]
pub enum PointerZone {
    /// Close enough to the top edge to call the topbar back.
    TopEdge,
    /// Neither close to the edge nor far from it.
    Between,
    /// Far enough below the topbar to let it hide again.
    Away,
}

/// Where the pointer is, seen from the left edge of the window.
#[derive(Debug, Clone, Copy, PartialEq, Eq, Structural)]
pub enum SideZone {
    /// Close enough to the left edge to call the sidebar back.
    LeftEdge,
    /// Neither close to the edge nor far from it.
    Between,
    /// Far enough from the left edge to let the sidebar hide again.
    Away,
}

/// The chrome around the page: layout, theme and what is shown.
#[derive(Debug, Clone, Copy, PartialEq, Eq, Structural)]
pub struct Chrome {
    pub layout: ChromeLayout,
    pub theme_pref: ThemePreference,
    /// Whether the left sidebar is enabled in settings.
    pub sidebar_enabled: bool,
    /// The topbar hides while a real site is shown.
    pub auto_hide: bool,
    pub topbar_visible: bool,
    pub topbar_revealed: bool,
    pub sidebar_visible: bool,
    pub sidebar_revealed: bool,
    pub progress_visible: bool,
}

/// A consistent chrome: the topbar layout never shows the sidebar and shows
/// the topbar unless it is auto-hidden; the sidebar layout shows only the
/// sidebar panel (whose sidebar slides in and out), never auto-hides, never
/// shows progress, and is enabled.
pub open spec fn chrome_wf(c: Chrome) -> bool {
    match c.layout {
        ChromeLayout::Topbar => {
            &&& c.topbar_visible
            &&& !c.sidebar_visible
            &&& !c.sidebar_revealed
            &&& !c.auto_hide ==> c.topbar_revealed
        },
        ChromeLayout::Sidebar => {
            &&& c.sidebar_enabled
            &&& !c.auto_hide
            &&& !c.topbar_visible
            &&& !c.topbar_revealed
            &&& c.sidebar_visible
            &&& !c.progress_visible
        },
    }
}

/// The chrome after its widgets are made to match its layout.
pub open spec fn apply_layout(c: Chrome) -> Chrome {
    match c.layout {
        ChromeLayout::Topbar => Chrome {
            topbar_visible: true,
            topbar_revealed: !c.auto_hide,
            sidebar_revealed: false,
            sidebar_visible: false,
            ..c
        },
        ChromeLayout::Sidebar => Chrome {
            auto_hide: false,
            progress_visible: false,
            topbar_revealed: false,
            topbar_visible: false,
            sidebar_revealed: true,
            sidebar_visible: true,
            ..c
        },
    }
}

/// Auto-hide on: only the topbar layout hides its topbar.
pub open spec fn enable_auto_hide_spec(c: Chrome) -> Chrome {
    if c.layout != ChromeLayout::Topbar {
        c
    } else {
        Chrome { auto_hide: true, topbar_revealed: false, ..c }
    }
}

/// Auto-hide off: the topbar layout shows its topbar again.
pub open spec fn disable_auto_hide_spec(c: Chrome) -> Chrome {
    if c.layout == ChromeLayout::Topbar {
        Chrome { auto_hide: false, topbar_revealed: true, ..c }
    } else {
        Chrome { auto_hide: false, ..c }
    }
}

/// The chrome after the shown page becomes `url`: the topbar hides on real
/// sites and shows on empty pages; the sidebar layout is just re-applied.
pub open spec fn auto_hide_for_url(c: Chrome, url: Seq<char>) -> Chrome {
    if c.layout == ChromeLayout::Sidebar {
        apply_layout(c)
    } else if is_blank_url(url) {
        disable_auto_hide_spec(c)
    } else {
        enable_auto_hide_spec(c)
    }
}

/// The chrome after switching to `layout`; `url` is the shown page, if any.
pub open spec fn with_layout(c: Chrome, layout: ChromeLayout, url: Option<Seq<char>>) -> Chrome {
    let c1 = Chrome { layout, ..c };
    let c2 = if layout == ChromeLayout::Sidebar {
        Chrome { sidebar_enabled: true, auto_hide: false, ..c1 }
    } else {
        c1
    };
    let c3 = apply_layout(c2);
    match url {
        Some(u) => auto_hide_for_url(c3, u),
        None => c3,
    }
}

/// The chrome after the sidebar is enabled or disabled in settings.
pub open spec fn with_sidebar_enabled(c: Chrome, enabled: bool, url: Option<Seq<char>>) -> Chrome {
    let c1 = Chrome { sidebar_enabled: enabled, ..c };
    if !enabled {
        let c2 = if c1.layout == ChromeLayout::Sidebar {
            with_layout(c1, ChromeLayout::Topbar, url)
        } else {
            c1
        };
        apply_layout(Chrome { sidebar_revealed: false, sidebar_visible: false, ..c2 })
    } else if c1.layout == ChromeLayout::Sidebar {
        Chrome { sidebar_visible: true, sidebar_revealed: true, ..c1 }
    } else {
        c1
    }
}

pub open spec fn other_layout(layout: ChromeLayout) -> ChromeLayout {
    match layout {
        ChromeLayout::Topbar => ChromeLayout::Sidebar,
        ChromeLayout::Sidebar => ChromeLayout::Topbar,
    }
}

/// The chrome after the pointer moved: in the topbar layout an auto-hidden
/// topbar shows at the top edge and hides when far below it; in the sidebar
/// layout the sidebar slides in at the left edge and out when far from it.
pub open spec fn pointer_step(c: Chrome, top: PointerZone, side: SideZone) -> Chrome {
    let c = if c.layout != ChromeLayout::Topbar || !c.auto_hide {
        c
    } else {
        match top {
            PointerZone::TopEdge => Chrome { topbar_revealed: true, ..c },
            PointerZone::Away => Chrome { topbar_revealed: false, ..c },
            PointerZone::Between => c,
        }
    };
    if c.layout != ChromeLayout::Sidebar {
        c
    } else {
        match side {
            SideZone::LeftEdge => Chrome { sidebar_revealed: true, ..c },
            SideZone::Away => Chrome { sidebar_revealed: false, ..c },
            SideZone::Between => c,
        }
    }
}

/// Whether the dark theme is in effect.
pub open spec fn dark_active(pref: ThemePreference, system_dark: bool) -> bool {
    match pref {
        ThemePreference::Dark => true,
        ThemePreference::Light => false,
        ThemePreference::System => system_dark,
    }
}

/// The view of an optional string slice.
pub open spec fn opt_str(o: Option<&str>) -> Option<Seq<char>> {
    match o {
        Some(s) => Some(s@),
        None => None,
    }
}

/// The chrome of a new window: topbar layout, system theme, sidebar enabled,
/// topbar shown.
pub open spec fn initial_chrome() -> Chrome {
    apply_layout(
        Chrome {
            layout: ChromeLayout::Topbar,
            theme_pref: ThemePreference::System,
            sidebar_enabled: true,
            auto_hide: false,
            topbar_visible: true,
            topbar_revealed: true,
            sidebar_visible: false,
            sidebar_revealed: false,
            progress_visible: false,
        },
    )
}

impl Chrome {
    /// The chrome of a new window.
    pub fn new() -> (r: Chrome)
        ensures
            r == initial_chrome(),
            chrome_wf(r),
    {
        let mut c = Chrome {
            layout: ChromeLayout::Topbar,
            theme_pref: ThemePreference::System,
            sidebar_enabled: true,
            auto_hide: false,
            topbar_visible: true,
            topbar_revealed: true,
            sidebar_visible: false,
            sidebar_revealed: false,
            progress_visible: false,
        };
        c.apply();
        c
    }

    fn apply(&mut self)
        ensures
            *final(self) == apply_layout(*old(self)),
    {
        match self.layout {
            ChromeLayout::Topbar => {
                self.topbar_visible = true;
                self.topbar_revealed = !self.auto_hide;
                self.sidebar_revealed = false;
                self.sidebar_visible = false;
            },
            ChromeLayout::Sidebar => {
                self.auto_hide = false;
                self.progress_visible = false;
                self.topbar_revealed = false;
                self.topbar_visible = false;
                self.sidebar_revealed = true;
                self.sidebar_visible = true;
            },
        }
    }

    fn switch_layout(&mut self, layout: ChromeLayout, current_url: Option<&str>)
        ensures
            *final(self) == with_layout(*old(self), layout, opt_str(current_url)),
    {
        self.layout = layout;
        if layout == ChromeLayout::Sidebar {
            self.sidebar_enabled = true;
            self.auto_hide = false;
        }
        self.apply();
        if let Some(url) = current_url {
            self.auto_hide_for(url);
        }
    }

    fn auto_hide_for(&mut self, url: &str)
        ensures
            *final(self) == auto_hide_for_url(*old(self), url@),
    {
        if self.layout == ChromeLayout::Sidebar {
            self.apply();
            return;
        }
        if is_blank_page(url) {
            // disable auto-hide
            self.auto_hide = false;
            if self.layout == ChromeLayout::Topbar {
                self.topbar_revealed = true;
            }
        } else if self.layout == ChromeLayout::Topbar {
            // enable auto-hide
            self.auto_hide = true;
            self.topbar_revealed = false;
        }
    }
}

// ── keyboard ───────────────────────────────────────────────────────────────

/// The keys the window reacts to.
#[derive(Debug, Clone, Copy, PartialEq, Eq, Structural)]
pub enum KeyName {
    L,
    R,
    B,
    Comma,
    Left,
    Right,
    F,
    F5,
    Escape,
    T,
    W,
    Tab,
    IsoLeftTab,
    P,
    PageUp,
    /// A digit key of the main keyboard row.
    Digit(u8),
    Other,
}

/// What a key press does.
#[derive(Debug, Clone, Copy, PartialEq, Eq, Structural)]
pub enum KeyDispatch {
    /// Run the command; the key press is consumed.
    Run(WinCmd),
    /// Close the open settings dialog; the key press goes on.
    CloseSettings,
    /// Not a shortcut; the key press goes on.
    Pass,
}

/// The shortcut table.
pub open spec fn key_dispatch_spec(
    ctrl: bool,
    shift: bool,
    alt: bool,
    key: KeyName,
    settings_open: bool,
) -> KeyDispatch {
    if ctrl && !shift && !alt {
        match key {
            KeyName::L => KeyDispatch::Run(WinCmd::FocusAddress),
            KeyName::R => KeyDispatch::Run(WinCmd::Reload),
            KeyName::B => KeyDispatch::Run(WinCmd::ToggleSidebar),
            KeyName::Comma => KeyDispatch::Run(WinCmd::OpenSettings),
            KeyName::T => KeyDispatch::Run(WinCmd::NewTab),
            KeyName::W => KeyDispatch::Run(WinCmd::CloseTab),
            KeyName::Tab => KeyDispatch::Run(WinCmd::NextTab),
            KeyName::P => KeyDispatch::Run(WinCmd::TogglePin),
            KeyName::PageUp => KeyDispatch::Run(WinCmd::NextWorkspace),
            KeyName::Digit(d) => if 1 <= d && d <= 9 {
                KeyDispatch::Run(WinCmd::SwitchTab(d as i32))
            } else {
                KeyDispatch::Pass
            },
            _ => KeyDispatch::Pass,
        }
    } else if ctrl && shift && !alt {
        match key {
            KeyName::Tab => KeyDispatch::Run(WinCmd::PrevTab),
            KeyName::IsoLeftTab => KeyDispatch::Run(WinCmd::PrevTab),
            _ => KeyDispatch::Pass,
        }
    } else if !ctrl && !shift && alt {
        match key {
            KeyName::Left => KeyDispatch::Run(WinCmd::Back),
            KeyName::Right => KeyDispatch::Run(WinCmd::Forward),
            KeyName::F => KeyDispatch::Run(WinCmd::OpenBrowserMenu),
            _ => KeyDispatch::Pass,
        }
    } else if !ctrl && !shift && !alt {
        match key {
            KeyName::F5 => KeyDispatch::Run(WinCmd::Reload),
            KeyName::Escape => if settings_open {
                KeyDispatch::CloseSettings
            } else {
                KeyDispatch::Run(WinCmd::Stop)
            },
            _ => KeyDispatch::Pass,
        }
    } else {
        KeyDispatch::Pass
    }
}

/// Maps a key press (with its Ctrl / Shift / Alt state) to what the window does.
pub fn key_dispatch(ctrl: bool, shift: bool, alt: bool, key: KeyName, settings_open: bool) -> (r:
    KeyDispatch)
    ensures
        r == key_dispatch_spec(ctrl, shift, alt, key, settings_open),
{
    match (ctrl, shift, alt, key) {
        (true, false, false, KeyName::L) => KeyDispatch::Run(WinCmd::FocusAddress),
        (true, false, false, KeyName::R) => KeyDispatch::Run(WinCmd::Reload),
        (true, false, false, KeyName::B) => KeyDispatch::Run(WinCmd::ToggleSidebar),
        (true, false, false, KeyName::Comma) => KeyDispatch::Run(WinCmd::OpenSettings),
        (false, false, true, KeyName::Left) => KeyDispatch::Run(WinCmd::Back),
        (false, false, true, KeyName::Right) => KeyDispatch::Run(WinCmd::Forward),
        (false, false, true, KeyName::F) => KeyDispatch::Run(WinCmd::OpenBrowserMenu),
        (false, false, false, KeyName::F5) => KeyDispatch::Run(WinCmd::Reload),
        (false, false, false, KeyName::Escape) => {
            if settings_open {
                KeyDispatch::CloseSettings
            } else {
                KeyDispatch::Run(WinCmd::Stop)
            }
        },
        (true, false, false, KeyName::T) => KeyDispatch::Run(WinCmd::NewTab),
        (true, false, false, KeyName::W) => KeyDispatch::Run(WinCmd::CloseTab),
        (true, false, false, KeyName::Tab) => KeyDispatch::Run(WinCmd::NextTab),
        (true, true, false, KeyName::Tab) => KeyDispatch::Run(WinCmd::PrevTab),
        (true, true, false, KeyName::IsoLeftTab) => KeyDispatch::Run(WinCmd::PrevTab),
        (true, false, false, KeyName::P) => KeyDispatch::Run(WinCmd::TogglePin),
        (true, false, false, KeyName::PageUp) => KeyDispatch::Run(WinCmd::NextWorkspace),
        (true, false, false, KeyName::Digit(d)) => {
            if 1 <= d && d <= 9 {
                KeyDispatch::Run(WinCmd::SwitchTab(d as i32))
            } else {
                KeyDispatch::Pass
            }
        },
        _ => KeyDispatch::Pass,
    }
}


// ── the window ─────────────────────────────────────────────────────────────

/// A tab just opened: its id in the window, its state, and what its web
/// view loads first.
#[derive(Debug)]
pub struct OpenedTab {
    pub id: u64,
    pub tab: Tab,
    pub action: TabAction,
}

/// The state and first load of a new tab: the new-tab page when `blank`,
/// else the home page.
pub open spec fn new_tab_content(blank: bool) -> (TabModel, TabActionView) {
    if blank {
        (
            TabModel { title: "New Tab"@, url: "about:newtab"@, loading: false, pinned: false },
            TabActionView::LoadNewTabPage,
        )
    } else {
        navigate_step(
            TabModel { title: Seq::empty(), url: Seq::empty(), loading: false, pinned: false },
            config::HOME_PAGE@,
        )
    }
}

/// What is left for the widgets to do once a command has changed the
/// window's state.
#[derive(Debug)]
pub enum WindowAction {
    /// Nothing is left to do.
    Nothing,
    GoBack,
    GoForward,
    Reload,
    Stop,
    /// Focus the address entry of the sidebar (true) or of the topbar (false).
    FocusAddress(bool),
    /// Build the widgets of this tab, which is now listed last and shown.
    OpenTab(OpenedTab),
    /// Take down the closed tab's widgets, build those of the blank tab that
    /// replaced it if there is one, and show `outcome.shown`.
    CloseTab { outcome: CloseOutcome, opened: Option<OpenedTab> },
    /// Bring up the tab with this id, which is now the shown one.
    ShowTab(u64),
    /// Make the widgets match the new layout.
    ApplyLayout,
    /// Hand this event of the shown tab to its listener.
    Emit(TabEvent),
    OpenBrowserMenu,
    /// Put up (true) or take down (false) the settings dialog.
    Settings(bool),
}

/// The index that `Ctrl+n` selects: the `n`-th tab, counting from one.
pub open spec fn switch_index(n: i32) -> int {
    if n >= 1 {
        n - 1
    } else {
        0
    }
}

/// The outcome of closing the shown tab.
#[derive(Debug, Clone, Copy, PartialEq, Eq, Structural)]
pub struct CloseOutcome {
    /// The tab that was closed.
    pub removed: u64,
    /// The tab shown now.
    pub shown: u64,
    /// Whether `shown` is a new blank tab, opened because none was left.
    pub opened_blank: bool,
}

/// What the window changes on screen for a tab event.
#[derive(Debug)]
pub enum ChromeUpdate {
    SetAddressText(String),
    SetCurrentRowLabel(String),
    SetCurrentRowTooltip(String),
    /// Show (and pulse) or hide (and reset) the progress bar.
    ShowProgress(bool),
    /// Load an error page into the tab with the given id (the shown one).
    ShowErrorPage { tab: u64, html: String, base_uri: String },
    ResortTabs,
}

pub enum ChromeUpdateView {
    SetAddressText(Seq<char>),
    SetCurrentRowLabel(Seq<char>),
    SetCurrentRowTooltip(Seq<char>),
    ShowProgress(bool),
    ShowErrorPage { tab: u64, html: Seq<char>, base_uri: Seq<char> },
    ResortTabs,
}

impl View for ChromeUpdate {
    type V = ChromeUpdateView;

    open spec fn view(&self) -> ChromeUpdateView {
        match self {
            ChromeUpdate::SetAddressText(t) => ChromeUpdateView::SetAddressText(t@),
            ChromeUpdate::SetCurrentRowLabel(t) => ChromeUpdateView::SetCurrentRowLabel(t@),
            ChromeUpdate::SetCurrentRowTooltip(t) => ChromeUpdateView::SetCurrentRowTooltip(t@),
            ChromeUpdate::ShowProgress(b) => ChromeUpdateView::ShowProgress(*b),
            ChromeUpdate::ShowErrorPage { tab, html, base_uri } => ChromeUpdateView::ShowErrorPage {
                tab: *tab,
                html: html@,
                base_uri: base_uri@,
            },
            ChromeUpdate::ResortTabs => ChromeUpdateView::ResortTabs,
        }
    }
}

pub open spec fn updates_view(v: Seq<ChromeUpdate>) -> Seq<ChromeUpdateView> {
    v.map_values(|u: ChromeUpdate| u@)
}

/// How the chrome changes, and what is updated on screen, for an event sent
/// by the tab `sender` while the tab `shown` (whose state is `current`) is
/// the shown one. The address bar, the auto-hide state and the shown tab's
/// row follow the shown tab only; the progress bar follows any tab's loads,
/// and an error page is loaded into the shown tab.
pub open spec fn tab_event_step(
    c: Chrome,
    shown: Option<u64>,
    sender: u64,
    ev: TabEventView,
    current: Option<crate::tab::TabModel>,
) -> (Chrome, Seq<ChromeUpdateView>) {
    match ev {
        TabEventView::UriChanged(uri) => if shown == Some(sender) {
            let label = match current {
                Some(_) => seq![ChromeUpdateView::SetCurrentRowLabel(short_url_spec(uri))],
                None => Seq::empty(),
            };
            (
                auto_hide_for_url(c, uri),
                seq![ChromeUpdateView::SetAddressText(address_text_spec(uri))] + label + seq![
                    ChromeUpdateView::ResortTabs,
                ],
            )
        } else {
            (c, seq![ChromeUpdateView::ResortTabs])
        },
        TabEventView::TitleChanged(title) => match current {
            Some(t) => if shown == Some(sender) {
                (
                    c,
                    seq![
                        ChromeUpdateView::SetCurrentRowTooltip(short_title_spec(title)),
                        ChromeUpdateView::SetCurrentRowLabel(
                            if c.layout == ChromeLayout::Sidebar {
                                sidebar_tab_label_spec(t.title, t.url)
                            } else {
                                tab_label_spec(t.title, t.url, t.pinned)
                            },
                        ),
                    ],
                )
            } else {
                (c, Seq::empty())
            },
            None => (c, Seq::empty()),
        },
        TabEventView::LoadingChanged(loading) => {
            let show = loading && c.layout == ChromeLayout::Topbar;
            (Chrome { progress_visible: show, ..c }, seq![ChromeUpdateView::ShowProgress(show)])
        },
        TabEventView::LoadFailed { uri, message } => match shown {
            Some(id) => (
                c,
                seq![
                    ChromeUpdateView::ShowErrorPage {
                        tab: id,
                        html: error_page_spec(uri, message),
                        base_uri: uri,
                    },
                ],
            ),
            None => (c, Seq::empty()),
        },
        TabEventView::PinnedChanged(_) => (c, seq![ChromeUpdateView::ResortTabs]),
    }
}

/// The view of an optional tab.
pub open spec fn opt_tab(t: Option<&Tab>) -> Option<crate::tab::TabModel> {
    match t {
        Some(t) => Some(t@),
        None => None,
    }
}

/// The index of the shown tab; 0 when no tab is shown.
pub open spec fn current_index_spec(tabs: Seq<u64>, current: Option<u64>) -> int {
    match current {
        Some(c) => if tabs.contains(c) {
            choose|i: int| 0 <= i < tabs.len() && tabs[i] == c
        } else {
            0
        },
        None => 0,
    }
}

/// `a` mod `n` as Rust's `%` computes it for a signed `a`: the remainder
/// takes the sign of `a`.
pub open spec fn trunc_rem(a: int, n: int) -> int {
    if a >= 0 {
        a % n
    } else {
        -((-a) % n)
    }
}

/// A move of `delta` places from the shown tab stays within the index
/// arithmetic of `i32`.
pub open spec fn relative_switch_ok(tabs: Seq<u64>, current: Option<u64>, delta: i32) -> bool {
    &&& tabs.len() <= i32::MAX
    &&& tabs.len() > 0 ==> {
        let x = current_index_spec(tabs, current) + delta;
        &&& i32::MIN <= x <= i32::MAX
        &&& trunc_rem(x, tabs.len() as int) + tabs.len() <= i32::MAX
    }
}

/// The index of the tab `delta` places from the shown one, wrapping around.
pub open spec fn relative_index(tabs: Seq<u64>, current: Option<u64>, delta: i32) -> int {
    (current_index_spec(tabs, current) + delta) % (tabs.len() as int)
}

/// The tab list is consistent: no tab twice, every id below the next one to
/// hand out, and a tab is shown exactly when there are tabs, one of them.
pub open spec fn tabs_wf(tabs: Seq<u64>, current: Option<u64>, next_id: u64) -> bool {
    &&& tabs.no_duplicates()
    &&& forall|i: int| 0 <= i < tabs.len() ==> #[trigger] tabs[i] < next_id
    &&& (current is None) == (tabs.len() == 0)
    &&& current matches Some(c) ==> tabs.contains(c)
}

/// `after` is `before` with its shown tab (the first one when none is shown)
/// closed as `o` tells: the neighbour that took its place, or the new last
/// tab, is shown; when no tab is left a blank one is opened, under a fresh id
/// while one is left and under the closed tab's id once the ids run out.
pub open spec fn closed_as(before: BrowserWindow, after: BrowserWindow, o: CloseOutcome) -> bool {
    let i = current_index_spec(before.tabs@, before.current);
    let rest = before.tabs@.remove(i);
    &&& o.removed == before.tabs@[i]
    &&& after.current == Some(o.shown)
    &&& o.opened_blank == (rest.len() == 0)
    &&& rest.len() == 0 ==> {
        &&& after.tabs@ == seq![o.shown]
        &&& before.next_id < u64::MAX ==> o.shown == before.next_id && after.next_id
            == before.next_id + 1
        &&& before.next_id == u64::MAX ==> o.shown == o.removed && after.next_id
            == before.next_id
    }
    &&& rest.len() > 0 ==> {
        &&& o.shown == rest[if i < rest.len() {
            i
        } else {
            rest.len() - 1
        }]
        &&& after.tabs@ == rest
        &&& after.next_id == before.next_id
    }
    &&& after.chrome == before.chrome
    &&& after.settings_open == before.settings_open
}

/// The state and first load of a new tab.
fn new_tab(blank: bool) -> (r: (Tab, TabAction))
    ensures
        (r.0@, r.1@) == new_tab_content(blank),
{
    if blank {
        (Tab::new_blank(), TabAction::LoadNewTabPage)
    } else {
        Tab::new(config::HOME_PAGE)
    }
}

/// The state behind a browser window: its chrome, whether the settings
/// dialog is open, and its tabs (by id, in tab order) with the shown one.
pub struct BrowserWindow {
    pub chrome: Chrome,
    pub settings_open: bool,
    pub tabs: Vec<u64>,
    pub current: Option<u64>,
    pub next_id: u64,
}

proof fn lemma_neg_mod(x: int, len: int, m: int)
    requires
        len > 0,
        x < 0,
        m == (-x) % len,
    ensures
        m == 0 ==> x % len == 0,
        m != 0 ==> x % len == len - m,
{
    let q = (-x) / len;
    assert(-x == q * len + m) by (nonlinear_arith)
        requires
            len > 0,
            q == (-x) / len,
            m == (-x) % len,
    ;
    assert(0 <= m < len) by (nonlinear_arith)
        requires
            len > 0,
            m == (-x) % len,
    ;
    if m == 0 {
        assert(x == (-q) * len) by (nonlinear_arith)
            requires
                -x == q * len + m,
                m == 0,
        ;
        assert(x % len == 0) by (nonlinear_arith)
            requires
                x == (-q) * len,
                len > 0,
        ;
    } else {
        assert(x == (-q - 1) * len + (len - m)) by (nonlinear_arith)
            requires
                -x == q * len + m,
        ;
        vstd::arithmetic::div_mod::lemma_fundamental_div_mod_converse(x, len, -q - 1, len - m);
    }
}

/// `(cur + delta) mod len`, the result in `0..len`.
fn wrap_index(cur: usize, delta: i32, len: usize) -> (r: usize)
    requires
        len > 0,
        cur < len,
    ensures
        r as int == (cur + delta) % (len as int),
        r < len,
{
    let x: i128 = cur as i128 + delta as i128;
    if x >= 0 {
        ((x as u128) % (len as u128)) as usize
    } else {
        let m = ((-x) as u128) % (len as u128);
        proof {
            lemma_neg_mod(x as int, len as int, m as int);
        }
        if m == 0 {
            0
        } else {
            len - m as usize
        }
    }
}

impl BrowserWindow {
    pub open spec fn wf(&self) -> bool {
        chrome_wf(self.chrome) && tabs_wf(self.tabs@, self.current, self.next_id)
    }

    /// A window with no tabs yet.
    pub fn new() -> (r: BrowserWindow)
        ensures
            r.wf(),
            r.tabs@.len() == 0,
            r.current is None,
            r.next_id == 0,
            !r.settings_open,
            r.chrome == initial_chrome(),
    {
        BrowserWindow {
            chrome: Chrome::new(),
            settings_open: false,
            tabs: Vec::new(),
            current: None,
            next_id: 0,
        }
    }

    /// Lists a fresh id at the end and shows it; returns the id.
    fn push_tab(&mut self) -> (id: u64)
        requires
            old(self).wf(),
            old(self).next_id < u64::MAX,
        ensures
            final(self).wf(),
            id == old(self).next_id,
            final(self).tabs@ == old(self).tabs@.push(id),
            final(self).current == Some(id),
            final(self).next_id == old(self).next_id + 1,
            final(self).chrome == old(self).chrome,
            final(self).settings_open == old(self).settings_open,
    {
        let id = self.next_id;
        self.next_id = self.next_id + 1;
        self.tabs.push(id);
        self.current = Some(id);
        proof {
            let t = self.tabs@;
            assert(t.last() == id);
            assert(t.contains(id));
            assert forall|i: int, j: int| 0 <= i < t.len() && 0 <= j < t.len() && i != j implies t[i]
                != t[j] by {
                if i < t.len() - 1 && j < t.len() - 1 {
                    assert(old(self).tabs@[i] != old(self).tabs@[j]);
                } else if i == t.len() - 1 {
                    assert(old(self).tabs@[j] < id);
                } else {
                    assert(old(self).tabs@[i] < id);
                }
            }
        }
        id
    }

    /// Adds a tab at the end and shows it: a blank one on the new-tab page
    /// when `blank`, else one opening the home page.
    pub fn add_tab(&mut self, blank: bool) -> (r: OpenedTab)
        requires
            old(self).wf(),
            old(self).next_id < u64::MAX,
        ensures
            final(self).wf(),
            r.id == old(self).next_id,
            final(self).tabs@ == old(self).tabs@.push(r.id),
            final(self).current == Some(r.id),
            final(self).next_id == old(self).next_id + 1,
            (r.tab@, r.action@) == new_tab_content(blank),
            final(self).chrome == old(self).chrome,
            final(self).settings_open == old(self).settings_open,
    {
        let id = self.push_tab();
        let (tab, action) = new_tab(blank);
        OpenedTab { id, tab, action }
    }

    /// Shows the tab `id`.
    pub fn activate(&mut self, id: u64)
        requires
            old(self).wf(),
            old(self).tabs@.contains(id),
        ensures
            final(self).wf(),
            final(self).current == Some(id),
            final(self).tabs@ == old(self).tabs@,
            final(self).next_id == old(self).next_id,
            final(self).chrome == old(self).chrome,
            final(self).settings_open == old(self).settings_open,
    {
        self.current = Some(id);
    }

    /// The position of the shown tab in tab order; 0 when none is shown.
    pub fn current_index(&self) -> (r: usize)
        requires
            self.wf(),
        ensures
            r as int == current_index_spec(self.tabs@, self.current),
            self.tabs@.len() > 0 ==> r < self.tabs@.len() && Some(self.tabs@[r as int])
                == self.current,
    {
        match self.current {
            None => 0,
            Some(c) => {
                let n = self.tabs.len();
                let mut i: usize = 0;
                while i < n
                    invariant
                        self.wf(),
                        self.current == Some(c),
                        n == self.tabs@.len(),
                        i <= n,
                        forall|k: int| 0 <= k < i ==> self.tabs@[k] != c,
                    decreases n - i,
                {
                    if self.tabs[i] == c {
                        proof {
                            assert(self.tabs@.contains(c));
                            let j = choose|j: int| 0 <= j < self.tabs@.len() && self.tabs@[j] == c;
                            assert(j == i);
                        }
                        return i;
                    }
                    i = i + 1;
                }
                proof {
                    assert(self.tabs@.contains(c));
                    let j = choose|j: int| 0 <= j < self.tabs@.len() && self.tabs@[j] == c;
                    assert(self.tabs@[j] == c);
                }
                0
            },
        }
    }

    /// Shows the tab `delta` places from the shown one, wrapping around;
    /// returns it, or nothing when there are no tabs.
    pub fn switch_tab_relative(&mut self, delta: i32) -> (r: Option<u64>)
        requires
            old(self).wf(),
            relative_switch_ok(old(self).tabs@, old(self).current, delta),
        ensures
            final(self).wf(),
            old(self).tabs@.len() == 0 ==> r is None && *final(self) == *old(self),
            old(self).tabs@.len() > 0 ==> {
                let i = relative_index(old(self).tabs@, old(self).current, delta);
                &&& r == Some(old(self).tabs@[i])
                &&& final(self).current == r
            },
            final(self).tabs@ == old(self).tabs@,
            final(self).next_id == old(self).next_id,
            final(self).chrome == old(self).chrome,
            final(self).settings_open == old(self).settings_open,
    {
        let len = self.tabs.len();
        if len == 0 {
            return None;
        }
        let cur = self.current_index();
        let i = wrap_index(cur, delta, len);
        let id = self.tabs[i];
        self.activate(id);
        Some(id)
    }

    /// Shows the tab at `idx`, if there is one; returns it.
    pub fn switch_tab_index(&mut self, idx: usize) -> (r: Option<u64>)
        requires
            old(self).wf(),
        ensures
            final(self).wf(),
            idx < old(self).tabs@.len() ==> r == Some(old(self).tabs@[idx as int])
                && final(self).current == r,
            idx >= old(self).tabs@.len() ==> r is None && *final(self) == *old(self),
            final(self).tabs@ == old(self).tabs@,
            final(self).next_id == old(self).next_id,
            final(self).chrome == old(self).chrome,
            final(self).settings_open == old(self).settings_open,
    {
        if idx < self.tabs.len() {
            let id = self.tabs[idx];
            self.activate(id);
            Some(id)
        } else {
            None
        }
    }

    /// Closes the shown tab (the first one when none is shown) and shows its
    /// neighbour: the tab that took its place, or the new last tab; closing
    /// the only tab opens a blank one, under a fresh id while one is left and
    /// under the closed tab's id once the ids run out. Nothing happens when
    /// there are no tabs.
    pub fn close_current_tab(&mut self) -> (r: Option<CloseOutcome>)
        requires
            old(self).wf(),
        ensures
            final(self).wf(),
            old(self).tabs@.len() == 0 ==> r is None && *final(self) == *old(self),
            old(self).tabs@.len() > 0 ==> (r matches Some(o) && closed_as(*old(self), *final(self), o)),
            final(self).tabs@.len() >= 1 || old(self).tabs@.len() == 0,
            final(self).chrome == old(self).chrome,
            final(self).settings_open == old(self).settings_open,
    {
        if self.tabs.len() == 0 {
            return None;
        }
        let cur_idx = self.current_index();
        let ghost old_tabs = self.tabs@;
        let removed = self.tabs.remove(cur_idx);
        proof {
            assert(self.tabs@ == old_tabs.remove(cur_idx as int));
            assert forall|i: int| 0 <= i < self.tabs@.len() implies #[trigger] self.tabs@[i]
                < self.next_id by {
                if i < cur_idx {
                    assert(self.tabs@[i] == old_tabs[i]);
                } else {
                    assert(self.tabs@[i] == old_tabs[i + 1]);
                }
            }
            assert forall|i: int, j: int|
                0 <= i < self.tabs@.len() && 0 <= j < self.tabs@.len() && i != j implies self.tabs@[i]
                != self.tabs@[j] by {
                let oi = if i < cur_idx {
                    i
                } else {
                    i + 1
                };
                let oj = if j < cur_idx {
                    j
                } else {
                    j + 1
                };
                assert(self.tabs@[i] == old_tabs[oi]);
                assert(self.tabs@[j] == old_tabs[oj]);
            }
        }
        if self.tabs.len() == 0 {
            self.current = None;
            if self.next_id < u64::MAX {
                let shown = self.push_tab();
                assert(self.tabs@ =~= seq![shown]);
                Some(CloseOutcome { removed, shown, opened_blank: true })
            } else {
                self.tabs.push(removed);
                self.current = Some(removed);
                assert(self.tabs@ =~= seq![removed]);
                assert(self.tabs@[0] == removed);
                Some(CloseOutcome { removed, shown: removed, opened_blank: true })
            }
        } else {
            let new_idx = if cur_idx < self.tabs.len() {
                cur_idx
            } else {
                self.tabs.len() - 1
            };
            let shown = self.tabs[new_idx];
            self.current = Some(shown);
            assert(self.tabs@.contains(shown));
            Some(CloseOutcome { removed, shown, opened_blank: false })
        }
    }

    /// Opens the settings dialog, or closes it when it is open; returns
    /// whether it is open now.
    pub fn open_settings_dialog(&mut self) -> (r: bool)
        ensures
            r == !old(self).settings_open,
            final(self).settings_open == r,
            final(self).chrome == old(self).chrome,
            final(self).tabs@ == old(self).tabs@,
            final(self).current == old(self).current,
            final(self).next_id == old(self).next_id,
    {
        if self.settings_open {
            self.close_settings_dialog();
            return false;
        }
        self.settings_open = true;
        true
    }

    pub fn close_settings_dialog(&mut self)
        ensures
            !final(self).settings_open,
            final(self).chrome == old(self).chrome,
            final(self).tabs@ == old(self).tabs@,
            final(self).current == old(self).current,
            final(self).next_id == old(self).next_id,
    {
        self.settings_open = false;
    }

    /// Switches layout; `current_url` is the address of the shown tab, if any.
    pub fn set_chrome_layout(&mut self, layout: ChromeLayout, current_url: Option<&str>)
        requires
            old(self).wf(),
        ensures
            final(self).wf(),
            final(self).chrome == with_layout(old(self).chrome, layout, opt_str(current_url)),
            final(self).chrome.layout == layout,
            final(self).settings_open == old(self).settings_open,
            final(self).tabs@ == old(self).tabs@,
            final(self).current == old(self).current,
            final(self).next_id == old(self).next_id,
    {
        self.chrome.switch_layout(layout, current_url);
    }

    /// Called on every URL change (navigation + tab switch) to decide whether
    /// the topbar should auto-hide. New-tab / blank pages always show it.
    pub fn update_auto_hide_for_url(&mut self, url: &str)
        requires
            old(self).wf(),
        ensures
            final(self).wf(),
            final(self).chrome == auto_hide_for_url(old(self).chrome, url@),
            final(self).settings_open == old(self).settings_open,
            final(self).tabs@ == old(self).tabs@,
            final(self).current == old(self).current,
            final(self).next_id == old(self).next_id,
    {
        self.chrome.auto_hide_for(url);
    }

    /// Enables or disables the sidebar; disabling it leaves the sidebar layout.
    pub fn set_sidebar_enabled(&mut self, enabled: bool, current_url: Option<&str>)
        requires
            old(self).wf(),
        ensures
            final(self).wf(),
            final(self).chrome == with_sidebar_enabled(old(self).chrome, enabled, opt_str(
                current_url,
            )),
            final(self).settings_open == old(self).settings_open,
            final(self).tabs@ == old(self).tabs@,
            final(self).current == old(self).current,
            final(self).next_id == old(self).next_id,
    {
        self.chrome.sidebar_enabled = enabled;
        if !enabled {
            if self.chrome.layout == ChromeLayout::Sidebar {
                self.chrome.switch_layout(ChromeLayout::Topbar, current_url);
            }
            self.chrome.sidebar_revealed = false;
            self.chrome.sidebar_visible = false;
            self.chrome.apply();
        } else if self.chrome.layout == ChromeLayout::Sidebar {
            self.chrome.sidebar_visible = true;
            self.chrome.sidebar_revealed = true;
        }
    }

    /// Switches to the other layout.
    pub fn toggle_sidebar(&mut self, current_url: Option<&str>)
        requires
            old(self).wf(),
        ensures
            final(self).wf(),
            final(self).chrome == with_layout(
                old(self).chrome,
                other_layout(old(self).chrome.layout),
                opt_str(current_url),
            ),
            final(self).chrome.layout == other_layout(old(self).chrome.layout),
            final(self).settings_open == old(self).settings_open,
            final(self).tabs@ == old(self).tabs@,
            final(self).current == old(self).current,
            final(self).next_id == old(self).next_id,
    {
        let next = match self.chrome.layout {
            ChromeLayout::Topbar => ChromeLayout::Sidebar,
            ChromeLayout::Sidebar => ChromeLayout::Topbar,
        };
        self.set_chrome_layout(next, current_url);
    }

    /// Reacts to the pointer moving to `top` (seen from the top edge) and
    /// `side` (seen from the left edge).
    pub fn on_pointer(&mut self, top: PointerZone, side: SideZone)
        requires
            old(self).wf(),
        ensures
            final(self).wf(),
            final(self).chrome == pointer_step(old(self).chrome, top, side),
            final(self).settings_open == old(self).settings_open,
            final(self).tabs@ == old(self).tabs@,
            final(self).current == old(self).current,
            final(self).next_id == old(self).next_id,
    {
        if self.chrome.layout == ChromeLayout::Topbar && self.chrome.auto_hide {
            match top {
                PointerZone::TopEdge => self.chrome.topbar_revealed = true,
                PointerZone::Away => self.chrome.topbar_revealed = false,
                PointerZone::Between => {},
            }
        }
        if self.chrome.layout == ChromeLayout::Sidebar {
            match side {
                SideZone::LeftEdge => self.chrome.sidebar_revealed = true,
                SideZone::Away => self.chrome.sidebar_revealed = false,
                SideZone::Between => {},
            }
        }
    }

    /// Whether the dark theme is in effect; `system_dark` is the desktop's choice.
    pub fn is_dark_active(&self, system_dark: bool) -> (r: bool)
        ensures
            r == dark_active(self.chrome.theme_pref, system_dark),
    {
        match self.chrome.theme_pref {
            ThemePreference::Dark => true,
            ThemePreference::Light => false,
            ThemePreference::System => system_dark,
        }
    }

    pub fn set_theme_preference(&mut self, pref: ThemePreference)
        requires
            old(self).wf(),
        ensures
            final(self).wf(),
            final(self).chrome == (Chrome { theme_pref: pref, ..old(self).chrome }),
            final(self).settings_open == old(self).settings_open,
            final(self).tabs@ == old(self).tabs@,
            final(self).current == old(self).current,
            final(self).next_id == old(self).next_id,
    {
        self.chrome.theme_pref = pref;
    }

    /// Carries out a command on the window and on the shown tab `current`
    /// (whose address is `current_url`), and says what is left for the
    /// widgets to do.
    pub fn handle_cmd(&mut self, cmd: WinCmd, current: Option<&mut Tab>, current_url: Option<&str>) -> (r:
        WindowAction)
        requires
            old(self).wf(),
            cmd matches WinCmd::SwitchTab(n) ==> n > i32::MIN,
            cmd is NewTab ==> old(self).next_id < u64::MAX,
            cmd is NextTab || cmd is NextWorkspace ==> relative_switch_ok(
                old(self).tabs@,
                old(self).current,
                1i32,
            ),
            cmd is PrevTab ==> relative_switch_ok(old(self).tabs@, old(self).current, -1i32),
        ensures
            final(self).wf(),
            // Commands for the web view or the widgets alone change no state.
            cmd is Back ==> r is GoBack && *final(self) == *old(self),
            cmd is Forward ==> r is GoForward && *final(self) == *old(self),
            cmd is Reload ==> r is Reload && *final(self) == *old(self),
            cmd is Stop ==> r is Stop && *final(self) == *old(self),
            cmd is FocusAddress ==> *final(self) == *old(self) && r == WindowAction::FocusAddress(
                old(self).chrome.layout == ChromeLayout::Sidebar,
            ),
            cmd is OpenBrowserMenu ==> r is OpenBrowserMenu && *final(self) == *old(self),
            // A new blank tab is listed last and shown.
            cmd is NewTab ==> (r matches WindowAction::OpenTab(o) && {
                &&& o.id == old(self).next_id
                &&& final(self).tabs@ == old(self).tabs@.push(o.id)
                &&& final(self).current == Some(o.id)
                &&& final(self).next_id == old(self).next_id + 1
                &&& (o.tab@, o.action@) == new_tab_content(true)
                &&& final(self).chrome == old(self).chrome
                &&& final(self).settings_open == old(self).settings_open
            }),
            // The shown tab closes; a blank tab replaces the last one.
            cmd is CloseTab && old(self).tabs@.len() == 0 ==> r is Nothing && *final(self) == *old(
                self,
            ),
            cmd is CloseTab && old(self).tabs@.len() > 0 ==> (r matches WindowAction::CloseTab {
                outcome,
                opened,
            } && {
                &&& closed_as(*old(self), *final(self), outcome)
                &&& outcome.opened_blank ==> (opened matches Some(t) && t.id == outcome.shown && (
                t.tab@,
                t.action@,
            ) == new_tab_content(true))
                &&& !outcome.opened_blank ==> opened is None
            }),
            // Moving along the tabs, wrapping around.
            cmd is NextTab || cmd is NextWorkspace || cmd is PrevTab ==> {
                let delta: i32 = if cmd is PrevTab {
                    -1i32
                } else {
                    1i32
                };
                &&& final(self).tabs@ == old(self).tabs@
                &&& final(self).next_id == old(self).next_id
                &&& final(self).chrome == old(self).chrome
                &&& final(self).settings_open == old(self).settings_open
                &&& old(self).tabs@.len() == 0 ==> r is Nothing && final(self).current == old(
                    self,
                ).current
                &&& old(self).tabs@.len() > 0 ==> {
                    let id = old(self).tabs@[relative_index(old(self).tabs@, old(self).current, delta)];
                    &&& r == WindowAction::ShowTab(id)
                    &&& final(self).current == Some(id)
                }
            },
            // Ctrl+n shows the n-th tab, if there is one.
            cmd matches WinCmd::SwitchTab(n) ==> {
                let k = switch_index(n);
                &&& k < old(self).tabs@.len() ==> {
                    &&& r == WindowAction::ShowTab(old(self).tabs@[k])
                    &&& final(self).current == Some(old(self).tabs@[k])
                    &&& final(self).tabs@ == old(self).tabs@
                    &&& final(self).next_id == old(self).next_id
                    &&& final(self).chrome == old(self).chrome
                    &&& final(self).settings_open == old(self).settings_open
                }
                &&& k >= old(self).tabs@.len() ==> r is Nothing && *final(self) == *old(self)
            },
            cmd is ToggleSidebar ==> {
                &&& r is ApplyLayout
                &&& final(self).chrome == with_layout(
                    old(self).chrome,
                    other_layout(old(self).chrome.layout),
                    opt_str(current_url),
                )
                &&& final(self).tabs@ == old(self).tabs@
                &&& final(self).current == old(self).current
                &&& final(self).next_id == old(self).next_id
                &&& final(self).settings_open == old(self).settings_open
            },
            // The shown tab's pin flips and the change is reported.
            cmd is TogglePin ==> *final(self) == *old(self),
            cmd is TogglePin ==> (current matches Some(t) ==> final(t)@ == (TabModel {
                pinned: !t.pinned,
                ..t@
            }) && (r matches WindowAction::Emit(e) && e@ == TabEventView::PinnedChanged(!t.pinned))),
            cmd is TogglePin && current is None ==> r is Nothing,
            !(cmd is TogglePin) ==> (current matches Some(t) ==> *final(t) == *t),
            cmd is OpenSettings ==> {
                &&& r == WindowAction::Settings(!old(self).settings_open)
                &&& final(self).settings_open == !old(self).settings_open
                &&& final(self).chrome == old(self).chrome
                &&& final(self).tabs@ == old(self).tabs@
                &&& final(self).current == old(self).current
                &&& final(self).next_id == old(self).next_id
            },
    {
        match cmd {
            WinCmd::Back => WindowAction::GoBack,
            WinCmd::Forward => WindowAction::GoForward,
            WinCmd::Reload => WindowAction::Reload,
            WinCmd::Stop => WindowAction::Stop,
            WinCmd::FocusAddress => WindowAction::FocusAddress(
                self.chrome.layout == ChromeLayout::Sidebar,
            ),
            WinCmd::NewTab => WindowAction::OpenTab(self.add_tab(true)),
            WinCmd::CloseTab => match self.close_current_tab() {
                Some(outcome) => {
                    let opened = if outcome.opened_blank {
                        let (tab, action) = new_tab(true);
                        Some(OpenedTab { id: outcome.shown, tab, action })
                    } else {
                        None
                    };
                    WindowAction::CloseTab { outcome, opened }
                },
                None => WindowAction::Nothing,
            },
            WinCmd::NextTab | WinCmd::NextWorkspace => match self.switch_tab_relative(1) {
                Some(id) => WindowAction::ShowTab(id),
                None => WindowAction::Nothing,
            },
            WinCmd::PrevTab => match self.switch_tab_relative(-1) {
                Some(id) => WindowAction::ShowTab(id),
                None => WindowAction::Nothing,
            },
            WinCmd::SwitchTab(n) => {
                let m = n - 1;
                let k: usize = if m >= 0 {
                    m as usize
                } else {
                    0
                };
                match self.switch_tab_index(k) {
                    Some(id) => WindowAction::ShowTab(id),
                    None => WindowAction::Nothing,
                }
            },
            WinCmd::ToggleSidebar => {
                self.toggle_sidebar(current_url);
                WindowAction::ApplyLayout
            },
            WinCmd::TogglePin => match current {
                Some(t) => match t.toggle_pinned() {
                    Some(e) => WindowAction::Emit(e),
                    None => WindowAction::Nothing,
                },
                None => WindowAction::Nothing,
            },
            WinCmd::OpenBrowserMenu => WindowAction::OpenBrowserMenu,
            WinCmd::OpenSettings => WindowAction::Settings(self.open_settings_dialog()),
        }
    }

    /// Reacts to an event sent by the tab `sender` while `current` is the
    /// state of the shown tab.
    pub fn on_tab_event(&mut self, sender: u64, ev: &TabEvent, current: Option<&Tab>) -> (r: Vec<
        ChromeUpdate,
    >)
        requires
            old(self).wf(),
        ensures
            final(self).wf(),
            (final(self).chrome, updates_view(r@)) == tab_event_step(
                old(self).chrome,
                old(self).current,
                sender,
                ev@,
                opt_tab(current),
            ),
            final(self).settings_open == old(self).settings_open,
            final(self).tabs@ == old(self).tabs@,
            final(self).current == old(self).current,
            final(self).next_id == old(self).next_id,
    {
        let from_current = match self.current {
            Some(id) => id == sender,
            None => false,
        };
        match ev {
            TabEvent::UriChanged(uri) => {
                if !from_current {
                    let r = vec![ChromeUpdate::ResortTabs];
                    assert(updates_view(r@) =~= seq![ChromeUpdateView::ResortTabs]);
                    return r;
                }
                let mut r = vec![ChromeUpdate::SetAddressText(address_text_for(uri.as_str()))];
                self.chrome.auto_hide_for(uri.as_str());
                if current.is_some() {
                    // Belt-and-suspenders: force label to "New Tab" for any
                    // data:/about: URI so the raw URL never leaks into the tab pill.
                    r.push(ChromeUpdate::SetCurrentRowLabel(short_url(uri.as_str())));
                }
                // Re-order if pin state changed via load (rare).
                r.push(ChromeUpdate::ResortTabs);
                proof {
                    let label = match current {
                        Some(_) => seq![ChromeUpdateView::SetCurrentRowLabel(short_url_spec(uri@))],
                        None => Seq::empty(),
                    };
                    assert(updates_view(r@) =~= seq![
                        ChromeUpdateView::SetAddressText(address_text_spec(uri@)),
                    ] + label + seq![ChromeUpdateView::ResortTabs]);
                }
                r
            },
            TabEvent::TitleChanged(title) => {
                match current {
                    Some(tab) => {
                        if !from_current {
                            let r = Vec::new();
                            assert(updates_view(r@) =~= Seq::<ChromeUpdateView>::empty());
                            return r;
                        }
                        let short = short_title(title.as_str());
                        let label = if self.chrome.layout == ChromeLayout::Sidebar {
                            sidebar_tab_label_for(tab)
                        } else {
                            tab_label_for(tab, tab.pinned)
                        };
                        let r = vec![
                            ChromeUpdate::SetCurrentRowTooltip(short),
                            ChromeUpdate::SetCurrentRowLabel(label),
                        ];
                        proof {
                            let (_, want) = tab_event_step(
                                self.chrome,
                                self.current,
                                sender,
                                ev@,
                                opt_tab(current),
                            );
                            assert(updates_view(r@) =~= want);
                        }
                        r
                    },
                    None => {
                        let r = Vec::new();
                        assert(updates_view(r@) =~= Seq::<ChromeUpdateView>::empty());
                        r
                    },
                }
            },
            TabEvent::LoadingChanged(loading) => {
                let show = *loading && self.chrome.layout == ChromeLayout::Topbar;
                self.chrome.progress_visible = show;
                let r = vec![ChromeUpdate::ShowProgress(show)];
                assert(updates_view(r@) =~= seq![ChromeUpdateView::ShowProgress(show)]);
                r
            },
            TabEvent::LoadFailed { uri, message } => match self.current {
                Some(id) => {
                    let html = error_page_html(uri.as_str(), message.as_str());
                    let r = vec![ChromeUpdate::ShowErrorPage { tab: id, html, base_uri: uri.clone() }];
                    proof {
                        let (_, want) = tab_event_step(
                            self.chrome,
                            self.current,
                            sender,
                            ev@,
                            opt_tab(current),
                        );
                        assert(updates_view(r@) =~= want);
                    }
                    r
                },
                None => {
                    let r = Vec::new();
                    assert(updates_view(r@) =~= Seq::<ChromeUpdateView>::empty());
                    r
                },
            },
            TabEvent::PinnedChanged(_) => {
                let r = vec![ChromeUpdate::ResortTabs];
                assert(updates_view(r@) =~= seq![ChromeUpdateView::ResortTabs]);
                r
            },
        }
    }
}


// ── tab strip order and sizes ──────────────────────────────────────────────

/// The positions whose flag is `b`, in increasing order.
pub open spec fn indices_with(flags: Seq<bool>, b: bool) -> Seq<int>
    decreases flags.len(),
{
    if flags.len() == 0 {
        Seq::empty()
    } else {
        indices_with(flags.drop_last(), b) + if flags.last() == b {
            seq![flags.len() - 1]
        } else {
            Seq::empty()
        }
    }
}

/// The order in which tabs are laid out: pinned tabs first, then the
/// others, each group in tab order.
pub open spec fn pinned_first(pinned: Seq<bool>) -> Seq<int> {
    indices_with(pinned, true) + indices_with(pinned, false)
}

proof fn lemma_indices_with_step(flags: Seq<bool>, i: int, b: bool)
    requires
        0 <= i < flags.len(),
    ensures
        indices_with(flags.take(i + 1), b) == indices_with(flags.take(i), b) + if flags[i] == b {
            seq![i]
        } else {
            Seq::empty()
        },
{
    assert(flags.take(i + 1).drop_last() =~= flags.take(i));
}

/// The layout order of the tabs whose pin flags are `pinned` (in tab order):
/// their indices, pinned tabs first.
pub fn tab_order(pinned: &Vec<bool>) -> (r: Vec<usize>)
    ensures
        r@.map_values(|i: usize| i as int) == pinned_first(pinned@),
{
    let n = pinned.len();
    let mut out: Vec<usize> = Vec::new();
    let mut i: usize = 0;
    assert(pinned@.take(0) =~= Seq::<bool>::empty());
    while i < n
        invariant
            n == pinned@.len(),
            i <= n,
            out@.map_values(|k: usize| k as int) == indices_with(pinned@.take(i as int), true),
        decreases n - i,
    {
        proof {
            lemma_indices_with_step(pinned@, i as int, true);
        }
        if pinned[i] {
            out.push(i);
        }
        proof {
            assert(out@.map_values(|k: usize| k as int) =~= indices_with(
                pinned@.take(i + 1),
                true,
            ));
        }
        i = i + 1;
    }
    assert(pinned@.take(n as int) =~= pinned@);
    let ghost first = indices_with(pinned@, true);
    let mut i: usize = 0;
    assert(indices_with(pinned@.take(0), false) =~= Seq::<int>::empty());
    assert(first + Seq::<int>::empty() =~= first);
    while i < n
        invariant
            n == pinned@.len(),
            i <= n,
            first == indices_with(pinned@, true),
            out@.map_values(|k: usize| k as int) == first + indices_with(
                pinned@.take(i as int),
                false,
            ),
        decreases n - i,
    {
        proof {
            lemma_indices_with_step(pinned@, i as int, false);
        }
        let ghost before = out@;
        if !pinned[i] {
            out.push(i);
            proof {
                assert(out@.map_values(|k: usize| k as int) =~= before.map_values(
                    |k: usize| k as int,
                ).push(i as int));
            }
        }
        proof {
            let a = indices_with(pinned@.take(i as int), false);
            if !pinned@[i as int] {
                assert((first + a).push(i as int) =~= first + (a + seq![i as int]));
            } else {
                assert(a + Seq::<int>::empty() =~= a);
            }
            assert(out@.map_values(|k: usize| k as int) =~= first + indices_with(
                pinned@.take(i + 1),
                false,
            ));
        }
        i = i + 1;
    }
    out
}

/// The width of an unpinned tab pill when `unpinned` tabs share the strip.
pub open spec fn tab_width_spec(unpinned: nat) -> int {
    let n = if unpinned < 1 {
        1
    } else {
        unpinned
    };
    if n <= 3 {
        130
    } else if n <= 5 {
        110
    } else if n <= 8 {
        85
    } else if n <= 12 {
        68
    } else {
        50
    }
}

/// The width of an unpinned tab pill when `unpinned` tabs share the strip.
pub fn tab_width_for(unpinned: usize) -> (r: i32)
    ensures
        r == tab_width_spec(unpinned as nat),
{
    let n = if unpinned < 1 {
        1
    } else {
        unpinned
    };
    if n <= 3 {
        130
    } else if n <= 5 {
        110
    } else if n <= 8 {
        85
    } else if n <= 12 {
        68
    } else {
        50
    }
}


// ── theme ──────────────────────────────────────────────────────────────────

/// A lower-cased theme name that announces a dark theme.
pub open spec fn dark_theme_name(lower: Seq<char>) -> bool {
    contains_seq(lower, "dark"@) || contains_seq(lower, "black"@)
}

/// Whether a lower-cased theme name contains "dark" or "black".
pub fn theme_name_is_dark(lower: &str) -> (r: bool)
    ensures
        r == dark_theme_name(lower@),
{
    contains_str(lower, "dark") || contains_str(lower, "black")
}

impl BrowserWindow {
    /// Whether the desktop asks for a dark theme: it prefers dark, or its
    /// theme's name contains "dark" or "black" in any case.
    pub fn is_system_dark(prefer_dark: bool, theme_name: Option<&str>) -> (r: bool)
        ensures
            r == (prefer_dark || match theme_name {
                Some(name) => dark_theme_name(lowercase_of(name@)),
                None => false,
            }),
    {
        if prefer_dark {
            return true;
        }
        if let Some(name) = theme_name {
            let lower = to_lowercase(name);
            if theme_name_is_dark(lower.as_str()) {
                return true;
            }
        }
        false
    }
}

} // verus!
