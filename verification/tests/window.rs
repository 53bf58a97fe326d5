use mini_browser::tab::{Tab, TabAction, TabEvent};
use mini_browser::window::{
    key_dispatch, tab_order, tab_width_for, theme_name_is_dark, BrowserWindow,
    ChromeLayout, ChromeUpdate, KeyDispatch, KeyName, PointerZone, SideZone, ThemePreference, WinCmd,
    WindowAction,
};

fn window_with(n: usize) -> BrowserWindow {
    let mut w = BrowserWindow::new();
    for _ in 0..n {
        w.add_tab(true);
    }
    w
}

#[test]
fn new_window_state() {
    let w = BrowserWindow::new();
    assert!(w.tabs.is_empty() && w.current.is_none());
    assert_eq!(w.chrome.layout, ChromeLayout::Topbar);
    assert!(w.chrome.topbar_visible && w.chrome.topbar_revealed);
    assert!(!w.chrome.sidebar_visible && !w.chrome.sidebar_revealed);
    assert!(w.chrome.sidebar_enabled && !w.chrome.auto_hide && !w.settings_open);
}

#[test]
fn adding_tabs_shows_the_new_one() {
    let mut w = BrowserWindow::new();
    let opened_a = w.add_tab(true);
    let a = opened_a.id;
    assert_eq!(opened_a.tab.url, "about:newtab");
    assert_eq!(opened_a.tab.title, "New Tab");
    assert!(!opened_a.tab.loading && !opened_a.tab.pinned);
    assert!(matches!(opened_a.action, TabAction::LoadNewTabPage));
    let opened_b = w.add_tab(false);
    let b = opened_b.id;
    assert_eq!(opened_b.tab.url, "https://example.com");
    assert_eq!(opened_b.tab.title, "");
    assert!(matches!(opened_b.action, TabAction::LoadUri(ref u) if u == "https://example.com"));
    assert_ne!(a, b);
    assert_eq!(w.tabs, vec![a, b]);
    assert_eq!(w.current, Some(b));
    assert_eq!(w.current_index(), 1);
}

#[test]
fn relative_switching_wraps() {
    let mut w = window_with(3);
    let ids = w.tabs.clone();
    assert_eq!(w.switch_tab_relative(1), Some(ids[0]));
    assert_eq!(w.switch_tab_relative(-1), Some(ids[2]));
    assert_eq!(w.switch_tab_relative(-1), Some(ids[1]));
    assert_eq!(w.switch_tab_relative(7), Some(ids[2]));
    let mut empty = BrowserWindow::new();
    assert_eq!(empty.switch_tab_relative(1), None);
}

#[test]
fn next_then_previous_returns() {
    let mut w = window_with(4);
    w.switch_tab_index(1);
    let before = w.current;
    w.switch_tab_relative(1);
    w.switch_tab_relative(-1);
    assert_eq!(w.current, before);
}

#[test]
fn index_switching() {
    let mut w = window_with(3);
    let ids = w.tabs.clone();
    assert_eq!(w.switch_tab_index(0), Some(ids[0]));
    assert_eq!(w.current, Some(ids[0]));
    assert_eq!(w.switch_tab_index(5), None);
    assert_eq!(w.current, Some(ids[0]));
}

#[test]
fn closing_tabs() {
    let mut w = window_with(3);
    let ids = w.tabs.clone();
    w.switch_tab_index(1);
    let o = w.close_current_tab().unwrap();
    assert_eq!(o.removed, ids[1]);
    assert_eq!(o.shown, ids[2]);
    assert!(!o.opened_blank);
    assert_eq!(w.tabs, vec![ids[0], ids[2]]);
    let o = w.close_current_tab().unwrap();
    assert_eq!((o.removed, o.shown), (ids[2], ids[0]));
    let o = w.close_current_tab().unwrap();
    assert_eq!(o.removed, ids[0]);
    assert!(o.opened_blank);
    assert_eq!(w.tabs, vec![o.shown]);
    assert_eq!(w.current, Some(o.shown));
    let mut empty = BrowserWindow::new();
    assert!(empty.close_current_tab().is_none());
}

#[test]
fn closing_the_last_tab_with_ids_used_up() {
    let mut w = BrowserWindow::new();
    w.tabs = vec![7];
    w.current = Some(7);
    w.next_id = u64::MAX;
    let o = w.close_current_tab().unwrap();
    assert_eq!((o.removed, o.shown, o.opened_blank), (7, 7, true));
    assert_eq!(w.tabs, vec![7]);
    assert_eq!(w.current, Some(7));
    assert_eq!(w.next_id, u64::MAX);
}

#[test]
fn commands_carry_out_their_effects() {
    let mut w = window_with(3);
    let ids = w.tabs.clone();
    assert!(matches!(w.handle_cmd(WinCmd::NextTab, None, None), WindowAction::ShowTab(id) if id == ids[0]));
    assert_eq!(w.current, Some(ids[0]));
    assert!(matches!(w.handle_cmd(WinCmd::NextWorkspace, None, None), WindowAction::ShowTab(id) if id == ids[1]));
    assert!(matches!(w.handle_cmd(WinCmd::PrevTab, None, None), WindowAction::ShowTab(id) if id == ids[0]));
    assert!(matches!(w.handle_cmd(WinCmd::SwitchTab(3), None, None), WindowAction::ShowTab(id) if id == ids[2]));
    assert_eq!(w.current, Some(ids[2]));
    assert!(matches!(w.handle_cmd(WinCmd::SwitchTab(0), None, None), WindowAction::ShowTab(id) if id == ids[0]));
    assert_eq!(w.current, Some(ids[0]));
    assert!(matches!(w.handle_cmd(WinCmd::SwitchTab(9), None, None), WindowAction::Nothing));
    assert_eq!(w.current, Some(ids[0]));
    assert_eq!(w.tabs, ids);
    assert!(matches!(w.handle_cmd(WinCmd::FocusAddress, None, None), WindowAction::FocusAddress(false)));
    assert!(matches!(w.handle_cmd(WinCmd::Stop, None, None), WindowAction::Stop));
    assert!(matches!(w.handle_cmd(WinCmd::Back, None, None), WindowAction::GoBack));
    assert!(matches!(w.handle_cmd(WinCmd::OpenBrowserMenu, None, None), WindowAction::OpenBrowserMenu));

    match w.handle_cmd(WinCmd::NewTab, None, None) {
        WindowAction::OpenTab(o) => {
            assert_eq!(o.id, 3);
            assert_eq!(o.tab.url, "about:newtab");
            assert!(matches!(o.action, TabAction::LoadNewTabPage));
        }
        other => panic!("unexpected {:?}", other),
    }
    assert_eq!(w.tabs, vec![ids[0], ids[1], ids[2], 3]);
    assert_eq!(w.current, Some(3));

    match w.handle_cmd(WinCmd::CloseTab, None, None) {
        WindowAction::CloseTab { outcome, opened } => {
            assert_eq!((outcome.removed, outcome.shown, outcome.opened_blank), (3, ids[2], false));
            assert!(opened.is_none());
        }
        other => panic!("unexpected {:?}", other),
    }
    assert_eq!(w.current, Some(ids[2]));

    let mut tab = Tab::new_blank();
    match w.handle_cmd(WinCmd::TogglePin, Some(&mut tab), None) {
        WindowAction::Emit(TabEvent::PinnedChanged(true)) => {}
        other => panic!("unexpected {:?}", other),
    }
    assert!(tab.pinned);
    assert!(matches!(w.handle_cmd(WinCmd::TogglePin, Some(&mut tab), None),
        WindowAction::Emit(TabEvent::PinnedChanged(false))));
    assert!(!tab.pinned);
    assert!(matches!(w.handle_cmd(WinCmd::TogglePin, None, None), WindowAction::Nothing));
    assert!(matches!(w.handle_cmd(WinCmd::Reload, Some(&mut tab), None), WindowAction::Reload));
    assert!(!tab.pinned);

    assert!(matches!(w.handle_cmd(WinCmd::OpenSettings, None, None), WindowAction::Settings(true)));
    assert!(w.settings_open);
    assert!(matches!(w.handle_cmd(WinCmd::OpenSettings, None, None), WindowAction::Settings(false)));
    assert!(!w.settings_open);

    assert!(matches!(w.handle_cmd(WinCmd::ToggleSidebar, None, Some("https://a.org/")),
        WindowAction::ApplyLayout));
    assert_eq!(w.chrome.layout, ChromeLayout::Sidebar);
    assert!(matches!(w.handle_cmd(WinCmd::FocusAddress, None, None), WindowAction::FocusAddress(true)));
    w.handle_cmd(WinCmd::ToggleSidebar, None, Some("https://a.org/"));
    assert_eq!(w.chrome.layout, ChromeLayout::Topbar);
    assert!(w.chrome.auto_hide);
}

#[test]
fn closing_the_only_tab_by_command_opens_a_blank_one() {
    let mut w = window_with(1);
    match w.handle_cmd(WinCmd::CloseTab, None, None) {
        WindowAction::CloseTab { outcome, opened: Some(o) } => {
            assert_eq!((outcome.removed, outcome.shown, outcome.opened_blank), (0, 1, true));
            assert_eq!(o.id, 1);
            assert_eq!(o.tab.title, "New Tab");
            assert!(matches!(o.action, TabAction::LoadNewTabPage));
        }
        other => panic!("unexpected {:?}", other),
    }
    assert_eq!(w.tabs, vec![1]);
    let mut empty = BrowserWindow::new();
    assert!(matches!(empty.handle_cmd(WinCmd::CloseTab, None, None), WindowAction::Nothing));
    assert!(matches!(empty.handle_cmd(WinCmd::NextTab, None, None), WindowAction::Nothing));
}

#[test]
fn keyboard_shortcuts() {
    assert_eq!(key_dispatch(true, false, false, KeyName::T, false), KeyDispatch::Run(WinCmd::NewTab));
    assert_eq!(key_dispatch(true, false, false, KeyName::W, false), KeyDispatch::Run(WinCmd::CloseTab));
    assert_eq!(key_dispatch(true, false, false, KeyName::L, false), KeyDispatch::Run(WinCmd::FocusAddress));
    assert_eq!(key_dispatch(false, false, false, KeyName::F5, false), KeyDispatch::Run(WinCmd::Reload));
    assert_eq!(key_dispatch(true, true, false, KeyName::IsoLeftTab, false), KeyDispatch::Run(WinCmd::PrevTab));
    assert_eq!(key_dispatch(true, false, false, KeyName::Digit(4), false), KeyDispatch::Run(WinCmd::SwitchTab(4)));
    assert_eq!(key_dispatch(true, false, false, KeyName::Digit(0), false), KeyDispatch::Pass);
    assert_eq!(key_dispatch(false, false, true, KeyName::Left, false), KeyDispatch::Run(WinCmd::Back));
    assert_eq!(key_dispatch(false, false, false, KeyName::Escape, false), KeyDispatch::Run(WinCmd::Stop));
    assert_eq!(key_dispatch(false, false, false, KeyName::Escape, true), KeyDispatch::CloseSettings);
    assert_eq!(key_dispatch(true, true, false, KeyName::T, false), KeyDispatch::Pass);
    assert_eq!(key_dispatch(false, false, false, KeyName::T, false), KeyDispatch::Pass);
}

#[test]
fn layout_switching_and_auto_hide() {
    let mut w = BrowserWindow::new();
    w.update_auto_hide_for_url("https://example.com/");
    assert!(w.chrome.auto_hide && !w.chrome.topbar_revealed);
    w.on_pointer(PointerZone::TopEdge, SideZone::LeftEdge);
    assert!(w.chrome.topbar_revealed && !w.chrome.sidebar_revealed);
    w.on_pointer(PointerZone::Between, SideZone::Between);
    assert!(w.chrome.topbar_revealed);
    w.on_pointer(PointerZone::Away, SideZone::Away);
    assert!(!w.chrome.topbar_revealed);
    w.update_auto_hide_for_url("about:newtab");
    assert!(!w.chrome.auto_hide && w.chrome.topbar_revealed);

    w.toggle_sidebar(Some("https://example.com/"));
    assert_eq!(w.chrome.layout, ChromeLayout::Sidebar);
    assert!(!w.chrome.auto_hide && !w.chrome.topbar_visible && w.chrome.sidebar_visible);
    assert!(w.chrome.sidebar_revealed);
    w.on_pointer(PointerZone::Away, SideZone::Away);
    assert!(!w.chrome.topbar_revealed && !w.chrome.sidebar_revealed);
    w.on_pointer(PointerZone::TopEdge, SideZone::Between);
    assert!(!w.chrome.topbar_revealed && !w.chrome.sidebar_revealed);
    w.on_pointer(PointerZone::Between, SideZone::LeftEdge);
    assert!(w.chrome.sidebar_revealed && w.chrome.sidebar_visible);
    w.toggle_sidebar(Some("https://example.com/"));
    assert_eq!(w.chrome.layout, ChromeLayout::Topbar);
    assert!(w.chrome.auto_hide && !w.chrome.topbar_revealed && !w.chrome.sidebar_visible);
}

#[test]
fn disabling_the_sidebar_leaves_sidebar_layout() {
    let mut w = BrowserWindow::new();
    w.set_chrome_layout(ChromeLayout::Sidebar, None);
    w.set_sidebar_enabled(false, Some("about:blank"));
    assert_eq!(w.chrome.layout, ChromeLayout::Topbar);
    assert!(!w.chrome.sidebar_enabled && !w.chrome.sidebar_visible && w.chrome.topbar_visible);
    w.set_sidebar_enabled(true, None);
    assert_eq!(w.chrome.layout, ChromeLayout::Topbar);
    assert!(w.chrome.sidebar_enabled && !w.chrome.sidebar_visible);
    w.set_chrome_layout(ChromeLayout::Sidebar, None);
    assert!(w.chrome.sidebar_visible && w.chrome.sidebar_revealed);
}

#[test]
fn theme() {
    let mut w = BrowserWindow::new();
    assert!(w.is_dark_active(true) && !w.is_dark_active(false));
    w.set_theme_preference(ThemePreference::Dark);
    assert!(w.is_dark_active(false));
    w.set_theme_preference(ThemePreference::Light);
    assert!(!w.is_dark_active(true));
    assert!(BrowserWindow::is_system_dark(true, None));
    assert!(BrowserWindow::is_system_dark(false, Some("Adwaita-Dark")));
    assert!(BrowserWindow::is_system_dark(false, Some("BLACKBIRD")));
    assert!(!BrowserWindow::is_system_dark(false, Some("Adwaita")));
    assert!(!BrowserWindow::is_system_dark(false, None));
    assert!(theme_name_is_dark("my-dark-theme"));
    assert!(!theme_name_is_dark("Dark"));
}

#[test]
fn settings_dialog_toggles() {
    let mut w = BrowserWindow::new();
    assert!(w.open_settings_dialog());
    assert!(w.settings_open);
    assert!(!w.open_settings_dialog());
    assert!(!w.settings_open);
    w.open_settings_dialog();
    w.close_settings_dialog();
    assert!(!w.settings_open);
}

#[test]
fn tab_strip_order_and_width() {
    assert_eq!(tab_order(&vec![false, true, false, true]), vec![1, 3, 0, 2]);
    assert_eq!(tab_order(&vec![]), Vec::<usize>::new());
    assert_eq!(tab_width_for(0), 130);
    assert_eq!(tab_width_for(3), 130);
    assert_eq!(tab_width_for(4), 110);
    assert_eq!(tab_width_for(8), 85);
    assert_eq!(tab_width_for(12), 68);
    assert_eq!(tab_width_for(13), 50);
}

#[test]
fn tab_events_update_chrome() {
    let mut w = window_with(2);
    let shown = w.current.unwrap();
    let other = w.tabs[0];
    assert_ne!(shown, other);
    let tab = Tab { title: "Rust".into(), url: "https://rust-lang.org/".into(), loading: false, pinned: false };
    let ups = w.on_tab_event(shown, &TabEvent::UriChanged("https://rust-lang.org/".into()), Some(&tab));
    assert!(matches!(ups.as_slice(), [
        ChromeUpdate::SetAddressText(a), ChromeUpdate::SetCurrentRowLabel(l), ChromeUpdate::ResortTabs
    ] if a == "https://rust-lang.org/" && l == "https://rust-lang.org/"));
    assert!(w.chrome.auto_hide);

    let ups = w.on_tab_event(shown, &TabEvent::TitleChanged("Rust".into()), Some(&tab));
    assert!(matches!(ups.as_slice(), [
        ChromeUpdate::SetCurrentRowTooltip(t), ChromeUpdate::SetCurrentRowLabel(l)
    ] if t == "Rust" && l == "Rust"));

    let ups = w.on_tab_event(shown, &TabEvent::LoadingChanged(true), Some(&tab));
    assert!(matches!(ups.as_slice(), [ChromeUpdate::ShowProgress(true)]));
    assert!(w.chrome.progress_visible);

    let ups = w.on_tab_event(
        shown,
        &TabEvent::LoadFailed { uri: "https://x/".into(), message: "<oops>".into() },
        Some(&tab),
    );
    assert!(matches!(ups.as_slice(), [ChromeUpdate::ShowErrorPage { tab, html, base_uri }]
        if *tab == shown && html.contains("&lt;oops&gt;") && base_uri == "https://x/"));
    let ups = w.on_tab_event(other, &TabEvent::PinnedChanged(true), None);
    assert!(matches!(ups.as_slice(), [ChromeUpdate::ResortTabs]));

    w.set_chrome_layout(ChromeLayout::Sidebar, None);
    let ups = w.on_tab_event(shown, &TabEvent::LoadingChanged(true), Some(&tab));
    assert!(matches!(ups.as_slice(), [ChromeUpdate::ShowProgress(false)]));
}

#[test]
fn background_tab_events_leave_the_address_bar() {
    let mut w = window_with(2);
    let shown = w.current.unwrap();
    let other = w.tabs[0];
    let tab = Tab { title: "Shown".into(), url: "about:newtab".into(), loading: false, pinned: false };
    let before = w.chrome;
    let ups = w.on_tab_event(other, &TabEvent::UriChanged("https://example.org/".into()), Some(&tab));
    assert!(matches!(ups.as_slice(), [ChromeUpdate::ResortTabs]));
    assert_eq!(w.chrome, before);
    let ups = w.on_tab_event(other, &TabEvent::TitleChanged("Example".into()), Some(&tab));
    assert!(ups.is_empty());
    let ups = w.on_tab_event(other, &TabEvent::LoadingChanged(true), Some(&tab));
    assert!(matches!(ups.as_slice(), [ChromeUpdate::ShowProgress(true)]));
    assert!(w.chrome.progress_visible);
    let ups = w.on_tab_event(
        other,
        &TabEvent::LoadFailed { uri: "https://y/".into(), message: "m".into() },
        Some(&tab),
    );
    assert!(matches!(ups.as_slice(), [ChromeUpdate::ShowErrorPage { tab, base_uri, .. }]
        if *tab == shown && base_uri == "https://y/"));
    assert_eq!(w.current, Some(shown));
    let mut none_shown = BrowserWindow::new();
    let ups = none_shown.on_tab_event(
        4,
        &TabEvent::LoadFailed { uri: "https://y/".into(), message: "m".into() },
        None,
    );
    assert!(ups.is_empty());
}
