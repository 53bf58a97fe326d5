use mini_browser::tab::{Tab, TabAction, TabEvent};
use mini_browser::webview::LoadEvent;

fn uri_of(a: &TabAction) -> Option<String> {
    match a {
        TabAction::LoadUri(u) => Some(u.clone()),
        _ => None,
    }
}

#[test]
fn new_tab_navigates_home() {
    let (tab, action) = Tab::new("https://example.com");
    assert_eq!(uri_of(&action).as_deref(), Some("https://example.com"));
    assert_eq!(tab.url, "https://example.com");
    assert_eq!(tab.title, "");
    assert!(!tab.loading && !tab.pinned);
}

#[test]
fn blank_tab_shows_new_tab_page() {
    let tab = Tab::new_blank();
    assert_eq!(tab.title, "New Tab");
    assert_eq!(tab.url, "about:newtab");
    let uri = tab.load_new_tab_page();
    assert!(uri.starts_with("data:text/html;charset=utf-8,%3C!DOCTYPE%20html%3E"));
    assert!(!uri.contains(' '));
    assert!(!uri.contains('\n'));
    assert!(!uri.contains('#'));
}

#[test]
fn navigate_to_rules() {
    let mut tab = Tab::new_blank();
    assert!(matches!(tab.navigate_to(""), TabAction::Nothing));
    assert_eq!(tab.url, "about:newtab");
    assert!(matches!(tab.navigate_to("about:newtab"), TabAction::LoadNewTabPage));
    assert_eq!(tab.url, "about:newtab");
    let a = tab.navigate_to("https://rust-lang.org");
    assert_eq!(uri_of(&a).as_deref(), Some("https://rust-lang.org"));
    assert_eq!(tab.url, "https://rust-lang.org");
}

#[test]
fn navigate_parses_and_resolves_input() {
    let mut tab = Tab::new_blank();
    let a = tab.navigate("  example.com ");
    assert_eq!(uri_of(&a).as_deref(), Some("https://example.com"));
    let a = tab.navigate("rust gtk");
    assert_eq!(uri_of(&a).as_deref(), Some("https://duckduckgo.com/?q=rust+gtk"));
    assert_eq!(tab.url, "https://duckduckgo.com/?q=rust+gtk");
    let a = tab.navigate("   ");
    assert_eq!(uri_of(&a).as_deref(), Some("https://duckduckgo.com/?q="));
}

#[test]
fn load_events_update_state() {
    let mut tab = Tab::new_blank();
    let ev = tab.on_load_event(LoadEvent::Started, None, None);
    assert!(tab.loading);
    assert!(matches!(ev.as_slice(), [TabEvent::LoadingChanged(true)]));

    let ev = tab.on_load_event(LoadEvent::Committed, Some("https://a.org/".into()), None);
    assert_eq!(tab.url, "https://a.org/");
    assert!(matches!(ev.as_slice(), [TabEvent::UriChanged(u)] if u == "https://a.org/"));

    let ev = tab.on_load_event(LoadEvent::Redirected, Some("x".into()), None);
    assert!(ev.is_empty());

    let ev = tab.on_load_event(
        LoadEvent::Finished,
        Some("https://a.org/".into()),
        Some("A Org".into()),
    );
    assert!(!tab.loading);
    assert_eq!(tab.title, "A Org");
    assert!(matches!(ev.as_slice(),
        [TabEvent::TitleChanged(t), TabEvent::LoadingChanged(false)] if t == "A Org"));
}

#[test]
fn finished_title_falls_back_to_address_but_hides_data_uris() {
    let mut tab = Tab::new_blank();
    tab.on_load_event(LoadEvent::Finished, Some("https://b.org/x".into()), Some(String::new()));
    assert_eq!(tab.title, "https://b.org/x");
    tab.on_load_event(LoadEvent::Finished, Some("data:text/html,hi".into()), None);
    assert_eq!(tab.title, "");
    tab.on_load_event(LoadEvent::Finished, Some("about:blank".into()), None);
    assert_eq!(tab.title, "");
    tab.on_load_event(LoadEvent::Finished, Some("about:config".into()), Some(String::new()));
    assert_eq!(tab.title, "");
    tab.on_load_event(LoadEvent::Finished, Some("about:config".into()), Some("Config".into()));
    assert_eq!(tab.title, "Config");
    tab.on_load_event(LoadEvent::Finished, None, None);
    assert_eq!(tab.title, "");
}

#[test]
fn load_failure_stops_loading() {
    let mut tab = Tab::new_blank();
    tab.on_load_event(LoadEvent::Started, None, None);
    let ev = tab.on_load_failed("https://down.example/", "Connection refused");
    assert!(!tab.loading);
    assert!(matches!(ev, TabEvent::LoadFailed { ref uri, ref message }
        if uri == "https://down.example/" && message == "Connection refused"));
}

#[test]
fn pinning_reports_only_changes() {
    let mut tab = Tab::new_blank();
    assert!(tab.set_pinned(false).is_none());
    assert!(matches!(tab.set_pinned(true), Some(TabEvent::PinnedChanged(true))));
    assert!(tab.pinned);
    assert!(tab.set_pinned(true).is_none());
    assert!(matches!(tab.toggle_pinned(), Some(TabEvent::PinnedChanged(false))));
    assert!(matches!(tab.toggle_pinned(), Some(TabEvent::PinnedChanged(true))));
    assert!(tab.pinned);
}

#[test]
fn shown_url_prefers_the_web_view() {
    let (tab, _) = Tab::new("https://home.example");
    assert_eq!(tab.shown_url(Some("https://other.example/".into())), "https://other.example/");
    assert_eq!(tab.shown_url(None), "https://home.example");
}

#[test]
fn load_event_codes() {
    assert_eq!(LoadEvent::from_code(0), Some(LoadEvent::Started));
    assert_eq!(LoadEvent::from_code(1), Some(LoadEvent::Redirected));
    assert_eq!(LoadEvent::from_code(2), Some(LoadEvent::Committed));
    assert_eq!(LoadEvent::from_code(3), Some(LoadEvent::Finished));
    assert_eq!(LoadEvent::from_code(4), None);
    assert_eq!(LoadEvent::from_code(-1), None);
}
