//! A browser tab's state: its title, address, loading flag and pin, and the
//! events it reports when the page it shows changes.

use vstd::prelude::*;
use vstd::utf8::encode_utf8;
use crate::config;
use crate::encoding::{EncodeForm, encode_bytes, percent_encode_into};
use crate::navigation::{parse, parse_spec, resolve, resolve_spec};
use crate::text::{starts_with, str_equal};
use crate::webview::LoadEvent;

verus! {

/// What a tab reports to the window.
#[derive(Debug, Clone)]
pub enum TabEvent {
    UriChanged(String),
    TitleChanged(String),
    LoadingChanged(bool),
    LoadFailed { uri: String, message: String },
    PinnedChanged(bool),
}

/// A `TabEvent` with its strings taken by their characters.
pub enum TabEventView {
    UriChanged(Seq<char>),
    TitleChanged(Seq<char>),
    LoadingChanged(bool),
    LoadFailed { uri: Seq<char>, message: Seq<char> },
    PinnedChanged(bool),
}

impl View for TabEvent {
    type V = TabEventView;

    open spec fn view(&self) -> TabEventView {
        match self {
            TabEvent::UriChanged(u) => TabEventView::UriChanged(u@),
            TabEvent::TitleChanged(t) => TabEventView::TitleChanged(t@),
            TabEvent::LoadingChanged(b) => TabEventView::LoadingChanged(*b),
            TabEvent::LoadFailed { uri, message } => TabEventView::LoadFailed {
                uri: uri@,
                message: message@,
            },
            TabEvent::PinnedChanged(b) => TabEventView::PinnedChanged(*b),
        }
    }
}

/// The views of a sequence of events.
pub open spec fn events_view(v: Seq<TabEvent>) -> Seq<TabEventView> {
    v.map_values(|e: TabEvent| e@)
}

/// What the tab asks its web view to do.
#[derive(Debug)]
pub enum TabAction {
    /// Nothing to load.
    Nothing,
    /// Load this URI.
    LoadUri(String),
    /// Show the built-in new-tab page (see `Tab::load_new_tab_page`).
    LoadNewTabPage,
}

pub enum TabActionView {
    Nothing,
    LoadUri(Seq<char>),
    LoadNewTabPage,
}

impl View for TabAction {
    type V = TabActionView;

    open spec fn view(&self) -> TabActionView {
        match self {
            TabAction::Nothing => TabActionView::Nothing,
            TabAction::LoadUri(u) => TabActionView::LoadUri(u@),
            TabAction::LoadNewTabPage => TabActionView::LoadNewTabPage,
        }
    }
}

/// A browser tab: what the window shows for it and how it reacts to loads.
#[derive(Debug)]
pub struct Tab {
    pub title: String,
    pub url: String,
    pub loading: bool,
    pub pinned: bool,
}

/// The abstract state of a tab.
pub struct TabModel {
    pub title: Seq<char>,
    pub url: Seq<char>,
    pub loading: bool,
    pub pinned: bool,
}

impl View for Tab {
    type V = TabModel;

    open spec fn view(&self) -> TabModel {
        TabModel { title: self.title@, url: self.url@, loading: self.loading, pinned: self.pinned }
    }
}

/// The characters of an optional string; nothing when absent.
pub open spec fn opt_text(o: Option<String>) -> Seq<char> {
    match o {
        Some(s) => s@,
        None => Seq::empty(),
    }
}

/// Addresses that are never shown as a title: none, `data:` URIs and `about:` URIs.
pub open spec fn hidden_title_uri(uri: Seq<char>) -> bool {
    uri.len() == 0 || "data:"@.is_prefix_of(uri) || "about:"@.is_prefix_of(uri)
}

/// The title a tab takes when a load finishes: the page's title, else its
/// address unless that address is hidden, else nothing.
pub open spec fn finished_title(raw_title: Seq<char>, uri: Seq<char>) -> Seq<char> {
    if raw_title.len() > 0 {
        raw_title
    } else if hidden_title_uri(uri) {
        Seq::empty()
    } else {
        uri
    }
}

/// How a tab's state changes, and what it reports, on a load event.
pub open spec fn load_step(m: TabModel, ev: LoadEvent, uri: Seq<char>, raw_title: Seq<char>) -> (
    TabModel,
    Seq<TabEventView>,
) {
    match ev {
        LoadEvent::Started => (
            TabModel { loading: true, ..m },
            seq![TabEventView::LoadingChanged(true)],
        ),
        LoadEvent::Committed => (TabModel { url: uri, ..m }, seq![TabEventView::UriChanged(uri)]),
        LoadEvent::Finished => {
            let t = finished_title(raw_title, uri);
            (
                TabModel { loading: false, title: t, ..m },
                seq![TabEventView::TitleChanged(t), TabEventView::LoadingChanged(false)],
            )
        },
        LoadEvent::Redirected => (m, Seq::empty()),
    }
}

/// How a tab's state changes, and what it loads, when sent to `uri`.
pub open spec fn navigate_step(m: TabModel, uri: Seq<char>) -> (TabModel, TabActionView) {
    if uri.len() == 0 {
        (m, TabActionView::Nothing)
    } else if uri == "about:newtab"@ {
        (m, TabActionView::LoadNewTabPage)
    } else {
        (TabModel { url: uri, ..m }, TabActionView::LoadUri(uri))
    }
}

/// How a tab's state changes, and what it reports, when pinned or unpinned:
/// only a change is reported.
pub open spec fn pin_step(m: TabModel, pinned: bool) -> (TabModel, Option<TabEventView>) {
    if m.pinned != pinned {
        (TabModel { pinned, ..m }, Some(TabEventView::PinnedChanged(pinned)))
    } else {
        (m, None)
    }
}

/// The view of an optional event.
pub open spec fn opt_event(o: Option<TabEvent>) -> Option<TabEventView> {
    match o {
        Some(e) => Some(e@),
        None => None,
    }
}

/// The `data:` URI of the built-in new-tab page.
pub open spec fn new_tab_page_uri() -> Seq<char> {
    "data:text/html;charset=utf-8,"@ + encode_bytes(
        encode_utf8(config::NEW_TAB_HTML@),
        EncodeForm::DataUrl,
    )
}

fn text_or_empty(o: Option<String>) -> (r: String)
    ensures
        r@ == opt_text(o),
{
    match o {
        Some(s) => s,
        None => String::new(),
    }
}

impl Tab {
    /// A tab that is sent to `home` as soon as it exists.
    pub fn new(home: &str) -> (r: (Tab, TabAction))
        ensures
            (r.0@, r.1@) == navigate_step(
                TabModel {
                    title: Seq::empty(),
                    url: Seq::empty(),
                    loading: false,
                    pinned: false,
                },
                home@,
            ),
    {
        let mut tab = Tab { title: String::new(), url: String::new(), loading: false, pinned: false };
        let action = tab.navigate_to(home);
        (tab, action)
    }

    /// A blank tab showing the new-tab page.
    pub fn new_blank() -> (r: Tab)
        ensures
            r@ == (TabModel {
                title: "New Tab"@,
                url: "about:newtab"@,
                loading: false,
                pinned: false,
            }),
    {
        Tab {
            title: "New Tab".to_owned(),
            url: "about:newtab".to_owned(),
            loading: false,
            pinned: false,
        }
    }

    /// Updates the tab for a load event; `uri` and `title` are what the web
    /// view reports at that moment. Returns the events to surface, in order.
    pub fn on_load_event(&mut self, ev: LoadEvent, uri: Option<String>, title: Option<String>) -> (r:
        Vec<TabEvent>)
        ensures
            (final(self)@, events_view(r@)) == load_step(old(self)@, ev, opt_text(uri), opt_text(title)),
    {
        match ev {
            LoadEvent::Started => {
                self.loading = true;
                let r = vec![TabEvent::LoadingChanged(true)];
                assert(events_view(r@) =~= seq![TabEventView::LoadingChanged(true)]);
                r
            },
            LoadEvent::Committed => {
                let uri = text_or_empty(uri);
                self.url = uri.clone();
                let r = vec![TabEvent::UriChanged(uri)];
                assert(events_view(r@) =~= seq![TabEventView::UriChanged(self.url@)]);
                r
            },
            LoadEvent::Finished => {
                self.loading = false;
                let raw_title = text_or_empty(title);
                let uri = text_or_empty(uri);
                // Never expose a data: / about: URI as the visible title.
                let title = if raw_title.unicode_len() > 0 {
                    raw_title
                } else if uri.unicode_len() == 0 || starts_with(uri.as_str(), "data:") || starts_with(
                    uri.as_str(),
                    "about:",
                ) {
                    String::new()
                } else {
                    uri
                };
                self.title = title.clone();
                let r = vec![TabEvent::TitleChanged(title), TabEvent::LoadingChanged(false)];
                assert(events_view(r@) =~= seq![
                    TabEventView::TitleChanged(title@),
                    TabEventView::LoadingChanged(false),
                ]);
                r
            },
            LoadEvent::Redirected => {
                let r = Vec::new();
                assert(events_view(r@) =~= Seq::<TabEventView>::empty());
                r
            },
        }
    }

    /// Updates the tab for a failed load and returns the event to surface.
    pub fn on_load_failed(&mut self, uri: &str, message: &str) -> (r: TabEvent)
        ensures
            final(self)@ == (TabModel { loading: false, ..old(self)@ }),
            r@ == (TabEventView::LoadFailed { uri: uri@, message: message@ }),
    {
        self.loading = false;
        TabEvent::LoadFailed { uri: uri.to_owned(), message: message.to_owned() }
    }

    /// The `data:` URI that shows the built-in new-tab page.
    pub fn load_new_tab_page(&self) -> (r: String)
        ensures
            r@ == new_tab_page_uri(),
    {
        let html = config::NEW_TAB_HTML;
        // Encode the HTML as a data URL; WebKit reliably navigates these.
        let mut data = "data:text/html;charset=utf-8,".to_owned();
        percent_encode_into(&mut data, html.as_bytes(), EncodeForm::DataUrl);
        data
    }

    /// Sends the tab to what the user typed: a URL as is, anything else as a search.
    pub fn navigate(&mut self, input: &str) -> (r: TabAction)
        ensures
            (final(self)@, r@) == navigate_step(old(self)@, resolve_spec(parse_spec(input@))),
    {
        let target = resolve(&parse(input));
        self.navigate_to(target.as_str())
    }

    /// Sends the tab to `uri`; `about:newtab` re-renders the new-tab page.
    pub fn navigate_to(&mut self, uri: &str) -> (r: TabAction)
        ensures
            (final(self)@, r@) == navigate_step(old(self)@, uri@),
    {
        if uri.unicode_len() == 0 {
            return TabAction::Nothing;
        }
        // Don't navigate to internal "about:newtab" — instead re-render.
        if str_equal(uri, "about:newtab") {
            return TabAction::LoadNewTabPage;
        }
        self.url = uri.to_owned();
        TabAction::LoadUri(uri.to_owned())
    }

    /// The address the tab shows: what its web view reports, else the last
    /// address the tab was sent to.
    pub fn shown_url(&self, webview_uri: Option<String>) -> (r: String)
        ensures
            r@ == match webview_uri {
                Some(u) => u@,
                None => self.url@,
            },
    {
        match webview_uri {
            Some(u) => u,
            None => self.url.clone(),
        }
    }

    /// Pins or unpins the tab; reports the change only when there is one.
    pub fn set_pinned(&mut self, pinned: bool) -> (r: Option<TabEvent>)
        ensures
            (final(self)@, opt_event(r)) == pin_step(old(self)@, pinned),
    {
        if self.pinned != pinned {
            self.pinned = pinned;
            Some(TabEvent::PinnedChanged(pinned))
        } else {
            None
        }
    }

    /// Flips the pin and reports the new state.
    pub fn toggle_pinned(&mut self) -> (r: Option<TabEvent>)
        ensures
            (final(self)@, opt_event(r)) == pin_step(old(self)@, !old(self).pinned),
            r is Some,
    {
        let p = !self.pinned;
        self.set_pinned(p)
    }
}

} // verus!
