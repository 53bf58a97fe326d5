//! Properties of the browser logic that span several calls or all inputs.

use vstd::prelude::*;
use crate::config;
use crate::encoding::{EncodeForm, encode_byte, encode_bytes, hex_upper, is_data_url_safe, is_unreserved};
use crate::labels::{
    address_text_spec,
    escape_char,
    html_escape_spec,
    is_blank_url,
    short_title_spec,
    short_url_spec,
    tab_label_spec,
};
use crate::navigation::{has_known_scheme, is_local_address, parse_spec, search_url, NavTarget};
use crate::tab::{finished_title, pin_step, TabEventView, TabModel};
use crate::text::{is_ws, replace_seq, trim_end_seq, trim_seq, trim_start_seq};
use vstd::utf8::encode_utf8;
use crate::window::{
    auto_hide_for_url,
    chrome_wf,
    pointer_step,
    tab_event_step,
    key_dispatch_spec,
    ChromeUpdateView,
    KeyDispatch,
    KeyName,
    WinCmd,
    PointerZone,
    SideZone,
    current_index_spec,
    indices_with,
    pinned_first,
    tabs_wf,
    Chrome,
    ChromeLayout,
};

verus! {

// ── trimming ───────────────────────────────────────────────────────────────

proof fn lemma_trim_start_shape(s: Seq<char>)
    ensures
        trim_start_seq(s).len() <= s.len(),
        trim_start_seq(s) == s.subrange(s.len() - trim_start_seq(s).len(), s.len() as int),
        trim_start_seq(s).len() > 0 ==> !is_ws(trim_start_seq(s)[0]),
    decreases s.len(),
{
    if s.len() > 0 && is_ws(s[0]) {
        lemma_trim_start_shape(s.drop_first());
        let t = trim_start_seq(s.drop_first());
        assert(s.drop_first().subrange(s.len() - 1 - t.len(), s.len() - 1) =~= s.subrange(
            s.len() - t.len(),
            s.len() as int,
        ));
    } else {
        assert(s.subrange(0, s.len() as int) =~= s);
    }
}

proof fn lemma_trim_end_shape(s: Seq<char>)
    ensures
        trim_end_seq(s).len() <= s.len(),
        trim_end_seq(s) == s.subrange(0, trim_end_seq(s).len() as int),
        trim_end_seq(s).len() > 0 ==> !is_ws(trim_end_seq(s).last()),
    decreases s.len(),
{
    if s.len() > 0 && is_ws(s.last()) {
        lemma_trim_end_shape(s.drop_last());
        let t = trim_end_seq(s.drop_last());
        assert(s.drop_last().subrange(0, t.len() as int) =~= s.subrange(0, t.len() as int));
    } else {
        assert(s.subrange(0, s.len() as int) =~= s);
    }
}

/// A trimmed text begins and ends with non-white-space characters.
proof fn lemma_trim_shape(s: Seq<char>)
    ensures
        trim_seq(s).len() > 0 ==> !is_ws(trim_seq(s)[0]) && !is_ws(trim_seq(s).last()),
{
    lemma_trim_start_shape(s);
    let t = trim_start_seq(s);
    lemma_trim_end_shape(t);
    let r = trim_end_seq(t);
    if r.len() > 0 {
        assert(r[0] == t.subrange(0, r.len() as int)[0]);
    }
}

/// A text that begins and ends with non-white-space characters is its own trim.
proof fn lemma_trim_fixed(s: Seq<char>)
    requires
        s.len() > 0 ==> !is_ws(s[0]) && !is_ws(s.last()),
    ensures
        trim_seq(s) == s,
{
    assert(trim_start_seq(s) == s);
    assert(trim_end_seq(s) == s);
}

proof fn lemma_prefixed_url(p: Seq<char>, t: Seq<char>)
    requires
        p.len() > 0,
        !is_ws(p[0]),
        t.len() > 0,
        !is_ws(t.last()),
    ensures
        trim_seq(p + t) == p + t,
        p.is_prefix_of(p + t),
{
    let u = p + t;
    assert(u[0] == p[0]);
    assert(u.last() == t.last());
    lemma_trim_fixed(u);
    assert(u.subrange(0, p.len() as int) =~= p);
}

/// Entering again a URL that `parse` produced leads to that same URL: the
/// address it shows is stable under re-parsing.
pub proof fn law_parse_keeps_its_urls(input: Seq<char>)
    ensures
        parse_spec(input) matches NavTarget::Url(u) ==> parse_spec(u) == NavTarget::Url(u),
{
    let t = trim_seq(input);
    lemma_trim_shape(input);
    reveal_strlit("http://");
    reveal_strlit("https://");
    if t.len() == 0 {
    } else if has_known_scheme(t) {
        lemma_trim_fixed(t);
    } else if crate::navigation::is_local_address(t) {
        lemma_prefixed_url("http://"@, t);
    } else if crate::navigation::domain_like(t) {
        lemma_prefixed_url("https://"@, t);
    }
}

// ── query encoding ─────────────────────────────────────────────────────────

/// Characters a form-encoded query is made of: ASCII letters and digits,
/// `-`, `_`, `.`, `~`, `+` and `%`.
pub open spec fn query_safe_char(c: char) -> bool {
    ||| ('A' <= c && c <= 'Z')
    ||| ('a' <= c && c <= 'z')
    ||| ('0' <= c && c <= '9')
    ||| c == '-'
    ||| c == '_'
    ||| c == '.'
    ||| c == '~'
    ||| c == '+'
    ||| c == '%'
}

proof fn lemma_hex_safe(v: u8)
    requires
        v < 16,
    ensures
        query_safe_char(hex_upper(v)),
{
}

proof fn lemma_byte_safe(b: u8)
    ensures
        forall|i: int|
            0 <= i < encode_byte(b, EncodeForm::QueryComponent).len() ==> query_safe_char(
                #[trigger] encode_byte(b, EncodeForm::QueryComponent)[i],
            ),
{
    if is_unreserved(b) {
        assert(query_safe_char(b as char));
    } else if b != 32 {
        lemma_hex_safe(b / 16);
        lemma_hex_safe(b % 16);
    }
}

/// A search query, once encoded, consists only of URL-safe characters: no
/// space, `&`, `#`, `=` or `?` can end the query early.
pub proof fn law_encoded_query_is_url_safe(bytes: Seq<u8>)
    ensures
        forall|i: int|
            0 <= i < encode_bytes(bytes, EncodeForm::QueryComponent).len() ==> query_safe_char(
                #[trigger] encode_bytes(bytes, EncodeForm::QueryComponent)[i],
            ),
    decreases bytes.len(),
{
    if bytes.len() > 0 {
        law_encoded_query_is_url_safe(bytes.drop_last());
        lemma_byte_safe(bytes.last());
        let a = encode_bytes(bytes.drop_last(), EncodeForm::QueryComponent);
        let b = encode_byte(bytes.last(), EncodeForm::QueryComponent);
        assert forall|i: int| 0 <= i < (a + b).len() implies query_safe_char(
            #[trigger] (a + b)[i],
        ) by {
            if i < a.len() {
                assert((a + b)[i] == a[i]);
            } else {
                assert((a + b)[i] == b[i - a.len()]);
            }
        }
    }
}

/// Replacing in text that starts with characters unlike the pattern's
/// first one leaves those characters in front.
proof fn lemma_replace_skips_prefix(p: Seq<char>, t: Seq<char>, pat: Seq<char>, rep: Seq<char>)
    requires
        pat.len() > 0,
        forall|i: int| 0 <= i < p.len() ==> p[i] != pat[0],
    ensures
        replace_seq(p + t, pat, rep) == p + replace_seq(t, pat, rep),
    decreases p.len(),
{
    let s = p + t;
    if p.len() == 0 {
        assert(s =~= t);
        assert(p + replace_seq(t, pat, rep) =~= replace_seq(t, pat, rep));
    } else {
        assert(s[0] == p[0]);
        if pat.is_prefix_of(s) {
            assert(pat[0] == s.subrange(0, pat.len() as int)[0]);
        }
        assert(s.drop_first() =~= p.drop_first() + t);
        lemma_replace_skips_prefix(p.drop_first(), t, pat, rep);
        assert(seq![p[0]] + (p.drop_first() + replace_seq(t, pat, rep)) =~= p + replace_seq(
            t,
            pat,
            rep,
        ));
    }
}

/// Every search goes to the search engine's query URL: the fixed address
/// `https://duckduckgo.com/?q=` followed by the encoded query.
pub proof fn law_search_url_shape(query: Seq<char>)
    ensures
        search_url(query) == "https://duckduckgo.com/?q="@ + encode_bytes(
            encode_utf8(query),
            EncodeForm::QueryComponent,
        ),
{
    let prefix = "https://duckduckgo.com/?q="@;
    let pat = "{query}"@;
    let e = encode_bytes(encode_utf8(query), EncodeForm::QueryComponent);
    reveal_strlit("https://duckduckgo.com/?q=");
    reveal_strlit("{query}");
    reveal_strlit("https://duckduckgo.com/?q={query}");
    assert(config::SEARCH_ENGINE_URL@ =~= prefix + pat);
    lemma_replace_skips_prefix(prefix, pat, pat, e);
    assert(pat.is_prefix_of(pat)) by {
        assert(pat.subrange(0, pat.len() as int) =~= pat);
    }
    assert(pat.len() > 0);
    let empty = pat.skip(pat.len() as int);
    assert(empty =~= Seq::<char>::empty());
    assert(replace_seq(empty, pat, e) == empty);
    assert(replace_seq(pat, pat, e) == e + empty);
    assert(e + empty =~= e);
}

/// Characters a `data:` URL body is made of: those kept verbatim and `%`
/// escapes with hex digits.
pub open spec fn data_url_char(c: char) -> bool {
    (c as u32) < 128 && (is_data_url_safe(c as u8) || c == '%')
}

proof fn lemma_data_byte_safe(b: u8)
    ensures
        forall|i: int|
            0 <= i < encode_byte(b, EncodeForm::DataUrl).len() ==> data_url_char(
                #[trigger] encode_byte(b, EncodeForm::DataUrl)[i],
            ),
{
    if !is_data_url_safe(b) {
        lemma_hex_safe(b / 16);
        lemma_hex_safe(b % 16);
    }
}

/// The new-tab page's `data:` URI body holds no space, `#`, quote or angle
/// bracket: no byte of the page can end or break the URI.
pub proof fn law_data_url_body_is_safe(bytes: Seq<u8>)
    ensures
        forall|i: int|
            0 <= i < encode_bytes(bytes, EncodeForm::DataUrl).len() ==> data_url_char(
                #[trigger] encode_bytes(bytes, EncodeForm::DataUrl)[i],
            ),
    decreases bytes.len(),
{
    if bytes.len() > 0 {
        law_data_url_body_is_safe(bytes.drop_last());
        lemma_data_byte_safe(bytes.last());
        let a = encode_bytes(bytes.drop_last(), EncodeForm::DataUrl);
        let b = encode_byte(bytes.last(), EncodeForm::DataUrl);
        assert forall|i: int| 0 <= i < (a + b).len() implies data_url_char(#[trigger] (a + b)[i]) by {
            if i < a.len() {
                assert((a + b)[i] == a[i]);
            } else {
                assert((a + b)[i] == b[i - a.len()]);
            }
        }
    }
}

// ── HTML escaping ──────────────────────────────────────────────────────────

/// Escaped text holds no `<`, `>` or `"`: the address and message put into
/// the error page cannot open a tag or leave an attribute.
pub proof fn law_escaped_text_has_no_markup(s: Seq<char>)
    ensures
        forall|i: int|
            0 <= i < html_escape_spec(s).len() ==> {
                let c = #[trigger] html_escape_spec(s)[i];
                c != '<' && c != '>' && c != '"'
            },
    decreases s.len(),
{
    if s.len() > 0 {
        law_escaped_text_has_no_markup(s.drop_last());
        let a = html_escape_spec(s.drop_last());
        let b = escape_char(s.last());
        assert forall|i: int| 0 <= i < (a + b).len() implies {
            let c = #[trigger] (a + b)[i];
            c != '<' && c != '>' && c != '"'
        } by {
            if i < a.len() {
                assert((a + b)[i] == a[i]);
            } else {
                assert((a + b)[i] == b[i - a.len()]);
            }
        }
    }
}

// ── labels ─────────────────────────────────────────────────────────────────

/// Tab titles and addresses are cut to fit: a short title has at most 60
/// characters and a short address at most 32.
pub proof fn law_short_labels_fit(title: Seq<char>, url: Seq<char>)
    ensures
        short_title_spec(title).len() <= 60,
        short_url_spec(url).len() <= 32,
{
    reveal_strlit("New Tab");
}

/// The raw `data:` URI of the new-tab page never shows: not as the title a
/// finished load gives (unless the page itself is titled so), not in the
/// address bar, not as a short address, and not as the label of a tab
/// without a real title.
pub proof fn law_data_uri_never_shown(raw_title: Seq<char>, uri: Seq<char>, title: Seq<char>)
    requires
        "data:"@.is_prefix_of(uri),
    ensures
        raw_title.len() == 0 ==> finished_title(raw_title, uri).len() == 0,
        address_text_spec(uri).len() == 0,
        short_url_spec(uri) == "New Tab"@,
        (title.len() == 0 || title == "New Tab"@ || "data:"@.is_prefix_of(title)) ==> tab_label_spec(
            title,
            uri,
            false,
        ) == "New Tab"@,
{
}

// ── chrome ─────────────────────────────────────────────────────────────────

/// In the topbar layout the topbar gets out of the way on real sites and
/// stays on empty pages (new tab, blank, `data:`), whatever it did before.
pub proof fn law_topbar_hides_only_on_sites(c: Chrome, url: Seq<char>)
    requires
        chrome_wf(c),
        c.layout == ChromeLayout::Topbar,
    ensures
        auto_hide_for_url(c, url).auto_hide == !is_blank_url(url),
        auto_hide_for_url(c, url).topbar_revealed == is_blank_url(url),
        chrome_wf(auto_hide_for_url(c, url)),
{
}

/// Whatever the pointer does, the chrome stays consistent; in the sidebar
/// layout the sidebar slides in at the left edge and out far from it, and in
/// the topbar layout the sidebar never shows.
pub proof fn law_sidebar_follows_pointer(c: Chrome, top: PointerZone, side: SideZone)
    requires
        chrome_wf(c),
    ensures
        chrome_wf(pointer_step(c, top, side)),
        pointer_step(c, top, side).layout == c.layout,
        c.layout == ChromeLayout::Sidebar && side == SideZone::LeftEdge ==> pointer_step(
            c,
            top,
            side,
        ).sidebar_revealed,
        c.layout == ChromeLayout::Sidebar && side == SideZone::Away ==> !pointer_step(
            c,
            top,
            side,
        ).sidebar_revealed,
        c.layout == ChromeLayout::Topbar ==> !pointer_step(c, top, side).sidebar_revealed,
{
}

/// An event from a tab that is not shown never touches the address bar, the
/// auto-hide state or the shown tab's row: at most the progress bar follows
/// its loads, the tab strip is re-sorted, or an error page is loaded.
pub proof fn law_background_tabs_leave_address_bar(
    c: Chrome,
    shown: Option<u64>,
    sender: u64,
    ev: TabEventView,
    current: Option<TabModel>,
    k: int,
)
    requires
        shown != Some(sender),
        0 <= k < tab_event_step(c, shown, sender, ev, current).1.len(),
    ensures
        tab_event_step(c, shown, sender, ev, current).0 == (Chrome {
            progress_visible: tab_event_step(c, shown, sender, ev, current).0.progress_visible,
            ..c
        }),
        tab_event_step(c, shown, sender, ev, current).1[k] is ResortTabs
            || tab_event_step(c, shown, sender, ev, current).1[k] is ShowErrorPage
            || tab_event_step(c, shown, sender, ev, current).1[k] is ShowProgress,
{
}

// ── tab order ──────────────────────────────────────────────────────────────

proof fn lemma_indices_with(flags: Seq<bool>, b: bool)
    ensures
        forall|k: int|
            0 <= k < indices_with(flags, b).len() ==> {
                let i = #[trigger] indices_with(flags, b)[k];
                0 <= i < flags.len() && flags[i] == b
            },
        forall|k1: int, k2: int|
            0 <= k1 < k2 < indices_with(flags, b).len() ==> indices_with(flags, b)[k1]
                < indices_with(flags, b)[k2],
        forall|i: int|
            0 <= i < flags.len() && flags[i] == b ==> #[trigger] indices_with(flags, b).contains(i),
    decreases flags.len(),
{
    if flags.len() > 0 {
        let f = flags.drop_last();
        lemma_indices_with(f, b);
        let a = indices_with(f, b);
        let tail = if flags.last() == b {
            seq![flags.len() - 1]
        } else {
            Seq::<int>::empty()
        };
        let r = a + tail;
        assert(r == indices_with(flags, b));
        assert forall|k: int| 0 <= k < r.len() implies {
            let i = #[trigger] r[k];
            0 <= i < flags.len() && flags[i] == b
        } by {
            if k < a.len() {
                assert(r[k] == a[k]);
                assert(flags[a[k]] == f[a[k]]);
            }
        }
        assert forall|k1: int, k2: int| 0 <= k1 < k2 < r.len() implies r[k1] < r[k2] by {
            if k2 < a.len() {
                assert(r[k1] == a[k1] && r[k2] == a[k2]);
            } else {
                assert(r[k1] == a[k1]);
                assert(a[k1] < f.len());
            }
        }
        assert forall|i: int| 0 <= i < flags.len() && flags[i] == b implies #[trigger] r.contains(
            i,
        ) by {
            if i < f.len() {
                assert(f[i] == flags[i]);
                assert(a.contains(i));
                let k = choose|k: int| 0 <= k < a.len() && a[k] == i;
                assert(r[k] == i);
            } else {
                assert(r[r.len() - 1] == i);
            }
        }
    }
}

proof fn lemma_indices_with_len(flags: Seq<bool>)
    ensures
        indices_with(flags, true).len() + indices_with(flags, false).len() == flags.len(),
    decreases flags.len(),
{
    if flags.len() > 0 {
        lemma_indices_with_len(flags.drop_last());
    }
}

/// Pinned tabs stay on the left: the layout order lists every tab exactly
/// once, all pinned tabs before all others, and keeps the tab order within
/// each group.
pub proof fn law_pinned_tabs_first(pinned: Seq<bool>)
    ensures
        pinned_first(pinned).len() == pinned.len(),
        forall|k: int|
            0 <= k < pinned.len() ==> 0 <= #[trigger] pinned_first(pinned)[k] < pinned.len(),
        forall|i: int| 0 <= i < pinned.len() ==> #[trigger] pinned_first(pinned).contains(i),
        forall|k1: int, k2: int|
            #![trigger pinned_first(pinned)[k1], pinned_first(pinned)[k2]]
            0 <= k1 < k2 < pinned.len() ==> {
                let a = pinned_first(pinned)[k1];
                let b = pinned_first(pinned)[k2];
                &&& pinned[b] ==> pinned[a]
                &&& pinned[a] == pinned[b] ==> a < b
            },
{
    lemma_indices_with(pinned, true);
    lemma_indices_with(pinned, false);
    lemma_indices_with_len(pinned);
    let p = indices_with(pinned, true);
    let u = indices_with(pinned, false);
    let o = p + u;
    assert(o == pinned_first(pinned));
    assert forall|k: int| 0 <= k < pinned.len() implies 0 <= #[trigger] o[k] < pinned.len() by {
        if k < p.len() {
            assert(o[k] == p[k]);
        } else {
            assert(o[k] == u[k - p.len()]);
        }
    }
    assert forall|i: int| 0 <= i < pinned.len() implies #[trigger] o.contains(i) by {
        if pinned[i] {
            assert(p.contains(i));
            let k = choose|k: int| 0 <= k < p.len() && p[k] == i;
            assert(o[k] == i);
        } else {
            assert(u.contains(i));
            let k = choose|k: int| 0 <= k < u.len() && u[k] == i;
            assert(o[k + p.len()] == i);
        }
    }
    assert forall|k1: int, k2: int|
        #![trigger o[k1], o[k2]]
        0 <= k1 < k2 < pinned.len() implies {
        let a = o[k1];
        let b = o[k2];
        &&& pinned[b] ==> pinned[a]
        &&& pinned[a] == pinned[b] ==> a < b
    } by {
        if k2 < p.len() {
            assert(o[k1] == p[k1] && o[k2] == p[k2]);
        } else if k1 >= p.len() {
            assert(o[k1] == u[k1 - p.len()] && o[k2] == u[k2 - p.len()]);
        } else {
            assert(o[k1] == p[k1] && o[k2] == u[k2 - p.len()]);
        }
    }
}

// ── tab switching ──────────────────────────────────────────────────────────

/// In a consistent tab list the shown tab's index finds the shown tab.
proof fn lemma_current_index_of(tabs: Seq<u64>, j: int)
    requires
        tabs.no_duplicates(),
        0 <= j < tabs.len(),
    ensures
        current_index_spec(tabs, Some(tabs[j])) == j,
{
    assert(tabs.contains(tabs[j]));
    let i = choose|i: int| 0 <= i < tabs.len() && tabs[i] == tabs[j];
    assert(i == j);
}

/// Next tab then previous tab (Ctrl+Tab, Ctrl+Shift+Tab) shows the tab that
/// was shown before, wherever it stands in the list.
pub proof fn law_next_then_previous_tab(tabs: Seq<u64>, current: Option<u64>, next_id: u64)
    requires
        tabs_wf(tabs, current, next_id),
        tabs.len() > 0,
    ensures
        ({
            let n = tabs.len() as int;
            let i = current_index_spec(tabs, current);
            let j = (i + 1) % n;
            let back = (current_index_spec(tabs, Some(tabs[j])) - 1) % n;
            0 <= j < n && tabs[back] == tabs[i] && Some(tabs[i]) == current
        }),
{
    let n = tabs.len() as int;
    let c = current->0;
    assert(tabs.contains(c));
    let i = current_index_spec(tabs, current);
    assert(0 <= i < n && tabs[i] == c);
    let j = (i + 1) % n;
    lemma_current_index_of(tabs, j);
    if i + 1 < n {
        vstd::arithmetic::div_mod::lemma_small_mod((i + 1) as nat, n as nat);
        vstd::arithmetic::div_mod::lemma_small_mod(i as nat, n as nat);
        assert(j == i + 1);
    } else {
        vstd::arithmetic::div_mod::lemma_fundamental_div_mod_converse(i + 1, n, 1, 0);
        assert(j == 0);
        vstd::arithmetic::div_mod::lemma_fundamental_div_mod_converse(-1, n, -1, n - 1);
    }
}


/// Closing a tab right after opening it gives back the tab list as it was:
/// the new tab is shown, so it is the one closed, and the others keep their order.
pub proof fn law_close_undoes_add(tabs: Seq<u64>, current: Option<u64>, next_id: u64)
    requires
        tabs_wf(tabs, current, next_id),
        tabs.len() > 0,
    ensures
        ({
            let added = tabs.push(next_id);
            let i = current_index_spec(added, Some(next_id));
            &&& i == tabs.len()
            &&& added[i] == next_id
            &&& added.remove(i) == tabs
        }),
{
    let added = tabs.push(next_id);
    assert forall|a: int, b: int| 0 <= a < added.len() && 0 <= b < added.len() && a != b implies added[a]
        != added[b] by {
        if a < tabs.len() && b < tabs.len() {
        } else if a == tabs.len() {
            assert(tabs[b] < next_id);
        } else {
            assert(tabs[a] < next_id);
        }
    }
    lemma_current_index_of(added, tabs.len() as int);
    assert(added.remove(tabs.len() as int) =~= tabs);
}


/// Pinning is a switch: toggling twice restores the tab and reports both
/// changes, and pinning an already pinned tab (or unpinning an unpinned one)
/// changes and reports nothing.
pub proof fn law_pin_toggle_roundtrip(m: TabModel)
    ensures
        pin_step(m, !m.pinned).1 == Some(TabEventView::PinnedChanged(!m.pinned)),
        pin_step(pin_step(m, !m.pinned).0, m.pinned) == (m, Some(
            TabEventView::PinnedChanged(m.pinned),
        )),
        pin_step(m, m.pinned) == (m, None::<TabEventView>),
{
}

// ── what the operations are for ───────────────────────────────────────────

/// A domain-shaped input opens over HTTPS as it stands: no white space, dots
/// only between non-empty labels, and a last label of two or more ASCII
/// letters, whatever its length (`example.info`, `example.museum`).
pub proof fn law_domains_open_over_https(name: Seq<char>, tld: Seq<char>)
    requires
        name.len() > 0,
        tld.len() >= 2,
        forall|j: int| 0 <= j < tld.len() ==> ('a' <= #[trigger] tld[j] <= 'z' || 'A' <= tld[j] <= 'Z'),
        forall|i: int| 0 <= i < name.len() ==> !is_ws(#[trigger] name[i]),
        name[0] != '.',
        name.last() != '.',
        forall|i: int| 0 <= i < name.len() - 1 && #[trigger] name[i] == '.' ==> name[i + 1] != '.',
        !has_known_scheme(name + seq!['.'] + tld),
        !is_local_address(name + seq!['.'] + tld),
    ensures
        parse_spec(name + seq!['.'] + tld) == NavTarget::Url("https://"@ + (name + seq!['.'] + tld)),
{
    let s = name + seq!['.'] + tld;
    let n = name.len() as int;
    assert(s.len() == n + 1 + tld.len());
    assert forall|i: int| 0 <= i < s.len() implies !is_ws(#[trigger] s[i]) by {
        if i < n {
            assert(s[i] == name[i]);
        } else if i == n {
            assert(s[i] == '.');
        } else {
            assert(s[i] == tld[i - n - 1]);
        }
    }
    lemma_trim_fixed(s);
    assert forall|i: int| 0 <= i < s.len() && #[trigger] s[i] == '.' implies 0 < i && i + 1
        < s.len() && s[i + 1] != '.' by {
        if i < n {
            assert(s[i] == name[i]);
            assert(i != 0);
            assert(i != n - 1);
            assert(s[i + 1] == name[i + 1]);
        } else if i == n {
            assert(s[i + 1] == tld[0]);
        } else {
            assert(s[i] == tld[i - n - 1]);
        }
    }
    assert(s[n] == '.');
    assert forall|j: int| n < j < s.len() implies crate::text::is_ascii_alpha(#[trigger] s[j]) by {
        assert(s[j] == tld[j - n - 1]);
    }
    assert(crate::navigation::has_alpha_tld(s));
    assert(crate::navigation::domain_like(s));
}

/// The value of a hexadecimal digit, either case.
pub open spec fn hex_value(c: char) -> int {
    if '0' <= c && c <= '9' {
        c as int - 48
    } else if 'A' <= c && c <= 'F' {
        c as int - 55
    } else if 'a' <= c && c <= 'f' {
        c as int - 87
    } else {
        0
    }
}

/// The bytes a form-encoded text stands for: `+` is a space, `%XX` is the
/// byte with hex digits `XX`, any other character is its own code.
pub open spec fn form_decode(s: Seq<char>) -> Seq<u8>
    decreases s.len(),
{
    if s.len() == 0 {
        Seq::empty()
    } else if s[0] == '+' {
        seq![32u8] + form_decode(s.drop_first())
    } else if s[0] == '%' && s.len() >= 3 {
        seq![(16 * hex_value(s[1]) + hex_value(s[2])) as u8] + form_decode(s.skip(3))
    } else {
        seq![(s[0] as u32) as u8] + form_decode(s.drop_first())
    }
}

proof fn lemma_decode_byte(b: u8, rest: Seq<char>)
    ensures
        form_decode(encode_byte(b, EncodeForm::QueryComponent) + rest) == seq![b] + form_decode(rest),
{
    let e = encode_byte(b, EncodeForm::QueryComponent);
    let s = e + rest;
    if is_unreserved(b) {
        assert(s[0] == b as char);
        assert(s.drop_first() =~= rest);
    } else if b == 32 {
        assert(s[0] == '+');
        assert(s.drop_first() =~= rest);
    } else {
        let hi = b / 16;
        let lo = b % 16;
        assert(s[0] == '%');
        assert(s[1] == hex_upper(hi));
        assert(s[2] == hex_upper(lo));
        assert(s.skip(3) =~= rest);
        assert(hex_value(hex_upper(hi)) == hi as int);
        assert(hex_value(hex_upper(lo)) == lo as int);
        assert(16 * hi + lo == b) by (nonlinear_arith)
            requires
                hi == b / 16,
                lo == b % 16,
        ;
    }
}

proof fn lemma_decode_encoded(bytes: Seq<u8>, rest: Seq<char>)
    ensures
        form_decode(encode_bytes(bytes, EncodeForm::QueryComponent) + rest) == bytes + form_decode(
            rest,
        ),
    decreases bytes.len(),
{
    if bytes.len() == 0 {
        assert(encode_bytes(bytes, EncodeForm::QueryComponent) + rest =~= rest);
        assert(bytes + form_decode(rest) =~= form_decode(rest));
    } else {
        let init = bytes.drop_last();
        let b = bytes.last();
        let e = encode_byte(b, EncodeForm::QueryComponent);
        assert(encode_bytes(bytes, EncodeForm::QueryComponent) + rest =~= encode_bytes(
            init,
            EncodeForm::QueryComponent,
        ) + (e + rest));
        lemma_decode_encoded(init, e + rest);
        lemma_decode_byte(b, rest);
        assert(init + (seq![b] + form_decode(rest)) =~= bytes + form_decode(rest));
    }
}

/// A search query's form encoding decodes back to its bytes: reading `+` as
/// a space and `%XX` as a byte gives exactly the bytes that were encoded, so
/// a `+` in the query is never left as `+`.
pub proof fn law_query_encoding_decodes_back(bytes: Seq<u8>)
    ensures
        form_decode(encode_bytes(bytes, EncodeForm::QueryComponent)) == bytes,
{
    lemma_decode_encoded(bytes, Seq::empty());
    assert(encode_bytes(bytes, EncodeForm::QueryComponent) + Seq::<char>::empty() =~= encode_bytes(
        bytes,
        EncodeForm::QueryComponent,
    ));
    assert(form_decode(Seq::<char>::empty()) =~= Seq::<u8>::empty());
    assert(bytes + Seq::<u8>::empty() =~= bytes);
}

/// When the shown tab's title changes in the topbar layout, its row gets the
/// shortened title as tooltip and the pill label the tab strip gives the tab
/// for its own pin state: a pinned tab's row shows a single character.
pub proof fn law_title_change_relabels_shown_row(c: Chrome, shown: u64, t: TabModel, title: Seq<char>)
    requires
        c.layout == ChromeLayout::Topbar,
    ensures
        tab_event_step(c, Some(shown), shown, TabEventView::TitleChanged(title), Some(t)).1 == seq![
            ChromeUpdateView::SetCurrentRowTooltip(short_title_spec(title)),
            ChromeUpdateView::SetCurrentRowLabel(tab_label_spec(t.title, t.url, t.pinned)),
        ],
        t.pinned ==> (tab_event_step(
            c,
            Some(shown),
            shown,
            TabEventView::TitleChanged(title),
            Some(t),
        ).1[1] matches ChromeUpdateView::SetCurrentRowLabel(l) && l.len() == 1),
{
    reveal_strlit("N");
}

/// Alt+Left and only Alt+Left goes back in history; Alt+Right and only
/// Alt+Right goes forward, whether or not the settings dialog is open.
pub proof fn law_history_keys(ctrl: bool, shift: bool, alt: bool, key: KeyName, settings_open: bool)
    ensures
        (key_dispatch_spec(ctrl, shift, alt, key, settings_open) == KeyDispatch::Run(WinCmd::Back))
            <==> (!ctrl && !shift && alt && key == KeyName::Left),
        (key_dispatch_spec(ctrl, shift, alt, key, settings_open) == KeyDispatch::Run(
            WinCmd::Forward,
        )) <==> (!ctrl && !shift && alt && key == KeyName::Right),
{
}

/// An unpinned tab without a real title (none, `New Tab`, or a `data:` URI)
/// on a real address is labelled with that address, cut to 31 characters and
/// an ellipsis when longer than 32; one with a real title is labelled with
/// the title, cut to 59 characters and an ellipsis when longer than 60.
pub proof fn law_unpinned_tab_labels(title: Seq<char>, url: Seq<char>)
    requires
        !is_blank_url(url),
    ensures
        (title.len() == 0 || title == "New Tab"@ || "data:"@.is_prefix_of(title)) ==> tab_label_spec(
            title,
            url,
            false,
        ) == if url.len() <= 32 {
            url
        } else {
            url.take(31).push('\u{2026}')
        },
        !(title.len() == 0 || title == "New Tab"@ || "data:"@.is_prefix_of(title)) ==> tab_label_spec(
            title,
            url,
            false,
        ) == if title.len() <= 60 {
            title
        } else {
            title.take(59).push('\u{2026}')
        },
{
}

} // verus!
