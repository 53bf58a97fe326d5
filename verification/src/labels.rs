//! Text the window shows for tabs and pages: tab labels, the address-bar
//! text, and the error page.

use vstd::prelude::*;
use crate::config;
use crate::tab::Tab;
use crate::text::{
    ascii_upper,
    is_ascii_alnum,
    is_ascii_alphanumeric,
    push_char,
    replace_two,
    replace_two_seq,
    starts_with,
    str_equal,
    to_ascii_uppercase,
};

verus! {

/// Addresses that stand for an empty page: none, the new-tab page,
/// `about:blank`, and `data:` URIs.
pub open spec fn is_blank_url(url: Seq<char>) -> bool {
    ||| url.len() == 0
    ||| url == "about:newtab"@
    ||| url == "about:blank"@
    ||| "data:"@.is_prefix_of(url)
}

/// `s` cut to `max - 1` characters plus an ellipsis when it is longer than `max`.
pub open spec fn ellipsize(s: Seq<char>, max: nat) -> Seq<char> {
    if s.len() > max {
        s.take(max - 1).push('\u{2026}')
    } else {
        s
    }
}

pub open spec fn short_title_spec(title: Seq<char>) -> Seq<char> {
    if title.len() == 0 {
        "New Tab"@
    } else {
        ellipsize(title, 60)
    }
}

pub open spec fn short_url_spec(url: Seq<char>) -> Seq<char> {
    if is_blank_url(url) {
        "New Tab"@
    } else {
        ellipsize(url, 32)
    }
}

pub open spec fn address_text_spec(url: Seq<char>) -> Seq<char> {
    if is_blank_url(url) {
        Seq::empty()
    } else {
        url
    }
}

/// The first ASCII letter or digit of `s`, upper-cased.
pub open spec fn first_alnum_upper(s: Seq<char>) -> Option<char>
    decreases s.len(),
{
    if s.len() == 0 {
        None
    } else if is_ascii_alnum(s[0]) {
        Some(ascii_upper(s[0]))
    } else {
        first_alnum_upper(s.drop_first())
    }
}

/// The label of a tab pill in the top bar.
pub open spec fn tab_label_spec(title: Seq<char>, url: Seq<char>, pinned: bool) -> Seq<char> {
    let text = if is_blank_url(url) {
        "New Tab"@
    } else {
        short_url_spec(url)
    };
    if pinned {
        let source = if title.len() == 0 {
            text
        } else {
            title
        };
        match first_alnum_upper(source) {
            Some(c) => seq![c],
            None => "N"@,
        }
    } else if title.len() > 0 && title != "New Tab"@ && !"data:"@.is_prefix_of(title) {
        short_title_spec(title)
    } else {
        text
    }
}

/// The label of a tab row in the sidebar.
pub open spec fn sidebar_tab_label_spec(title: Seq<char>, url: Seq<char>) -> Seq<char> {
    if title.len() > 0 {
        short_title_spec(title)
    } else {
        short_url_spec(url)
    }
}

/// Whether `url` stands for an empty page.
pub fn is_blank_page(url: &str) -> (r: bool)
    ensures
        r == is_blank_url(url@),
{
    url.unicode_len() == 0 || str_equal(url, "about:newtab") || str_equal(url, "about:blank")
        || starts_with(url, "data:")
}

fn ellipsized(s: &str, max: usize) -> (r: String)
    requires
        max > 0,
    ensures
        r@ == ellipsize(s@, max as nat),
{
    if s.unicode_len() > max {
        let mut out = s.substring_char(0, max - 1).to_owned();
        push_char(&mut out, '\u{2026}');
        out
    } else {
        s.to_owned()
    }
}

/// A page title cut to fit a tab; an empty title reads "New Tab".
pub fn short_title(title: &str) -> (r: String)
    ensures
        r@ == short_title_spec(title@),
{
    if title.unicode_len() == 0 {
        "New Tab".to_owned()
    } else {
        ellipsized(title, 60)
    }
}

/// An address cut to fit a tab; empty pages read "New Tab".
pub fn short_url(url: &str) -> (r: String)
    ensures
        r@ == short_url_spec(url@),
{
    if is_blank_page(url) {
        "New Tab".to_owned()
    } else {
        ellipsized(url, 32)
    }
}

/// What the address bar shows for `url`: nothing for empty pages.
pub fn address_text_for(url: &str) -> (r: String)
    ensures
        r@ == address_text_spec(url@),
{
    if is_blank_page(url) {
        String::new()
    } else {
        url.to_owned()
    }
}

fn first_alnum_as_upper(s: &str) -> (r: String)
    ensures
        r@ == match first_alnum_upper(s@) {
            Some(c) => seq![c],
            None => "N"@,
        },
{
    let n = s.unicode_len();
    let mut i: usize = 0;
    assert(s@.skip(0) =~= s@);
    while i < n
        invariant
            n == s@.len(),
            i <= n,
            first_alnum_upper(s@) == first_alnum_upper(s@.skip(i as int)),
        decreases n - i,
    {
        let c = s.get_char(i);
        proof {
            assert(s@.skip(i as int)[0] == c);
            assert(s@.skip(i as int).drop_first() =~= s@.skip(i + 1));
        }
        if is_ascii_alphanumeric(c) {
            let mut out = String::new();
            push_char(&mut out, to_ascii_uppercase(c));
            assert(out@ =~= seq![ascii_upper(c)]);
            return out;
        }
        i = i + 1;
    }
    assert(s@.skip(n as int).len() == 0);
    "N".to_owned()
}

/// The label of a tab pill: its initial when pinned, else a short title or address.
pub fn tab_label_for(tab: &Tab, pinned: bool) -> (r: String)
    ensures
        r@ == tab_label_spec(tab.title@, tab.url@, pinned),
{
    let title = tab.title.as_str();
    let url = tab.url.as_str();
    let text = if is_blank_page(url) {
        "New Tab".to_owned()
    } else {
        short_url(url)
    };
    if pinned {
        let source = if title.unicode_len() == 0 {
            text.as_str()
        } else {
            title
        };
        first_alnum_as_upper(source)
    } else {
        let title_is_real = title.unicode_len() > 0 && !str_equal(title, "New Tab") && !starts_with(
            title,
            "data:",
        );
        if title_is_real {
            short_title(title)
        } else {
            text
        }
    }
}

/// The label of a tab row in the sidebar.
pub fn sidebar_tab_label_for(tab: &Tab) -> (r: String)
    ensures
        r@ == sidebar_tab_label_spec(tab.title@, tab.url@),
{
    if tab.title.unicode_len() > 0 {
        short_title(tab.title.as_str())
    } else {
        short_url(tab.url.as_str())
    }
}

// ── error page ─────────────────────────────────────────────────────────────

/// The HTML text for one character.
pub open spec fn escape_char(c: char) -> Seq<char> {
    if c == '&' {
        seq!['&', 'a', 'm', 'p', ';']
    } else if c == '<' {
        seq!['&', 'l', 't', ';']
    } else if c == '>' {
        seq!['&', 'g', 't', ';']
    } else if c == '"' {
        seq!['&', 'q', 'u', 'o', 't', ';']
    } else {
        seq![c]
    }
}

/// `s` with `&`, `<`, `>` and `"` written as HTML entities.
pub open spec fn html_escape_spec(s: Seq<char>) -> Seq<char>
    decreases s.len(),
{
    if s.len() == 0 {
        Seq::empty()
    } else {
        html_escape_spec(s.drop_last()) + escape_char(s.last())
    }
}

/// `s` with `&`, `<`, `>` and `"` written as HTML entities.
pub fn html_escape(s: &str) -> (r: String)
    ensures
        r@ == html_escape_spec(s@),
{
    let n = s.unicode_len();
    let mut out = String::new();
    let mut i: usize = 0;
    assert(s@.take(0) =~= Seq::<char>::empty());
    while i < n
        invariant
            n == s@.len(),
            i <= n,
            out@ == html_escape_spec(s@.take(i as int)),
        decreases n - i,
    {
        let c = s.get_char(i);
        let ghost before = out@;
        if c == '&' {
            push_char(&mut out, '&');
            push_char(&mut out, 'a');
            push_char(&mut out, 'm');
            push_char(&mut out, 'p');
            push_char(&mut out, ';');
        } else if c == '<' {
            push_char(&mut out, '&');
            push_char(&mut out, 'l');
            push_char(&mut out, 't');
            push_char(&mut out, ';');
        } else if c == '>' {
            push_char(&mut out, '&');
            push_char(&mut out, 'g');
            push_char(&mut out, 't');
            push_char(&mut out, ';');
        } else if c == '"' {
            push_char(&mut out, '&');
            push_char(&mut out, 'q');
            push_char(&mut out, 'u');
            push_char(&mut out, 'o');
            push_char(&mut out, 't');
            push_char(&mut out, ';');
        } else {
            push_char(&mut out, c);
        }
        proof {
            assert(out@ =~= before + escape_char(c));
            assert(s@.take(i + 1).drop_last() =~= s@.take(i as int));
            assert(s@.take(i + 1).last() == c);
        }
        i = i + 1;
    }
    assert(s@.take(n as int) =~= s@);
    out
}

/// The error page for a failed load: the template with the escaped address
/// in place of each `{uri}` and the escaped message in place of each
/// `{message}`, both filled into the template alone.
pub open spec fn error_page_spec(uri: Seq<char>, message: Seq<char>) -> Seq<char> {
    replace_two_seq(
        config::ERROR_PAGE_HTML@,
        "{uri}"@,
        html_escape_spec(uri),
        "{message}"@,
        html_escape_spec(message),
    )
}

/// The HTML shown in place of a page that failed to load.
pub fn error_page_html(uri: &str, message: &str) -> (r: String)
    ensures
        r@ == error_page_spec(uri@, message@),
{
    proof {
        reveal_strlit("{uri}");
        reveal_strlit("{message}");
    }
    replace_two(
        config::ERROR_PAGE_HTML,
        "{uri}",
        html_escape(uri).as_str(),
        "{message}",
        html_escape(message).as_str(),
    )
}

} // verus!
