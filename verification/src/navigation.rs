//! URL detection and search query handling.

use vstd::prelude::*;
use vstd::utf8::encode_utf8;
use crate::config;
use crate::encoding::{EncodeForm, encode_bytes, percent_encode_into};
use crate::text::{
    contains_char,
    eq_ignore_ascii_case,
    eq_ignore_ascii_case_seq,
    is_ascii_alpha,
    is_ascii_alphabetic,
    is_whitespace,
    is_ws,
    replace,
    replace_seq,
    starts_with,
    trim,
    trim_seq,
};

verus! {

/// A parsed user input.
#[derive(Debug, Clone, PartialEq, Eq)]
pub enum NavInput {
    Url(String),
    Search(String),
}

/// The meaning of a `NavInput`: a URL to load or a query to search for.
pub enum NavTarget {
    Url(Seq<char>),
    Search(Seq<char>),
}

impl View for NavInput {
    type V = NavTarget;

    open spec fn view(&self) -> NavTarget {
        match self {
            NavInput::Url(u) => NavTarget::Url(u@),
            NavInput::Search(q) => NavTarget::Search(q@),
        }
    }
}

/// The input already names its scheme.
pub open spec fn has_known_scheme(t: Seq<char>) -> bool {
    ||| "http://"@.is_prefix_of(t)
    ||| "https://"@.is_prefix_of(t)
    ||| "file://"@.is_prefix_of(t)
    ||| "ftp://"@.is_prefix_of(t)
    ||| "about:"@.is_prefix_of(t)
}

/// `localhost` (any ASCII case), a `localhost/` path, or a private /
/// loopback IPv4 prefix.
pub open spec fn is_local_address(t: Seq<char>) -> bool {
    ||| eq_ignore_ascii_case_seq(t, "localhost"@)
    ||| "localhost/"@.is_prefix_of(t)
    ||| "127."@.is_prefix_of(t)
    ||| "192.168."@.is_prefix_of(t)
    ||| "10."@.is_prefix_of(t)
}

/// Every dot separates two non-empty labels.
pub open spec fn labels_nonempty(s: Seq<char>) -> bool {
    forall|i: int|
        0 <= i < s.len() && #[trigger] s[i] == '.' ==> 0 < i && i + 1 < s.len() && s[i + 1]
            != '.'
}

/// The text after the last dot is at least two ASCII letters.
pub open spec fn has_alpha_tld(s: Seq<char>) -> bool {
    exists|k: int|
        0 <= k && k + 2 < s.len() && #[trigger] s[k] == '.' && forall|j: int|
            k < j < s.len() ==> is_ascii_alpha(#[trigger] s[j])
}

/// Looks like a domain: no white space, dots only between non-empty
/// labels, and an alphabetic top-level label of two or more letters.
pub open spec fn domain_like(s: Seq<char>) -> bool {
    &&& forall|i: int| 0 <= i < s.len() ==> !is_ws(#[trigger] s[i])
    &&& labels_nonempty(s)
    &&& has_alpha_tld(s)
}

/// How `parse` classifies an input.
pub open spec fn parse_spec(input: Seq<char>) -> NavTarget {
    let t = trim_seq(input);
    if t.len() == 0 {
        NavTarget::Search(Seq::empty())
    } else if has_known_scheme(t) {
        NavTarget::Url(t)
    } else if is_local_address(t) {
        NavTarget::Url("http://"@ + t)
    } else if domain_like(t) {
        NavTarget::Url("https://"@ + t)
    } else {
        NavTarget::Search(t)
    }
}

/// The search URL for a query: the query's UTF-8 bytes, form-encoded, put
/// in place of `{query}` in the search engine template.
pub open spec fn search_url(query: Seq<char>) -> Seq<char> {
    replace_seq(
        config::SEARCH_ENGINE_URL@,
        "{query}"@,
        encode_bytes(encode_utf8(query), EncodeForm::QueryComponent),
    )
}

/// The URI that a `NavTarget` leads to.
pub open spec fn resolve_spec(target: NavTarget) -> Seq<char> {
    match target {
        NavTarget::Url(u) => u,
        NavTarget::Search(q) => search_url(q),
    }
}

/// Classify the user input. If it already looks like a URL it stays a URL;
/// otherwise it is treated as a search query.
pub fn parse(input: &str) -> (r: NavInput)
    ensures
        r@ == parse_spec(input@),
{
    let trimmed = trim(input);
    if trimmed.unicode_len() == 0 {
        return NavInput::Search(String::new());
    }
    // Already has a scheme.

    if starts_with(trimmed, "http://") || starts_with(trimmed, "https://") || starts_with(
        trimmed,
        "file://",
    ) || starts_with(trimmed, "ftp://") || starts_with(trimmed, "about:") {
        return NavInput::Url(trimmed.to_owned());
    }
    // localhost / IP-like forms are URLs.

    if eq_ignore_ascii_case(trimmed, "localhost") || starts_with(trimmed, "localhost/")
        || starts_with(trimmed, "127.") || starts_with(trimmed, "192.168.") || starts_with(
        trimmed,
        "10.",
    ) {
        let mut url = "http://".to_owned();
        url.append(trimmed);
        return NavInput::Url(url);
    }
    // Looks like a domain: contains a dot and only domain-safe chars.

    if looks_like_domain(trimmed) {
        let mut url = "https://".to_owned();
        url.append(trimmed);
        return NavInput::Url(url);
    }
    NavInput::Search(trimmed.to_owned())
}

/// Whether `s` looks like a bare domain name (see `domain_like`).
pub fn looks_like_domain(s: &str) -> (r: bool)
    ensures
        r == domain_like(s@),
{
    if !contains_char(s, '.') {
        proof {
            if has_alpha_tld(s@) {
                let k = choose|k: int|
                    0 <= k && k + 2 < s@.len() && #[trigger] s@[k] == '.' && forall|j: int|
                        k < j < s@.len() ==> is_ascii_alpha(#[trigger] s@[j]);
                assert(s@.contains(s@[k]));
            }
        }
        return false;
    }
    let n = s.unicode_len();
    // No white space anywhere.
    let mut i: usize = 0;
    while i < n
        invariant
            n == s@.len(),
            i <= n,
            forall|k: int| 0 <= k < i ==> !is_ws(#[trigger] s@[k]),
        decreases n - i,
    {
        if is_whitespace(s.get_char(i)) {
            return false;
        }
        i = i + 1;
    }
    // Every label between dots is non-empty.
    let mut i: usize = 0;
    while i < n
        invariant
            n == s@.len(),
            i <= n,
            forall|k: int|
                0 <= k < i && #[trigger] s@[k] == '.' ==> 0 < k && k + 1 < n && s@[k + 1]
                    != '.',
        decreases n - i,
    {
        if s.get_char(i) == '.' {
            if i == 0 || i + 1 == n {
                return false;
            }
            if s.get_char(i + 1) == '.' {
                return false;
            }
        }
        i = i + 1;
    }
    // The last label is alphabetic and at least two letters long.
    let mut j: usize = n;
    while j > 0 && is_ascii_alphabetic(s.get_char(j - 1))
        invariant
            n == s@.len(),
            j <= n,
            forall|k: int| j <= k < n ==> is_ascii_alpha(#[trigger] s@[k]),
        decreases j,
    {
        j = j - 1;
    }
    if j > 0 && s.get_char(j - 1) == '.' && n - j >= 2 {
        assert(s@[j - 1] == '.');
        true
    } else {
        proof {
            assert forall|k: int|
                0 <= k && k + 2 < s@.len() && #[trigger] s@[k] == '.' implies !(forall|m: int|
                k < m < s@.len() ==> is_ascii_alpha(#[trigger] s@[m])) by {
                if k >= j {
                    assert(is_ascii_alpha(s@[k]));
                } else if k < j - 1 {
                    assert(!is_ascii_alpha(s@[j - 1]));
                } else {
                    assert(k == j - 1);
                }
            }
        }
        false
    }
}

/// Build the final URI from a `NavInput`.
pub fn resolve(input: &NavInput) -> (r: String)
    ensures
        r@ == resolve_spec(input@),
{
    match input {
        NavInput::Url(u) => u.clone(),
        NavInput::Search(q) => {
            let encoded = simple_url_encode(q.as_str());
            proof {
                reveal_strlit("{query}");
            }
            replace(config::SEARCH_ENGINE_URL, "{query}", encoded.as_str())
        },
    }
}

/// Form-encodes the UTF-8 bytes of `s`: unreserved bytes stay, a space
/// becomes `+`, every other byte becomes `%XX`.
pub fn simple_url_encode(s: &str) -> (r: String)
    ensures
        r@ == encode_bytes(encode_utf8(s@), EncodeForm::QueryComponent),
{
    let mut out = String::new();
    percent_encode_into(&mut out, s.as_bytes(), EncodeForm::QueryComponent);
    out
}

} // verus!
