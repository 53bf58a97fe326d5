use mini_browser::labels::{
    address_text_for, error_page_html, html_escape, is_blank_page, short_title, short_url,
    sidebar_tab_label_for, tab_label_for,
};
use mini_browser::tab::Tab;

fn tab(title: &str, url: &str) -> Tab {
    Tab { title: title.to_string(), url: url.to_string(), loading: false, pinned: false }
}

#[test]
fn blank_pages() {
    for u in ["", "about:newtab", "about:blank", "data:text/html,x"] {
        assert!(is_blank_page(u));
        assert_eq!(address_text_for(u), "");
        assert_eq!(short_url(u), "New Tab");
    }
    assert!(!is_blank_page("about:config"));
    assert_eq!(address_text_for("https://x.org"), "https://x.org");
}

#[test]
fn titles_and_urls_are_shortened() {
    assert_eq!(short_title(""), "New Tab");
    assert_eq!(short_title("Rust"), "Rust");
    let long: String = "a".repeat(61);
    let s = short_title(&long);
    assert_eq!(s.chars().count(), 60);
    assert!(s.ends_with('\u{2026}'));
    assert_eq!(short_title(&"b".repeat(60)), "b".repeat(60));
    let url = "https://example.com/a/very/long/path/here";
    assert_eq!(short_url(url), "https://example.com/a/very/long\u{2026}");
    assert_eq!(short_url("https://x.org"), "https://x.org");
}

#[test]
fn tab_labels() {
    assert_eq!(tab_label_for(&tab("", "about:newtab"), false), "New Tab");
    assert_eq!(tab_label_for(&tab("Rust", "https://rust-lang.org"), false), "Rust");
    assert_eq!(tab_label_for(&tab("New Tab", "https://rust-lang.org"), false), "https://rust-lang.org");
    assert_eq!(tab_label_for(&tab("data:foo", "data:text/html,x"), false), "New Tab");
    assert_eq!(tab_label_for(&tab("rust docs", "https://doc.rust-lang.org"), true), "R");
    assert_eq!(tab_label_for(&tab("", "https://9gag.com"), true), "H");
    assert_eq!(tab_label_for(&tab("...", "https://x.org"), true), "N");
    assert_eq!(tab_label_for(&tab("", ""), true), "N");
    assert_eq!(sidebar_tab_label_for(&tab("Docs", "https://x.org")), "Docs");
    assert_eq!(sidebar_tab_label_for(&tab("", "https://x.org")), "https://x.org");
    assert_eq!(sidebar_tab_label_for(&tab("", "about:blank")), "New Tab");
}

#[test]
fn escaping() {
    assert_eq!(html_escape("<a href=\"x\">&</a>"), "&lt;a href=&quot;x&quot;&gt;&amp;&lt;/a&gt;");
    assert_eq!(html_escape("plain"), "plain");
    assert_eq!(html_escape("&amp;"), "&amp;amp;");
}

#[test]
fn error_page_substitutes_escaped_values() {
    let html = error_page_html("https://x.org/?a=<b>", "Could \"not\" connect");
    assert!(html.contains("<p class=\"uri\">https://x.org/?a=&lt;b&gt;</p>"));
    assert!(html.contains("<div class=\"msg\">Could &quot;not&quot; connect</div>"));
    assert!(!html.contains("{uri}"));
    assert!(!html.contains("{message}"));
    assert!(html.starts_with("<!DOCTYPE html>"));
}

#[test]
fn error_page_fills_only_the_template() {
    let html = error_page_html("https://x.org/{message}", "boom {uri}");
    assert!(html.contains("<p class=\"uri\">https://x.org/{message}</p>"));
    assert!(html.contains("<div class=\"msg\">boom {uri}</div>"));
    assert_eq!(html.matches("boom").count(), 1);
}
