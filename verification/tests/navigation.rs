use mini_browser::navigation::{looks_like_domain, parse, resolve, simple_url_encode, NavInput};

#[test]
fn parses_urls() {
    assert_eq!(
        parse("https://example.com"),
        NavInput::Url("https://example.com".into())
    );
    assert_eq!(
        parse("http://example.com"),
        NavInput::Url("http://example.com".into())
    );
    assert_eq!(
        parse("example.com"),
        NavInput::Url("https://example.com".into())
    );
    assert_eq!(
        parse("www.example.com"),
        NavInput::Url("https://www.example.com".into())
    );
    assert_eq!(parse("localhost"), NavInput::Url("http://localhost".into()));
    assert_eq!(
        parse("127.0.0.1:8080"),
        NavInput::Url("http://127.0.0.1:8080".into())
    );
}

#[test]
fn parses_searches() {
    assert_eq!(
        parse("rust gtk tutorial"),
        NavInput::Search("rust gtk tutorial".into())
    );
    assert_eq!(parse("foo"), NavInput::Search("foo".into()));
}

#[test]
fn resolves_search() {
    let r = resolve(&NavInput::Search("hello world".into()));
    assert!(r.starts_with("https://duckduckgo.com/?q="));
    assert!(r.contains("hello+world"));
}

#[test]
fn parse_trims_surrounding_whitespace() {
    assert_eq!(parse("  example.com \t\n"), NavInput::Url("https://example.com".into()));
    assert_eq!(parse("\u{3000}foo\u{a0}"), NavInput::Search("foo".into()));
}

#[test]
fn parse_empty_and_blank_input_is_empty_search() {
    assert_eq!(parse(""), NavInput::Search(String::new()));
    assert_eq!(parse("   \t "), NavInput::Search(String::new()));
}

#[test]
fn parse_known_schemes_stay_as_typed() {
    assert_eq!(parse("file:///tmp/x.html"), NavInput::Url("file:///tmp/x.html".into()));
    assert_eq!(parse("ftp://host/a"), NavInput::Url("ftp://host/a".into()));
    assert_eq!(parse("about:blank"), NavInput::Url("about:blank".into()));
}

#[test]
fn parse_local_addresses_get_http() {
    assert_eq!(parse("LocalHost"), NavInput::Url("http://LocalHost".into()));
    assert_eq!(parse("localhost/admin"), NavInput::Url("http://localhost/admin".into()));
    assert_eq!(parse("192.168.1.1"), NavInput::Url("http://192.168.1.1".into()));
    assert_eq!(parse("10.0.0.2/x"), NavInput::Url("http://10.0.0.2/x".into()));
    // "localhost:3000" is neither exactly localhost nor a localhost/ path.
    assert_eq!(parse("localhost:3000"), NavInput::Search("localhost:3000".into()));
}

#[test]
fn domain_detection_edges() {
    assert!(looks_like_domain("example.com"));
    assert!(looks_like_domain("a.b.co"));
    assert!(!looks_like_domain("example"));
    assert!(!looks_like_domain(".example.com"));
    assert!(!looks_like_domain("example.com."));
    assert!(!looks_like_domain("example..com"));
    assert!(!looks_like_domain("example.c"));
    assert!(!looks_like_domain("example.c0m"));
    assert!(!looks_like_domain("exa mple.com"));
    assert!(!looks_like_domain("example.\u{e9}t"));
    assert!(looks_like_domain("ex-ample.org"));
    assert_eq!(parse("v1.2"), NavInput::Search("v1.2".into()));
}

#[test]
fn url_encoding_of_queries() {
    assert_eq!(simple_url_encode("hello world"), "hello+world");
    assert_eq!(simple_url_encode("a-b_c.d~e"), "a-b_c.d~e");
    assert_eq!(simple_url_encode("a&b=c#d"), "a%26b%3Dc%23d");
    assert_eq!(simple_url_encode("caf\u{e9}"), "caf%C3%A9");
    assert_eq!(simple_url_encode(""), "");
}

#[test]
fn resolve_keeps_urls_and_builds_search_urls() {
    assert_eq!(resolve(&NavInput::Url("https://x.org/".into())), "https://x.org/");
    assert_eq!(
        resolve(&NavInput::Search("rust & gtk".into())),
        "https://duckduckgo.com/?q=rust+%26+gtk"
    );
}

#[test]
fn parse_is_stable_on_its_urls() {
    for input in ["example.com", "localhost", "127.0.0.1:8080", "https://a.io"] {
        if let NavInput::Url(u) = parse(input) {
            assert_eq!(parse(&u), NavInput::Url(u.clone()));
        } else {
            panic!("expected a URL");
        }
    }
}
