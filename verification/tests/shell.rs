use mini_browser::shell::{
    apply_webkit_env, env_flag_true, get_perf_settings, greet, home_url, init_script,
    invalid_url_message, navigation_url, CONTENT_BLOCKER, INJECT_SCRIPT, LITE_MODE,
};

#[test]
fn flags() {
    for v in ["1", "true", "on", "yes"] {
        assert!(env_flag_true(Some(v)));
    }
    for v in ["0", "TRUE", "Yes", "", " 1"] {
        assert!(!env_flag_true(Some(v)));
    }
    assert!(!env_flag_true(None));
    let p = get_perf_settings(Some("1"), None, Some("on"));
    assert!(p.hardware_accel && !p.content_blocker_disabled && p.lite_mode);
}

#[test]
fn webkit_environment() {
    let e = apply_webkit_env(None, true, Some("/home/u/.cache"));
    assert!(!e.hardware_accel && e.disable_dmabuf);
    assert_eq!(e.cache_dir.as_deref(), Some("/home/u/.cache/zeb"));
    let e = apply_webkit_env(None, false, None);
    assert!(!e.disable_dmabuf && e.cache_dir.is_none());
    let e = apply_webkit_env(Some("yes"), true, None);
    assert!(e.hardware_accel && !e.disable_dmabuf);
}

#[test]
fn start_up_script() {
    let s = init_script(true, false, true);
    let expected = format!(
        "window.__ZEB_DEV__ = true;\nwindow.__ZEB_NO_BLOCK__ = false;\nwindow.__ZEB_LITE__ = true;\n{}\n{}\n{}",
        CONTENT_BLOCKER, LITE_MODE, INJECT_SCRIPT
    );
    assert_eq!(s, expected);
}

#[test]
fn commands() {
    assert_eq!(greet("Ada"), "Hello, Ada! You've been greeted from Rust!");
    assert_eq!(home_url(true), "http://localhost:1420");
    assert_eq!(home_url(false), "tauri://localhost");
    assert_eq!(invalid_url_message("empty host"), "Invalid URL: empty host");
}

#[test]
fn navigation_targets_are_parsed_urls() {
    assert_eq!(navigation_url("https://Example.com").unwrap(), "https://example.com/");
    assert_eq!(
        navigation_url("HTTP://a.org/x/../y?q=1").unwrap(),
        "http://a.org/y?q=1"
    );
    assert_eq!(
        navigation_url("example.com").unwrap_err(),
        "Invalid URL: relative URL without a base"
    );
    assert_eq!(navigation_url("http://").unwrap_err(), "Invalid URL: empty host");
}
