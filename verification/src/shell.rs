//! The desktop shell around the web view: its start-up environment knobs,
//! the script injected into every page, and its navigation commands.

use vstd::prelude::*;
use crate::window::opt_str;

verus! {

/// Lightweight JS-level tracker / ad blocker injected at document-start on every
/// non-local page. The dominant reason a heavy Vercel portfolio (React + many
/// blog components + Vercel Analytics + Sentry + etc.) pegs CPU inside zeb is
/// not the React tree itself — it is the third-party analytics / ad scripts
/// running in parallel. Short-circuiting them at fetch / XHR / script-tag time
/// is the single biggest runtime win we can give the webview without touching
/// the portfolio source.
///
/// Scope: only kicks in on non-local pages (skips localhost and tauri://).
/// Opt-out: set `ZEB_DISABLE_CONTENT_BLOCKER=1` before launching zeb.
pub const CONTENT_BLOCKER: &'static str = r#"
(function() {
  if (window.location.hostname === 'localhost' || window.location.origin.indexOf('tauri://') === 0) return;
  if (window.__ZEB_NO_BLOCK__ === true) return;

  // Curated list of the most common analytics / tracking / ad domains.
  // Keep alphabetical-ish per group for easy review.
  var BLOCKED = [
    // Google analytics / ads
    'google-analytics.com','googletagmanager.com','analytics.google.com',
    'doubleclick.net','googlesyndication.com','googleadservices.com',
    'adservice.google.com','googletagservices.com',
    // Facebook / Meta
    'connect.facebook.net','facebook.com','facebook.net',
    // Hotjar / FullStory / LogRocket / Mouseflow / ClickTale (session replay)
    'static.hotjar.com','script.hotjar.com','vc.hotjar.io',
    'fullstory.com','edr.fullstory.com',
    'logrocket.com','cdn.logrocket.io','r.logrocket.io',
    'mouseflow.com','sessioncam.com','clicktale.net',
    // Product analytics
    'cdn.mxpnl.com','api.mixpanel.com','mixpanel.com',
    'cdn.segment.com','api.segment.io','segment.com',
    'api.amplitude.com','amplitude.com',
    'heapanalytics.com','heap.io',
    // Error monitoring (often no-op in dev but still costs main-thread)
    'browser.sentry-cdn.com','o*.sentry.io','ingest.sentry.io',
    'js-agent.newrelic.com','bam.nr-data.net',
    'datadoghq.com','browser-intake-datadoghq.com',
    // Customer chat widgets
    'widget.intercom.io','js.intercomcdn.com','intercom.io',
    'widget.zdassets.com','static.zdassets.com',
    'embed.tawk.to','va.tawk.to',
    // Privacy-friendly but still third-party
    'plausible.io','umami.is','analytics.umami.is',
    // Vercel / Next.js built-in
    'va.vercel-scripts.com','vitals.vercel-insights.com',
    // Cloudflare
    'cloudflareinsights.com','static.cloudflareinsights.com',
    // Yandex / Quantcast / Comscore
    'mc.yandex.ru','mc.yandex.com',
    'quantserve.com','scorecardresearch.com',
    // Ad exchanges
    'adnxs.com','rubiconproject.com','casalemedia.com',
    'pubmatic.com','openx.net','criteo.com','criteo.net',
    'bidr.io','moatads.com','taboola.com','outbrain.com',
  ];

  function isBlocked(u) {
    try {
      var h = new URL(u, location.href).hostname.toLowerCase();
      for (var i = 0; i < BLOCKED.length; i++) {
        var d = BLOCKED[i];
        if (h === d || h.substr(h.length - d.length - 1) === '.' + d) return true;
      }
    } catch (e) {}
    return false;
  }

  // 1. fetch()
  var _f = window.fetch;
  if (typeof _f === 'function') {
    window.fetch = function(u, o) {
      if (typeof u === 'string' && isBlocked(u)) {
        return Promise.resolve(new Response('', {status: 200, statusText: 'Blocked by zeb'}));
      }
      return _f.apply(this, arguments);
    };
  }

  // 2. XMLHttpRequest
  var _X = window.XMLHttpRequest;
  if (typeof _X === 'function') {
    function NX() {
      var x = new _X();
      var _o = x.open;
      var _s = x.send;
      x._zebBlocked = false;
      x.open = function(m, u) {
        if (typeof u === 'string' && isBlocked(u)) { x._zebBlocked = true; return; }
        return _o.apply(this, arguments);
      };
      x.send = function() { if (x._zebBlocked) return; return _s.apply(this, arguments); };
      return x;
    }
    NX.prototype = _X.prototype;
    Object.defineProperty(NX, 'name', { value: 'XMLHttpRequest' });
    window.XMLHttpRequest = NX;
  }

  // 3. sendBeacon (best-effort)
  if (typeof navigator !== 'undefined' && typeof navigator.sendBeacon === 'function') {
    var _b = navigator.sendBeacon.bind(navigator);
    navigator.sendBeacon = function(u, d) {
      if (typeof u === 'string' && isBlocked(u)) return true;
      return _b(u, d);
    };
  }

  // 4. dynamically inserted <script src="..."> tags
  if (typeof MutationObserver !== 'undefined' && document.documentElement) {
    new MutationObserver(function(rs) {
      rs.forEach(function(r) {
        r.addedNodes.forEach(function(n) {
          if (n && n.tagName === 'SCRIPT' && n.src && isBlocked(n.src)) {
            n.remove();
          }
        });
      });
    }).observe(document.documentElement, {childList: true, subtree: true});
  }
})();
"#;

/// Lite Mode — applied to every non-local page when `ZEB_LITE=1`. This is the
/// "make it feel smooth" knob. The four things it does, in order of impact:
///
/// 1. Forces `prefers-reduced-motion: reduce` via a `!important` stylesheet,
///    killing CSS animations / transitions / smooth-scroll. Single biggest
///    jank killer on a React + Framer-Motion / GSAP portfolio.
/// 2. Sets `loading="lazy"` and `decoding="async"` on every <img> on the page
///    and on every <img> that gets added later via a MutationObserver. Stops
///    the browser from decoding 50 hero images on first paint.
/// 3. Disables `WebGL` / `WebGL2` contexts. Most portfolios don't need them
///    and the GPU context init alone is a multi-hundred-ms cost on software
///    render.
/// 4. Adds a `zeb-lite` class on <html> so the user (or site CSS) can target
///    it from DevTools / their own stylesheet.
pub const LITE_MODE: &'static str = r#"
(function() {
  if (window.__ZEB_LITE__ !== true) return;
  if (window.location.hostname === 'localhost' || window.location.origin.indexOf('tauri://') === 0) return;

  // 1. force reduced motion
  var s = document.createElement('style');
  s.id = 'zeb-lite-style';
  s.textContent = '*,*::before,*::after{animation-duration:0.001ms!important;animation-delay:0ms!important;animation-iteration-count:1!important;transition-duration:0.001ms!important;transition-delay:0ms!important;scroll-behavior:auto!important}';
  (document.head || document.documentElement).appendChild(s);

  // 2. lazy-load every <img>, including ones added later
  function lazy() {
    var imgs = document.querySelectorAll('img');
    for (var i = 0; i < imgs.length; i++) {
      if (!imgs[i].loading) imgs[i].loading = 'lazy';
      if (!imgs[i].decoding) imgs[i].decoding = 'async';
    }
  }
  lazy();
  if (typeof MutationObserver !== 'undefined' && document.documentElement) {
    new MutationObserver(lazy).observe(document.documentElement, {childList: true, subtree: true});
  }

  // 3. disable WebGL contexts (3D libs / shaders are a huge cost on software render)
  try {
    var origGetContext = HTMLCanvasElement.prototype.getContext;
    HTMLCanvasElement.prototype.getContext = function(type) {
      if (type === 'webgl' || type === 'webgl2' || type === 'experimental-webgl') {
        return null;
      }
      return origGetContext.apply(this, arguments);
    };
  } catch (e) {}

  // 4. body marker for DevTools / user CSS
  try { document.documentElement.classList.add('zeb-lite'); } catch (e) {}
})();
"#;

pub const INJECT_SCRIPT: &'static str = r#"
(function() {
  window.addEventListener('keydown', function(e) {
    var mod = e.ctrlKey || e.metaKey;
    var key = e.key ? e.key.toLowerCase() : '';

    if (mod && key === 'l') {
      e.preventDefault();
      e.stopPropagation();
      window.location.href = window.__ZEB_DEV__ ? 'http://localhost:1420' : 'tauri://localhost';
      return;
    }

    if (e.key === 'Escape') {
      var tag = document.activeElement ? document.activeElement.tagName.toLowerCase() : '';
      if (tag !== 'input' && tag !== 'textarea') {
        e.preventDefault();
        e.stopPropagation();
        window.location.href = window.__ZEB_DEV__ ? 'http://localhost:1420' : 'tauri://localhost';
        return;
      }
    }

    if ((mod && key === 'r') || e.key === 'F5') {
      e.preventDefault();
      e.stopPropagation();
      window.location.reload();
      return;
    }

    if (e.altKey && e.key === 'ArrowLeft') {
      e.preventDefault();
      e.stopPropagation();
      window.history.back();
      return;
    }

    if (e.altKey && e.key === 'ArrowRight') {
      e.preventDefault();
      e.stopPropagation();
      window.history.forward();
      return;
    }
  }, true);

  function injectHomeBtn() {
    if (window.location.hostname === 'localhost' || window.location.origin.indexOf('tauri://') === 0) return;
    if (document.getElementById('zeb-floating-home')) return;

    var btn = document.createElement('button');
    btn.id = 'zeb-floating-home';
    btn.innerHTML = '⌘';
    btn.title = 'Home (Ctrl+L / Esc)';
    btn.style.cssText = 'position:fixed;bottom:16px;right:16px;z-index:2147483647;width:38px;height:38px;border-radius:10px;background:#ffffff;color:#1e293b;border:1px solid #cbd5e1;box-shadow:0 4px 16px rgba(0,0,0,0.15);font-size:16px;font-weight:bold;cursor:pointer;display:flex;align-items:center;justify-content:center;transition:transform 0.15s;outline:none;user-select:none;font-family:sans-serif;';
    btn.onmouseenter = function() { btn.style.transform = 'scale(1.08)'; };
    btn.onmouseleave = function() { btn.style.transform = 'scale(1)'; };
    btn.onclick = function(e) {
      e.preventDefault();
      e.stopPropagation();
      window.location.href = window.__ZEB_DEV__ ? 'http://localhost:1420' : 'tauri://localhost';
    };

    if (document.body) {
      document.body.appendChild(btn);
    } else {
      document.addEventListener('DOMContentLoaded', function() {
        if (document.body && !document.getElementById('zeb-floating-home')) {
          document.body.appendChild(btn);
        }
      });
    }
  }

  if (document.readyState === 'loading') {
    document.addEventListener('DOMContentLoaded', injectHomeBtn);
  } else {
    injectHomeBtn();
  }
})();
"#;


/// Values of an environment flag that turn it on.
pub open spec fn flag_on(value: Option<Seq<char>>) -> bool {
    value == Some("1"@) || value == Some("true"@) || value == Some("on"@) || value == Some("yes"@)
}

/// Whether an environment flag with this value (if set) is on: "1", "true", "on" or "yes".
pub fn env_flag_true(value: Option<&str>) -> (r: bool)
    ensures
        r == flag_on(opt_str(value)),
{
    match value {
        Some(v) => {
            let r = crate::text::str_equal(v, "1") || crate::text::str_equal(v, "true")
                || crate::text::str_equal(v, "on") || crate::text::str_equal(v, "yes");
            r
        },
        None => false,
    }
}

/// The performance and blocking switches in effect.
#[derive(Debug, Clone, Copy, PartialEq, Eq, Structural)]
pub struct PerfSettings {
    pub hardware_accel: bool,
    pub content_blocker_disabled: bool,
    pub lite_mode: bool,
}

/// The switches read from the values of `ZEB_HARDWARE_ACCEL`,
/// `ZEB_DISABLE_CONTENT_BLOCKER` and `ZEB_LITE`.
pub fn get_perf_settings(
    hardware_accel: Option<&str>,
    disable_content_blocker: Option<&str>,
    lite: Option<&str>,
) -> (r: PerfSettings)
    ensures
        r.hardware_accel == flag_on(opt_str(hardware_accel)),
        r.content_blocker_disabled == flag_on(opt_str(disable_content_blocker)),
        r.lite_mode == flag_on(opt_str(lite)),
{
    PerfSettings {
        hardware_accel: env_flag_true(hardware_accel),
        content_blocker_disabled: env_flag_true(disable_content_blocker),
        lite_mode: env_flag_true(lite),
    }
}

/// How the web engine's environment is set up at start.
#[derive(Debug)]
pub struct WebkitEnv {
    /// GPU rendering was asked for (`ZEB_HARDWARE_ACCEL`).
    pub hardware_accel: bool,
    /// Set `WEBKIT_DISABLE_DMABUF_RENDERER=1`.
    pub disable_dmabuf: bool,
    /// Set `WEBKIT_CACHE_DIR` to this directory.
    pub cache_dir: Option<String>,
}

/// The engine set-up: software rendering unless hardware acceleration is
/// asked for (an existing `WEBKIT_DISABLE_DMABUF_RENDERER` is left alone),
/// and a `zeb` cache directory under `XDG_CACHE_HOME` when that is set.
pub fn apply_webkit_env(
    hardware_flag: Option<&str>,
    dmabuf_var_unset: bool,
    xdg_cache_home: Option<&str>,
) -> (r: WebkitEnv)
    ensures
        r.hardware_accel == flag_on(opt_str(hardware_flag)),
        r.disable_dmabuf == (!r.hardware_accel && dmabuf_var_unset),
        match xdg_cache_home {
            Some(x) => r.cache_dir matches Some(d) && d@ == x@ + "/zeb"@,
            None => r.cache_dir is None,
        },
{
    let want_hardware = env_flag_true(hardware_flag);
    let disable_dmabuf = !want_hardware && dmabuf_var_unset;
    let cache_dir = match xdg_cache_home {
        Some(x) => {
            let mut d = x.to_owned();
            d.append("/zeb");
            Some(d)
        },
        None => None,
    };
    WebkitEnv { hardware_accel: want_hardware, disable_dmabuf, cache_dir }
}

pub open spec fn bool_text(b: bool) -> Seq<char> {
    if b {
        "true"@
    } else {
        "false"@
    }
}

fn bool_str(b: bool) -> (r: &'static str)
    ensures
        r@ == bool_text(b),
{
    if b {
        "true"
    } else {
        "false"
    }
}

/// The script run at the start of every page: the three switches as
/// globals, then the content blocker, lite mode and keyboard scripts.
pub open spec fn init_script_spec(is_dev: bool, no_block: bool, lite: bool) -> Seq<char> {
    "window.__ZEB_DEV__ = "@ + bool_text(is_dev) + ";\nwindow.__ZEB_NO_BLOCK__ = "@ + bool_text(
        no_block,
    ) + ";\nwindow.__ZEB_LITE__ = "@ + bool_text(lite) + ";\n"@ + CONTENT_BLOCKER@ + "\n"@
        + LITE_MODE@ + "\n"@ + INJECT_SCRIPT@
}

/// Composes the page start-up script (env flags first, then content blocker,
/// then lite mode, then the keyboard / floating-home-button script).
pub fn init_script(is_dev: bool, no_block: bool, lite: bool) -> (r: String)
    ensures
        r@ == init_script_spec(is_dev, no_block, lite),
{
    let mut s = "window.__ZEB_DEV__ = ".to_owned();
    s.append(bool_str(is_dev));
    s.append(";\nwindow.__ZEB_NO_BLOCK__ = ");
    s.append(bool_str(no_block));
    s.append(";\nwindow.__ZEB_LITE__ = ");
    s.append(bool_str(lite));
    s.append(";\n");
    s.append(CONTENT_BLOCKER);
    s.append("\n");
    s.append(LITE_MODE);
    s.append("\n");
    s.append(INJECT_SCRIPT);
    s
}

/// The page the home command returns to: the dev server or the bundled app.
pub fn home_url(is_dev: bool) -> (r: &'static str)
    ensures
        is_dev ==> r@ == "http://localhost:1420"@,
        !is_dev ==> r@ == "tauri://localhost"@,
{
    if is_dev {
        "http://localhost:1420"
    } else {
        "tauri://localhost"
    }
}

/// The greeting for `name`.
pub fn greet(name: &str) -> (r: String)
    ensures
        r@ == "Hello, "@ + name@ + "! You've been greeted from Rust!"@,
{
    let mut s = "Hello, ".to_owned();
    s.append(name);
    s.append("! You've been greeted from Rust!");
    s
}

// ── navigation targets ─────────────────────────────────────────────────────

/// What `url::Url::parse` makes of this input: the serialization of the
/// parsed URL (`Url::as_str`), or the text of its `ParseError`. Parsing
/// follows the WHATWG URL standard and depends on the input alone.
pub uninterp spec fn url_parse(input: Seq<char>) -> Result<Seq<char>, Seq<char>>;

/// The characters of a string result, on both sides.
pub open spec fn text_result(r: Result<String, String>) -> Result<Seq<char>, Seq<char>> {
    match r {
        Ok(s) => Ok(s@),
        Err(e) => Err(e@),
    }
}

/// `url::Url::parse`: the text of the parsed URL, or the text of its
/// `ParseError`. Only stated through `url_parse`; the parser itself is not
/// written out.
#[verifier::external_body]
fn parse_url(input: &str) -> (r: Result<String, String>)
    ensures
        text_result(r) == url_parse(input@),
{
    match url::Url::parse(input) {
        Ok(u) => Ok(u.as_str().to_string()),
        Err(e) => Err(e.to_string()),
    }
}

/// The message for a navigation target that is not a URL.
pub fn invalid_url_message(error: &str) -> (r: String)
    ensures
        r@ == "Invalid URL: "@ + error@,
{
    let mut s = "Invalid URL: ".to_owned();
    s.append(error);
    s
}

/// The URL that a navigation command goes to, as the parser writes it, or
/// why it cannot be one.
pub fn navigation_url(url: &str) -> (r: Result<String, String>)
    ensures
        text_result(r) == match url_parse(url@) {
            Ok(u) => Ok(u),
            Err(e) => Err("Invalid URL: "@ + e),
        },
{
    match parse_url(url) {
        Ok(u) => Ok(u),
        Err(e) => Err(invalid_url_message(e.as_str())),
    }
}

} // verus!
