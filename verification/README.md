# mini_browser

The logic of a small GTK4 + WebKitGTK tabbed browser, verified with Verus.

`src/` is the library, every function of it verified:

- `navigation` — classifying address-bar input as a URL or a search, and
  building the search URL (`parse`, `resolve`).
- `tab` — one tab's title, address, loading and pin state, and how it reacts
  to page loads and navigation.
- `window` — the window's tab list, the topbar / sidebar layout with its
  auto-hide, the theme, keyboard shortcuts and reactions to tab events.
- `labels` — tab labels, address-bar text and the error page.
- `shell` — the desktop shell's start-up switches, page script and
  navigation targets.
- `text`, `encoding` — string helpers and percent-encoding.
- `laws` — properties that span several calls.

`app/` is the GTK program around it: widgets, signals and the raw WebKit
bindings. It hands the library plain values and applies what it returns.
