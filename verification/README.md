# lastfm_edit

A client library for Last.fm's scrobble-editing web interface, written in Verus.

- `src/` is the verified library: URL and form building, the reading of the site's pages
  (through `scraper`), the login and session decisions, the retry machine, request matching and
  masking for recorded traffic, the command-line tool's planning and messages, and the laws in
  `src/laws.rs`. Calls into outside crates go through small trusted wrappers whose contracts are
  stated beside them.
- `app/` is ordinary Rust around the library: the asynchronous HTTP client over any
  `http_client_2::HttpClient`, the retry loop, session files, JSON records, and the command-line
  tool.
- `tests/` runs the library on concrete inputs.
