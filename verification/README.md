# http_client

The logic of an HTTP client, verified with Verus: which requests a client makes,
which URLs and which proxy it uses, and how it takes part in an OAuth
authorization callback.

- `src/` is the library. Each function states what it returns, and each module
  ends with the laws that its functions keep. What the crates `http`, `url` and
  `serde_urlencoded` are taken to do stands in `src/web.rs`; what std's strings
  are taken to do, in `src/text.rs`.
- `app/` puts futures, locks, environment variables and a loopback socket around
  the library.
- `tests/` runs the library on concrete values.
