# my_reverse_proxy

The decision-making core of an HTTP/1 reverse proxy, written in Verus and
proved against its contracts: how configured host strings and upstreams are
read, how a request is routed, authorized and answered when it fails, when a
failed delivery is replayed, which connections are kept for reuse, how
abusive addresses are blocked, and what the in-memory logs, gauges and the
admin dashboard show.

Layout:

- `src/` — the verified library, one module per concern (`ip_blocklist`,
  `request_flow`, `upstream_policy`, `tunnel`, `conn_pool`, `app_config`,
  `google_auth`, `headers`, `host_str`, `proxy_pass`, `templates`, ...).
  Properties that span several calls are stated as public `lemma_*` proof
  functions next to the code they are about.
- `app/` — the parts that run around the library: locks, the clock, task
  spawning, the admin API calls and the serde forms of the API models.
- `tests/` — executable tests of the library.
