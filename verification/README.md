# baidu_netdisk_sdk

A Baidu NetDisk (百度网盘) open platform SDK whose logic is verified with Verus.

- `src/` is the verified library: the queries and forms of every API request,
  the interpretation of every response into results or errors, the error
  table and error classes, the token lifecycle (status, refresh planning,
  device-code polling), download chunk planning, upload block lists and
  batching, the retry policy and the rendering of byte counts. Each public
  function states its result in its contract; the laws that relate several
  functions are proof functions (`lemma_*`).
- `app/` is the networked side, ordinary Rust: the HTTP transport (reqwest),
  the asynchronous API clients, environment loading, and the serde shapes of
  the JSON responses, converted into the library's types.
- `tests/` exercises the library on concrete values.

Calls into outside crates that the library makes (form and percent encoding,
MD5, JSON arrays, error texts, the clock) go through small trusted wrappers
whose contracts are stated next to them.
