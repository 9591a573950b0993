# warp

A command-line client for the Korean legal information APIs (national laws,
local ordinances, precedents, administrative rules and legal
interpretations), with a verified core.

## Layout

- `src/` — the library, written in Verus. Its functions carry
  `requires`/`ensures` contracts that Verus proves: how requests and URLs are
  built, how API answers become search results, cache keys and cache
  bookkeeping, the retry and batching state machines, pagination, metrics
  statistics, configuration handling and the text output formats. Calls
  into outside crates (`sha2`, `reqwest`'s URL builder, `csv`, `dirs`, `chrono`,
  `lru` for the in-memory cache tier, `flate2` for its compression)
  and a few `std` string functions sit behind small trusted wrappers whose
  doc comments say what is assumed of them.
- `app/` — the program around the library: argument parsing (`clap`), HTTP
  (`reqwest`, `tokio`), the SQLite cache (`rusqlite`), the TOML/YAML
  configuration file, JSON decoding (`serde`), terminal tables and colours.
  It hands plain values to the library and prints what comes back.
- `tests/` — tests of the library, run against the compiled crate.

## Laws proved in `src/`

Among others: a configuration value read back after it is set, and other
values left alone; cache keys independent of parameter order and naming
their API; grouping of batched requests partitions the batch; a fresh cached
answer is reused; consecutive pages cover contiguous offsets; the retry
back-off schedule; escaped HTML and Markdown carry no markup; truncated text
stays within its bound; request counters add up and latency percentiles are
ordered; decimal rendering and parsing round-trip; the in-memory cache tier gives
back, while fresh, exactly the data put in, compressed or not; a result
stream never hands on more items than its limit; the average duration lies
between the shortest and the longest.
