# hispanshield_agent

The detection logic of the HispanShield endpoint agent, written as a
verified library: every public function states its result in its contract.
Where a result depends on the clock (`FeedManager::refresh`,
`FeedManager::feed_needs_update`, `BeaconTracker::record`), the contract
says what holds for whatever instant the clock gave, and a companion
function (`refresh_at`, `feed_needs_update_at`, `record_at`) takes the
instant as an argument and states its result exactly. The laws of the
scoring, heuristics, feeds, beaconing, registry and firewall rules are
proved as proof functions.

- `src/` — the library. `scoring` (factor weights, clamping, risk levels),
  `heuristic` and `winpath` (path heuristics on Windows paths), `intel`
  (feed parsers, freshness, status rows), `hashing`, `detection`
  (cache hits, beaconing, YARA helpers), `file_monitor`, `process_monitor`,
  `monitor` (network), `registry_monitor`, `firewall` (netsh arguments),
  `ipc` (JSON-RPC screening, routing, answers), `service`, and the
  supporting `text`, `jsontext`, `records`, `config`, `beacon`.
- `tests/` — tests run against the compiled library.
- `app/` — the agent executable: configuration file, SQLite store, feed
  downloads, file watching, the Windows-only system calls, the pipe server.
