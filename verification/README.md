# tstats

The verified core of the TStats backend, a web service that shows the results
of osu! tournament stages: tournaments, their stages, map pools, scores and
the players' sign-in with osu!.

- `src/` is the library, written in Verus. Every function carries a contract
  that Verus proves: the cache keys and the cache-or-fetch protocol, date
  conversions, the conversions between stored records and the objects the API
  hands out, the selection of a stage's pool, the ranking of scores, the
  request guard, both sign-in flows (as step functions from state and event to
  next state and action), the configuration profile, and the plans of the
  seed data. Laws that span functions are public proof functions beside them.
- The few calls into outside crates that compute (chrono, url, base64, rand)
  stand behind small trusted wrappers whose contracts say what those crates do.
- `app/` is ordinary Rust around the library: the database (sea-orm), the
  cache store (redis), the osu! API (rosu-v2, oauth2) and the configuration
  files. It performs the I/O that the library's step functions ask for.
- `tests/` runs the library on concrete values.
