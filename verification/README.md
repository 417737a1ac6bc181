# lyrch

A Discord bot (Skyra VI development line) whose decision-making core is
verified with Verus.

- `src/` is the verified library: localised replies, the guild-settings cache,
  the per-user rate-limit bucket, the daily-reward cooldown rule, the SQL
  statements of the settings tables, the manga page parser, the reading of a
  user argument as an id or mention, command and framework replies, the
  weeb.sh request URL, dispatch events, the clock reading (which may fail),
  log timestamps and the text helpers they share. Each public function states
  its result in its contract; the `lemma_*` proof functions state the laws
  that hold across calls.
- `app/` is the bot itself: serenity commands and event handlers, Postgres and
  Redis access, HTTP requests and the floating-point level arithmetic. It calls
  into the library for every decision listed above.
- `tests/` exercises the library on concrete values.
