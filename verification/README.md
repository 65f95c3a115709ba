# abcdeez_app

The core of the ABCDEEZ adaptive-learning app, written in Verus: the
functions in `src/` carry contracts that Verus proves. The few calls into
chrono, uuid and rand sit behind small trusted wrappers whose contracts say
what those crates promise (nothing, for a reading of the monotonic clock).

- `src/state` — screens, navigation history, deep links, loading flags, tab
  and form state, sign-in and sign-up, and the application state that ties the rest
  together.
- `src/gamification` — levels and experience, streaks with freeze charges,
  power-ups, achievements, leaderboards with trends, and the manager that
  keeps one profile per learner.
- `src/demo.rs` — the guided tours: the built-in scenarios, prerequisites,
  steps that are skipped, timing, rewards and analytics.
- `src/timing.rs` — stopwatches for response times, session timing, medians
  and percentiles.
- `src/services` — the offline sync queue and sync runs, interaction
  tracking counts, adaptive hints, the live channel's address, messages and
  per-event decisions.
- `src/utils/easter_egg.rs` — Little Crab, the hidden companion.
- `src/auth` — Sign in with Apple: requests, results and the iOS bridge.
- `src/components.rs`, `src/views.rs` — the decisions behind the screens
  (colours, ratings, navigation structure).
- `src/clock.rs`, `src/ids.rs`, `src/chance.rs` — the wall clock (chrono),
  UUIDs (uuid) and dice (rand), behind small trusted wrappers.

`app/` is the program around the library: command-line entry point, the
sign-in hand-off over a channel, the crab's on-screen movement, the sync
loop and the JSON sent to the backend. `tests/` exercises the library on
concrete values.
