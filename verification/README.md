# monitord_timers

Timer metrics of systemd units, read over D-Bus, with the decisions verified by Verus.

- `src/` is the verified library.
  - `dbus_props`: which properties to ask for, and reading single properties from the answer.
  - `dbus_props_cache`: the cache of long-lived property proxies and what is evicted from it.
  - `timer`: the steps to the metrics of one timer, and of all timers.
  - `names`, `units`, `config`: the data these work on.
- `app/` makes the calls over the bus and hands the answers to the library.
- `tests/` runs the library.

The library never waits. Where a call over the bus is needed it returns a step that names
the call; the caller makes it and resumes the step with the answer.
