# battery_master

A battery monitor for laptops: it reads the battery and the system, keeps a
history of charge periods and down-sampled readings in SQLite and parquet
files, and runs a monitoring service.

- `src/` is the verified library (Verus): the down-sampling query text, the
  history store's decisions and its insertion machine, the battery state
  tracker, the processor's caching rules, the service's per-round decisions,
  the settings and the file locations.
- `app/` is the program around it: battery and system readings, SQLite through
  sea-orm, parquet files through polars, JSON settings through serde, and the
  service loop on tokio.
- `tests/` runs the library on concrete values.
