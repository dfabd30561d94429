# rust_db_lib

A library for talking to a database through one consistent interface, verified with
Verus.

- `src/` is the verified library: errors and their messages, parameterized queries,
  the bindings sent with a query (`placeholders.rs`), transaction policies and
  whether a backend admits them, the decisions that run a batch of queries in one transaction (`transaction.rs`, with
  the properties of every run proved in `laws.rs`), PostgreSQL connection settings, and
  in-memory doubles for unit tests (`testing_utils.rs`).
- `app/` is the asynchronous part: the `DataVal`, `DataStore` and
  `DataStoreTransaction` traits, the PostgreSQL backend on sqlx, and the doubles wired
  to those traits. It performs the calls that the library decides on.
- `tests/` exercises the library on concrete values.

Floating-point values travel through the library as their IEEE-754 bit patterns, and
instants as seconds and nanoseconds since the Unix epoch; `app/` converts them to and
from `f32`/`f64` and `chrono::DateTime<Utc>`. Equality on parameters, queries and mock
values compares those bit patterns as floating-point values (`bits.rs`), and an instant
is valid exactly when chrono can represent it (`UtcDateTime::valid`).
