# repository_kit

Building blocks for database repositories, verified with Verus.

- `src/query_builder.rs`: builders for parameterised `SELECT`, `INSERT`,
  `UPDATE` and `DELETE` statements. Each builder has a view (the clauses it
  has recorded) and `build` is specified as a function of that view,
  including when it refuses and with which message.
- `src/text.rs`: decimal numerals and separator-joined lists, the pieces the
  statements are made of.
- `src/circuit_breaker.rs`: a named breaker over failsafe's state machine; the
  library decides whether a call may go ahead and what a refused caller is told.
- `src/health.rs`: the verdict of one health check, and the report that
  gathers verdicts by service name.
- `src/error.rs`: the shared error type and its conversions.
- `app/`: the asynchronous side — guarded async calls, the PostgreSQL and
  Redis repositories, timed and concurrent health checks, serialisable copies
  of the health types.
