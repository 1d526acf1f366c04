# storage_impl

The storage layer of a payments router, verified with Verus.

- `src/` holds the decisions: how a store starts up, how a write reaches its drainer stream, which
  unique constraints a record claims, and what each outcome means. Every function that is written
  here has a contract. Methods that are left to a deployment (of `DatabaseStore`,
  `ConnectionPool`, `KvStorePartition` and `DataModelExt`) promise nothing; where
  the library calls one, its contract says what was handed to the call and what became of the
  result. The `law_` proof functions state what holds of the library as a whole.
- `app/` holds what waits: it performs the steps that `src/` asks for, against a database and a
  Redis that a deployment plugs in.
- `tests/` runs the library on concrete values.

Records that depend on the version of the data model stand in `models::v1` and `models::v2`: those
whose ids differ between the two versions in both, payment attempts in `models::v1` alone.
