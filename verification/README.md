# sigil_plugin_sdk

Verified reference models for Sigil plugin contracts, written in Verus.

- `src/sql.rs`: the frozen `sigil:sql/driver@0.1.0` value types, checked
  limit accumulation, and a deterministic mock driver.
- `src/sql_v02.rs`: the typed `sigil:sql/driver@0.2.0` model: mathematical
  views of every value, the portable logical-byte count, shape validation,
  layered result ceilings, all-or-nothing admission, and a scripted
  single-session driver whose every call is specified by a session state
  machine (`spec_call`). Laws about ceilings, admission and sessions are
  proof functions named `law_*`.
- `src/fixture_v01.rs`, `src/fixture_v02.rs`: the conformance fixture drivers.
- `src/test_host.rs`: the closed, deterministic test host.
- `src/host.rs`: the net-policy TLS modes; the `get-tls-mode` import itself
  belongs to the host.
- `src/seed.rs`: argument handling of the fixture seeder, with the parsed
  version as plain values.
- `src/text.rs`: text helpers shared by the models.
- `app/`: serde shapes of the value types (a floating cell is an `f64`
  there and its bit pattern in the library) and the seeder's process edge.
- `tests/`: scenario tests of every module.
