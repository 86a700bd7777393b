//! Reference models for Sigil plugin contracts: the frozen SQL 0.1 driver
//! model, the typed SQL 0.2 driver model with its scripted conformance
//! session, the deterministic test host, the conformance fixture drivers,
//! and the argument handling of the fixture seeder.
use vstd::prelude::*;

pub mod fixture_v01;
pub mod fixture_v02;
pub mod host;
pub mod seed;
pub mod sql;
pub mod sql_v02;
pub mod test_host;
pub mod text;

verus! {
} // verus!
