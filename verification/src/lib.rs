//! Verified core of a faceted real-estate / furniture search service.
//!
//! The library covers the pure logic of the service: translating catalog
//! definitions and raw query parameters into a predicate set, compiling
//! predicates into parameterized query text, the dimensional matcher for
//! recommendations, the polygon ("nazotte") search planning, the purchase
//! decision, and the low-priced listing cache.  Storage, HTTP routing and
//! serialization are collaborators that live outside this crate; they hand
//! the library plain values and receive plain values back.

pub mod cache;
pub mod catalog;
pub mod error;
pub mod geo;
pub mod laws;
pub mod matcher;
pub mod model;
pub mod predicate;
pub mod purchase;
pub mod query;
pub mod semantics;
pub mod text;
