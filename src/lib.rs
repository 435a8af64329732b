//! Discovery of nearby wireless devices: the decisions of a bounded scan
//! session, verified, for a driver that talks to the radio adapter.

pub mod types;
pub mod enrich;
pub mod session;
