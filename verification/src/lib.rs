//! A peer-to-peer tool rental agreement service: a renter requests a tool
//! from an owner for a fixed price and duration, the owner accepts, and the
//! renter marks completion on return. The core is the rental lifecycle state
//! machine (`Requested -> Accepted -> Completed`) and its keyed record store,
//! with identity and authorization checks on every transition.

pub mod laws;
pub mod records;
pub mod service;
pub mod store;
