//! A wallet adapter over a full-node backend: network and credential resolution,
//! idempotent seed registration, and translation of the backend's transaction
//! listing into a paginated, normalized history.

pub mod account;
pub mod hexcode;
pub mod network;
pub mod page;
pub mod seed;
pub mod tx;
