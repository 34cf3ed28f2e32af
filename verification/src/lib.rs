//! Data-access and identity layer for a food-pantry service.
//!
//! The crate covers four concerns:
//! - entity-to-storage-item mapping (`user`, `pantry`, `pantry_access`, `item`),
//! - key schemas and secondary-index query shapes (`tables`, `schema`),
//! - credential hashing and verification (`password`),
//! - bearer-token issuance and validation (`jwt`).
//!
//! HTTP routing, the GraphQL surface and the storage client itself live
//! outside this crate; they hand plain values in and take plain values back.

pub mod error;
pub mod item;
pub mod jwt;
pub mod pantry;
pub mod pantry_access;
pub mod password;
pub mod schema;
pub mod tables;
pub mod time;
pub mod user;
