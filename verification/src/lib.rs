//! Event contents of MatrixRTC: applications, slots, members, encryption keys, and the sticky
//! object of sticky events, with their JSON encodings.
pub mod json;
pub mod identifiers;
pub mod application;
pub mod sticky;
pub mod slot;
pub mod encryption_key;
pub mod transport;
pub mod member;
