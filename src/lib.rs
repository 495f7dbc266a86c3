//! Rescue hash boundary adapter and the bit-field layout of the VM's
//! instruction register.
//!
//! The adapter turns comma-separated decimal lists or raw bytes into the
//! input of winter-crypto's Rp64_256 hash and encodes the digest; every step
//! around the hash call is verified.

pub mod adapter;
pub mod error;
pub mod field;
pub mod hasher;
pub mod layout;
pub mod parse;

pub use adapter::{digest_text, rescue, rescue_v1, rescue_v3};
pub use error::RescueError;
pub use field::{as_u64, from_vec, ElementDigest, Felt};
