//! Post-quantum signature and key-encapsulation toolkit.
//!
//! The heavy cryptography is done by outside libraries; this crate holds the
//! byte-level bookkeeping around them (hex rendering, hybrid signatures,
//! key reconstruction, key-share generation and the menu logic), verified.
pub mod bytes;
pub mod hybrid;
pub mod kem;
pub mod menu;
pub mod signing;
pub mod threshold;
