//! Decoding and validation of the fixed-layout metadata header found at the
//! start of a Game Boy cartridge image.
//!
//! The `rom` module holds the header decoder itself: it extracts every header
//! field at its fixed offset, maps raw byte codes into closed enumerated
//! domains, and exposes the checksum and logo validation predicates. The
//! `util` module holds the small byte-range and text helpers the decoder
//! builds on.

pub mod rom;
pub mod util;
