//! A content-addressed cache for derived grayscale image artifacts.
//!
//! A source file is keyed by a content fingerprint: the SHA-1 digest of its
//! raw bytes, rendered as lowercase hexadecimal. Each cached artifact lives
//! as a flat file `<fingerprint>.png` under a fixed cache root directory.
//! This crate holds the verified core — fingerprinting and the derivation of
//! artifact paths, together with a model of the store's put/get protocol —
//! while the surrounding file and image I/O stays outside it.

pub mod fingerprint;
pub mod store;
