//! Batch TLS certificate expiry checking.
//!
//! The library covers the logic of a certificate monitor: normalizing a raw
//! target into an `https` URL, deriving the address to connect to, parsing
//! the textual "not valid after" timestamp of a peer certificate into a UTC
//! instant, classifying the remaining validity window into a severity, and
//! assembling one reported outcome per target. Opening connections and
//! performing TLS handshakes is left to the caller, which reports what it
//! saw per target as a plain [`outcome::FetchEvent`].

pub mod outcome;
pub mod parse;
pub mod target;
pub mod time;
