//! A metadata-fetch relay guarded by an egress check.
//!
//! The egress check decides, from a caller-supplied URL, whether a server-side fetch
//! is safe: only `https` URLs whose parsed host is one of a fixed set of
//! domains are approved. The relay turns what the fetch brought back into a
//! response envelope.
pub mod egress;
pub mod relay;
