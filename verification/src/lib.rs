//! A verified scan engine for a paginated game-server listing.
//!
//! The library normalizes raw listing records, applies a user-configured
//! filter policy, drives a bounded pagination run as a state machine, and
//! coordinates the producer-consumer handoff between a fetch worker and a
//! polling presentation loop. Network I/O, JSON decoding and rendering live
//! outside the library; they hand plain values in and take plain values back.

pub mod browser;
pub mod filter;
pub mod record;
pub mod scan;
pub mod text;
