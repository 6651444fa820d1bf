//! Low-level input simulation primitives.
//!
//! The heart of this crate is the multi-touch contact synthesis engine in
//! [`touch`]: a per-slot contact table that decouples caller requests
//! (down / move / up) from the fixed cadence demanded by touch-injection
//! backends, and guarantees that each edge-triggered transition is delivered
//! exactly once, with retry on transient backend failure.
//!
//! [`stream`] states and proves the engine's lifecycle laws: what the frame
//! stream of one slot looks like over any run of requests and ticker passes.
//!
//! [`keys`] holds the physical-key type and its platform key-code tables;
//! [`wheel`] the accumulator that turns high-resolution wheel deltas into
//! whole notches.

pub mod keys;
pub mod stream;
pub mod touch;
pub mod wheel;
