//! Entering and leaving a guest ("user") context by an ordinary call and
//! return within one privilege level.
//!
//! The library holds the trap frame, the per-platform table of reserved TLS
//! slots, and a word-level model of the machine on which the two transition
//! routines (`enter` and `resume`) are stated and proved. The register-level
//! routines themselves are machine code and live outside the verified part.
pub mod frame;
pub mod layout;
pub mod memory;
pub mod protocol;
pub mod laws;
