//! Single-producer/single-consumer channels over a fixed ring of slots, and
//! one-time initialised value holders.
//!
//! Each channel's state sits behind a reader/writer lock shared by its two
//! handles; every operation holds it only for one constant-time step of the
//! verified state machine, so a side waits at most for one such step of the
//! other.
pub mod init;
pub mod utility;
