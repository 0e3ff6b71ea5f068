//! Verified core of an NTPv4 client association: fixed-point time
//! arithmetic, the 48-byte packet header codec, the RFC 5905 clock
//! filter estimator, the per-peer association state, and the event
//! decisions of the peer task. All I/O (sockets, timers, channels)
//! lives outside this crate; the functions here map plain values to
//! plain values and carry contracts for what they compute.
pub mod filter;
pub mod packet;
pub mod peer;
pub mod task;
pub mod time;
