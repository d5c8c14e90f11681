//! An in-place ICMP echo responder for raw Ethernet frames.
//!
//! The library classifies one received frame at a time: anything that is not
//! an IPv4 ICMP echo request passes through untouched, a frame too short for
//! the headers it announces is aborted, and a well-formed echo request is
//! rewritten in place into an echo reply and marked for retransmission.

pub mod bounds;
pub mod checksum;
pub mod firewall;
pub mod frame;
