//! The incremental one's-complement checksum fix-up.
//!
//! The ICMP checksum is the one's complement of a 16-bit one's-complement
//! sum over the message. Rewriting the type byte from echo request (8) to
//! echo reply (0) lowers that sum by exactly 8, so the new checksum is
//! `complement(complement(old) - 8)`, with the subtraction wrapping at
//! 2^16. The identity is scoped to that single, constant delta: it is not
//! a general checksum routine.

use vstd::prelude::*;

use crate::frame::ICMP_ECHO_REQUEST;

verus! {

/// The bitwise complement of a 16-bit word, written arithmetically.
pub open spec fn complement16(x: u16) -> u16 {
    (0xffff - x) as u16
}

/// Subtraction on 16-bit words that wraps at 2^16.
pub open spec fn wrapping_sub16(x: u16, y: u16) -> u16 {
    if x >= y {
        (x - y) as u16
    } else {
        (x - y + 0x10000) as u16
    }
}

/// The checksum of an echo reply derived from the checksum `c` of the echo
/// request: the type byte is the only field that changed, and it dropped
/// by exactly `ICMP_ECHO_REQUEST`.
pub open spec fn echo_reply_checksum(c: u16) -> u16 {
    complement16(wrapping_sub16(complement16(c), ICMP_ECHO_REQUEST as u16))
}

/// Derives the echo-reply checksum from the echo-request checksum without
/// re-summing the message.
pub fn echo_reply_checksum_update(c: u16) -> (r: u16)
    ensures
        r == echo_reply_checksum(c),
{
    let sum: u16 = 0xffff - c;
    let delta: u16 = ICMP_ECHO_REQUEST as u16;
    let new_sum: u16 = if sum >= delta {
        sum - delta
    } else {
        sum + (0xffff - delta) + 1
    };
    0xffff - new_sum
}

} // verus!
