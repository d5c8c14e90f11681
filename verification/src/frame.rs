//! The wire model: header offsets, field readers over `Seq<u8>`, the
//! disposition a frame earns, and the shape of the rewritten echo reply.

use vstd::prelude::*;

use crate::checksum::echo_reply_checksum;

verus! {

/// Length of an Ethernet header: 6 bytes destination MAC, 6 bytes source
/// MAC, 2 bytes ether-type.
pub const ETH_HDR_LEN: usize = 14;

/// Length of an IPv4 header without options.
pub const IPV4_HDR_LEN: usize = 20;

/// Length of an ICMP header (type, code, checksum, rest-of-header word).
pub const ICMP_HDR_LEN: usize = 8;

/// Shortest frame that holds all three headers of an echo request.
pub const MIN_ECHO_LEN: usize = 42;

/// Ether-type announcing an IPv4 payload, big-endian on the wire.
pub const ETHERTYPE_IPV4: u16 = 0x0800;

/// IPv4 protocol number of ICMP.
pub const IP_PROTO_ICMP: u8 = 1;

/// ICMP message type of an echo request.
pub const ICMP_ECHO_REQUEST: u8 = 8;

/// ICMP message type of an echo reply.
pub const ICMP_ECHO_REPLY: u8 = 0;

/// Offset of the destination MAC address.
pub const ETH_DST_OFF: usize = 0;

/// Offset of the source MAC address.
pub const ETH_SRC_OFF: usize = 6;

/// Offset of the big-endian ether-type field.
pub const ETH_TYPE_OFF: usize = 12;

/// Offset of the IPv4 protocol field.
pub const IPV4_PROTO_OFF: usize = 23;

/// Offset of the IPv4 source address, kept in network byte order.
pub const IPV4_SRC_OFF: usize = 26;

/// Offset of the IPv4 destination address, kept in network byte order.
pub const IPV4_DST_OFF: usize = 30;

/// Offset of the ICMP type field.
pub const ICMP_TYPE_OFF: usize = 34;

/// Offset of the ICMP code field.
pub const ICMP_CODE_OFF: usize = 35;

/// Offset of the big-endian ICMP checksum.
pub const ICMP_CSUM_OFF: usize = 36;

/// The big-endian 16-bit word held at offset `i` of `b`.
pub open spec fn be16(b: Seq<u8>, i: int) -> u16 {
    (b[i] * 0x100 + b[i + 1]) as u16
}

/// The three outcomes one invocation can hand back to its caller.
#[derive(Clone, Copy, Debug, PartialEq, Eq, Structural)]
pub enum Disposition {
    /// Deliver the frame to normal stack processing, unmodified.
    Pass,
    /// Send the rewritten frame back out the receive interface.
    Transmit,
    /// Drop the frame: it is shorter than the headers it announces.
    Abort,
}

/// The disposition a frame earns: each header is admitted only if the
/// buffer can hold it, and the chain short-circuits to `Pass` on the first
/// unrecognized protocol field.
pub open spec fn disposition_of(b: Seq<u8>) -> Disposition {
    if b.len() < ETH_HDR_LEN {
        Disposition::Abort
    } else if be16(b, ETH_TYPE_OFF as int) != ETHERTYPE_IPV4 {
        Disposition::Pass
    } else if b.len() < ETH_HDR_LEN + IPV4_HDR_LEN {
        Disposition::Abort
    } else if b[IPV4_PROTO_OFF as int] != IP_PROTO_ICMP {
        Disposition::Pass
    } else if b.len() < MIN_ECHO_LEN {
        Disposition::Abort
    } else if b[ICMP_TYPE_OFF as int] != ICMP_ECHO_REQUEST {
        Disposition::Pass
    } else {
        Disposition::Transmit
    }
}

/// Byte `i` of the echo reply built in place from the echo request `b`:
/// the MAC addresses trade places, the IPv4 addresses trade places, the
/// ICMP type becomes echo reply, the checksum takes the incremental
/// fix-up, and every other byte keeps its value.
pub open spec fn echo_reply_byte(b: Seq<u8>, i: int) -> u8 {
    if ETH_DST_OFF <= i < ETH_DST_OFF + 6 {
        b[i + 6]
    } else if ETH_SRC_OFF <= i < ETH_SRC_OFF + 6 {
        b[i - 6]
    } else if IPV4_SRC_OFF <= i < IPV4_SRC_OFF + 4 {
        b[i + 4]
    } else if IPV4_DST_OFF <= i < IPV4_DST_OFF + 4 {
        b[i - 4]
    } else if i == ICMP_TYPE_OFF {
        ICMP_ECHO_REPLY
    } else if i == ICMP_CSUM_OFF {
        (echo_reply_checksum(be16(b, ICMP_CSUM_OFF as int)) / 0x100) as u8
    } else if i == ICMP_CSUM_OFF + 1 {
        (echo_reply_checksum(be16(b, ICMP_CSUM_OFF as int)) % 0x100) as u8
    } else {
        b[i]
    }
}

/// The whole frame after the in-place rewrite of an echo request into an
/// echo reply; meaningful when `disposition_of(b)` is `Transmit`.
pub open spec fn echo_reply_of(b: Seq<u8>) -> Seq<u8> {
    Seq::new(b.len(), |i: int| echo_reply_byte(b, i))
}

/// Any buffer shorter than the Ethernet header is aborted.
pub proof fn lemma_short_buffer_aborts(b: Seq<u8>)
    requires
        b.len() < ETH_HDR_LEN,
    ensures
        disposition_of(b) is Abort,
{
}

/// Any valid Ethernet frame whose ether-type is not IPv4 passes through.
pub proof fn lemma_non_ipv4_passes(b: Seq<u8>)
    requires
        b.len() >= ETH_HDR_LEN,
        be16(b, ETH_TYPE_OFF as int) != ETHERTYPE_IPV4,
    ensures
        disposition_of(b) is Pass,
{
}

/// Any valid IPv4 packet whose protocol is not ICMP passes through.
pub proof fn lemma_non_icmp_passes(b: Seq<u8>)
    requires
        b.len() >= ETH_HDR_LEN + IPV4_HDR_LEN,
        be16(b, ETH_TYPE_OFF as int) == ETHERTYPE_IPV4,
        b[IPV4_PROTO_OFF as int] != IP_PROTO_ICMP,
    ensures
        disposition_of(b) is Pass,
{
}

/// Any valid ICMP packet whose type is not echo request passes through.
pub proof fn lemma_non_echo_request_passes(b: Seq<u8>)
    requires
        b.len() >= MIN_ECHO_LEN,
        be16(b, ETH_TYPE_OFF as int) == ETHERTYPE_IPV4,
        b[IPV4_PROTO_OFF as int] == IP_PROTO_ICMP,
        b[ICMP_TYPE_OFF as int] != ICMP_ECHO_REQUEST,
    ensures
        disposition_of(b) is Pass,
{
}

/// A frame that announces IPv4 and ICMP but stops short of the full
/// ICMP-inclusive length — by as little as one byte — is aborted.
pub proof fn lemma_truncated_icmp_aborts(b: Seq<u8>)
    requires
        ETH_HDR_LEN + IPV4_HDR_LEN <= b.len() < MIN_ECHO_LEN,
        be16(b, ETH_TYPE_OFF as int) == ETHERTYPE_IPV4,
        b[IPV4_PROTO_OFF as int] == IP_PROTO_ICMP,
    ensures
        disposition_of(b) is Abort,
{
}

/// The rewrite of a validated echo request: the source and destination
/// MAC addresses trade places, the source and destination IPv4 addresses
/// trade places, the ICMP type becomes echo reply while the code stays,
/// the checksum is the complement of (complement of the old checksum,
/// minus the echo-request type), and every other byte keeps its value.
pub proof fn lemma_echo_reply_rewrite(b: Seq<u8>)
    requires
        disposition_of(b) is Transmit,
    ensures
        echo_reply_of(b).len() == b.len(),
        forall|k: int|
            0 <= k < 6 ==> #[trigger] echo_reply_of(b)[ETH_DST_OFF + k] == b[ETH_SRC_OFF + k],
        forall|k: int|
            0 <= k < 6 ==> #[trigger] echo_reply_of(b)[ETH_SRC_OFF + k] == b[ETH_DST_OFF + k],
        forall|k: int|
            0 <= k < 4 ==> #[trigger] echo_reply_of(b)[IPV4_SRC_OFF + k] == b[IPV4_DST_OFF + k],
        forall|k: int|
            0 <= k < 4 ==> #[trigger] echo_reply_of(b)[IPV4_DST_OFF + k] == b[IPV4_SRC_OFF + k],
        echo_reply_of(b)[ICMP_TYPE_OFF as int] == ICMP_ECHO_REPLY,
        echo_reply_of(b)[ICMP_CODE_OFF as int] == b[ICMP_CODE_OFF as int],
        be16(echo_reply_of(b), ICMP_CSUM_OFF as int) == echo_reply_checksum(
            be16(b, ICMP_CSUM_OFF as int),
        ),
        forall|j: int|
            ETH_TYPE_OFF <= j < IPV4_SRC_OFF ==> #[trigger] echo_reply_of(b)[j] == b[j],
        forall|j: int|
            ICMP_CSUM_OFF + 2 <= j < b.len() ==> #[trigger] echo_reply_of(b)[j] == b[j],
{
    let c = echo_reply_checksum(be16(b, ICMP_CSUM_OFF as int));
    assert(echo_reply_of(b)[ICMP_CSUM_OFF as int] == (c / 0x100) as u8);
    assert(echo_reply_of(b)[ICMP_CSUM_OFF as int + 1] == (c % 0x100) as u8);
    assert(c == (c / 0x100) * 0x100 + c % 0x100) by (nonlinear_arith);
    assert(c / 0x100 <= 0xff) by (nonlinear_arith);
}

/// The rewrite is deliberately not an involution: a rewritten frame is no
/// longer an echo request, so running the probe on it again passes it
/// through instead of restoring the original.
pub proof fn lemma_rewrite_not_idempotent(b: Seq<u8>)
    requires
        disposition_of(b) is Transmit,
    ensures
        disposition_of(echo_reply_of(b)) is Pass,
{
    let r = echo_reply_of(b);
    assert(r.len() == b.len());
    assert(r[ETH_TYPE_OFF as int] == b[ETH_TYPE_OFF as int]);
    assert(r[ETH_TYPE_OFF as int + 1] == b[ETH_TYPE_OFF as int + 1]);
    assert(be16(r, ETH_TYPE_OFF as int) == be16(b, ETH_TYPE_OFF as int));
    assert(r[IPV4_PROTO_OFF as int] == b[IPV4_PROTO_OFF as int]);
    assert(r[ICMP_TYPE_OFF as int] == ICMP_ECHO_REPLY);
}

} // verus!
