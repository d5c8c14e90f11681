//! The header parser chain, the in-place echo-reply rewriter, and the
//! action decision.
//!
//! The chain admits each header only after a fresh range check against the
//! buffer, short-circuits to `Pass` on the first protocol field it does
//! not recognize, and rewrites only a fully validated echo request.

use vstd::prelude::*;

use crate::bounds::RangeError;
use crate::bounds::check_range;
use crate::bounds::read_be16;
use crate::bounds::swap_range;
use crate::bounds::write_be16;
use crate::checksum::echo_reply_checksum;
use crate::checksum::echo_reply_checksum_update;
use crate::frame::Disposition;
use crate::frame::be16;
use crate::frame::echo_reply_byte;
use crate::frame::ETHERTYPE_IPV4;
use crate::frame::ETH_DST_OFF;
use crate::frame::ETH_HDR_LEN;
use crate::frame::ETH_SRC_OFF;
use crate::frame::ETH_TYPE_OFF;
use crate::frame::ICMP_CSUM_OFF;
use crate::frame::ICMP_ECHO_REPLY;
use crate::frame::ICMP_ECHO_REQUEST;
use crate::frame::ICMP_HDR_LEN;
use crate::frame::ICMP_TYPE_OFF;
use crate::frame::IPV4_DST_OFF;
use crate::frame::IPV4_HDR_LEN;
use crate::frame::IPV4_PROTO_OFF;
use crate::frame::IPV4_SRC_OFF;
use crate::frame::IP_PROTO_ICMP;
use crate::frame::MIN_ECHO_LEN;
use crate::frame::disposition_of;
use crate::frame::echo_reply_of;

verus! {

/// Turns a validated echo request into an echo reply in place: swaps the
/// MAC addresses, swaps the IPv4 addresses, sets the ICMP type to echo
/// reply, and applies the incremental checksum fix-up.
pub fn rewrite_echo_reply(buf: &mut Vec<u8>)
    requires
        disposition_of(old(buf)@) is Transmit,
    ensures
        final(buf)@ == echo_reply_of(old(buf)@),
{
    proof {
        assert(old(buf)@.len() >= MIN_ECHO_LEN);
    }
    let ghost b0: Seq<u8> = buf@;
    swap_range(buf, ETH_DST_OFF, ETH_SRC_OFF, 6);
    let ghost b1: Seq<u8> = buf@;
    swap_range(buf, IPV4_SRC_OFF, IPV4_DST_OFF, 4);
    let ghost b2: Seq<u8> = buf@;
    buf[ICMP_TYPE_OFF] = ICMP_ECHO_REPLY;
    let ghost b3: Seq<u8> = buf@;
    proof {
        assert(b3[ICMP_CSUM_OFF as int] == b0[ICMP_CSUM_OFF as int]);
        assert(b3[ICMP_CSUM_OFF as int + 1] == b0[ICMP_CSUM_OFF as int + 1]);
        assert(be16(b3, ICMP_CSUM_OFF as int) == be16(b0, ICMP_CSUM_OFF as int));
    }
    let old_csum: u16 = read_be16(buf, ICMP_CSUM_OFF);
    let new_csum: u16 = echo_reply_checksum_update(old_csum);
    write_be16(buf, ICMP_CSUM_OFF, new_csum);
    proof {
        let r = echo_reply_of(b0);
        assert forall|i: int| 0 <= i < b0.len() implies buf@[i] == r[i] by {
            assert(r[i] == echo_reply_byte(b0, i));
            if ETH_DST_OFF <= i < ETH_DST_OFF + 6 {
                assert(b1[i] == b0[i + 6]);
                assert(buf@[i] == b1[i]);
            } else if ETH_SRC_OFF <= i < ETH_SRC_OFF + 6 {
                assert(b1[i] == b0[i - 6]);
                assert(buf@[i] == b1[i]);
            } else if IPV4_SRC_OFF <= i < IPV4_SRC_OFF + 4 {
                assert(b2[i] == b1[i + 4]);
                assert(b1[i + 4] == b0[i + 4]);
                assert(buf@[i] == b2[i]);
            } else if IPV4_DST_OFF <= i < IPV4_DST_OFF + 4 {
                assert(b2[i] == b1[i - 4]);
                assert(b1[i - 4] == b0[i - 4]);
                assert(buf@[i] == b2[i]);
            } else if i == ICMP_TYPE_OFF {
                assert(buf@[i] == b3[i]);
            } else if i == ICMP_CSUM_OFF || i == ICMP_CSUM_OFF + 1 {
                assert(new_csum == echo_reply_checksum(be16(b0, ICMP_CSUM_OFF as int)));
            } else {
                assert(b1[i] == b0[i]);
                assert(b2[i] == b1[i]);
                assert(buf@[i] == b3[i]);
            }
        }
        assert(buf@ =~= r);
    }
}

/// The parser chain: Ethernet, then IPv4, then ICMP, each behind its own
/// range check. A frame whose protocol fields leave the chain passes
/// through unmodified; a buffer too short for an announced header is a
/// `RangeError`; a validated echo request is rewritten for transmission.
pub fn try_xdp_firewall(buf: &mut Vec<u8>) -> (r: Result<Disposition, RangeError>)
    ensures
        r is Ok <==> !(disposition_of(old(buf)@) is Abort),
        r matches Ok(d) ==> d == disposition_of(old(buf)@),
        disposition_of(old(buf)@) is Transmit ==> final(buf)@ == echo_reply_of(old(buf)@),
        !(disposition_of(old(buf)@) is Transmit) ==> final(buf)@ == old(buf)@,
{
    if let Err(e) = check_range(buf, 0, ETH_HDR_LEN) {
        return Err(e);
    }
    let ether_type: u16 = read_be16(buf, ETH_TYPE_OFF);
    if ether_type != ETHERTYPE_IPV4 {
        return Ok(Disposition::Pass);
    }

    if let Err(e) = check_range(buf, ETH_HDR_LEN, IPV4_HDR_LEN) {
        return Err(e);
    }
    let proto: u8 = buf[IPV4_PROTO_OFF];
    if proto != IP_PROTO_ICMP {
        return Ok(Disposition::Pass);
    }

    if let Err(e) = check_range(buf, ETH_HDR_LEN + IPV4_HDR_LEN, ICMP_HDR_LEN) {
        return Err(e);
    }
    let icmp_type: u8 = buf[ICMP_TYPE_OFF];
    if icmp_type != ICMP_ECHO_REQUEST {
        return Ok(Disposition::Pass);
    }

    rewrite_echo_reply(buf);
    Ok(Disposition::Transmit)
}

/// One invocation of the probe on one received frame: the disposition is
/// exactly `disposition_of` the input bytes, and the buffer is mutated
/// only on `Transmit`, into the echo reply.
pub fn xdp_firewall(buf: &mut Vec<u8>) -> (d: Disposition)
    ensures
        d == disposition_of(old(buf)@),
        d is Transmit ==> final(buf)@ == echo_reply_of(old(buf)@),
        !(d is Transmit) ==> final(buf)@ == old(buf)@,
{
    match try_xdp_firewall(buf) {
        Ok(d) => d,
        Err(_) => Disposition::Abort,
    }
}

} // verus!
