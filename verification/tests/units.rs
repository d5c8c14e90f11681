use zing::bounds::check_range;
use zing::bounds::read_be16;
use zing::bounds::swap_range;
use zing::bounds::write_be16;
use zing::checksum::echo_reply_checksum_update;
use zing::firewall::try_xdp_firewall;
use zing::frame::Disposition;

#[test]
fn check_range_admits_exact_fit() {
    let buf: Vec<u8> = vec![0u8; 10];
    assert!(check_range(&buf, 0, 10).is_ok());
    assert!(check_range(&buf, 10, 0).is_ok());
    assert!(check_range(&buf, 3, 7).is_ok());
}

#[test]
fn check_range_rejects_overrun() {
    let buf: Vec<u8> = vec![0u8; 10];
    assert!(check_range(&buf, 0, 11).is_err());
    assert!(check_range(&buf, 11, 0).is_err());
    assert!(check_range(&buf, 8, 3).is_err());
    assert!(check_range(&buf, usize::MAX, 1).is_err());
}

#[test]
fn read_be16_is_big_endian() {
    let buf: Vec<u8> = vec![0x12, 0x34, 0xff, 0x00];
    assert_eq!(read_be16(&buf, 0), 0x1234);
    assert_eq!(read_be16(&buf, 1), 0x34ff);
    assert_eq!(read_be16(&buf, 2), 0xff00);
}

#[test]
fn write_be16_round_trips() {
    let mut buf: Vec<u8> = vec![0u8; 4];
    write_be16(&mut buf, 1, 0xabcd);
    assert_eq!(buf, vec![0x00, 0xab, 0xcd, 0x00]);
    assert_eq!(read_be16(&buf, 1), 0xabcd);
}

#[test]
fn swap_range_swaps_disjoint_regions() {
    let mut buf: Vec<u8> = vec![1, 2, 3, 9, 7, 8];
    swap_range(&mut buf, 0, 4, 2);
    assert_eq!(buf, vec![7, 8, 3, 9, 1, 2]);
}

#[test]
fn swap_range_of_zero_bytes_is_identity() {
    let mut buf: Vec<u8> = vec![5, 6, 7];
    swap_range(&mut buf, 0, 2, 0);
    assert_eq!(buf, vec![5, 6, 7]);
}

#[test]
fn checksum_update_matches_identity() {
    // complement(complement(c) - 8), the subtraction wrapping at 2^16.
    assert_eq!(echo_reply_checksum_update(0x4d5a), 0x4d62);
    assert_eq!(echo_reply_checksum_update(0x0000), 0x0008);
    assert_eq!(echo_reply_checksum_update(0xffff), 0x0007);
    assert_eq!(echo_reply_checksum_update(0xfff7), 0xffff);
    assert_eq!(echo_reply_checksum_update(0xfff8), 0x0000);
}

#[test]
fn try_firewall_reports_range_error() {
    let mut buf: Vec<u8> = vec![0u8; 5];
    assert!(try_xdp_firewall(&mut buf).is_err());
}

#[test]
fn try_firewall_reports_pass() {
    let mut buf: Vec<u8> = vec![0u8; 14];
    assert_eq!(try_xdp_firewall(&mut buf), Ok(Disposition::Pass));
}
