use df_extras::error::NetError;
use df_extras::value::{Family, NetworkValue};

fn v4(a: u8, b: u8, c: u8, d: u8, prefix: u8) -> NetworkValue {
    NetworkValue::v4([a, b, c, d], prefix).unwrap()
}

fn as_u32(value: &NetworkValue) -> u32 {
    let bytes = value.octets();
    u32::from_be_bytes([bytes[0], bytes[1], bytes[2], bytes[3]])
}

fn low_bits(prefix: u8) -> u32 {
    if prefix == 0 {
        u32::MAX
    } else if prefix == 32 {
        0
    } else {
        (1u32 << (32 - prefix)) - 1
    }
}

#[test]
fn builds_values_and_refuses_long_prefixes() {
    let value = v4(10, 1, 2, 3, 8);
    assert_eq!(value.family(), Family::V4);
    assert_eq!(value.octets(), &vec![10, 1, 2, 3]);
    assert_eq!(value.masklen(), 8);
    assert!(NetworkValue::v4([1, 2, 3, 4], 32).is_ok());
    assert!(NetworkValue::v4([1, 2, 3, 4], 0).is_ok());
    assert_eq!(NetworkValue::v4([1, 2, 3, 4], 33), Err(NetError::InvalidMaskLength(33)));
    assert_eq!(NetworkValue::v4([1, 2, 3, 4], 255), Err(NetError::InvalidMaskLength(255)));

    let six = NetworkValue::v6([0xfe; 16], 128).unwrap();
    assert_eq!(six.family(), Family::V6);
    assert_eq!(six.octets(), &vec![0xfe; 16]);
    assert_eq!(six.masklen(), 128);
    assert_eq!(NetworkValue::v6([0; 16], 129), Err(NetError::InvalidMaskLength(129)));
}

#[test]
fn family_numbers_and_sizes() {
    assert_eq!(Family::V4.number(), 4);
    assert_eq!(Family::V6.number(), 6);
    assert_eq!(Family::V4.byte_len(), 4);
    assert_eq!(Family::V6.byte_len(), 16);
    assert_eq!(Family::V4.max_prefix_len(), 32);
    assert_eq!(Family::V6.max_prefix_len(), 128);
}

#[test]
fn accessors_on_a_network() {
    let value = v4(172, 16, 37, 9, 20);
    assert_eq!(value.network(), v4(172, 16, 32, 0, 20));
    assert_eq!(value.broadcast(), v4(172, 16, 47, 255, 20));
    assert_eq!(value.netmask(), v4(255, 255, 240, 0, 32));
    assert_eq!(value.hostmask(), v4(0, 0, 15, 255, 32));
    assert_eq!(value.masklen(), 20);
}

#[test]
fn accessors_on_an_ipv6_network() {
    let mut octets = [0u8; 16];
    octets[0] = 0x20;
    octets[1] = 0x01;
    octets[2] = 0x0d;
    octets[3] = 0xb8;
    octets[15] = 0x01;
    let value = NetworkValue::v6(octets, 33).unwrap();

    let mut network = [0u8; 16];
    network[..4].copy_from_slice(&[0x20, 0x01, 0x0d, 0xb8]);
    assert_eq!(value.network(), NetworkValue::v6(network, 33).unwrap());

    let mut broadcast = [0xffu8; 16];
    broadcast[..5].copy_from_slice(&[0x20, 0x01, 0x0d, 0xb8, 0x7f]);
    assert_eq!(value.broadcast(), NetworkValue::v6(broadcast, 33).unwrap());

    let mut netmask = [0u8; 16];
    netmask[..5].copy_from_slice(&[0xff, 0xff, 0xff, 0xff, 0x80]);
    assert_eq!(value.netmask(), NetworkValue::v6(netmask, 128).unwrap());

    let mut hostmask = [0xffu8; 16];
    hostmask[..5].copy_from_slice(&[0, 0, 0, 0, 0x7f]);
    assert_eq!(value.hostmask(), NetworkValue::v6(hostmask, 128).unwrap());
}

#[test]
fn host_bits_are_cleared_and_set_for_every_ipv4_prefix() {
    for prefix in 0..=32u8 {
        let value = v4(0xc0, 0xa8, 0x5a, 0xa5, prefix);
        let low = low_bits(prefix);
        assert_eq!(as_u32(&value.network()) & low, 0, "network /{}", prefix);
        assert_eq!(as_u32(&value.network()) & !low, 0xc0a8_5aa5 & !low, "network /{}", prefix);
        assert_eq!(as_u32(&value.broadcast()) & low, low, "broadcast /{}", prefix);
        assert_eq!(as_u32(&value.broadcast()) & !low, 0xc0a8_5aa5 & !low, "broadcast /{}", prefix);
        assert_eq!(as_u32(&value.netmask()), !low, "netmask /{}", prefix);
        assert_eq!(as_u32(&value.hostmask()), low, "hostmask /{}", prefix);
        assert_eq!(as_u32(&value.netmask()) ^ as_u32(&value.hostmask()), u32::MAX);
    }
}

#[test]
fn a_masked_network_is_its_own_network() {
    for prefix in 0..=32u8 {
        let masked = v4(0xc0, 0xa8, 0x5a, 0xa5, prefix).network();
        assert_eq!(masked.network(), masked);
        assert_eq!(masked.network().masklen(), prefix);
    }
    assert_eq!(v4(10, 0, 0, 0, 8).network().masklen(), 8);
}

#[test]
fn set_masklen_truncates_only_when_told() {
    let value = v4(192, 168, 1, 5, 24);
    assert_eq!(value.set_masklen(16, true), Ok(v4(192, 168, 0, 0, 16)));
    assert_eq!(value.set_masklen(16, false), Ok(v4(192, 168, 1, 5, 16)));
    assert_eq!(value.set_masklen(0, true), Ok(v4(0, 0, 0, 0, 0)));
    assert_eq!(value.set_masklen(0, false), Ok(v4(192, 168, 1, 5, 0)));
    assert_eq!(value.set_masklen(32, true), Ok(v4(192, 168, 1, 5, 32)));
    // The address is the one given, not the one cut at the old prefix.
    assert_eq!(v4(192, 168, 1, 37, 24).set_masklen(28, true), Ok(v4(192, 168, 1, 32, 28)));
}

#[test]
fn set_masklen_refuses_lengths_out_of_range() {
    let four = v4(192, 168, 1, 5, 24);
    assert_eq!(four.set_masklen(33, true), Err(NetError::InvalidMaskLength(33)));
    assert_eq!(four.set_masklen(33, false), Err(NetError::InvalidMaskLength(33)));
    assert_eq!(four.set_masklen(-1, true), Err(NetError::InvalidMaskLength(-1)));
    assert_eq!(four.set_masklen(256, true), Err(NetError::InvalidMaskLength(256)));
    assert_eq!(four.set_masklen(i64::MAX, true), Err(NetError::InvalidMaskLength(i64::MAX)));
    assert_eq!(four.set_masklen(i64::MIN, false), Err(NetError::InvalidMaskLength(i64::MIN)));

    let six = NetworkValue::v6([0xab; 16], 64).unwrap();
    assert!(six.set_masklen(128, true).is_ok());
    assert!(six.set_masklen(33, true).is_ok());
    assert_eq!(six.set_masklen(129, true), Err(NetError::InvalidMaskLength(129)));
    assert_eq!(six.set_masklen(129, false), Err(NetError::InvalidMaskLength(129)));
}

#[test]
fn setting_the_same_length_twice_changes_nothing() {
    for prefix in 0..=32i64 {
        for truncate in [true, false] {
            let value = v4(0xc0, 0xa8, 0x5a, 0xa5, 24);
            let once = value.set_masklen(prefix, truncate).unwrap();
            let twice = once.set_masklen(prefix, truncate).unwrap();
            assert_eq!(once, twice);
        }
    }
}

#[test]
fn setting_a_length_again_as_a_network_cuts_what_an_address_kept() {
    let once = v4(192, 168, 1, 5, 32).set_masklen(16, false).unwrap();
    assert_eq!(once, v4(192, 168, 1, 5, 16));
    assert_eq!(once.set_masklen(16, true), Ok(v4(192, 168, 0, 0, 16)));
    // With no bits after the prefix the second call changes nothing.
    let clean = v4(192, 168, 0, 0, 32).set_masklen(16, false).unwrap();
    assert_eq!(clean.set_masklen(16, true), Ok(clean.clone()));
}

#[test]
fn merge_finds_the_smallest_common_network() {
    assert_eq!(v4(192, 168, 1, 5, 32).merge(&v4(192, 168, 2, 5, 16)), Ok(v4(192, 168, 0, 0, 16)));
    assert_eq!(v4(10, 0, 0, 1, 32).merge(&v4(10, 0, 0, 2, 32)), Ok(v4(10, 0, 0, 0, 30)));
    assert_eq!(v4(10, 0, 0, 1, 32).merge(&v4(10, 0, 0, 1, 32)), Ok(v4(10, 0, 0, 1, 32)));
    assert_eq!(v4(10, 0, 0, 0, 8).merge(&v4(11, 0, 0, 0, 8)), Ok(v4(10, 0, 0, 0, 7)));
    assert_eq!(v4(0, 0, 0, 0, 32).merge(&v4(128, 0, 0, 0, 32)), Ok(v4(0, 0, 0, 0, 0)));
    assert_eq!(v4(1, 2, 3, 4, 0).merge(&v4(1, 2, 3, 4, 32)), Ok(v4(0, 0, 0, 0, 0)));
    // Bits after a network's own prefix do not count against it.
    assert_eq!(v4(10, 1, 255, 255, 16).merge(&v4(10, 1, 0, 0, 16)), Ok(v4(10, 1, 0, 0, 16)));
}

#[test]
fn merged_network_holds_both_and_is_no_longer_than_either() {
    let pairs = [
        (v4(192, 168, 1, 5, 24), v4(192, 168, 200, 5, 20)),
        (v4(10, 0, 0, 1, 32), v4(10, 0, 0, 254, 32)),
        (v4(172, 16, 0, 0, 12), v4(172, 31, 255, 255, 32)),
        (v4(1, 2, 3, 4, 32), v4(254, 2, 3, 4, 32)),
    ];
    for (x, y) in pairs.iter() {
        let merged = x.merge(y).unwrap();
        assert!(merged.masklen() <= x.masklen());
        assert!(merged.masklen() <= y.masklen());
        let keep = !low_bits(merged.masklen());
        assert_eq!(as_u32(x) & keep, as_u32(&merged));
        assert_eq!(as_u32(y) & keep, as_u32(&merged));
        assert_eq!(y.merge(x).unwrap(), merged);
    }
}

#[test]
fn merge_refuses_different_families() {
    let four = v4(10, 0, 0, 1, 32);
    let six = NetworkValue::v6([0; 16], 128).unwrap();
    assert_eq!(four.merge(&six), Err(NetError::FamilyMismatch));
    assert_eq!(six.merge(&four), Err(NetError::FamilyMismatch));
    assert!(!four.same_family(&six));
    assert!(four.same_family(&v4(1, 1, 1, 1, 0)));
    assert!(six.same_family(&six));
}
