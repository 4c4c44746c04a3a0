use ph_esp32_mac::constants::{MAX_FRAME_SIZE, MTU};
use ph_esp32_mac::emac::Emac;
use smoltcp::phy::{Checksum, ChecksumCapabilities, DeviceCapabilities, Medium};

#[test]
fn test_max_frame_size() {
    assert_eq!(MAX_FRAME_SIZE, 1522);
}

#[test]
fn test_mtu() {
    assert_eq!(MTU, 1500);
}

#[test]
fn capabilities_mtu_matches_constant() {
    assert_eq!(MTU, 1500);
}

#[test]
fn phantom_data_is_zero_sized() {
    assert_eq!(core::mem::size_of::<core::marker::PhantomData<&mut Emac<10, 10, 1600>>>(), 0);
}

#[test]
fn capabilities_medium_is_ethernet() {
    let medium = Medium::Ethernet;
    assert_eq!(medium, Medium::Ethernet);
}

#[test]
fn checksum_variants_are_constructable() {
    let _none = Checksum::None;
    let _tx = Checksum::Tx;
    let _rx = Checksum::Rx;
    let both = Checksum::Both;

    assert!(matches!(both, Checksum::Both));
}

#[test]
fn checksum_capabilities_is_constructable() {
    let caps = ChecksumCapabilities::default();
    let _ipv4 = caps.ipv4;
    let _udp = caps.udp;
    let _tcp = caps.tcp;
    let _icmpv4 = caps.icmpv4;
}

#[test]
fn device_capabilities_default_has_medium_ethernet() {
    let caps = DeviceCapabilities::default();
    assert_eq!(caps.medium, Medium::Ethernet);
}

#[test]
fn device_capabilities_default_has_no_max_burst() {
    let caps = DeviceCapabilities::default();
    assert_eq!(caps.max_burst_size, None);
}
