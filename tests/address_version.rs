use enet::address::{HOST_ANY, HOST_LOCALHOST};
use enet::{Address, Version};

#[test]
fn localhost_is_127_0_0_1() {
    let a = Address::localhost(12345);
    assert_eq!(a.host_bytes(), [127, 0, 0, 1]);
    assert_eq!(a.host(), HOST_LOCALHOST);
    assert_eq!(a.host(), 0x0100_007f);
    assert_eq!(a.port(), 12345);
}

#[test]
fn any_is_0_0_0_0() {
    let a = Address::any(80);
    assert_eq!(a.host(), HOST_ANY);
    assert_eq!(a.host_bytes(), [0, 0, 0, 0]);
    assert_eq!(a.port(), 80);
}

#[test]
fn default_address_is_localhost_80() {
    let a = Address::default();
    assert_eq!(a, Address::localhost(80));
    assert_eq!(a.port(), 80);
}

#[test]
fn host_bytes_in_memory_order() {
    let a = Address::new(0x0403_0201, 7);
    assert_eq!(a.host_bytes(), [1, 2, 3, 4]);
    assert_eq!(a.host(), 0x0403_0201);
    assert_eq!(a.port(), 7);
    assert_eq!(Address::new(u32::MAX, 0).host_bytes(), [255, 255, 255, 255]);
}

#[test]
fn version_parts() {
    let v = Version::create(1, 3, 17);
    assert_eq!(v, Version::from_ll(0x0001_0311));
    assert_eq!(v.get_major(), 1);
    assert_eq!(v.get_minor(), 3);
    assert_eq!(v.get_patch(), 17);
}

#[test]
fn version_parts_of_a_word() {
    let v = Version::from_ll(0x00ff_fefd);
    assert_eq!((v.get_major(), v.get_minor(), v.get_patch()), (255, 254, 253));
    let w = Version::from_ll(0xab12_3456);
    assert_eq!((w.get_major(), w.get_minor(), w.get_patch()), (0x12, 0x34, 0x56));
}

#[test]
fn version_wide_parts_spill_over() {
    // a patch of 256 carries into the minor part, as the engine's packing does
    let v = Version::create(0, 0, 256);
    assert_eq!((v.get_major(), v.get_minor(), v.get_patch()), (0, 1, 0));
}
