use move_unit_test::module_id::{format_module_id, ModuleIdData};

fn address(last: u8) -> Vec<u8> {
    let mut a = vec![0u8; 16];
    a[15] = last;
    a
}

#[test]
fn renders_short_hex_without_leading_zeros() {
    let id = ModuleIdData { address: address(1), name: "m".to_string() };
    assert_eq!(format_module_id(&id), "0x1::m");
}

#[test]
fn renders_zero_address_as_single_zero() {
    let id = ModuleIdData { address: vec![0u8; 16], name: "storage".to_string() };
    assert_eq!(format_module_id(&id), "0x0::storage");
}

#[test]
fn renders_multi_byte_addresses_in_lowercase_hex() {
    let mut a = vec![0u8; 16];
    a[14] = 0xab;
    a[15] = 0xcd;
    let id = ModuleIdData { address: a, name: "vault".to_string() };
    assert_eq!(format_module_id(&id), "0xabcd::vault");
}
