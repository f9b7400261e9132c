use com_rs::{ComInterface, IUnknown, IID};

#[test]
fn iid_display() {
    assert_eq!(IUnknown::iid().to_string(),
               "{00000000-0000-0000-C000-000000000046}");
}

#[test]
fn iid_display_pads_and_uppercases_every_field() {
    let id = IID::new(0x1234abcd, 0x0a0b, 0xf00d, [0x01, 0xef, 0x00, 0x10, 0x9a, 0xbc, 0xde, 0xff]);
    assert_eq!(id.to_string(), "{1234ABCD-0A0B-F00D-01EF-00109ABCDEFF}");
}

#[test]
fn iid_display_all_ones() {
    let id = IID::new(u32::MAX, u16::MAX, u16::MAX, [0xff; 8]);
    assert_eq!(id.to_string(), "{FFFFFFFF-FFFF-FFFF-FFFF-FFFFFFFFFFFF}");
}

#[test]
fn iid_equality_is_fieldwise() {
    let a = IID::new(1, 2, 3, [4, 5, 6, 7, 8, 9, 10, 11]);
    let b = IID::new(1, 2, 3, [4, 5, 6, 7, 8, 9, 10, 11]);
    let c = IID::new(1, 2, 3, [4, 5, 6, 7, 8, 9, 10, 12]);
    let d = IID::new(1, 2, 4, [4, 5, 6, 7, 8, 9, 10, 11]);
    assert!(a == a);
    assert!(a == b && b == a);
    assert!(a != c && c != a);
    assert!(a != d);
    assert!(IUnknown::iid() == IID::new(0, 0, 0, [0xC0, 0, 0, 0, 0, 0, 0, 0x46]));
}

#[test]
fn iid_equality_matches_wire_bytes() {
    let a = IID::new(0x100, 0, 0, [0; 8]);
    let b = IID::new(0x1, 0, 0, [0; 8]);
    assert!(a != b);
    assert_ne!(a.to_bytes(), b.to_bytes());
    assert_eq!(a.to_bytes(), IID::new(0x100, 0, 0, [0; 8]).to_bytes());
}

#[test]
fn iid_wire_bytes_layout() {
    let id = IID::new(0x04030201, 0x0605, 0x0807, [9, 10, 11, 12, 13, 14, 15, 16]);
    assert_eq!(id.to_bytes(), vec![1, 2, 3, 4, 5, 6, 7, 8, 9, 10, 11, 12, 13, 14, 15, 16]);
    let root = IUnknown::iid().to_bytes();
    assert_eq!(root, vec![0, 0, 0, 0, 0, 0, 0, 0, 0xC0, 0, 0, 0, 0, 0, 0, 0x46]);
}

#[test]
fn iid_from_bytes_round_trip() {
    let id = IID::new(0xdeadbeef, 0x1234, 0xabcd, [1, 2, 3, 4, 5, 6, 7, 8]);
    let back = IID::from_bytes(&id.to_bytes()).unwrap();
    assert!(back == id);
    assert_eq!(back.data1, 0xdeadbeef);
    assert_eq!(back.data3, 0xabcd);
}

#[test]
fn iid_from_bytes_wrong_length() {
    assert!(IID::from_bytes(&[0u8; 15]).is_none());
    assert!(IID::from_bytes(&[0u8; 17]).is_none());
    assert!(IID::from_bytes(&[]).is_none());
}

#[test]
fn iid_display_every_digit() {
    let id = IID::new(0x01234567, 0x89ab, 0xcdef, [0x76, 0x54, 0x32, 0x10, 0xfe, 0xdc, 0xba, 0x98]);
    assert_eq!(id.to_string(), "{01234567-89AB-CDEF-7654-3210FEDCBA98}");
}
