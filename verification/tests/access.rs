use std::convert::TryFrom;

use xenctrl::XenPageAccess;

const TABLE: [(u32, XenPageAccess); 8] = [
    (0, XenPageAccess::NIL),
    (1, XenPageAccess::R),
    (2, XenPageAccess::W),
    (3, XenPageAccess::RW),
    (4, XenPageAccess::X),
    (5, XenPageAccess::RX),
    (6, XenPageAccess::WX),
    (7, XenPageAccess::RWX),
];

#[test]
fn page_access_from_number() {
    for (code, access) in TABLE {
        assert_eq!(XenPageAccess::try_from(code), Ok(access));
    }
}

#[test]
fn page_access_to_number() {
    for (code, access) in TABLE {
        assert_eq!(u32::from(access), code);
    }
}

#[test]
fn page_access_unknown_number() {
    for code in [8, 9, 10, 256, u32::MAX] {
        assert_eq!(XenPageAccess::try_from(code), Err("not implemented"));
    }
}

#[test]
fn page_access_round_trip() {
    for code in 0..32u32 {
        if let Ok(access) = XenPageAccess::try_from(code) {
            assert_eq!(u32::from(access), code);
            assert_eq!(XenPageAccess::try_from(u32::from(access)), Ok(access));
        }
    }
}
