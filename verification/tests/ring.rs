use xenctrl::ring::RingHeader;
use xenctrl::{BackRing, RingLayout};

fn size(header: u32, entry: u32) -> u32 {
    let layout = RingLayout { header, entry };
    assert!(layout.is_valid());
    layout.ring_size()
}

#[test]
fn ring_size_is_a_power_of_two() {
    assert_eq!(size(64, 376), 8);
    assert_eq!(size(64, 304), 8);
    assert_eq!(size(64, 252), 16);
    assert_eq!(size(64, 253), 8);
    assert_eq!(size(64, 4032), 1);
    assert_eq!(size(64, 2016), 2);
    assert_eq!(size(64, 2017), 1);
    assert_eq!(size(0, 1), 4096);
    assert_eq!(size(1, 1), 2048);
}

#[test]
fn ring_fills_page() {
    for entry in 1..=4032u32 {
        let n = size(64, entry);
        assert!(n.is_power_of_two());
        assert!(64 + n * entry <= 4096);
        assert!(64 + 2 * n * entry > 4096);
    }
}

#[test]
fn ring_layout_validity() {
    assert!(RingLayout { header: 0, entry: 4096 }.is_valid());
    assert!(!RingLayout { header: 64, entry: 4033 }.is_valid());
    assert!(!RingLayout { header: 4096, entry: 1 }.is_valid());
    assert!(!RingLayout { header: u32::MAX, entry: u32::MAX }.is_valid());
    assert!(!RingLayout { header: 64, entry: 0 }.is_valid());
}

#[test]
fn new_ring_is_empty() {
    let ring = BackRing::init(RingLayout { header: 64, entry: 376 }, 9u64);
    assert_eq!(ring, BackRing { rsp_prod_pvt: 0, req_cons: 0, nr_ents: 8, sring: 9 });
    assert_eq!(
        RingHeader::new(),
        RingHeader {
            req_prod: 0,
            req_event: 1,
            rsp_prod: 0,
            rsp_event: 1,
            pvt_pad: [0; 4],
            pad: [0; 44],
        }
    );
}

#[test]
fn slots_wrap_around() {
    let ring = BackRing { rsp_prod_pvt: 0, req_cons: 0, nr_ents: 8, sring: 0u64 };
    assert_eq!(ring.slot(0), 0);
    assert_eq!(ring.slot(7), 7);
    assert_eq!(ring.slot(8), 0);
    assert_eq!(ring.slot(29), 5);
    assert_eq!(ring.slot(u32::MAX), 7);
}

#[test]
fn slots_of_a_ring_are_distinct() {
    let ring = BackRing { rsp_prod_pvt: 0, req_cons: 0, nr_ents: 16, sring: 0u64 };
    for i in 100..116u32 {
        for j in i + 1..i + 16 {
            assert_ne!(ring.slot(i), ring.slot(j));
        }
        assert_eq!(ring.slot(i), ring.slot(i + 16));
    }
}

#[test]
fn consume_request_counts() {
    let mut ring = BackRing { rsp_prod_pvt: 3, req_cons: 12, nr_ents: 8, sring: 0u64 };
    assert_eq!(ring.consume_request(), (4, 14));
    assert_eq!(ring, BackRing { rsp_prod_pvt: 3, req_cons: 13, nr_ents: 8, sring: 0 });
}

#[test]
fn produce_response_counts() {
    let mut ring = BackRing { rsp_prod_pvt: 15, req_cons: 16, nr_ents: 8, sring: 0u64 };
    assert_eq!(ring.produce_response(), (7, 16));
    assert_eq!(ring, BackRing { rsp_prod_pvt: 16, req_cons: 16, nr_ents: 8, sring: 0 });
}
