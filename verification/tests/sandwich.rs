use swap_engine::error::ErrorCode;
use swap_engine::sandwich::{
    create_sandwich_tracker, extend_sandwich_tracker, extended_tracker_size,
    write_sandwich_tracker_identities, write_sandwich_tracker_leaders, SandwichTracker,
    TrackerIdentity,
};

fn empty_tracker() -> SandwichTracker {
    SandwichTracker { count: 0, identities: Vec::new(), leaders: Vec::new() }
}

fn identity(n: u64) -> TrackerIdentity {
    TrackerIdentity { data1: n, data2: n + 1, data3: n + 2, data4: n + 3 }
}

fn identity_block(offset: u64, count: u64, records: &[TrackerIdentity]) -> Vec<u8> {
    let mut v = offset.to_le_bytes().to_vec();
    v.extend_from_slice(&count.to_le_bytes());
    for r in records {
        for w in [r.data1, r.data2, r.data3, r.data4] {
            v.extend_from_slice(&w.to_le_bytes());
        }
    }
    v
}

#[test]
fn tracker_grows_by_a_step_up_to_the_maximum() {
    assert_eq!(extended_tracker_size(0), 10240);
    assert_eq!(extended_tracker_size(280000), 285656);
    assert_eq!(extended_tracker_size(285655), 285656);
    assert_eq!(extended_tracker_size(285656), 285656);
    assert_eq!(extended_tracker_size(300000), 300000);
}

#[test]
fn repeated_extensions_reach_the_maximum() {
    let mut size = 0;
    for _ in 0..28 {
        size = extended_tracker_size(size);
    }
    assert_eq!(size, 285656);
    assert_eq!(extended_tracker_size(size), size);
}

#[test]
fn extending_the_tracker_keeps_its_tables() {
    let mut t = empty_tracker();
    t.count = 10;
    t.identities.push(identity(1));
    t.leaders.push(3);
    extend_sandwich_tracker(&mut t);
    assert_eq!(t.count, 10250);
    assert_eq!(t.identities, vec![identity(1)]);
    assert_eq!(t.leaders, vec![3u16]);
}

#[test]
fn new_tracker_header_reads_back() {
    match create_sandwich_tracker(2, 1000, 300) {
        Ok((header, payer)) => {
            assert_eq!(payer, 700);
            assert_eq!(u64::from_le_bytes(header[0..8].try_into().unwrap()), 0x8373e4e400d333af);
            assert_eq!(u64::from_le_bytes(header[8..16].try_into().unwrap()), 2);
            assert_eq!(u64::from_le_bytes(header[16..24].try_into().unwrap()), 864000);
        }
        Err(e) => panic!("{:?}", e),
    }
}

#[test]
fn new_tracker_refuses_overflow_and_a_short_payer() {
    assert_eq!(create_sandwich_tracker(u64::MAX, 1000, 300), Err(ErrorCode::Overflow));
    assert_eq!(create_sandwich_tracker(1, 299, 300), Err(ErrorCode::Overflow));
}

#[test]
fn identities_are_appended_to_an_empty_table() {
    let mut t = empty_tracker();
    let data = identity_block(0, 2, &[identity(10), identity(20)]);
    write_sandwich_tracker_identities(&mut t, &data);
    assert_eq!(t.identities, vec![identity(10), identity(20)]);
    assert_eq!(t.count, 0);
}

#[test]
fn identities_replace_in_place_and_read_back() {
    let mut t = empty_tracker();
    t.identities = vec![identity(1), identity(2), identity(3)];
    let data = identity_block(1, 3, &[identity(10), identity(20), identity(30)]);
    write_sandwich_tracker_identities(&mut t, &data);
    assert_eq!(t.identities, vec![identity(1), identity(10), identity(20), identity(30)]);
}

#[test]
fn identities_stop_where_the_block_ends() {
    let mut t = empty_tracker();
    let data = identity_block(0, 5, &[identity(10)]);
    write_sandwich_tracker_identities(&mut t, &data);
    assert_eq!(t.identities, vec![identity(10)]);
    let mut u = empty_tracker();
    write_sandwich_tracker_identities(&mut u, &[1, 2, 3]);
    assert!(u.identities.is_empty());
}

#[test]
fn leaders_are_written_past_the_table_base() {
    let mut t = empty_tracker();
    let mut data = 0u64.to_le_bytes().to_vec();
    data.extend_from_slice(&2u64.to_le_bytes());
    data.extend_from_slice(&0x0102u16.to_le_bytes());
    data.extend_from_slice(&0x0304u16.to_le_bytes());
    write_sandwich_tracker_leaders(&mut t, &data);
    assert_eq!(t.leaders.len(), 65564);
    assert_eq!(t.leaders[65560], 0x0102);
    assert_eq!(t.leaders[65561], 0);
    assert_eq!(t.leaders[65562], 0x0304);
    assert_eq!(t.leaders[65563], 0);
    assert_eq!(t.leaders[0], 0);
}

#[test]
fn leaders_at_an_offset_keep_what_was_before() {
    let mut t = empty_tracker();
    t.leaders = vec![9u16; 70000];
    let mut data = 3u64.to_le_bytes().to_vec();
    data.extend_from_slice(&1u64.to_le_bytes());
    data.extend_from_slice(&0x0a0bu16.to_le_bytes());
    write_sandwich_tracker_leaders(&mut t, &data);
    assert_eq!(t.leaders.len(), 70000);
    assert_eq!(t.leaders[65566], 0x0a0b);
    assert_eq!(t.leaders[65565], 9);
    assert_eq!(t.leaders[65567], 9);
}

#[test]
fn leaders_with_no_count_change_nothing() {
    let mut t = empty_tracker();
    let mut data = 3u64.to_le_bytes().to_vec();
    data.extend_from_slice(&0u64.to_le_bytes());
    write_sandwich_tracker_leaders(&mut t, &data);
    assert!(t.leaders.is_empty());
}
