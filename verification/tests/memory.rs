use guest_launcher::error::LaunchError;
use guest_launcher::launch::{default_config, load_guest, payload, LaunchConfig};
use guest_launcher::memory::{check_layout, write_outcome, GuestMemory, GuestRange};
use guest_launcher::processor::InitialState;

fn one_page() -> Vec<GuestRange> {
    vec![GuestRange { start: 0x1000, len: 0x1000 }]
}

fn two_pages() -> Vec<GuestRange> {
    vec![
        GuestRange { start: 0x1000, len: 0x1000 },
        GuestRange { start: 0x2000, len: 0x1000 },
    ]
}

#[test]
fn layout_of_one_page_is_valid() {
    assert!(check_layout(&one_page()));
    assert!(check_layout(&two_pages()));
}

#[test]
fn layout_must_not_be_empty() {
    assert!(!check_layout(&Vec::new()));
}

#[test]
fn layout_must_be_page_aligned() {
    assert!(!check_layout(&vec![GuestRange { start: 0x1001, len: 0x1000 }]));
    assert!(!check_layout(&vec![GuestRange { start: 0x1000, len: 0x800 }]));
    assert!(!check_layout(&vec![GuestRange { start: 0x1000, len: 0 }]));
}

#[test]
fn layout_must_be_ordered_and_disjoint() {
    assert!(!check_layout(&vec![
        GuestRange { start: 0x2000, len: 0x1000 },
        GuestRange { start: 0x1000, len: 0x1000 },
    ]));
    assert!(!check_layout(&vec![
        GuestRange { start: 0x1000, len: 0x2000 },
        GuestRange { start: 0x2000, len: 0x1000 },
    ]));
    assert!(!check_layout(&vec![
        GuestRange { start: 0x1000, len: 0x1000 },
        GuestRange { start: 0x1000, len: 0x1000 },
    ]));
}

#[test]
fn layout_must_end_inside_the_address_space() {
    assert!(!check_layout(&vec![GuestRange { start: 0xffff_ffff_ffff_f000, len: 0x1000 }]));
    assert!(check_layout(&vec![GuestRange { start: 0xffff_ffff_ffff_e000, len: 0x1000 }]));
}

#[test]
fn reserve_keeps_the_layout() {
    let mem = GuestMemory::reserve(two_pages()).unwrap();
    assert_eq!(mem.num_ranges(), 2);
    assert_eq!(mem.range(0), Some(GuestRange { start: 0x1000, len: 0x1000 }));
    assert_eq!(mem.range(1), Some(GuestRange { start: 0x2000, len: 0x1000 }));
    assert_eq!(mem.range(2), None);
}

#[test]
fn reserve_refuses_a_bad_layout() {
    assert_eq!(GuestMemory::reserve(Vec::new()).err(), Some(LaunchError::AllocationFailed));
    assert_eq!(
        GuestMemory::reserve(vec![GuestRange { start: 0x1234, len: 0x1000 }]).err(),
        Some(LaunchError::AllocationFailed)
    );
}

#[test]
fn write_then_read_round_trip() {
    let mut mem = GuestMemory::reserve(one_page()).unwrap();
    let data = payload();
    assert_eq!(mem.write(&data, 0x1000), Ok(12));
    assert_eq!(mem.read(0x1000, 12), Ok(data.clone()));
    assert_eq!(mem.write(&vec![1, 2, 3], 0x1ffd), Ok(3));
    assert_eq!(mem.read(0x1ffd, 3), Ok(vec![1, 2, 3]));
    assert_eq!(mem.read(0x1000, 12), Ok(data));
}

#[test]
fn write_overwrites_only_its_span() {
    let mut mem = GuestMemory::reserve(one_page()).unwrap();
    assert_eq!(mem.write(&vec![9, 9, 9, 9], 0x1010), Ok(4));
    assert_eq!(mem.write(&vec![7, 8], 0x1011), Ok(2));
    assert_eq!(mem.read(0x1010, 4), Ok(vec![9, 7, 8, 9]));
}

#[test]
fn write_outside_the_ranges_fails() {
    let mut mem = GuestMemory::reserve(one_page()).unwrap();
    assert_eq!(mem.write(&vec![1, 2, 3], 0x0), Err(LaunchError::OutOfRange(0x0)));
    assert_eq!(mem.write(&vec![1, 2, 3], 0x2000), Err(LaunchError::OutOfRange(0x2000)));
    assert_eq!(
        mem.write(&vec![1], 0xffff_ffff_ffff_ffff),
        Err(LaunchError::OutOfRange(0xffff_ffff_ffff_ffff))
    );
}

#[test]
fn write_across_the_end_changes_nothing() {
    let mut mem = GuestMemory::reserve(one_page()).unwrap();
    assert_eq!(mem.write(&vec![5, 5, 5, 5], 0x1ffc), Ok(4));
    assert_eq!(mem.write(&vec![1, 2, 3, 4, 5], 0x1ffc), Err(LaunchError::OutOfRange(0x1ffc)));
    assert_eq!(mem.read(0x1ffc, 4), Ok(vec![5, 5, 5, 5]));
}

#[test]
fn write_across_two_ranges_fails() {
    let mut mem = GuestMemory::reserve(two_pages()).unwrap();
    assert_eq!(mem.write(&vec![6, 6], 0x1ffe), Ok(2));
    assert_eq!(mem.write(&vec![6, 6], 0x2000), Ok(2));
    assert_eq!(mem.write(&vec![1, 2, 3, 4], 0x1ffe), Err(LaunchError::OutOfRange(0x1ffe)));
    assert_eq!(mem.read(0x1ffe, 2), Ok(vec![6, 6]));
    assert_eq!(mem.read(0x2000, 2), Ok(vec![6, 6]));
    assert_eq!(mem.read(0x1ffe, 4), Err(LaunchError::OutOfRange(0x1ffe)));
}

#[test]
fn empty_write_inside_a_range() {
    let mut mem = GuestMemory::reserve(one_page()).unwrap();
    assert_eq!(mem.write(&Vec::new(), 0x1800), Ok(0));
    assert_eq!(mem.read(0x1800, 0), Ok(Vec::new()));
    assert_eq!(mem.write(&Vec::new(), 0x3000), Err(LaunchError::OutOfRange(0x3000)));
}

#[test]
fn write_outcome_by_count() {
    assert_eq!(write_outcome(12, 0x1000, Ok(12)), Ok(12));
    assert_eq!(write_outcome(12, 0x1000, Ok(5)), Err(LaunchError::ShortWrite(5)));
    assert_eq!(
        write_outcome(12, 0x1000, Err(vm_memory::GuestMemoryError::InvalidBackendAddress)),
        Err(LaunchError::OutOfRange(0x1000))
    );
}

#[test]
fn contains_span_at_the_edges() {
    let mem = GuestMemory::reserve(one_page()).unwrap();
    assert!(mem.contains_span(0x1000, 0x1000));
    assert!(!mem.contains_span(0x1000, 0x1001));
    assert!(mem.contains_span(0x1fff, 1));
    assert!(!mem.contains_span(0x0fff, 1));
    assert!(!mem.contains_span(0x2000, 1));
}

#[test]
fn host_address_of_a_reserved_address() {
    let mem = GuestMemory::reserve(one_page()).unwrap();
    assert!(mem.host_address_of(0x1000).is_ok());
    assert!(mem.host_address_of(0x1fff).is_ok());
    assert_ne!(mem.host_address_of(0x1000), Ok(0x1000));
}

#[test]
fn host_address_outside_the_ranges() {
    let mem = GuestMemory::reserve(one_page()).unwrap();
    assert_eq!(mem.host_address_of(0x2000), Err(LaunchError::NotMapped(0x2000)));
    assert_eq!(mem.host_address_of(0x0), Err(LaunchError::NotMapped(0x0)));
}

#[test]
fn default_config_values() {
    let c = default_config();
    assert_eq!(c.layout, one_page());
    assert_eq!(
        c.payload,
        vec![0xba, 0xf8, 0x03, 0x00, 0xd8, 0x04, b'0', 0xee, 0xb0, b'\n', 0xee, 0xf4]
    );
    assert_eq!(c.initial, InitialState { entry: 0x1000, accumulator: 2, operand: 2 });
}

#[test]
fn load_guest_holds_the_payload() {
    let c = default_config();
    let mem = load_guest(&c).unwrap();
    assert_eq!(mem.read(0x1000, 12), Ok(c.payload));
    assert_eq!(mem.num_ranges(), 1);
}

#[test]
fn load_guest_refuses_a_payload_that_does_not_fit() {
    let c = LaunchConfig {
        layout: one_page(),
        payload: vec![0xf4; 0x1001],
        initial: InitialState { entry: 0x1000, accumulator: 0, operand: 0 },
    };
    assert_eq!(load_guest(&c).err(), Some(LaunchError::OutOfRange(0x1000)));
    let c = LaunchConfig {
        layout: one_page(),
        payload: vec![0xf4],
        initial: InitialState { entry: 0x3000, accumulator: 0, operand: 0 },
    };
    assert_eq!(load_guest(&c).err(), Some(LaunchError::OutOfRange(0x3000)));
}

#[test]
fn load_guest_refuses_a_bad_layout() {
    let c = LaunchConfig {
        layout: vec![GuestRange { start: 0x1000, len: 0x10 }],
        payload: vec![0xf4],
        initial: InitialState { entry: 0x1000, accumulator: 0, operand: 0 },
    };
    assert_eq!(load_guest(&c).err(), Some(LaunchError::AllocationFailed));
}
