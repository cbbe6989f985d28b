use guest_launcher::capability::{check_api_version, check_vcpu_index, Capability};
use guest_launcher::error::LaunchError;
use guest_launcher::machine::{
    build_registrations, plan_registrations, MemoryRegistration, RegionTable,
};
use guest_launcher::memory::{GuestMemory, GuestRange};

fn region(slot: u32, guest: u64, host: u64) -> MemoryRegistration {
    MemoryRegistration {
        slot,
        flags: 0,
        guest_phys_addr: guest,
        memory_size: 0x1000,
        userspace_addr: host,
    }
}

#[test]
fn supported_version_is_accepted() {
    assert_eq!(check_api_version(12), Ok(()));
}

#[test]
fn other_versions_are_refused() {
    assert_eq!(check_api_version(11), Err(LaunchError::IncompatibleVersion(11)));
    assert_eq!(check_api_version(13), Err(LaunchError::IncompatibleVersion(13)));
    assert_eq!(check_api_version(0), Err(LaunchError::IncompatibleVersion(0)));
    assert_eq!(check_api_version(-1), Err(LaunchError::IncompatibleVersion(-1)));
}

#[test]
fn vcpu_index_below_the_count() {
    let cap = Capability { api_version: 12, max_vcpus: 4, vcpu_mmap_size: 0x3000 };
    assert_eq!(check_vcpu_index(0, &cap), Ok(()));
    assert_eq!(check_vcpu_index(3, &cap), Ok(()));
    assert_eq!(check_vcpu_index(4, &cap), Err(LaunchError::CreationFailed));
    assert_eq!(check_vcpu_index(u64::MAX, &cap), Err(LaunchError::CreationFailed));
}

#[test]
fn registrations_are_built_in_order() {
    let ranges = vec![
        GuestRange { start: 0x1000, len: 0x1000 },
        GuestRange { start: 0x4000, len: 0x2000 },
    ];
    let hosts = vec![0x7f00_0000_0000, 0x7f00_0001_0000];
    let regs = build_registrations(&ranges, &hosts).unwrap();
    assert_eq!(
        regs,
        vec![
            MemoryRegistration {
                slot: 0,
                flags: 0,
                guest_phys_addr: 0x1000,
                memory_size: 0x1000,
                userspace_addr: 0x7f00_0000_0000,
            },
            MemoryRegistration {
                slot: 1,
                flags: 0,
                guest_phys_addr: 0x4000,
                memory_size: 0x2000,
                userspace_addr: 0x7f00_0001_0000,
            },
        ]
    );
}

#[test]
fn plan_covers_every_range() {
    let mem = GuestMemory::reserve(vec![
        GuestRange { start: 0x1000, len: 0x1000 },
        GuestRange { start: 0x3000, len: 0x2000 },
    ])
    .unwrap();
    let regs = plan_registrations(&mem).unwrap();
    assert_eq!(regs.len(), 2);
    assert_eq!(regs[0].slot, 0);
    assert_eq!(regs[0].flags, 0);
    assert_eq!(regs[0].guest_phys_addr, 0x1000);
    assert_eq!(regs[0].memory_size, 0x1000);
    assert_eq!(Ok(regs[0].userspace_addr), mem.host_address_of(0x1000));
    assert_eq!(regs[1].slot, 1);
    assert_eq!(regs[1].flags, 0);
    assert_eq!(regs[1].guest_phys_addr, 0x3000);
    assert_eq!(regs[1].memory_size, 0x2000);
    assert_eq!(Ok(regs[1].userspace_addr), mem.host_address_of(0x3000));
}

#[test]
fn planned_regions_register() {
    let mem = GuestMemory::reserve(vec![GuestRange { start: 0x1000, len: 0x1000 }]).unwrap();
    let regs = plan_registrations(&mem).unwrap();
    let mut table = RegionTable::new();
    for reg in regs.iter() {
        assert_eq!(table.register(*reg), Ok(()));
    }
    assert_eq!(table.len(), 1);
    assert_eq!(table.get(0), Some(regs[0]));
}

#[test]
fn new_table_is_empty() {
    let table = RegionTable::new();
    assert_eq!(table.len(), 0);
    assert_eq!(table.get(0), None);
    assert!(!table.uses_slot(0));
}

#[test]
fn register_appends() {
    let mut table = RegionTable::new();
    assert_eq!(table.register(region(0, 0x1000, 0x7000_0000)), Ok(()));
    assert_eq!(table.register(region(3, 0x2000, 0x7000_1000)), Ok(()));
    assert_eq!(table.len(), 2);
    assert_eq!(table.get(0), Some(region(0, 0x1000, 0x7000_0000)));
    assert_eq!(table.get(1), Some(region(3, 0x2000, 0x7000_1000)));
    assert!(table.uses_slot(3));
    assert!(!table.uses_slot(1));
}

#[test]
fn duplicate_slot_is_refused() {
    let mut table = RegionTable::new();
    assert_eq!(table.register(region(0, 0x1000, 0x7000_0000)), Ok(()));
    assert_eq!(
        table.register(region(0, 0x2000, 0x7000_1000)),
        Err(LaunchError::InvalidRegion(0))
    );
    assert_eq!(table.len(), 1);
    assert_eq!(table.get(0), Some(region(0, 0x1000, 0x7000_0000)));
}

#[test]
fn misaligned_guest_range_is_refused() {
    let mut table = RegionTable::new();
    assert_eq!(
        table.register(region(0, 0x1001, 0x7000_0000)),
        Err(LaunchError::InvalidRegion(0))
    );
    let mut odd = region(1, 0x1000, 0x7000_0000);
    odd.memory_size = 0x1800;
    assert_eq!(table.register(odd), Err(LaunchError::InvalidRegion(1)));
    let mut empty = region(2, 0x1000, 0x7000_0000);
    empty.memory_size = 0;
    assert_eq!(table.register(empty), Err(LaunchError::InvalidRegion(2)));
    let mut wrapping = region(3, 0xffff_ffff_ffff_f000, 0x7000_0000);
    wrapping.memory_size = 0x1000;
    assert_eq!(table.register(wrapping), Err(LaunchError::InvalidRegion(3)));
    assert_eq!(table.len(), 0);
}

#[test]
fn unmapped_host_address_is_refused() {
    let mut table = RegionTable::new();
    assert_eq!(table.register(region(5, 0x1000, 0)), Err(LaunchError::InvalidRegion(5)));
    assert_eq!(table.len(), 0);
}
