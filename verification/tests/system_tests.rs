//! The system core: address-space registration and lookup, CPU cookies,
//! and execution dispatch.

use ani::cpu::{Architecture, Endianness, MipsArch};
use ani::mem::{AddressSpace, ProtectionFlags};
use ani::system::{EngineReport, ExecResult, System};
use ani::SystemError;

#[test]
fn disjoint_ranges_all_register_and_lookup_finds_them() {
    let mut space = AddressSpace::new();
    let prot = ProtectionFlags::all();
    assert!(space.add_mappable_range(prot, 0x4000, 0x1000).is_ok());
    assert!(space.add_mappable_range(prot, 0x1000, 0x1000).is_ok());
    assert!(space.add_mappable_range(prot, 0x8000, 0x100).is_ok());
    assert_eq!(space.region_count(), 3);

    // kept in base-address order
    assert_eq!(space.region_at(0).base, 0x1000);
    assert_eq!(space.region_at(1).base, 0x4000);
    assert_eq!(space.region_at(2).base, 0x8000);

    // an address inside a registered range resolves to that exact range
    let hit = space.lookup(0x4800).expect("address is mapped");
    assert_eq!(hit.base, 0x4000);
    assert_eq!(hit.size, 0x1000);

    // boundaries: first address in, one past the end out
    assert_eq!(space.lookup(0x1000).unwrap().base, 0x1000);
    assert_eq!(space.lookup(0x1fff).unwrap().base, 0x1000);
    assert!(space.lookup(0x2000).is_none());
    assert!(space.lookup(0x0fff).is_none());
}

#[test]
fn empty_range_is_invalid() {
    let mut space = AddressSpace::new();
    let r = space.add_mappable_range(ProtectionFlags::all(), 0x1000, 0);
    assert!(matches!(r, Err(SystemError::InvalidRange)));
    assert_eq!(space.region_count(), 0);
}

#[test]
fn range_past_address_width_is_invalid() {
    let mut space = AddressSpace::new();
    let r = space.add_mappable_range(ProtectionFlags::all(), u64::MAX - 10, 0x100);
    assert!(matches!(r, Err(SystemError::InvalidRange)));
    assert_eq!(space.region_count(), 0);
}

#[test]
fn overlapping_range_rejected_in_either_order() {
    // first the low range, then the intersecting higher one
    let mut space = AddressSpace::new();
    let prot = ProtectionFlags::all();
    assert!(space.add_mappable_range(prot, 0x1000, 0x1000).is_ok());
    let r = space.add_mappable_range(prot, 0x1800, 0x1000);
    assert!(matches!(r, Err(SystemError::OverlappingRange)));
    // the address space is exactly as it was before the failing call
    assert_eq!(space.region_count(), 1);
    assert_eq!(space.region_at(0).base, 0x1000);
    assert_eq!(space.region_at(0).size, 0x1000);

    // the same two ranges in the other order
    let mut other = AddressSpace::new();
    assert!(other.add_mappable_range(prot, 0x1800, 0x1000).is_ok());
    let r = other.add_mappable_range(prot, 0x1000, 0x1000);
    assert!(matches!(r, Err(SystemError::OverlappingRange)));
    assert_eq!(other.region_count(), 1);
    assert_eq!(other.region_at(0).base, 0x1800);
}

#[test]
fn touching_ranges_do_not_overlap() {
    let mut space = AddressSpace::new();
    let prot = ProtectionFlags::all();
    assert!(space.add_mappable_range(prot, 0x1000, 0x1000).is_ok());
    assert!(space.add_mappable_range(prot, 0x2000, 0x1000).is_ok());
    assert_eq!(space.region_count(), 2);
}

#[test]
fn register_cpu_mints_distinct_cookies() {
    let mut system = System::new(7);
    let mut cookies = Vec::new();
    for _ in 0..5 {
        let c = system
            .register_cpu(Endianness::Big, Architecture::Mips(MipsArch::R2000))
            .expect("registration cannot fail");
        cookies.push(c);
    }
    assert_eq!(system.cpu_count(), 5);
    for i in 0..cookies.len() {
        for j in 0..cookies.len() {
            if i != j {
                assert_ne!(cookies[i], cookies[j]);
            }
        }
    }
}

#[test]
fn cookie_of_one_system_fails_on_another() {
    let mut a = System::new(1);
    let mut b = System::new(2);
    let cookie_a = a
        .register_cpu(Endianness::Big, Architecture::Mips(MipsArch::R2000))
        .unwrap();
    // give the other system a CPU of its own, so only the scoping decides
    let cookie_b = b
        .register_cpu(Endianness::Little, Architecture::Mips(MipsArch::R2000))
        .unwrap();

    let r = b.execute(&cookie_a, EngineReport::CleanHalt);
    assert!(matches!(r, Err(SystemError::InvalidCookie)));
    let r = a.execute(&cookie_b, EngineReport::CleanHalt);
    assert!(matches!(r, Err(SystemError::InvalidCookie)));
    let r = b.lookup_cpu(&cookie_a);
    assert!(matches!(r, Err(SystemError::InvalidCookie)));
}

#[test]
fn execute_maps_engine_reports() {
    let mut system = System::new(3);
    let cookie = system
        .register_cpu(Endianness::Big, Architecture::Mips(MipsArch::R2000))
        .unwrap();

    let descriptor = system.lookup_cpu(&cookie).expect("own cookie resolves");
    assert_eq!(descriptor.endianness, Endianness::Big);
    assert_eq!(descriptor.architecture, Architecture::Mips(MipsArch::R2000));

    let r = system.execute(&cookie, EngineReport::CleanHalt);
    assert!(matches!(r, Ok(ExecResult::Halt)));

    let r = system.execute(&cookie, EngineReport::MemoryFault(0xdead));
    assert!(matches!(r, Err(SystemError::MemoryFault(0xdead))));
}
