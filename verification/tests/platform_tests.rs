//! The platform registry, machine construction and the machine lifecycle.

use ani::cpu::{Architecture, Endianness, MipsArch};
use ani::mips::{MaltaPlatform, Sys161Platform, MALTA_DEFAULT_RAM_SIZE, MALTA_RAM_BASE};
use ani::platform::{Machine, MachineError, Platform};
use ani::registry::{all_platforms, find_platform_by_name, PlatformKind};
use ani::system::EngineReport;

#[test]
fn catalog_lists_the_registered_platforms() {
    let platforms = all_platforms();
    assert_eq!(platforms.len(), 2);
    assert_eq!(platforms[0], PlatformKind::Malta);
    assert_eq!(platforms[1], PlatformKind::Sys161);
    assert_eq!(platforms[0].get_short_name(), "malta");
    assert_eq!(platforms[0].get_long_name(), "MIPS Malta Core LV");
    assert_eq!(platforms[1].get_short_name(), "sys161");
    assert_eq!(platforms[1].get_long_name(), "Harvard MIPS System/161");
}

#[test]
fn find_platform_resolves_short_names() {
    assert_eq!(find_platform_by_name("malta"), Some(PlatformKind::Malta));
    assert_eq!(find_platform_by_name("sys161"), Some(PlatformKind::Sys161));
    assert_eq!(find_platform_by_name("pdp11"), None);
    assert_eq!(find_platform_by_name(""), None);
    assert_eq!(find_platform_by_name("?"), None);
}

#[test]
fn usage_templates_describe_trailing_arguments() {
    assert_eq!(MaltaPlatform.get_usage(), "KERNEL KERNEL_CMD_LINE");
    assert_eq!(Sys161Platform.get_usage(), "CONFIG_FILE KERNEL");
    assert_eq!(PlatformKind::Malta.get_usage(), "KERNEL KERNEL_CMD_LINE");
}

#[test]
fn wrong_argument_count_always_fails_invalid_args() {
    for kind in all_platforms() {
        for count in [0usize, 1, 3, 4] {
            let args: Vec<String> = (0..count).map(|i| format!("arg{}", i)).collect();
            let r = kind.initialize_machine(&args, 11);
            assert!(matches!(r, Err(MachineError::InvalidArgs)));
        }
    }
}

#[test]
fn malta_machine_is_built_from_two_arguments_and_runs() {
    let args = vec!["vmlinux".to_string(), "console=ttyS0".to_string()];
    let mut machine = MaltaPlatform
        .initialize_machine(&args, 21)
        .expect("two trailing arguments construct the machine");

    // exactly one memory region: 128 MiB at base 0, full protection
    let system = machine.system();
    assert_eq!(system.region_count(), 1);
    let region = system.region_at(0);
    assert_eq!(region.base, MALTA_RAM_BASE);
    assert_eq!(region.size, MALTA_DEFAULT_RAM_SIZE);
    assert_eq!(region.size, 128 * 1024 * 1024);
    assert!(region.protection.read && region.protection.write && region.protection.execute);

    // exactly one CPU: big-endian MIPS R2000
    assert_eq!(system.cpu_count(), 1);
    let descriptor = system.lookup_cpu(&machine.cpu()).expect("own cookie resolves");
    assert_eq!(descriptor.architecture, Architecture::Mips(MipsArch::R2000));
    assert_eq!(descriptor.endianness, Endianness::Big);

    // a clean halt reported by the engine is a successful run
    let r = machine.run(EngineReport::CleanHalt);
    assert!(r.is_ok());
}

#[test]
fn malta_run_propagates_memory_fault() {
    let args = vec!["vmlinux".to_string(), "console=ttyS0".to_string()];
    let mut machine = MaltaPlatform.initialize_machine(&args, 22).unwrap();
    let r = machine.run(EngineReport::MemoryFault(0x9000_0000));
    assert!(r.is_err());
}

#[test]
fn malta_one_argument_short_fails_invalid_args() {
    let args = vec!["vmlinux".to_string()];
    let r = MaltaPlatform.initialize_machine(&args, 23);
    assert!(matches!(r, Err(MachineError::InvalidArgs)));
}

#[test]
fn sys161_machine_is_built_from_two_arguments_and_runs() {
    let args = vec!["sys161.conf".to_string(), "kernel".to_string()];
    let mut machine = Sys161Platform
        .initialize_machine(&args, 31)
        .expect("two trailing arguments construct the machine");
    assert!(machine.run(EngineReport::CleanHalt).is_ok());
}

#[test]
fn sys161_wrong_count_fails_invalid_args() {
    let args = vec!["sys161.conf".to_string()];
    let r = Sys161Platform.initialize_machine(&args, 32);
    assert!(matches!(r, Err(MachineError::InvalidArgs)));
    let args = vec![
        "sys161.conf".to_string(),
        "kernel".to_string(),
        "extra".to_string(),
    ];
    let r = Sys161Platform.initialize_machine(&args, 33);
    assert!(matches!(r, Err(MachineError::InvalidArgs)));
}
