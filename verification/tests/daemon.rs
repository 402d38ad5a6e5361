use std::io::Write;

use zygiskd::arch::{bytes_contains, get_arch, arch_name, Arch};
use zygiskd::codec::{
    decode_string_frame, decode_u32, decode_u64, encode_string_frame, encode_u32, encode_u64,
};
use zygiskd::companion::{
    companion_process_name, companion_request, spawn_verdict, CompanionOutcome, CompanionSlot,
    PollStatus, SpawnVerdict, WaitOutcome,
};
use zygiskd::dispatch::{
    daemon_socket_name, handle_daemon_action, module_dir_path, parse_action, ConnError,
    DaemonSocketAction, Request, Response,
};
use zygiskd::memlib::create_library_fd;
use zygiskd::modules::{eligible_modules, load_modules, load_step, module_eligible, DaemonContext, ModuleSource};
use zygiskd::root::{
    get_process_flags, setup, uid_granted_root, uid_should_umount, KsuVersion, MagiskVersion,
    RootImpl, PROCESS_GRANTED_ROOT, PROCESS_ON_DENYLIST, PROCESS_ROOT_IS_KSU,
    PROCESS_ROOT_IS_MAGISK,
};

#[test]
fn setup_classifies_all_detector_outcomes() {
    assert_eq!(setup(None, None), RootImpl::Absent);
    assert_eq!(
        setup(Some(KsuVersion::Supported), Some(MagiskVersion::Supported)),
        RootImpl::Multiple
    );
    assert_eq!(
        setup(Some(KsuVersion::TooOld), Some(MagiskVersion::TooOld)),
        RootImpl::Multiple
    );
    assert_eq!(setup(Some(KsuVersion::Supported), None), RootImpl::KernelSU);
    assert_eq!(setup(Some(KsuVersion::TooOld), None), RootImpl::TooOld);
    assert_eq!(setup(Some(KsuVersion::Abnormal), None), RootImpl::Abnormal);
    assert_eq!(setup(None, Some(MagiskVersion::Supported)), RootImpl::Magisk);
    assert_eq!(setup(None, Some(MagiskVersion::TooOld)), RootImpl::TooOld);
}

#[test]
fn uid_policy_dispatches_to_active_backend() {
    assert!(uid_granted_root(&RootImpl::KernelSU, true, false));
    assert!(!uid_granted_root(&RootImpl::KernelSU, false, true));
    assert!(uid_granted_root(&RootImpl::Magisk, false, true));
    assert!(!uid_granted_root(&RootImpl::Magisk, true, false));
    assert!(uid_should_umount(&RootImpl::KernelSU, true, false));
    assert!(!uid_should_umount(&RootImpl::Magisk, true, false));
}

#[test]
fn process_flags_for_root_uid_granted_not_denylisted() {
    // uid 0 with a supported single backend reporting root-granted and
    // not-denylisted: bit 0 set, bit 1 clear.
    let flags = get_process_flags(&RootImpl::KernelSU, true, false);
    assert_eq!(flags & PROCESS_GRANTED_ROOT, PROCESS_GRANTED_ROOT);
    assert_eq!(flags & PROCESS_ON_DENYLIST, 0);
    assert_eq!(flags, PROCESS_GRANTED_ROOT | PROCESS_ROOT_IS_KSU);
}

#[test]
fn process_flags_provider_bits_follow_cached_provider() {
    // Whatever the per-uid answers, the provider-identity bits match the
    // one cached provider.
    for &granted in &[false, true] {
        for &deny in &[false, true] {
            let f = get_process_flags(&RootImpl::KernelSU, granted, deny);
            assert_eq!(f & (PROCESS_ROOT_IS_KSU | PROCESS_ROOT_IS_MAGISK), PROCESS_ROOT_IS_KSU);
            let f = get_process_flags(&RootImpl::Magisk, granted, deny);
            assert_eq!(f & (PROCESS_ROOT_IS_KSU | PROCESS_ROOT_IS_MAGISK), PROCESS_ROOT_IS_MAGISK);
        }
    }
    let f = get_process_flags(&RootImpl::Magisk, true, true);
    assert_eq!(f, PROCESS_GRANTED_ROOT | PROCESS_ON_DENYLIST | PROCESS_ROOT_IS_MAGISK);
}

#[test]
fn parse_action_maps_each_code_and_rejects_the_rest() {
    assert!(matches!(parse_action(0), Some(DaemonSocketAction::PingHeartbeat)));
    assert!(matches!(parse_action(1), Some(DaemonSocketAction::RequestLogcatFd)));
    assert!(matches!(parse_action(2), Some(DaemonSocketAction::ReadNativeBridge)));
    assert!(matches!(parse_action(3), Some(DaemonSocketAction::GetProcessFlags)));
    assert!(matches!(parse_action(4), Some(DaemonSocketAction::ReadModules)));
    assert!(matches!(parse_action(5), Some(DaemonSocketAction::RequestCompanionSocket)));
    assert!(matches!(parse_action(6), Some(DaemonSocketAction::GetModuleDir)));
    assert_eq!(parse_action(7), None);
    assert_eq!(parse_action(255), None);
}

#[test]
fn get_arch_selects_by_family_and_bitness() {
    assert_eq!(get_arch(&b"arm64-v8a".to_vec(), true), Some(Arch::Arm64));
    assert_eq!(get_arch(&b"armeabi-v7a".to_vec(), false), Some(Arch::Armeabi));
    assert_eq!(get_arch(&b"x86_64".to_vec(), true), Some(Arch::X86_64));
    assert_eq!(get_arch(&b"x86".to_vec(), false), Some(Arch::X86));
    assert_eq!(get_arch(&b"mips64".to_vec(), true), None);
    assert_eq!(get_arch(&b"".to_vec(), true), None);
}

#[test]
fn arch_names_are_the_abi_directory_names() {
    assert_eq!(arch_name(&Arch::Armeabi), "armeabi-v7a");
    assert_eq!(arch_name(&Arch::Arm64), "arm64-v8a");
    assert_eq!(arch_name(&Arch::X86), "x86");
    assert_eq!(arch_name(&Arch::X86_64), "x86_64");
}

#[test]
fn bytes_contains_finds_substrings() {
    assert!(bytes_contains(&b"arm64-v8a".to_vec(), &b"arm".to_vec()));
    assert!(!bytes_contains(&b"x86_64".to_vec(), &b"arm".to_vec()));
    assert!(bytes_contains(&b"abc".to_vec(), &b"".to_vec()));
    assert!(!bytes_contains(&b"ab".to_vec(), &b"abc".to_vec()));
    assert!(bytes_contains(&b"xxarm".to_vec(), &b"arm".to_vec()));
}

#[test]
fn u32_wire_format_is_little_endian() {
    let b = encode_u32(0x12345678);
    assert_eq!(b, vec![0x78, 0x56, 0x34, 0x12]);
    assert_eq!(decode_u32(&b), 0x12345678);
    assert_eq!(decode_u32(&encode_u32(0)), 0);
    assert_eq!(decode_u32(&encode_u32(u32::MAX)), u32::MAX);
}

#[test]
fn u64_wire_format_is_little_endian() {
    let b = encode_u64(0x0102030405060708);
    assert_eq!(b, vec![8, 7, 6, 5, 4, 3, 2, 1]);
    assert_eq!(decode_u64(&b), 0x0102030405060708);
    assert_eq!(decode_u64(&encode_u64(u64::MAX)), u64::MAX);
}

#[test]
fn string_frames_round_trip_in_both_widths() {
    for &is_64 in &[false, true] {
        let payload = b"module-name".to_vec();
        let frame = encode_string_frame(is_64, &payload).unwrap();
        let (back, used) = decode_string_frame(is_64, &frame).unwrap();
        assert_eq!(back, payload);
        assert_eq!(used, frame.len());
    }
}

#[test]
fn empty_string_frame_is_header_only() {
    for &is_64 in &[false, true] {
        let frame = encode_string_frame(is_64, &Vec::new()).unwrap();
        assert_eq!(frame.len(), if is_64 { 8 } else { 4 });
        let (back, used) = decode_string_frame(is_64, &frame).unwrap();
        assert!(back.is_empty());
        assert_eq!(used, frame.len());
    }
}

#[test]
fn thirty_two_bit_daemon_picks_the_32_bit_flavor() {
    assert_eq!(get_arch(&b"arm64-v8a".to_vec(), false), Some(Arch::Armeabi));
    assert_eq!(get_arch(&b"x86_64".to_vec(), false), Some(Arch::X86));
}

#[test]
fn no_modules_scanned_means_no_modules_loaded() {
    assert_eq!(eligible_modules(&Vec::new()), Vec::<usize>::new());
    assert!(load_modules(&Vec::new(), true).is_empty());
}

#[test]
fn string_frame_decoding_rejects_short_buffers() {
    assert!(decode_string_frame(true, &vec![1, 2, 3]).is_none());
    // Header announces 5 bytes, only 2 follow.
    let mut frame = encode_u32(5);
    frame.extend_from_slice(b"ab");
    assert!(decode_string_frame(false, &frame).is_none());
}

#[test]
fn eligible_modules_filters_by_library_and_disable_marker() {
    let sources = vec![
        ModuleSource { name: "a".to_string(), has_library: true, disabled: false, library: vec![1] },
        ModuleSource { name: "b".to_string(), has_library: true, disabled: true, library: vec![2] },
        ModuleSource { name: "c".to_string(), has_library: false, disabled: false, library: vec![] },
        ModuleSource { name: "d".to_string(), has_library: true, disabled: false, library: vec![3] },
    ];
    assert_eq!(eligible_modules(&sources), vec![0, 3]);
}

#[test]
fn load_modules_skips_disabled_entries() {
    // Two modules on disk, one with a disable marker: exactly one entry.
    let sources = vec![
        ModuleSource {
            name: "alpha".to_string(),
            has_library: true,
            disabled: false,
            library: vec![1, 2, 3],
        },
        ModuleSource {
            name: "beta".to_string(),
            has_library: true,
            disabled: true,
            library: vec![4, 5, 6],
        },
    ];
    let modules = load_modules(&sources, true);
    assert_eq!(modules.len(), 1);
    assert_eq!(modules[0].name, "alpha");
    assert!(modules[0].library.sealed);
}

#[test]
fn sealed_library_fd_rejects_mutation() {
    let lib = create_library_fd(&vec![7u8; 64], true).unwrap();
    assert!(lib.sealed);
    // Write, shrink, grow and further sealing are all refused.
    let mut f = lib.mem.as_file();
    assert!(f.write_all(b"x").is_err());
    assert!(lib.mem.as_file().set_len(0).is_err());
    assert!(lib.mem.as_file().set_len(1024).is_err());
    assert!(lib.mem.add_seal(memfd::FileSeal::SealWrite).is_err());
    let seals = lib.mem.seals().unwrap();
    assert!(seals.contains(&memfd::FileSeal::SealWrite));
    assert!(seals.contains(&memfd::FileSeal::SealShrink));
    assert!(seals.contains(&memfd::FileSeal::SealGrow));
    assert!(seals.contains(&memfd::FileSeal::SealSeal));
}

#[test]
fn debug_library_fd_stays_plain() {
    let lib = create_library_fd(&vec![7u8; 64], false).unwrap();
    assert!(!lib.sealed);
    let mut f = lib.mem.as_file();
    assert!(f.write_all(b"x").is_ok());
    assert!(lib.mem.as_file().set_len(16).is_ok());
}

#[test]
fn spawn_verdict_follows_exit_and_status_byte() {
    assert_eq!(spawn_verdict(&WaitOutcome::Exited(0), Some(1)), SpawnVerdict::Keep);
    assert_eq!(spawn_verdict(&WaitOutcome::Exited(0), Some(0)), SpawnVerdict::OneShot);
    assert_eq!(spawn_verdict(&WaitOutcome::Exited(0), Some(7)), SpawnVerdict::Failed);
    assert_eq!(spawn_verdict(&WaitOutcome::Exited(0), None), SpawnVerdict::Failed);
    assert_eq!(spawn_verdict(&WaitOutcome::Exited(1), Some(1)), SpawnVerdict::Failed);
    assert_eq!(spawn_verdict(&WaitOutcome::Abnormal, Some(1)), SpawnVerdict::Failed);
}

#[test]
fn companion_spawned_once_and_reused_while_alive() {
    let mut slot = CompanionSlot::Vacant;
    let (attempted, outcome) =
        companion_request(&mut slot, PollStatus::Quiet, SpawnVerdict::Keep, true);
    assert!(attempted);
    assert_eq!(outcome, CompanionOutcome::HandedOff);
    assert_eq!(slot, CompanionSlot::Live);
    // Further requests while the companion stays quiet never respawn.
    for _ in 0..8 {
        let (attempted, outcome) =
            companion_request(&mut slot, PollStatus::Quiet, SpawnVerdict::Failed, true);
        assert!(!attempted);
        assert_eq!(outcome, CompanionOutcome::HandedOff);
        assert_eq!(slot, CompanionSlot::Live);
    }
}

#[test]
fn dead_companion_respawned_exactly_once_on_next_request() {
    let mut slot = CompanionSlot::Live;
    // Earlier requests: peer alive, no spawn.
    let (attempted, _) = companion_request(&mut slot, PollStatus::Quiet, SpawnVerdict::Keep, true);
    assert!(!attempted);
    // The peer exits; the next request's probe detects it and respawns.
    let (attempted, outcome) =
        companion_request(&mut slot, PollStatus::Hup, SpawnVerdict::Keep, true);
    assert!(attempted);
    assert_eq!(outcome, CompanionOutcome::HandedOff);
    assert_eq!(slot, CompanionSlot::Live);
}

#[test]
fn failed_spawn_reports_unavailable() {
    // A companion binary that always exits non-zero: the client gets the
    // explicit unavailable signal, not a hang or a dropped connection.
    let mut slot = CompanionSlot::Vacant;
    let verdict = spawn_verdict(&WaitOutcome::Exited(3), None);
    let (attempted, outcome) = companion_request(&mut slot, PollStatus::Quiet, verdict, true);
    assert!(attempted);
    assert_eq!(outcome, CompanionOutcome::Unavailable);
    assert_eq!(slot, CompanionSlot::Vacant);
}

#[test]
fn one_shot_companion_is_not_cached() {
    let mut slot = CompanionSlot::Vacant;
    let (_, outcome) =
        companion_request(&mut slot, PollStatus::Quiet, SpawnVerdict::OneShot, true);
    assert_eq!(outcome, CompanionOutcome::Unavailable);
    assert_eq!(slot, CompanionSlot::Vacant);
}

#[test]
fn transfer_failure_keeps_the_slot() {
    let mut slot = CompanionSlot::Live;
    let (_, outcome) = companion_request(&mut slot, PollStatus::Quiet, SpawnVerdict::Keep, false);
    assert_eq!(outcome, CompanionOutcome::Unavailable);
    assert_eq!(slot, CompanionSlot::Live);
}

#[test]
fn load_step_appends_only_produced_descriptors() {
    let mut modules = Vec::new();
    load_step(&mut modules, "alpha".to_string(), Err(()));
    assert!(modules.is_empty());
    let lib = create_library_fd(&vec![1, 2, 3], true).unwrap();
    load_step(&mut modules, "alpha".to_string(), Ok(lib));
    assert_eq!(modules.len(), 1);
    assert_eq!(modules[0].name, "alpha");
    // A later failure leaves the earlier module in place: the enumeration
    // goes on past it.
    load_step(&mut modules, "beta".to_string(), Err(()));
    assert_eq!(modules.len(), 1);
}

#[test]
fn enumeration_step_by_step_keeps_exactly_the_enabled_module() {
    let a = ModuleSource {
        name: "alpha".to_string(),
        has_library: true,
        disabled: false,
        library: vec![1],
    };
    let b = ModuleSource {
        name: "beta".to_string(),
        has_library: true,
        disabled: true,
        library: vec![2],
    };
    let mut out = Vec::new();
    for s in [&a, &b] {
        if module_eligible(s) {
            load_step(&mut out, s.name.clone(), create_library_fd(&s.library, true));
        }
    }
    assert_eq!(out.len(), 1);
    assert_eq!(out[0].name, "alpha");
}

fn test_context() -> DaemonContext {
    let sources = vec![
        ModuleSource {
            name: "alpha".to_string(),
            has_library: true,
            disabled: false,
            library: vec![1, 2, 3],
        },
        ModuleSource {
            name: "gamma".to_string(),
            has_library: true,
            disabled: false,
            library: vec![9, 9],
        },
    ];
    let modules = load_modules(&sources, true);
    assert_eq!(modules.len(), 2);
    DaemonContext::new("libhoudini.so".to_string(), RootImpl::KernelSU, modules)
}

#[test]
fn read_modules_lists_names_in_load_order() {
    let ctx = test_context();
    let mut slot = CompanionSlot::Vacant;
    match handle_daemon_action(&ctx, "/data/adb/modules", Request::ReadModules, &mut slot) {
        Ok(Response::Modules(n, names)) => {
            assert_eq!(n, 2);
            assert_eq!(names, vec!["alpha".to_string(), "gamma".to_string()]);
        }
        _ => panic!("ReadModules must answer the module list"),
    }
    assert_eq!(slot, CompanionSlot::Vacant);
}

#[test]
fn module_indices_are_addressable_below_count_only() {
    let ctx = test_context();
    assert_eq!(*ctx.get_impl(), RootImpl::KernelSU);
    assert_eq!(ctx.module_count(), 2);
    assert!(ctx.module_at(0).is_some());
    assert_eq!(ctx.module_at(1).unwrap().name, "gamma");
    assert!(ctx.module_at(2).is_none());
    assert!(ctx.module_at(usize::MAX).is_none());
}

#[test]
fn get_module_dir_validates_the_index() {
    let ctx = test_context();
    let mut slot = CompanionSlot::Vacant;
    match handle_daemon_action(
        &ctx,
        "/data/adb/modules",
        Request::GetModuleDir { index: 0 },
        &mut slot,
    ) {
        Ok(Response::ModuleDir(p)) => assert_eq!(p, "/data/adb/modules/alpha"),
        _ => panic!("in-range index must answer the module directory"),
    }
    // Index == module count: that connection fails, nothing else changes.
    match handle_daemon_action(
        &ctx,
        "/data/adb/modules",
        Request::GetModuleDir { index: 2 },
        &mut slot,
    ) {
        Err(ConnError::BadIndex) => {}
        _ => panic!("out-of-range index must fail the connection"),
    }
    assert_eq!(slot, CompanionSlot::Vacant);
    // The context still serves later requests.
    match handle_daemon_action(&ctx, "/data/adb/modules", Request::PingHeartbeat, &mut slot) {
        Ok(Response::Empty) => {}
        _ => panic!("the daemon must keep serving other connections"),
    }
}

#[test]
fn companion_socket_request_validates_the_index() {
    let ctx = test_context();
    let mut slot = CompanionSlot::Vacant;
    match handle_daemon_action(
        &ctx,
        "/data/adb/modules",
        Request::RequestCompanionSocket {
            index: 9,
            poll: PollStatus::Quiet,
            spawn: SpawnVerdict::Keep,
            send_ok: true,
        },
        &mut slot,
    ) {
        Err(ConnError::BadIndex) => {}
        _ => panic!("out-of-range index must fail the connection"),
    }
    assert_eq!(slot, CompanionSlot::Vacant);
    match handle_daemon_action(
        &ctx,
        "/data/adb/modules",
        Request::RequestCompanionSocket {
            index: 1,
            poll: PollStatus::Quiet,
            spawn: SpawnVerdict::Keep,
            send_ok: true,
        },
        &mut slot,
    ) {
        Ok(Response::CompanionHandedOff) => {}
        _ => panic!("a kept companion must get the client's descriptor"),
    }
    assert_eq!(slot, CompanionSlot::Live);
}

#[test]
fn dispatcher_answers_native_bridge_and_flags() {
    let ctx = test_context();
    let mut slot = CompanionSlot::Vacant;
    match handle_daemon_action(&ctx, "/data/adb/modules", Request::ReadNativeBridge, &mut slot) {
        Ok(Response::NativeBridge(s)) => assert_eq!(s, "libhoudini.so"),
        _ => panic!("ReadNativeBridge must answer the cached value"),
    }
    match handle_daemon_action(
        &ctx,
        "/data/adb/modules",
        Request::GetProcessFlags { granted_root: true, on_denylist: false },
        &mut slot,
    ) {
        Ok(Response::Flags(f)) => {
            assert_eq!(f, PROCESS_GRANTED_ROOT | PROCESS_ROOT_IS_KSU);
        }
        _ => panic!("GetProcessFlags must answer the flags word"),
    }
}

#[test]
fn wire_names_are_assembled_from_their_parts() {
    assert_eq!(daemon_socket_name(true, "f81fc5ca"), "zygiskd64f81fc5ca");
    assert_eq!(daemon_socket_name(false, "f81fc5ca"), "zygiskd32f81fc5ca");
    assert_eq!(companion_process_name("zygiskd64", "alpha"), "zygiskd64-alpha");
    assert_eq!(module_dir_path("/data/adb/modules", "alpha"), "/data/adb/modules/alpha");
}
