use nx::mutex::is_owned_by;
use nx::nnfs::{FileHandle, OpenMode, WriteOptions};
use nx::random::thread_seed;
use nx::result::NxResultCode;
use nx::rtld::{is_dynamic_readable, DynamicEntry, DT_NULL, DT_REL, DT_RELAENT, DT_RELASZ};
use nx::svc::wait_timeout_value;
use nx::thread::group_stack_layout;
use nx::thread::ThreadCreationError;

#[test]
fn raw_result_codes() {
    assert!(matches!(NxResultCode::from_raw(0), NxResultCode::Success));
    assert!(matches!(NxResultCode::from_raw(0x200), NxResultCode::Success));
    match NxResultCode::from_raw(0xFFC0_EA01) {
        NxResultCode::Error(e) => assert_eq!(e.into_raw(), 0xEA01),
        NxResultCode::Success => panic!("expected an error"),
    }
}

#[test]
fn mutex_ownership() {
    assert!(is_owned_by(0x1234, 0x1234));
    assert!(is_owned_by(0x4000_1234, 0x1234));
    assert!(!is_owned_by(0x1235, 0x1234));
    assert!(!is_owned_by(0, 0x1234));
}

#[test]
fn wait_timeouts() {
    assert_eq!(wait_timeout_value(None), u64::MAX);
    assert_eq!(wait_timeout_value(Some(1_000)), 1_000);
}

#[test]
fn group_stacks() {
    assert_eq!(group_stack_layout(0x10000, 0x4000, 0x40), Ok((0x5000, 0x4FC0)));
    assert_eq!(group_stack_layout(0x10000, 0x4001, 0x40), Err(ThreadCreationError::InvalidStackSize));
    assert_eq!(group_stack_layout(0x10008, 0x4000, 0x40), Err(ThreadCreationError::InvalidStackAlignment));
    assert_eq!(group_stack_layout(0x10000, 0x4000, 0x1000), Ok((0x5000, 0x4000)));
}

#[test]
fn dynamic_table_readability() {
    let ok = [DynamicEntry { tag: DT_RELASZ, val: 48 }, DynamicEntry { tag: DT_NULL, val: 0 }];
    assert!(is_dynamic_readable(0x1000, &ok));
    let zero_size = [DynamicEntry { tag: DT_RELAENT, val: 0 }];
    assert!(!is_dynamic_readable(0x1000, &zero_size));
    let overflow = [DynamicEntry { tag: DT_REL, val: u64::MAX }];
    assert!(!is_dynamic_readable(0x1000, &overflow));
    let after_null = [DynamicEntry { tag: DT_NULL, val: 0 }, DynamicEntry { tag: DT_RELAENT, val: 0 }];
    assert!(is_dynamic_readable(0x1000, &after_null));
}

#[test]
fn file_system_values() {
    assert_eq!(FileHandle::new(0xABCD).into_inner(), 0xABCD);
    assert_eq!(WriteOptions::new(WriteOptions::FLUSH).bits(), 1);
    assert_eq!(OpenMode::new(OpenMode::READ_WRITE).bits(), OpenMode::READ | OpenMode::WRITE);
    assert_eq!(OpenMode::WRITE_APPEND, OpenMode::WRITE | OpenMode::APPEND);
}

#[test]
fn thread_seeds_differ_between_threads() {
    let entropy = [1, 2, 3, 4];
    assert_ne!(thread_seed(entropy, 1), thread_seed(entropy, 2));
    assert_ne!(thread_seed(entropy, 1), thread_seed(entropy, 0));
    assert_eq!(&thread_seed(entropy, 0)[0..8], &[1, 0, 0, 0, 0, 0, 0, 0]);
}
