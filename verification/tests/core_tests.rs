use nx::handle::{InvalidHandle, ProcessHandle, ThreadHandle};
use nx::memory::{acquire_state, heap_size, release_unlocks, LOCK_STATE_ACQUIRED, LOCK_STATE_RECURSIVE};
use nx::result::{svc, NxError, NxResult, NxResultCode};
use nx::svc::info::{alias_region, aslr_region, heap_region, stack_region, InfoType};
use nx::svc::{BreakReason, ThreadActivity, YieldType};

#[test]
fn invalid_handle_is_zero() {
    assert_eq!(InvalidHandle.into_inner(), 0);
}

#[test]
fn thread_and_process_handles() {
    assert_eq!(ThreadHandle::new(0x1234).into_inner(), 0x1234);
    assert_eq!(ThreadHandle::this_thread().into_inner(), 0xFFFF8000);
    assert_eq!(ProcessHandle::new(7).into_inner(), 7);
    assert_eq!(ProcessHandle::this_process().into_inner(), 0xFFFF8001);
}

#[test]
fn error_from_parts_packs_module_and_description() {
    let e = NxError::from_parts(1, 117).unwrap();
    assert_eq!(e.into_raw(), 0xEA01);
    assert_eq!(e.module(), 1);
    assert_eq!(e.description(), 117);
}

#[test]
fn error_from_parts_cuts_fields() {
    // module bits above the 9th are dropped, description bits above the 13th too
    let e = NxError::from_parts(0x201, 0x2005).unwrap();
    assert_eq!(e.module(), 1);
    assert_eq!(e.description(), 5);
    assert!(NxError::from_parts(0x200, 5).is_none());
    assert!(NxError::from_parts(0, 5).is_none());
}

#[test]
fn error_new_raw_clears_reserved_bits() {
    let e = NxError::new_raw(0xFFC0_EA01).unwrap();
    assert_eq!(e.into_raw(), 0xEA01);
    assert!(NxError::new_raw(0x0000_0200).is_none());
    assert_eq!(NxError::new_raw_unchecked(0x8000_0003).into_raw(), 3);
}

#[test]
fn error_round_trip() {
    let e = NxError::new_raw(0x0012_3456).unwrap();
    let back = NxError::from_parts(e.module(), e.description()).unwrap();
    assert!(back == e);
}

#[test]
fn svc_error_codes() {
    assert_eq!(svc::error(svc::TIMED_OUT).into_raw(), 0xEA01);
    assert_eq!(svc::error(svc::NOT_FOUND).into_raw(), 0xF201);
    assert_eq!(svc::error(svc::PROCESS_TERMINATED).description(), 520);
    assert!(svc::is(svc::error(svc::CANCELLED), svc::CANCELLED));
    assert!(!svc::is(svc::error(svc::CANCELLED), svc::TIMED_OUT));
}

#[test]
fn result_code_then() {
    let ok: NxResult<u32> = NxResultCode::Success.then(|| 5u32);
    assert_eq!(ok.ok(), Some(5));
    let e = svc::error(svc::BUSY);
    let err: NxResult<u32> = NxResultCode::Error(e).then(|| 5u32);
    assert!(err.err() == Some(e));
    let ok2: NxResult<&str> = NxResultCode::Success.then_ok("x");
    assert_eq!(ok2.ok(), Some("x"));
    let err2: NxResult<&str> = NxResultCode::Error(e).then_ok("x");
    assert!(err2.err() == Some(e));
}

#[test]
fn break_reason_notification() {
    let r = BreakReason::new(BreakReason::ASSERT);
    assert!(!r.is_notification());
    let n = r.as_notification();
    assert!(n.is_notification());
    assert_eq!(n.into_inner(), 0x8000_0001);
    assert_eq!(n.as_notification().into_inner(), 0x8000_0001);
}

#[test]
fn yield_and_activity_values() {
    assert_eq!(YieldType::NoCoreMigration.as_sleep_value(), 0);
    assert_eq!(YieldType::WithCoreMigration.as_sleep_value(), u64::MAX);
    assert_eq!(YieldType::AnyThread.as_sleep_value(), u64::MAX - 1);
    assert!(YieldType::default() == YieldType::NoCoreMigration);
    assert_eq!(ThreadActivity::Runnable.as_raw(), 0);
    assert_eq!(ThreadActivity::Paused.as_raw(), 1);
}

#[test]
fn info_type_ids() {
    assert_eq!(InfoType::AliasRegionAddr.id(), 2);
    assert_eq!(InfoType::TotalMemorySize.id(), 6);
    assert_eq!(InfoType::StackRegionSize.id(), 15);
    assert_eq!(InfoType::AliasRegionExtraSize.id(), 18);
}

#[test]
fn alias_region_subtracts_extra_size() {
    let r = alias_region(Ok(0x1000), Ok(0x5000), Ok(0x2000)).ok().unwrap();
    assert_eq!((r.start, r.end), (0x1000, 0x4000));
    let r = alias_region(Ok(0x1000), Ok(0x5000), Err(svc::error(svc::INVALID_ENUM_VALUE))).ok().unwrap();
    assert_eq!((r.start, r.end), (0x1000, 0x6000));
}

#[test]
fn regions_report_first_error() {
    let e1 = svc::error(svc::INVALID_HANDLE);
    let e2 = svc::error(svc::INVALID_ARGUMENT);
    assert!(alias_region(Err(e1), Err(e2), Ok(0)).err() == Some(e1));
    assert!(heap_region(Ok(0x1000), Err(e2)).err() == Some(e2));
    assert!(aslr_region(Err(e1), Ok(3)).err() == Some(e1));
    let s = stack_region(Ok(0x8000_0000), Ok(0x1000_0000)).ok().unwrap();
    assert_eq!((s.start, s.end), (0x8000_0000, 0x9000_0000));
    let h = heap_region(Ok(0x2000_0000), Ok(0x100)).ok().unwrap();
    assert_eq!((h.start, h.end), (0x2000_0000, 0x2000_0100));
}

#[test]
fn heap_size_rounds_down_to_granularity() {
    assert_eq!(heap_size(0x1000_0000, 0x0123_4567), 0x0EC0_0000);
    assert_eq!(heap_size(0x0040_0000, 0x0020_0000), 0x0020_0000);
}

#[test]
fn heap_size_falls_back_to_one_granule() {
    assert_eq!(heap_size(0x100, 0x200), 0x20_0000);
    assert_eq!(heap_size(0x300, 0x200), 0x20_0000);
    assert_eq!(heap_size(5, 5), 0x20_0000);
}

#[test]
fn critical_section_states() {
    assert_eq!(acquire_state(true), LOCK_STATE_RECURSIVE);
    assert_eq!(acquire_state(false), LOCK_STATE_ACQUIRED);
    assert!(release_unlocks(acquire_state(false)));
    assert!(!release_unlocks(acquire_state(true)));
}
