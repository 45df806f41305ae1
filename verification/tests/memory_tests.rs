use nx::result::svc;
use nx::thread::{current_thread_handle, read_ipc_buffer, wait_timeout_outcome, write_ipc_buffer, KernelFields, ThreadLocalRegion, WaitTimeoutError, USER_REGION_OFFSET, VARIABLE_OFFSET};
use nx::virtmem::{candidate_start, map_request, AllocationType, VirtualMemory, MAP_GUARD_SIZE};

fn kernel() -> KernelFields {
    KernelFields { disable_counter: 1, interrupt_flag: 2, cache_maintenance_flag: 3, thread_cpu_time: 4, current_thread_handle: 5 }
}

fn vm() -> VirtualMemory {
    VirtualMemory::new(Ok(0x1_0000_0000..0x1_1000_0000), Ok(0x8000_0000..0x9000_0000), Ok(0x2000_0000..0x3000_0000), Ok(0x4000_0000..0x4010_0000))
        .ok()
        .unwrap()
}

#[test]
fn virtual_memory_new_reports_first_error() {
    let e1 = svc::error(svc::INVALID_HANDLE);
    let e2 = svc::error(svc::INVALID_ADDRESS);
    let r = VirtualMemory::new(Ok(0..1), Err(e1), Err(e2), Ok(0..1));
    assert!(r.err() == Some(e1));
    let r = VirtualMemory::new(Ok(0..1), Ok(0..1), Ok(0..1), Err(e2));
    assert!(r.err() == Some(e2));
    let m = vm();
    let s = m.region_of(AllocationType::Stack);
    assert_eq!((s.start, s.end), (0x4000_0000, 0x4010_0000));
}

#[test]
fn layout_keeps_page_offset() {
    let m = vm();
    let l = m.layout(AllocationType::Stack, 0x1234_5130, 0x2000, MAP_GUARD_SIZE);
    assert_eq!(l.user_page_offset, 0x130);
    assert_eq!(l.user_start, 0x1234_5000);
    assert_eq!(l.mapped_size, 0x3000);
    assert_eq!(l.guard_size, 0x4000);
    assert_eq!(l.region_start, 0x4000_0000);
    assert_eq!(l.max_page_offset, 0x100);
    let l2 = m.layout(AllocationType::Alias, 0x5000, 0x1000, 1);
    assert_eq!((l2.user_page_offset, l2.mapped_size, l2.guard_size), (0, 0x1000, 0x1000));
}

#[test]
fn candidates_are_pages_of_the_region() {
    let m = vm();
    let l = m.layout(AllocationType::Stack, 0x1234_5130, 0x2000, MAP_GUARD_SIZE);
    assert_eq!(candidate_start(&l, 0), 0x4000_0000);
    assert_eq!(candidate_start(&l, 5), 0x4000_5000);
    assert_eq!(candidate_start(&l, 0x101), 0x4000_0000);
    assert_eq!(candidate_start(&l, 0x100), 0x4010_0000);
}

#[test]
fn reserve_record_and_release() {
    let mut m = vm();
    let l = m.layout(AllocationType::Stack, 0x1234_5130, 0x2000, MAP_GUARD_SIZE);
    let start = candidate_start(&l, 5);
    assert!(m.is_free(&l, start));
    assert_eq!(map_request(&l, start), (0x1234_5000, 0x4000_5000, 0x3000));
    let h = m.reserve_and_map(l, start, Ok(())).ok().unwrap();
    assert_eq!(h.start_of_region(), 0x4000_5000);
    assert_eq!(h.as_ptr(), 0x4000_5130);
    assert_eq!(h.region_size(), 0x7000);
    assert_eq!(h.size(), 0x2000);
    assert_eq!(h.unmap_request(), (0x1234_5000, 0x4000_5000, 0x7000));
    // a candidate starting inside the new reservation is refused
    assert!(!m.is_free(&l, 0x4000_6000));
    // one ending inside it too
    assert!(!m.is_free(&l, 0x4000_0000));
    // one whose guard pages would reach it too
    assert!(!m.is_free(&l, 0x4000_1000));
    // one covering it entirely too
    let big = m.layout(AllocationType::Stack, 0x1000, 0x10000, 0);
    assert!(!m.is_free(&big, 0x4000_0000));
    // one clear of it is accepted
    assert!(m.is_free(&l, 0x4000_C000));
    assert!(m.is_free(&l, 0x4001_0000));
    let e = svc::error(svc::INVALID_CURRENT_MEMORY);
    let h2 = m.reserve_and_map(l, 0x4001_0000, Ok(())).ok().unwrap();
    assert!(m.release_allocation(h, Ok(())).is_ok());
    assert!(m.is_free(&l, 0x4000_6000));
    // a failed unmapping keeps the record
    let r = m.release_allocation(h2, Err(e));
    assert!(r.err() == Some(e));
    assert!(!m.is_free(&l, 0x4001_0000));
}

#[test]
fn overlapping_stack_reservations_are_refused() {
    let mut m = vm();
    let l = m.layout(AllocationType::Stack, 0x7000_0000, 0x1000, MAP_GUARD_SIZE);
    assert_eq!(l.mapped_size + l.guard_size, 0x5000);
    let h = m.reserve_and_map(l, 0x4002_0000, Ok(())).ok().unwrap();
    assert_eq!(h.region_size(), 0x5000);
    assert!(!m.is_free(&l, 0x4002_1000));
    assert!(m.is_free(&l, 0x4002_5000));
}

#[test]
fn candidates_must_fit_their_region() {
    let m = vm();
    let l = m.layout(AllocationType::Stack, 0x1234_5130, 0x2000, MAP_GUARD_SIZE);
    // the region ends at 0x4010_0000; the reservation is 0x7000 long
    assert!(m.is_free(&l, 0x400F_9000));
    assert!(!m.is_free(&l, 0x400F_A000));
    assert!(!m.is_free(&l, candidate_start(&l, 0x100)));
    assert!(!m.is_free(&l, 0x3FFF_F000));
}

#[test]
fn failed_mapping_records_nothing() {
    let mut m = vm();
    let l = m.layout(AllocationType::Aslr, 0x9000, 0x100, 0);
    let e = svc::error(svc::INVALID_MEMORY_REGION);
    let r = m.reserve_and_map(l, 0x8000_0000, Err(e));
    assert!(r.err() == Some(e));
    assert!(m.is_free(&l, 0x8000_0000));
}

#[test]
fn thread_variables_and_ipc_buffer() {
    let mut tls = ThreadLocalRegion::new([0xAA; 0x100], kernel(), [0xBB; 0x6C], [0xCC; 0x80]);
    tls.init_thread_variables(0xDEAD_BEEF);
    assert_eq!(current_thread_handle(&tls), 0xDEAD_BEEF);
    assert!(tls.slots().iter().all(|s| *s == 0));
    assert_eq!(tls.slots().len(), 14);
    let (reserved, user) = tls.user_areas();
    // the reserved area is left alone
    assert!(reserved.iter().all(|b| *b == 0xBB));
    // the slots fill the first 0x70 bytes of the user area
    assert!(user[0..0x70].iter().all(|b| *b == 0));
    // the variables take the last 16 bytes, the handle 8 bytes into them
    assert_eq!(&user[0x70..0x78], &[0xCC; 8]);
    assert_eq!(&user[0x78..0x7C], &[0xEF, 0xBE, 0xAD, 0xDE]);
    assert_eq!(&user[0x7C..0x80], &[0xCC; 4]);
    assert_eq!(USER_REGION_OFFSET + VARIABLE_OFFSET, 0x1F0);
    write_ipc_buffer(&mut tls, &[1, 2, 3]);
    assert_eq!(read_ipc_buffer(&tls, 5), vec![1, 2, 3, 0xAA, 0xAA]);
    assert_eq!(current_thread_handle(&tls), 0xDEAD_BEEF);
    assert_eq!(tls.raw_ipc_buffer()[3], 0xAA);
    tls.raw_ipc_buffer_mut()[3] = 9;
    assert_eq!(tls.raw_ipc_buffer()[3], 9);
    // the longest value the buffer takes is one byte shorter than it
    write_ipc_buffer(&mut tls, &[7u8; 0xFF]);
    let back = read_ipc_buffer(&tls, 0x100);
    assert!(back[0..0xFF].iter().all(|b| *b == 7));
    assert_eq!(back[0xFF], 0xAA);
}

#[test]
fn slots_read_little_endian_words() {
    let reserved = [0x55u8; 0x6C];
    let mut user = [0u8; 0x80];
    user[8] = 0x01;
    user[9] = 0x02;
    user[0x6C] = 0x77;
    user[0x70] = 0x99;
    let tls = ThreadLocalRegion::new([0; 0x100], kernel(), reserved, user);
    let slots = tls.slots();
    assert_eq!(slots[0], 0);
    assert_eq!(slots[1], 0x0201);
    assert_eq!(slots[13], 0x77 << 32);
}

#[test]
fn wait_timeout_outcomes() {
    assert!(matches!(wait_timeout_outcome(Ok(0), 7u8), Ok(7)));
    assert!(matches!(wait_timeout_outcome(Err(svc::error(svc::TIMED_OUT)), 7u8), Err(WaitTimeoutError::TimedOut(7))));
    match wait_timeout_outcome(Err(svc::error(svc::CANCELLED)), 7u8) {
        Err(WaitTimeoutError::Other(e)) => assert_eq!(e.into_raw(), 0xEC01),
        _ => panic!("expected another error"),
    }
}

#[test]
fn slots_can_be_set_one_by_one() {
    let mut tls = ThreadLocalRegion::new([0; 0x100], kernel(), [0x55; 0x6C], [0; 0x80]);
    tls.init_thread_variables(0x1234);
    tls.set_slot(3, 0x0102_0304_0506_0708);
    tls.set_slot(13, u64::MAX);
    let slots = tls.slots();
    assert_eq!(slots[3], 0x0102_0304_0506_0708);
    assert_eq!(slots[13], u64::MAX);
    assert!(slots.iter().enumerate().all(|(k, s)| k == 3 || k == 13 || *s == 0));
    assert_eq!(current_thread_handle(&tls), 0x1234);
    let (reserved, user) = tls.user_areas();
    assert!(reserved.iter().all(|b| *b == 0x55));
    assert_eq!(&user[24..32], &[8, 7, 6, 5, 4, 3, 2, 1]);
}

#[test]
fn empty_placement_at_a_reservation_start_is_refused() {
    let mut m = vm();
    let l = m.layout(AllocationType::Stack, 0x7000_0000, 0x1000, MAP_GUARD_SIZE);
    let h = m.reserve_and_map(l, 0x4002_0000, Ok(())).ok().unwrap();
    let empty = m.layout(AllocationType::Stack, 0x7000_0000, 0, 0);
    assert_eq!(empty.mapped_size + empty.guard_size, 0);
    assert!(!m.is_free(&empty, 0x4002_0000));
    assert!(m.is_free(&empty, 0x4002_5000));
    assert!(m.release_allocation(h, Ok(())).is_ok());
    assert!(m.is_free(&empty, 0x4002_0000));
}

#[test]
fn release_removes_only_the_handles_own_record() {
    let mut m = vm();
    let mut other = vm();
    let l = m.layout(AllocationType::Stack, 0x7000_0000, 0x1000, MAP_GUARD_SIZE);
    let l2 = other.layout(AllocationType::Stack, 0x7000_0000, 0x2000, 0);
    let _h = m.reserve_and_map(l, 0x4002_0000, Ok(())).ok().unwrap();
    let foreign = other.reserve_and_map(l2, 0x4002_0000, Ok(())).ok().unwrap();
    // a handle of another record with the same start leaves this record alone
    assert!(m.release_allocation(foreign, Ok(())).is_ok());
    assert!(!m.is_free(&l, 0x4002_1000));
}
