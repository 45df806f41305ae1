use nx::random::{create_chacha_with_thread_handle, fill, get_i8, get_u16, get_u64, get_u8, thread_seed};
use nx::result::svc;
use nx::rtld::{apply_word_patch, parse_dynamic, RelEntry, RelaEntry, r_type, rel_entry_address, rel_patch, rela_entry_address, rela_patch, DynamicEntry, WordPatch, DT_NULL, DT_REL, DT_RELA, DT_RELACOUNT, DT_RELASZ, DT_RELENT, DT_RELSZ};
use nx::services::types::{CmifInHeader, CmifOutHeader, Header0Tag, Header1Tag, SpecialTag, CMIF_IN_SIGNATURE, CMIF_OUT_SIGNATURE};
use nx::services::{
    detach_client_request, get_service_handle_request, register_client_request, register_service_request, response_outcome,
    unregister_service_request, ConnectStep, ServiceManager, ServiceName,
};

#[test]
fn header0_packing() {
    assert_eq!(Header0Tag::new(0x1234, 1, 2, 3, 4).bits(), 0x4321_1234);
    assert_eq!(Header0Tag::new(0x1_0004, 0x11, 0, 0, 0x1F).bits(), 0xF001_0004);
}

#[test]
fn header1_packing() {
    assert_eq!(Header1Tag::new(8, 0, 0, false).bits(), 8);
    assert_eq!(Header1Tag::new(0x3FF, 0xF, 0x7FF, true).bits(), 0xFFF0_3FFF);
    assert_eq!(Header1Tag::new(0x400, 0x10, 0x800, false).bits(), 0);
}

#[test]
fn special_tag_packing() {
    assert_eq!(SpecialTag::new(true, 1, 2).bits(), 0x43);
    assert_eq!(SpecialTag::new(false, 0x1F, 0x1F).bits(), 0x1FE);
}

#[test]
fn cmif_headers() {
    let i = CmifInHeader::new(17);
    assert_eq!(i.signature, u32::from_le_bytes(*b"SFCI"));
    assert_eq!(CMIF_IN_SIGNATURE, u32::from_le_bytes(*b"SFCI"));
    assert_eq!((i.version, i.reserved, i.method_id, i.token), (1, 0, 17, 0));
    let o = CmifOutHeader::new(0xF201, 3);
    assert_eq!(o.signature, u32::from_le_bytes(*b"SFCO"));
    assert_eq!(CMIF_OUT_SIGNATURE, u32::from_le_bytes(*b"SFCO"));
    assert_eq!(o.result(), 0xF201);
    assert_eq!((o.version, o.interface_id), (0, 3));
}

#[test]
fn service_names_are_padded() {
    assert_eq!(ServiceName::from_bytes(b"hid").as_bytes(), *b"hid\0\0\0\0\0");
    assert_eq!(ServiceName::from_bytes(b"").as_bytes(), [0u8; 8]);
    assert_eq!(ServiceName::from_bytes(b"abcdefgh").as_bytes(), *b"abcdefgh");
}

#[test]
fn service_manager_connection_steps() {
    match ServiceManager::new(Ok(0x25)) {
        ConnectStep::Connected(sm) => assert_eq!(sm.handle(), 0x25),
        _ => panic!("expected a session"),
    }
    assert!(matches!(ServiceManager::new(Err(svc::error(svc::NOT_FOUND))), ConnectStep::Retry));
    let e = svc::error(svc::OUT_OF_SESSIONS);
    assert!(matches!(ServiceManager::new(Err(e)), ConnectStep::Failed(x) if x == e));
}

#[test]
fn responses() {
    assert_eq!(response_outcome(0, 5u32), Ok(5));
    assert_eq!(response_outcome(0xf201, 5u32), Err(0xf201));
}

#[test]
fn dynamic_table_parsing() {
    let base = 0x8000_0000u64;
    let entries = [
        DynamicEntry { tag: DT_RELA, val: 0x100 },
        DynamicEntry { tag: DT_RELASZ, val: 24 * 3 },
        DynamicEntry { tag: DT_REL, val: 0x400 },
        DynamicEntry { tag: DT_RELSZ, val: 16 * 5 },
        DynamicEntry { tag: DT_RELENT, val: 16 },
        DynamicEntry { tag: 1234, val: 9 },
        DynamicEntry { tag: DT_NULL, val: 0 },
        DynamicEntry { tag: DT_RELACOUNT, val: 99 },
    ];
    let t = parse_dynamic(base, &entries);
    assert_eq!(t.rela, 0x8000_0100);
    assert_eq!(t.rel, 0x8000_0400);
    assert_eq!(t.rela_entry_count, 3);
    assert_eq!(t.rel_entry_count, 5);
    assert_eq!(t.rela_entry_size, 24);
    assert_eq!(rel_entry_address(&t, 2), 0x8000_0420);
    assert_eq!(rela_entry_address(&t, 2), 0x8000_0130);
}

#[test]
fn dynamic_table_explicit_count_wins() {
    let entries = [DynamicEntry { tag: DT_RELASZ, val: 48 }, DynamicEntry { tag: DT_RELACOUNT, val: 7 }];
    let t = parse_dynamic(0, &entries);
    assert_eq!(t.rela_entry_count, 7);
    assert_eq!(t.rel_entry_count, 0);
}

#[test]
fn relocation_patches() {
    assert_eq!(r_type(0x0000_0005_0000_0403), 1027);
    assert_eq!(rel_patch(0x1000, 0x20, 0x403), Some((0x1020, WordPatch::Add(0x1000))));
    assert_eq!(rel_patch(0x1000, 0x20, 0x401), None);
    assert_eq!(rela_patch(0x1000, 0x20, 0x403, 0x10), Some((0x1020, WordPatch::Replace(0x1010))));
    assert_eq!(rela_patch(0x1000, 0x20, 0x403, -0x2000), Some((0x1020, WordPatch::Replace(u64::MAX - 0xFFF))));
    assert_eq!(rela_patch(0x1000, 0x20, 0x1_0000_0402, 0x10), None);
}

#[test]
fn relocated_words() {
    assert_eq!(apply_word_patch(0x40, WordPatch::Add(0x1000)), 0x1040);
    assert_eq!(apply_word_patch(0xDEAD, WordPatch::Replace(0x1010)), 0x1010);
    let (_, p) = rela_patch(0x1000, 0x20, 0x403, 0x10).unwrap();
    assert_eq!(apply_word_patch(0x1234_5678, p), 0x1010);
    assert_eq!(apply_word_patch(0, p), 0x1010);
}

#[test]
fn thread_seed_mixes_handle() {
    let entropy = [0u64, 0xFFFF_FFFF_FFFF_FFFF, 0x0102_0304_0506_0708, 0];
    let s = thread_seed(entropy, 0x1122_3344);
    assert_eq!(&s[0..8], &[0x44, 0x33, 0x22, 0x11, 0x44, 0x33, 0x22, 0x11]);
    assert_eq!(&s[8..16], &[0xBB, 0xCC, 0xDD, 0xEE, 0xBB, 0xCC, 0xDD, 0xEE]);
    assert_eq!(&s[16..24], &[0x4C, 0x34, 0x24, 0x14, 0x40, 0x30, 0x20, 0x10]);
    assert_eq!(thread_seed(entropy, 0)[16..24], [8, 7, 6, 5, 4, 3, 2, 1]);
}

#[test]
fn generator_is_chacha20_keystream() {
    // ChaCha20 with an all-zero key and nonce starts 76 b8 e0 ad a0 f1 3d 90 40
    let mut rng = create_chacha_with_thread_handle(0, [0; 4]);
    assert_eq!(get_u64(&mut rng), 0x903d_f1a0_ade0_b876);
    assert_eq!(get_u8(&mut rng), 0x40);
}

fn manager() -> ServiceManager {
    match ServiceManager::new(Ok(0x33)) {
        ConnectStep::Connected(sm) => sm,
        _ => panic!("expected a session"),
    }
}

const SFCI: [u8; 4] = [0x53, 0x46, 0x43, 0x49];

#[test]
fn service_manager_requests() {
    let hid = ServiceName::from_bytes(b"hid");
    let mut expected = vec![4, 0, 0, 0, 10, 0, 0, 0, 0, 0, 0, 0, 0, 0, 0, 0];
    expected.extend_from_slice(&SFCI);
    expected.extend_from_slice(&[1, 0, 0, 0, 1, 0, 0, 0, 0, 0, 0, 0]);
    expected.extend_from_slice(b"hid\0\0\0\0\0");
    expected.extend_from_slice(&[0; 8]);
    assert_eq!(get_service_handle_request(&hid), expected);

    let mut expected = vec![4, 0, 0, 0, 0x0A, 0, 0, 0x80, 1, 0, 0, 0];
    expected.extend_from_slice(&[0; 12]);
    expected.extend_from_slice(&SFCI);
    expected.extend_from_slice(&[1, 0, 0, 0, 0, 0, 0, 0, 0, 0, 0, 0]);
    expected.extend_from_slice(&[0; 12]);
    assert_eq!(register_client_request(), expected);
    let mut detach = expected.clone();
    detach[32] = 4;
    assert_eq!(detach_client_request(), detach);

    let log = ServiceName::from_bytes(b"log");
    let mut expected = vec![4, 0, 0, 0, 12, 0, 0, 0, 0, 0, 0, 0, 0, 0, 0, 0];
    expected.extend_from_slice(&SFCI);
    expected.extend_from_slice(&[1, 0, 0, 0, 2, 0, 0, 0, 0, 0, 0, 0]);
    expected.extend_from_slice(b"log\0\0\0\0\0");
    expected.extend_from_slice(&[1, 0, 0, 0, 5, 0, 0, 0]);
    expected.extend_from_slice(&[0; 8]);
    assert_eq!(register_service_request(&log, true, 5), expected);

    let mut expected = get_service_handle_request(&log);
    expected[24] = 3;
    assert_eq!(unregister_service_request(&log), expected);
}

#[test]
fn service_manager_responses() {
    let sm = manager();
    let mut response = vec![0u8; 0x30];
    response[12..16].copy_from_slice(&0x1234u32.to_le_bytes());
    assert_eq!(sm.get_service_handle(&response), Ok(0x1234));
    assert_eq!(sm.register_service(&response), Ok(0x1234));
    assert_eq!(sm.register_client(&response), Ok(()));
    response[24..28].copy_from_slice(&0xE415u32.to_le_bytes());
    assert_eq!(sm.get_service_handle(&response), Err(0xE415));
    assert_eq!(sm.register_service(&response), Err(0xE415));
    assert_eq!(sm.register_client(&response), Err(0xE415));
    assert_eq!(sm.unregister_service(&response), Err(0xE415));
    assert_eq!(sm.detach_client(&response), Err(0xE415));
}

#[test]
fn generator_reads_consecutive_keystream_bytes() {
    let entropy = [1, 2, 3, 4];
    let mut a = create_chacha_with_thread_handle(7, entropy);
    let mut b = create_chacha_with_thread_handle(7, entropy);
    let mut bytes = [0x5Au8; 11];
    fill(&mut a, &mut bytes);
    let x = get_u64(&mut b);
    let y = get_u16(&mut b);
    let z = get_i8(&mut b);
    assert_eq!(&bytes[0..8], &x.to_le_bytes());
    assert_eq!(&bytes[8..10], &y.to_le_bytes());
    assert_eq!(bytes[10] as i8, z);
    // another thread's generator reads another keystream
    let mut c = create_chacha_with_thread_handle(8, entropy);
    assert_ne!(get_u64(&mut c), x);
}

#[test]
fn relocation_patches_follow_the_tables() {
    let rel = [RelEntry { r_offset: 0x10, r_info: 0x403 }, RelEntry { r_offset: 0x18, r_info: 0x401 }];
    let rela = [
        RelaEntry { r_offset: 0x20, r_info: 0x401, r_addend: 4 },
        RelaEntry { r_offset: 0x28, r_info: 0x403, r_addend: 0x30 },
        RelaEntry { r_offset: 0x30, r_info: 0x7_0000_0403, r_addend: -0x10 },
    ];
    assert_eq!(
        nx::rtld::relocation_patches(0x1000, &rel, &rela),
        vec![(0x1010, WordPatch::Add(0x1000)), (0x1028, WordPatch::Replace(0x1030)), (0x1030, WordPatch::Replace(0xFF0))]
    );
    assert_eq!(nx::rtld::relocation_patches(0x1000, &[], &[]), vec![]);
}
