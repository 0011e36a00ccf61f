use procmem::allocator::allocation_result;
use procmem::module::{ModuleInfo, ProcessModule};
use procmem::pointer::{offset_add, pointer_from_bytes, pointer_width, ChainStatus, PointerChain};
use procmem::process::Process;

#[test]
fn open_rejects_null_handle() {
    assert!(Process::from_raw_handle(0).is_none());
    assert!(Process::from_raw_handle(42).is_some());
}

#[test]
fn bitness_is_memoized_after_first_answer() {
    let mut p = Process::from_raw_handle(42).unwrap();
    assert_eq!(p.is_64_bit_cached(), None);
    assert_eq!(p.resolve_bitness(Some(true)), Some(true));
    // Later queries are ignored: the first answer is final.
    assert_eq!(p.resolve_bitness(Some(false)), Some(true));
    assert_eq!(p.resolve_bitness(None), Some(true));
    assert_eq!(p.is_64_bit_cached(), Some(true));
}

#[test]
fn failed_bitness_query_is_retried() {
    let mut p = Process::from_raw_handle(42).unwrap();
    assert_eq!(p.resolve_bitness(None), None);
    assert_eq!(p.is_64_bit_cached(), None);
    assert_eq!(p.resolve_bitness(Some(false)), Some(false));
    assert_eq!(p.resolve_bitness(Some(true)), Some(false));
}

#[test]
fn handle_released_exactly_once() {
    let mut p = Process::from_raw_handle(42).unwrap();
    assert_eq!(p.release(), Some(42));
    assert_eq!(p.release(), None);
    assert_eq!(p.release(), None);
}

#[test]
fn process_name_cached_on_first_successful_decode() {
    let mut p = Process::from_raw_handle(42).unwrap();
    // A failed query decodes nothing and caches nothing.
    assert_eq!(p.get_name(None), None);
    assert!(p.cached_name().is_none());
    let raw: Vec<u16> = vec![0x41, 0x42, 0, 0, 0];
    assert_eq!(p.get_name(Some(raw)), Some("AB".to_string()));
    // The cache now answers by itself; later queries are ignored.
    assert_eq!(p.get_name(None), Some("AB".to_string()));
    assert_eq!(p.get_name(Some(vec![0x58, 0])), Some("AB".to_string()));
    assert_eq!(p.cached_name().as_deref(), Some("AB"));
}

#[test]
fn failed_name_decode_is_not_cached() {
    let mut p = Process::from_raw_handle(42).unwrap();
    assert_eq!(p.get_name(Some(vec![0xD800, 0x41])), None);
    assert!(p.cached_name().is_none());
    assert_eq!(p.get_name(Some(vec![0x41, 0])), Some("A".to_string()));
}

#[test]
fn pointer_width_follows_bitness() {
    assert_eq!(pointer_width(true), 8);
    assert_eq!(pointer_width(false), 4);
}

#[test]
fn pointer_widening_by_bitness() {
    let four = [0xEF, 0xBE, 0xAD, 0xDE];
    let eight = [1, 0, 0, 0, 0, 0, 0, 0x80];
    // Unresolved bitness propagates: no default width is assumed.
    assert_eq!(pointer_from_bytes(None, &four), None);
    // A 4-byte pointer widens without sign.
    assert_eq!(pointer_from_bytes(Some(false), &four), Some(0xDEAD_BEEF));
    // An 8-byte pointer is reinterpreted, sign included.
    assert_eq!(pointer_from_bytes(Some(true), &eight), Some(i64::MIN + 1));
    assert_eq!(
        pointer_from_bytes(Some(true), &[0xFF; 8]),
        Some(-1),
    );
}

#[test]
fn pointer_from_short_transfer_fails() {
    assert_eq!(pointer_from_bytes(Some(true), &[1, 2, 3, 4]), None);
    assert_eq!(pointer_from_bytes(Some(false), &[1, 2, 3, 4, 5, 6, 7, 8]), None);
    assert_eq!(pointer_from_bytes(Some(false), &[1, 2, 3]), None);
}

#[test]
fn offset_add_wraps_in_the_target_address_space() {
    assert_eq!(offset_add(100, 28), 128);
    assert_eq!(offset_add(-8, 8), 0);
    assert_eq!(offset_add(i64::MAX, 1), i64::MIN);
}

#[test]
fn empty_chain_is_a_single_pointer_read() {
    let mut chain = PointerChain::begin(100, vec![]);
    assert_eq!(chain.pending_read(), Some(100));
    chain.advance(Some(200));
    assert_eq!(chain.pending_read(), None);
    assert_eq!(chain.result(), Some(200));
}

#[test]
fn single_offset_is_added_without_final_dereference() {
    let mut chain = PointerChain::begin(100, vec![24]);
    assert_eq!(chain.pending_read(), Some(100));
    chain.advance(Some(200));
    assert_eq!(chain.result(), Some(224));
}

#[test]
fn two_offset_chain_dereferences_between_offsets() {
    let mut chain = PointerChain::begin(100, vec![16, 4]);
    assert_eq!(chain.pending_read(), Some(100));
    chain.advance(Some(200));
    // After the first read the walker asks for the dereference at 200 + 16.
    assert_eq!(chain.pending_read(), Some(216));
    chain.advance(Some(300));
    // The last offset only shifts the final address.
    assert_eq!(chain.pending_read(), None);
    assert_eq!(chain.result(), Some(304));
}

#[test]
fn failed_read_aborts_the_whole_chain() {
    let mut chain = PointerChain::begin(100, vec![16, 4]);
    chain.advance(Some(200));
    chain.advance(None);
    assert_eq!(chain.status, ChainStatus::Failed);
    assert_eq!(chain.result(), None);
    assert_eq!(chain.pending_read(), None);
}

fn read_raw(mem: &std::collections::HashMap<i64, u8>, address: i64, len: usize) -> Option<Vec<u8>> {
    (0..len).map(|i| mem.get(&(address + i as i64)).copied()).collect()
}

fn store(mem: &mut std::collections::HashMap<i64, u8>, address: i64, bytes: &[u8]) {
    for (i, b) in bytes.iter().enumerate() {
        mem.insert(address + i as i64, *b);
    }
}

#[test]
fn chain_walk_over_simulated_memory() {
    // A 32-bit target: 0x1000 holds a pointer to 0x2000, whose field at
    // offset 0x10 points to 0x3000; the final offset 0x8 is not followed.
    let mut mem = std::collections::HashMap::new();
    store(&mut mem, 0x1000, &procmem::values::u32_to_bytes(0x2000));
    store(&mut mem, 0x2010, &procmem::values::u32_to_bytes(0x3000));
    let bitness = Some(false);
    let width = pointer_width(false);
    let mut chain = PointerChain::begin(0x1000, vec![0x10, 0x8]);
    while let Some(at) = chain.pending_read() {
        let bytes = read_raw(&mem, at, width);
        chain.advance(pointer_from_bytes(bitness, bytes.as_deref().unwrap_or(&[])));
    }
    assert_eq!(chain.result(), Some(0x3008));
}

#[test]
fn chain_walk_aborts_on_unmapped_read() {
    // The same layout with the intermediate pointer missing: the failed
    // dereference aborts the whole chain, with no partial result.
    let mut mem = std::collections::HashMap::new();
    store(&mut mem, 0x1000, &procmem::values::u32_to_bytes(0x2000));
    let width = pointer_width(false);
    let mut chain = PointerChain::begin(0x1000, vec![0x10, 0x8]);
    while let Some(at) = chain.pending_read() {
        let bytes = read_raw(&mem, at, width);
        chain.advance(pointer_from_bytes(Some(false), bytes.as_deref().unwrap_or(&[])));
    }
    assert_eq!(chain.result(), None);
    assert_eq!(chain.status, ChainStatus::Failed);
}

#[test]
fn value_write_read_over_simulated_memory() {
    // Raw Transfer round trip at a mapped, writable address: the value
    // written is the value read back.
    let mut mem = std::collections::HashMap::new();
    store(&mut mem, 0x5000, &procmem::values::u64_to_bytes(0xFEED_FACE_CAFE_BEEF));
    let bytes = read_raw(&mem, 0x5000, 8).unwrap();
    assert_eq!(procmem::values::u64_from_bytes(&bytes), Some(0xFEED_FACE_CAFE_BEEF));
    // One unmapped byte fails the whole transfer: nothing layered sees a
    // truncated buffer.
    mem.remove(&0x5003);
    assert_eq!(read_raw(&mem, 0x5000, 8), None);
}

#[test]
fn allocation_result_gates_on_zero() {
    assert_eq!(allocation_result(0), None);
    assert_eq!(allocation_result(0x7000_0000), Some(0x7000_0000));
    assert_eq!(allocation_result(-1), Some(-1));
}

#[test]
fn module_info_snapshot_cached_whole() {
    let mut m = ProcessModule::from_raw_handle(7);
    assert_eq!(m.raw_handle(), 7);
    assert_eq!(m.get_module_info(None), None);
    let info = ModuleInfo { base_address: 0x1000, module_memory_size: 0x2000, entry_point_address: 0x1100 };
    assert_eq!(m.get_module_info(Some(info)), Some(info));
    // The snapshot is memoized: a later, different query is ignored.
    let other = ModuleInfo { base_address: 0x9000, module_memory_size: 1, entry_point_address: 0x9001 };
    assert_eq!(m.get_module_info(Some(other)), Some(info));
    assert_eq!(m.get_base_address(None), Some(0x1000));
    assert_eq!(m.get_entry_point_address(None), Some(0x1100));
    assert_eq!(m.get_module_size(None), Some(0x2000));
}

#[test]
fn module_metadata_getters_query_when_empty() {
    let mut m = ProcessModule::from_raw_handle(7);
    assert_eq!(m.get_base_address(None), None);
    let info = ModuleInfo { base_address: 0x4000, module_memory_size: 64, entry_point_address: 0x4040 };
    assert_eq!(m.get_base_address(Some(info)), Some(0x4000));
    assert_eq!(m.get_module_size(None), Some(64));
}

#[test]
fn module_names_cached_independently() {
    let mut m = ProcessModule::from_raw_handle(7);
    assert_eq!(m.get_name(Some(vec![0x6B, 0x33, 0x32, 0])), Some("k32".to_string()));
    assert_eq!(m.get_file_name(None), None);
    assert_eq!(
        m.get_file_name(Some(vec![0x43, 0x3A, 0x5C, 0x6B, 0x33, 0x32, 0])),
        Some("C:\\k32".to_string())
    );
    assert_eq!(m.get_name(None), Some("k32".to_string()));
    assert_eq!(m.cached_file_name().as_deref(), Some("C:\\k32"));
}
