use wasmer_engine_universal::code_memory::{
    is_page_size_exec, CodeMemoryError, LimitedMemoryPool, PoolError,
};

fn pool(budget: usize) -> LimitedMemoryPool {
    LimitedMemoryPool::with_page_size(budget, 4096).unwrap()
}

#[test]
fn page_sizes_are_powers_of_two_from_the_data_alignment_up() {
    assert!(is_page_size_exec(64));
    assert!(is_page_size_exec(4096));
    assert!(is_page_size_exec(65536));
    assert!(!is_page_size_exec(0));
    assert!(!is_page_size_exec(32));
    assert!(!is_page_size_exec(4095));
    assert!(!is_page_size_exec(4097));
}

#[test]
fn pool_refuses_unsupported_page_sizes() {
    assert_eq!(
        LimitedMemoryPool::with_page_size(100, 3).err(),
        Some(PoolError::UnsupportedPageSize(3))
    );
    assert_eq!(
        LimitedMemoryPool::with_page_size(100, 32).err(),
        Some(PoolError::UnsupportedPageSize(32))
    );
}

#[test]
fn pool_refuses_a_budget_that_no_region_can_have() {
    let budget = isize::MAX as usize + 1;
    assert_eq!(
        LimitedMemoryPool::with_page_size(budget, 4096).err(),
        Some(PoolError::UnsupportedBudget(budget))
    );
    assert_eq!(
        LimitedMemoryPool::with_page_size(budget, 100).err(),
        Some(PoolError::UnsupportedPageSize(100))
    );
    assert_eq!(LimitedMemoryPool::new(budget).err(), Some(PoolError::UnsupportedBudget(budget)));
    assert!(LimitedMemoryPool::with_page_size(isize::MAX as usize, 4096).is_ok());
}

#[test]
fn pool_of_the_host_has_the_host_page_size() {
    let pool = LimitedMemoryPool::new(1 << 20).unwrap();
    assert_eq!(pool.page_size(), rustix::param::page_size());
    assert_eq!(pool.budget(), 1 << 20);
    assert_eq!(pool.available(), 1 << 20);
}

#[test]
fn pool_hands_out_zeroed_memory_of_the_exact_size() {
    let mut pool = pool(10_000);
    let memory = pool.get(4160).unwrap();
    assert_eq!(memory.size(), 4160);
    assert_eq!(memory.position(), 0);
    assert_eq!(memory.executable_end(), 0);
    assert!(!memory.is_published());
    assert!(memory.as_slice().iter().all(|byte| *byte == 0));
    assert_eq!(pool.available(), 10_000 - 4160);
    assert_eq!(pool.budget(), 10_000);
}

#[test]
fn exhausted_pool_fails_and_keeps_its_budget() {
    let mut pool = pool(8192);
    let error = pool.get(8193).err();
    assert_eq!(error, Some(PoolError::Exhausted { requested: 8193, available: 8192 }));
    assert_eq!(pool.available(), 8192);
    let first = pool.get(8000).unwrap();
    assert_eq!(pool.available(), 192);
    let error = pool.get(193).err();
    assert_eq!(error, Some(PoolError::Exhausted { requested: 193, available: 192 }));
    assert_eq!(pool.available(), 192);
    assert!(pool.get(192).is_ok());
    assert_eq!(pool.available(), 0);
    assert!(pool.release(first));
    assert_eq!(pool.available(), 8000);
}

#[test]
fn pool_refuses_memory_that_is_not_its_own() {
    let mut small = pool(100);
    let mut large = pool(1000);
    let memory = large.get(500).unwrap();
    assert!(!small.release(memory));
    assert_eq!(small.available(), 100);
}

#[test]
fn writes_are_aligned_and_padding_is_zeroed() {
    let mut pool = pool(4096);
    let mut memory = pool.get(256).unwrap();
    assert_eq!(memory.write_executable(16, &[1, 2, 3]), Ok(0));
    assert_eq!(memory.position(), 3);
    assert_eq!(memory.executable_end(), 3);
    assert_eq!(memory.write_executable(4, &[4, 5]), Ok(4));
    assert_eq!(memory.write_executable(16, &[6]), Ok(16));
    assert_eq!(memory.executable_end(), 17);
    assert_eq!(memory.write_aligned(64, &[7, 8]), Ok(64));
    assert_eq!(memory.position(), 66);
    assert_eq!(memory.executable_end(), 17);
    assert_eq!(memory.write_aligned(64, &[9]), Ok(128));
    let bytes = memory.as_slice();
    assert_eq!(&bytes[0..6], &[1, 2, 3, 0, 4, 5]);
    assert_eq!(bytes[16], 6);
    assert_eq!(&bytes[64..66], &[7, 8]);
    assert_eq!(bytes[128], 9);
    assert_eq!(bytes.iter().filter(|byte| **byte != 0).count(), 9);
}

#[test]
fn executable_bytes_may_not_follow_data() {
    let mut pool = pool(4096);
    let mut memory = pool.get(256).unwrap();
    assert_eq!(memory.write_aligned(64, &[7]), Ok(0));
    assert_eq!(memory.write_executable(16, &[1]), Err(CodeMemoryError::Interleaved));
    assert_eq!(memory.position(), 1);
}

#[test]
fn write_that_does_not_fit_changes_nothing() {
    let mut pool = pool(4096);
    let mut memory = pool.get(20).unwrap();
    assert_eq!(memory.write_executable(16, &[1; 17]), Ok(0));
    assert_eq!(memory.write_executable(16, &[2; 5]), Err(CodeMemoryError::Overrun));
    assert_eq!(memory.write_aligned(4, &[2]), Err(CodeMemoryError::Overrun));
    assert_eq!(memory.position(), 17);
    assert_eq!(memory.write_aligned(1, &[3; 3]), Ok(17));
    assert_eq!(memory.write_aligned(1, &[4]), Err(CodeMemoryError::Overrun));
    assert_eq!(memory.as_slice()[17..20], [3, 3, 3]);
}

#[test]
fn patch_overwrites_within_the_region() {
    let mut pool = pool(4096);
    let mut memory = pool.get(8).unwrap();
    assert_eq!(memory.write_executable(1, &[1, 2, 3, 4]), Ok(0));
    assert_eq!(memory.patch(1, &[9, 8]), Ok(()));
    assert_eq!(memory.as_slice(), &[1, 9, 8, 4, 0, 0, 0, 0]);
    assert_eq!(memory.patch(7, &[5, 5]), Err(CodeMemoryError::Overrun));
    assert_eq!(memory.patch(9, &[]), Err(CodeMemoryError::Overrun));
    assert_eq!(memory.as_slice(), &[1, 9, 8, 4, 0, 0, 0, 0]);
    assert_eq!(memory.position(), 4);
}

#[test]
fn nothing_is_written_after_publishing() {
    let mut pool = pool(4096);
    let mut memory = pool.get(64).unwrap();
    assert_eq!(memory.write_executable(16, &[1, 2]), Ok(0));
    assert_eq!(memory.publish(), Ok(()));
    assert!(memory.is_published());
    assert_eq!(memory.write_executable(16, &[3]), Err(CodeMemoryError::Published));
    assert_eq!(memory.write_aligned(64, &[3]), Err(CodeMemoryError::Published));
    assert_eq!(memory.patch(0, &[3]), Err(CodeMemoryError::Published));
    assert_eq!(memory.publish(), Err(CodeMemoryError::Published));
    assert!(memory.is_published());
    assert_eq!(memory.position(), 2);
    assert_eq!(&memory.as_slice()[0..3], &[1, 2, 0]);
}
