use loadgen::ram::{copy_wrapped, test_memory_with_offset, verify_wrapped, MemoryError, RamGenerator};

#[test]
fn test_memory_with_random_data() {
    let source_size = 1024; // 1KB of random data
    let test_size = 256; // Test with 256 bytes each time
    let source_data = RamGenerator::new(source_size).source;

    // Perform multiple tests starting from different offsets
    for offset in [0, 128, 512, 800].iter() {
        match test_memory_with_offset(&source_data, test_size, *offset) {
            Ok(_) => println!("Memory test passed starting at offset {}.", offset),
            Err(e) => panic!("Memory test failed at offset {}: {:?}", offset, e),
        }
    }
}

#[test]
fn random_block_has_requested_size() {
    assert_eq!(RamGenerator::new(100).source.len(), 100);
    assert_eq!(RamGenerator::new(0).source.len(), 0);
}

#[test]
fn test_size_larger_than_source_is_rejected() {
    let source = vec![1u8, 2, 3];
    assert_eq!(
        test_memory_with_offset(&source, 4, 0),
        Err(MemoryError::TestSizeExceedsSource)
    );
    assert_eq!(test_memory_with_offset(&source, 3, 7), Ok(()));
    assert_eq!(test_memory_with_offset(&[], 0, 5), Ok(()));
}

#[test]
fn copy_wraps_around_the_source() {
    let source = vec![10u8, 20, 30, 40];
    assert_eq!(copy_wrapped(&source, 6, 2), vec![30, 40, 10, 20, 30, 40]);
    assert_eq!(copy_wrapped(&source, 3, 9), vec![20, 30, 40]);
    assert_eq!(copy_wrapped(&source, 0, 1), Vec::<u8>::new());
}

#[test]
fn copied_buffer_round_trips() {
    let source = RamGenerator::new(64).source;
    for offset in [0usize, 1, 63, 64, 1000] {
        let copy = copy_wrapped(&source, 64, offset);
        assert_eq!(verify_wrapped(&source, &copy, offset), Ok(()));
    }
}

#[test]
fn corrupted_buffer_raises_verification_failure() {
    let source = vec![10u8, 20, 30, 40];
    let mut copy = copy_wrapped(&source, 4, 1);
    copy[2] = 99;
    assert_eq!(
        verify_wrapped(&source, &copy, 1),
        Err(MemoryError::VerificationFailure { index: 2, expected: 40, got: 99 })
    );
}

#[test]
fn ram_tick_succeeds() {
    let generator = RamGenerator::new(4096);
    assert_eq!(generator.tick(), Ok(()));
}
