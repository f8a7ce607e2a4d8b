use vpt_rs::copy::{BlockCopy, CopyStep, DEFAULT_BLOCK_SIZE, effective_block_size};
use vpt_rs::Error;

#[test]
fn rejects_zero_block_size() {
    let err = BlockCopy::start(0).unwrap_err();
    assert!(matches!(err, Error::InvalidArgument { .. }));
}

#[test]
fn copy_counts_what_was_read_until_the_end() {
    let mut copy = BlockCopy::start(64 * 1024).unwrap();
    assert_eq!(copy.block_size(), 64 * 1024);
    let mut remaining: usize = 1024 * 1024 + 7;
    loop {
        let read = remaining.min(copy.block_size());
        remaining -= read;
        match copy.after_read(read) {
            CopyStep::Write { len } => assert_eq!(len, read),
            CopyStep::Finish { total } => {
                assert_eq!(total, 1024 * 1024 + 7);
                break;
            }
        }
    }
    assert_eq!(copy.total(), 1024 * 1024 + 7);
}

#[test]
fn copies_empty_source() {
    let mut copy = BlockCopy::start(4096).unwrap();
    assert_eq!(copy.after_read(0), CopyStep::Finish { total: 0 });
}

#[test]
fn plans_without_a_block_size_use_four_mebibytes() {
    assert_eq!(effective_block_size(None), DEFAULT_BLOCK_SIZE);
    assert_eq!(DEFAULT_BLOCK_SIZE, 4 * 1024 * 1024);
    assert_eq!(effective_block_size(Some(512)), 512);
}
