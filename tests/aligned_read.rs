use diskann_io::aligned_read::{AlignedRead, DISK_IO_ALIGNMENT};
use diskann_io::error::ANNError;

#[test]
fn aligned_request_is_accepted() {
    let req = AlignedRead::new(1024, vec![0u8; 512]).unwrap();
    assert_eq!(req.offset, 1024);
    assert_eq!(req.aligned_buf().len(), 512);
    assert_eq!(req.buffer_bytes(), 512);
}

#[test]
fn zero_offset_and_empty_buffer_are_aligned() {
    let req = AlignedRead::new(0, Vec::<u8>::new()).unwrap();
    assert_eq!(req.offset, 0);
    assert_eq!(req.buffer_bytes(), 0);
}

#[test]
fn misaligned_offset_is_rejected_with_its_value() {
    match AlignedRead::new(100, vec![0u8; 512]) {
        Err(ANNError::DiskIOAlignmentError { value, alignment }) => {
            assert_eq!(value, 100);
            assert_eq!(alignment, 512);
        }
        _ => panic!("expected an alignment error"),
    }
}

#[test]
fn misaligned_length_is_rejected_with_its_value() {
    match AlignedRead::new(512, vec![0u8; 100]) {
        Err(ANNError::DiskIOAlignmentError { value, alignment }) => {
            assert_eq!(value, 100);
            assert_eq!(alignment, DISK_IO_ALIGNMENT as u64);
        }
        _ => panic!("expected an alignment error"),
    }
}

#[test]
fn offset_is_checked_before_length() {
    match AlignedRead::new(7, vec![0u8; 3]) {
        Err(ANNError::DiskIOAlignmentError { value, .. }) => assert_eq!(value, 7),
        _ => panic!("expected an alignment error"),
    }
}

#[test]
fn length_counts_bytes_of_wider_elements() {
    // 128 four-byte elements make one sector.
    let req = AlignedRead::new(0, vec![0u32; 128]).unwrap();
    assert_eq!(req.buffer_bytes(), 512);
    match AlignedRead::new(0, vec![0u32; 100]) {
        Err(ANNError::DiskIOAlignmentError { value, .. }) => assert_eq!(value, 400),
        _ => panic!("expected an alignment error"),
    }
}

#[test]
fn alignment_law_over_a_grid() {
    for offset in [0u64, 1, 256, 511, 512, 513, 1024, 4096, 4097] {
        for len in [0usize, 1, 511, 512, 513, 1024, 1536] {
            let ok = AlignedRead::new(offset, vec![0u8; len]).is_ok();
            assert_eq!(ok, offset % 512 == 0 && len % 512 == 0);
        }
    }
}
