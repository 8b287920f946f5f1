use std::io::SeekFrom;
use std::sync::Arc;

use tokio::io::{AsyncReadExt, AsyncSeekExt};

use diskann_io::aligned_read::AlignedRead;
use diskann_io::batch::collect_in_order;
use diskann_io::error::{ANNError, ANNResult, IoErrorKind, IoFailure};
use diskann_io::reader::{finish_unit, LinuxAlignedFileReader};

fn run<F: std::future::Future>(f: F) -> F::Output {
    tokio::runtime::Runtime::new().unwrap().block_on(f)
}

/// A path for a scratch file under the first writable temporary directory.
async fn scratch(name: &str) -> String {
    for dir in ["/tmp", "/dev/shm", "/var/tmp", "."] {
        let path = format!("{}/diskann_io_{}", dir, name);
        if tokio::fs::write(&path, b"").await.is_ok() {
            return path;
        }
    }
    panic!("no writable scratch directory");
}

fn io_failure(e: std::io::Error) -> IoFailure {
    let kind = match e.kind() {
        std::io::ErrorKind::NotFound => IoErrorKind::NotFound,
        std::io::ErrorKind::UnexpectedEof => IoErrorKind::UnexpectedEof,
        _ => IoErrorKind::Other,
    };
    IoFailure { kind, os_code: e.raw_os_error(), message: e.to_string() }
}

async fn seek_and_fill(file: &mut tokio::fs::File, offset: u64, buf: &mut [u8]) -> std::io::Result<()> {
    file.seek(SeekFrom::Start(offset)).await?;
    file.read_exact(buf).await?;
    Ok(())
}

/// Fans out one task per request over duplicates of the reader's handle, then collects.
/// Duplicates share the file cursor, so each seek and its read run under one lock.
async fn read_batch(reader: &LinuxAlignedFileReader, reqs: Vec<AlignedRead<u8>>) -> ANNResult<Vec<AlignedRead<u8>>> {
    let cursor = Arc::new(tokio::sync::Mutex::new(()));
    let mut handles = Vec::new();
    for req in reqs {
        let file = Arc::clone(&reader.file);
        let cursor = Arc::clone(&cursor);
        handles.push(tokio::spawn(async move {
            let mut req = req;
            let io = match file.try_clone().await {
                Ok(mut dup) => {
                    let _held = cursor.lock().await;
                    seek_and_fill(&mut dup, req.offset, &mut req.aligned_buf).await
                }
                Err(e) => Err(e),
            };
            finish_unit(req, io.map_err(io_failure))
        }));
    }
    let mut units = Vec::new();
    for h in handles {
        units.push(match h.await {
            Ok(unit) => unit,
            Err(e) => Err(ANNError::join_error(e.is_cancelled(), e.to_string())),
        });
    }
    collect_in_order(units)
}

async fn open_reader(path: &str) -> LinuxAlignedFileReader {
    LinuxAlignedFileReader::from_file(tokio::fs::File::open(path).await.unwrap())
}

#[test]
fn two_sector_scenario() {
    run(async {
        let path = &scratch("batch_scenario.bin").await;
        let mut data = vec![0xABu8; 512];
        data.extend(vec![0xCDu8; 512]);
        tokio::fs::write(path, &data).await.unwrap();
        let reader = open_reader(path).await;
        let reqs = vec![
            AlignedRead::new(0, vec![0u8; 512]).unwrap(),
            AlignedRead::new(512, vec![0u8; 512]).unwrap(),
        ];
        let out = read_batch(&reader, reqs).await.unwrap();
        drop(reader);
        tokio::fs::remove_file(path).await.unwrap();
        assert_eq!(out.len(), 2);
        assert_eq!(out[0].offset, 0);
        assert_eq!(out[1].offset, 512);
        assert!(out[0].aligned_buf().iter().all(|b| *b == 0xAB));
        assert!(out[1].aligned_buf().iter().all(|b| *b == 0xCD));
    });
}

#[test]
fn round_trip_at_aligned_offset() {
    run(async {
        let path = &scratch("batch_round_trip.bin").await;
        let written: Vec<u8> = (0..2048u32).map(|i| (i % 251) as u8).collect();
        let mut file_bytes = vec![0u8; 1024];
        file_bytes.extend(written.iter().copied());
        tokio::fs::write(path, &file_bytes).await.unwrap();
        let reader = open_reader(path).await;
        let out = read_batch(&reader, vec![AlignedRead::new(1024, vec![0u8; 2048]).unwrap()]).await.unwrap();
        drop(reader);
        tokio::fs::remove_file(path).await.unwrap();
        assert_eq!(out[0].aligned_buf(), &written[..]);
    });
}

#[test]
fn read_past_end_is_an_io_error() {
    run(async {
        let path = &scratch("batch_past_end.bin").await;
        tokio::fs::write(path, vec![1u8; 512]).await.unwrap();
        let reader = open_reader(path).await;
        let res = read_batch(&reader, vec![AlignedRead::new(0, vec![0u8; 1024]).unwrap()]).await;
        drop(reader);
        tokio::fs::remove_file(path).await.unwrap();
        match res {
            Err(ANNError::IOError { err }) => assert_eq!(err.kind, IoErrorKind::UnexpectedEof),
            _ => panic!("expected an I/O error"),
        }
    });
}

#[test]
fn sixty_four_requests_in_any_order() {
    run(async {
        let path = &scratch("batch_sixty_four.bin").await;
        let mut data = Vec::new();
        for i in 0..64u8 {
            data.extend(vec![i; 512]);
        }
        tokio::fs::write(path, &data).await.unwrap();
        let reader = open_reader(path).await;
        // Submit the sectors in a scrambled order.
        let order: Vec<u64> = (0..64u64).map(|i| (i * 37) % 64).collect();
        let reqs = order.iter().map(|s| AlignedRead::new(s * 512, vec![0u8; 512]).unwrap()).collect();
        let out = read_batch(&reader, reqs).await.unwrap();
        drop(reader);
        tokio::fs::remove_file(path).await.unwrap();
        assert_eq!(out.len(), 64);
        for (i, s) in order.iter().enumerate() {
            assert_eq!(out[i].offset, s * 512);
            assert!(out[i].aligned_buf().iter().all(|b| *b as u64 == *s));
        }
    });
}

#[test]
fn empty_batch_gives_empty_result() {
    let out = collect_in_order(Vec::<ANNResult<AlignedRead<u8>>>::new()).unwrap();
    assert!(out.is_empty());
}

#[test]
fn collected_results_keep_submission_order() {
    let units = vec![
        Ok(AlignedRead::new(1536, vec![3u8; 512]).unwrap()),
        Ok(AlignedRead::new(0, vec![1u8; 512]).unwrap()),
        Ok(AlignedRead::new(512, vec![2u8; 512]).unwrap()),
    ];
    let out = collect_in_order(units).unwrap();
    let offsets: Vec<u64> = out.iter().map(|r| r.offset).collect();
    assert_eq!(offsets, vec![1536, 0, 512]);
    assert_eq!(out[0].aligned_buf()[0], 3);
}

#[test]
fn first_failure_is_the_batch_error() {
    let units: Vec<ANNResult<AlignedRead<u8>>> = vec![
        Ok(AlignedRead::new(0, vec![0u8; 512]).unwrap()),
        Err(ANNError::log_pq_error("first".to_string())),
        Err(ANNError::log_index_error("second".to_string())),
    ];
    match collect_in_order(units) {
        Err(ANNError::PQError { err }) => assert_eq!(err, "first"),
        _ => panic!("expected the first failure"),
    }
}

#[test]
fn failed_unit_becomes_an_io_error() {
    let req = AlignedRead::new(512, vec![0u8; 512]).unwrap();
    let f = IoFailure { kind: IoErrorKind::Other, os_code: Some(5), message: "EIO".to_string() };
    match finish_unit(req, Err(f)) {
        Err(ANNError::IOError { err }) => assert_eq!(err.os_code, Some(5)),
        _ => panic!("expected an I/O error"),
    }
    let req = AlignedRead::new(512, vec![7u8; 512]).unwrap();
    let back = finish_unit(req, Ok(())).unwrap();
    assert_eq!(back.offset, 512);
    assert_eq!(back.aligned_buf()[0], 7);
}
