use reshare::monitor::{relay_update, telemetry, StreamEvent};
use reshare::orchestrator::{
    report_downloads, report_uploads, settle_download, settle_upload, start_batch, BatchError,
    FileDescriptor, TransferKind, TransferResult,
};
use reshare::reader::{AdaptiveReader, ReadStep, KB, MAX_BUF_SIZE_KB, MIN_BUF_SIZE_KB};
use reshare::models::{Error, FileInfo, FileUploadStatus};
use reshare::tracker::ProgressTracker;

/// Reads `file` through an adaptive reader the way a regular file is read:
/// each read returns as many bytes as fit in the buffer or as remain.
/// Returns the chunks and the largest buffer size seen, in kilobytes.
fn read_through(file: &[u8]) -> (Vec<Vec<u8>>, usize) {
    let mut reader = AdaptiveReader::new();
    let mut pos = 0usize;
    let mut chunks = Vec::new();
    let mut largest = reader.buffer_size_kb();
    loop {
        let requested = reader.begin_read();
        let mut buf = vec![0u8; requested];
        let n = std::cmp::min(requested, file.len() - pos);
        buf[..n].copy_from_slice(&file[pos..pos + n]);
        pos += n;
        match reader.complete_read(buf, n) {
            ReadStep::Chunk(c) => chunks.push(c),
            ReadStep::End => break,
        }
        largest = largest.max(reader.buffer_size_kb());
        assert!(reader.buffer_size_kb() >= MIN_BUF_SIZE_KB);
        assert!(reader.buffer_size_kb() <= MAX_BUF_SIZE_KB);
    }
    assert!(reader.is_finished());
    (chunks, largest)
}

fn descriptor(name: &str, len: u64) -> FileDescriptor {
    FileDescriptor { name: name.to_string(), len, source: format!("/tmp/{}", name) }
}

fn patterned(len: usize) -> Vec<u8> {
    (0..len).map(|i| (i % 251) as u8).collect()
}

#[test]
fn two_file_batch_reaches_declared_sizes() {
    let small = patterned(10 * 1024);
    let large = patterned(50 * 1024 * 1024);
    let files = vec![descriptor("small.bin", small.len() as u64), descriptor("large.bin", large.len() as u64)];

    let mut tracker = match start_batch(&files, TransferKind::Download) {
        Ok(t) => t,
        Err(_) => panic!("a batch of two files is accepted"),
    };
    assert_eq!(tracker.len(), 2);

    let mut outcomes = Vec::new();
    let mut largest_buffers = Vec::new();
    for (desc, data) in files.iter().zip([&small, &large]) {
        let (chunks, largest) = read_through(data);
        let joined: Vec<u8> = chunks.concat();
        assert_eq!(&joined, data);
        for c in &chunks {
            let len = telemetry(&StreamEvent::Chunk { len: c.len() as u64 }).unwrap();
            tracker.apply(&relay_update(&desc.name, len));
        }
        largest_buffers.push(largest);
        outcomes.push(Ok(joined.len() as u64));
    }
    tracker.finish();

    let results = report_downloads(&files, outcomes);
    assert_eq!(results.len(), 2);
    for (r, d) in results.iter().zip(files.iter()) {
        match r {
            TransferResult::Success { name, size } => {
                assert_eq!(name, &d.name);
                assert_eq!(*size, d.len);
            }
            TransferResult::Error { .. } => panic!("both files succeed"),
        }
    }
    for i in 0..2 {
        let bar = tracker.bar(i);
        assert_eq!(bar.transmitted, bar.total);
        assert!(bar.finished);
    }
    assert_eq!(tracker.bar(0).total, 10 * 1024);
    assert_eq!(tracker.bar(1).total, 50 * 1024 * 1024);
    assert!(largest_buffers[1] > MIN_BUF_SIZE_KB);
}

#[test]
fn reader_starts_at_minimum_buffer() {
    let mut reader = AdaptiveReader::new();
    assert_eq!(reader.buffer_size_kb(), 4);
    assert!(!reader.is_finished());
    assert_eq!(reader.begin_read(), 4 * KB);
}

#[test]
fn full_read_doubles_buffer() {
    let mut reader = AdaptiveReader::new();
    let n = reader.begin_read();
    let step = reader.complete_read(vec![7u8; n], n);
    match step {
        ReadStep::Chunk(c) => assert_eq!(c, vec![7u8; n]),
        ReadStep::End => panic!("a full read yields a chunk"),
    }
    assert_eq!(reader.buffer_size_kb(), 8);
    assert_eq!(reader.begin_read(), 8 * KB);
}

#[test]
fn partial_read_truncates_and_halves_buffer() {
    let mut reader = AdaptiveReader::new();
    let n = reader.begin_read();
    reader.complete_read(vec![1u8; n], n);
    let n = reader.begin_read();
    let mut buf = vec![0u8; n];
    buf[0] = 9;
    buf[1] = 8;
    buf[2] = 7;
    match reader.complete_read(buf, 3) {
        ReadStep::Chunk(c) => assert_eq!(c, vec![9, 8, 7]),
        ReadStep::End => panic!("a short read yields a chunk"),
    }
    assert_eq!(reader.buffer_size_kb(), 4);
}

#[test]
fn partial_read_at_minimum_keeps_buffer() {
    let mut reader = AdaptiveReader::new();
    let n = reader.begin_read();
    reader.complete_read(vec![0u8; n], 10);
    assert_eq!(reader.buffer_size_kb(), MIN_BUF_SIZE_KB);
}

#[test]
fn buffer_stops_growing_at_maximum() {
    let mut reader = AdaptiveReader::new();
    for _ in 0..14 {
        let n = reader.begin_read();
        reader.complete_read(vec![0u8; n], n);
    }
    assert_eq!(reader.buffer_size_kb(), MAX_BUF_SIZE_KB);
    assert_eq!(reader.buffer_size_kb(), 16384);
}

#[test]
fn empty_file_yields_no_chunk() {
    let (chunks, _) = read_through(&[]);
    assert!(chunks.is_empty());
    let mut reader = AdaptiveReader::new();
    let n = reader.begin_read();
    match reader.complete_read(vec![0u8; n], 0) {
        ReadStep::End => {}
        ReadStep::Chunk(_) => panic!("an empty read ends the sequence"),
    }
    assert!(reader.is_finished());
}

#[test]
fn failed_read_ends_sequence() {
    let mut reader = AdaptiveReader::new();
    reader.begin_read();
    reader.fail_read();
    assert!(reader.is_finished());
}

#[test]
fn small_file_chunks_rebuild_it() {
    let data = patterned(100 * 1024 + 17);
    let (chunks, _) = read_through(&data);
    assert_eq!(chunks.concat(), data);
    assert!(chunks.iter().all(|c| !c.is_empty()));
}

#[test]
fn monitor_reports_only_chunks() {
    assert_eq!(telemetry(&StreamEvent::Chunk { len: 42 }), Some(42));
    assert_eq!(telemetry(&StreamEvent::Chunk { len: 0 }), Some(0));
    assert_eq!(telemetry(&StreamEvent::Failed), None);
    assert_eq!(telemetry(&StreamEvent::Ended), None);
}

#[test]
fn relay_attributes_to_file() {
    let name = "photo.jpg".to_string();
    let u = relay_update(&name, 512);
    assert_eq!(u.file_name, "photo.jpg");
    assert_eq!(u.bytes_transmitted, 512);
}

#[test]
fn tracker_counts_per_file_and_ignores_unknown() {
    let mut t = ProgressTracker::new();
    t.add_bar("a".to_string(), 100);
    t.add_bar("b".to_string(), 50);
    t.apply(&relay_update(&"a".to_string(), 30));
    t.apply(&relay_update(&"b".to_string(), 20));
    t.apply(&relay_update(&"a".to_string(), 70));
    t.apply(&relay_update(&"zzz".to_string(), 5));
    assert_eq!(t.len(), 2);
    assert_eq!(t.progress_of(&"a".to_string()).unwrap().transmitted, 100);
    assert_eq!(t.progress_of(&"b".to_string()).unwrap().transmitted, 20);
    assert!(t.progress_of(&"zzz".to_string()).is_none());
    assert!(!t.bar(0).finished);
    t.finish();
    assert!(t.bar(0).finished && t.bar(1).finished);
    assert_eq!(t.bar(1).transmitted, 20);
}

#[test]
fn tracker_reregistration_starts_afresh() {
    let mut t = ProgressTracker::new();
    t.add_bar("a".to_string(), 100);
    t.apply(&relay_update(&"a".to_string(), 30));
    t.add_bar("a".to_string(), 200);
    assert_eq!(t.len(), 1);
    let bar = t.progress_of(&"a".to_string()).unwrap();
    assert_eq!(bar.total, 200);
    assert_eq!(bar.transmitted, 0);
}

#[test]
fn tracker_saturates_at_u64_max() {
    let mut t = ProgressTracker::new();
    t.add_bar("a".to_string(), u64::MAX);
    t.apply(&relay_update(&"a".to_string(), u64::MAX - 1));
    t.apply(&relay_update(&"a".to_string(), 10));
    assert_eq!(t.bar(0).transmitted, u64::MAX);
}

#[test]
fn empty_batch_is_rejected() {
    let files: Vec<FileDescriptor> = Vec::new();
    match start_batch(&files, TransferKind::Upload) {
        Err(e) => {
            assert!(matches!(e, BatchError::NoFiles { kind: TransferKind::Upload }));
            assert_eq!(e.to_string(), "No files to upload");
        }
        Ok(_) => panic!("an empty batch is refused"),
    }
    match start_batch(&files, TransferKind::Download) {
        Err(e) => assert_eq!(e.to_string(), "No files to download"),
        Ok(_) => panic!("an empty batch is refused"),
    }
}

#[test]
fn batch_registers_every_file() {
    let files = vec![descriptor("x", 3), descriptor("y", 9)];
    let t = start_batch(&files, TransferKind::Upload).ok().unwrap();
    assert_eq!(t.len(), 2);
    assert_eq!(t.bar(0).file_name, "x");
    assert_eq!(t.bar(0).total, 3);
    assert_eq!(t.bar(1).file_name, "y");
    assert_eq!(t.bar(1).total, 9);
    assert_eq!(t.bar(1).transmitted, 0);
}

fn uploaded(name: &str, size: u64) -> FileUploadStatus {
    let mut info = FileInfo::dummy();
    info.name = name.to_string();
    info.size = size;
    FileUploadStatus::Success(info)
}

#[test]
fn one_unreadable_source_fails_alone() {
    let files = vec![descriptor("a", 1), descriptor("b", 2), descriptor("c", 3)];
    let outcomes = vec![
        Ok(uploaded("a", 1)),
        Err("No such file or directory (os error 2)".to_string()),
        Ok(uploaded("c", 3)),
    ];
    let results = report_uploads(&files, outcomes);
    assert_eq!(results.len(), 3);
    let successes = results.iter().filter(|r| matches!(r, TransferResult::Success { .. })).count();
    assert_eq!(successes, 2);
    match &results[1] {
        TransferResult::Error { message } => {
            assert_eq!(message, "b - operation failed. No such file or directory (os error 2)")
        }
        _ => panic!("the unreadable file fails"),
    }
    assert!(matches!(&results[2], TransferResult::Success { name, size: 3 } if name == "c"));
}

#[test]
fn server_error_status_is_reported() {
    let f = descriptor("empty.txt", 0);
    let r = settle_upload(&f, Ok(FileUploadStatus::Error(Error { error_msg: "Empty files not allowed".to_string() })));
    match r {
        TransferResult::Error { message } => {
            assert_eq!(message, "empty.txt - Error while uploading file: Empty files not allowed")
        }
        _ => panic!("a refused upload fails"),
    }
}

#[test]
fn accepted_upload_takes_server_name() {
    let f = descriptor("a.txt", 5);
    let r = settle_upload(&f, Ok(uploaded("a.txt(1)", 5)));
    assert!(matches!(r, TransferResult::Success { ref name, size: 5 } if name == "a.txt(1)"));
}

#[test]
fn download_results_follow_input_order() {
    let files = vec![descriptor("one", 1), descriptor("two", 2)];
    let results = report_downloads(&files, vec![Err("two not found".to_string()), Ok(2)]);
    match &results[0] {
        TransferResult::Error { message } => assert_eq!(message, "one - two not found"),
        _ => panic!("first failed"),
    }
    assert!(matches!(&results[1], TransferResult::Success { name, size: 2 } if name == "two"));
    let r = settle_download(&files[0], Ok(1));
    assert!(matches!(r, TransferResult::Success { size: 1, .. }));
}
