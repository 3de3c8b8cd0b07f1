use sinnergasm::download::{
    initiate_download, DownloadAction, DownloadChunkPool, DownloadSession, ProgressCheck, Rejection, TransferError,
};
use sinnergasm::messages::{
    DownloadInitiated, DownloadRequest, DownloadResponse, InitiateDownload, InitiateUpload, SharedFileChunk,
    UploadRequest, UploadRequested, UploadResponse,
};
use sinnergasm::upload::{
    buffer_size_of, checksum_matches, chunk_message, chunk_position, compute_hash, div_ceil, initiate_upload,
    number_of_chunks, upload_action, upload_step, verify_checksum, UploadAction, UploadStep, DEFAULT_BUFFER_SIZE,
};
use tokio::sync::mpsc::error::TryRecvError;
use tokio::sync::mpsc::{unbounded_channel, UnboundedReceiver};

fn requested(receiver: &mut UnboundedReceiver<DownloadRequest>) -> Vec<DownloadRequest> {
    let mut seen = Vec::new();
    while let Ok(request) = receiver.try_recv() {
        seen.push(request);
    }
    seen
}

fn pull(offset: u64) -> DownloadRequest {
    DownloadRequest::Request { offset }
}

#[test]
fn window_of_three_over_ten_chunks() {
    let (sender, mut receiver) = unbounded_channel();
    let mut pool = DownloadChunkPool::new(10, 3, sender);
    assert_eq!(pool.number_of_chunks(), 10);
    assert_eq!(pool.in_flight(), 0);
    assert!(!pool.is_finished());

    assert_eq!(pool.set_completed(None).progress(), Ok(ProgressCheck::Requested(3)));
    assert_eq!(requested(&mut receiver), vec![pull(0), pull(1), pull(2)]);
    assert_eq!(pool.in_flight(), 3);
    assert!(pool.is_downloading(0) && pool.is_downloading(1) && pool.is_downloading(2));
    assert!(!pool.is_downloading(3));

    assert_eq!(pool.set_completed(Some(1)).progress(), Ok(ProgressCheck::Requested(1)));
    assert_eq!(requested(&mut receiver), vec![pull(3)]);
    assert_eq!(pool.in_flight(), 3);
    assert_eq!(pool.arrived_count(), 1);
    assert!(!pool.is_downloading(1));
    assert!(pool.is_downloading(3));

    let mut completions = 0;
    for offset in [0u64, 2, 3, 4, 5, 6, 7, 8, 9] {
        assert!(pool.is_downloading(offset));
        let progress = pool.set_completed(Some(offset)).progress().unwrap();
        let mut sent = requested(&mut receiver);
        if sent.last() == Some(&DownloadRequest::Complete) {
            completions += 1;
            sent.pop();
        }
        assert!(pool.in_flight() <= 3);
        match progress {
            ProgressCheck::Complete => {
                assert_eq!(offset, 9);
                assert!(sent.is_empty());
            }
            ProgressCheck::Requested(count) => {
                assert_eq!(sent.len(), count);
                assert_ne!(offset, 9);
            }
        }
    }
    assert_eq!(completions, 1);
    assert!(pool.is_finished());
    assert_eq!(pool.arrived_count(), 10);
    assert_eq!(pool.in_flight(), 0);
    assert_eq!(receiver.try_recv(), Err(TryRecvError::Empty));
}

#[test]
fn pool_stays_a_partition() {
    let (sender, _receiver) = unbounded_channel();
    let mut pool = DownloadChunkPool::new(6, 2, sender);
    let mut arrived: Vec<u64> = Vec::new();
    pool.set_completed(None).progress().unwrap();
    for offset in [1u64, 0, 3, 2, 5, 4] {
        // before the arrival: in flight, each offset in exactly one set
        let in_flight: Vec<u64> = (0..6).filter(|o| pool.is_downloading(*o)).collect();
        assert_eq!(in_flight.len(), pool.in_flight());
        assert_eq!(arrived.len(), pool.arrived_count());
        assert!(in_flight.iter().all(|o| !arrived.contains(o)));
        assert!(pool.is_downloading(offset));
        pool.set_completed(Some(offset)).progress().unwrap();
        arrived.push(offset);
        assert!(!pool.is_downloading(offset));
        assert!(!pool.is_downloading(6));
    }
    assert!(pool.is_finished());
    assert_eq!(pool.arrived_count(), 6);
}

#[test]
fn empty_file_completes_at_once() {
    let (sender, mut receiver) = unbounded_channel();
    let mut pool = DownloadChunkPool::new(0, 3, sender);
    assert!(pool.is_finished());
    assert_eq!(pool.set_completed(None).progress(), Ok(ProgressCheck::Complete));
    assert_eq!(requested(&mut receiver), vec![DownloadRequest::Complete]);
}

#[test]
fn window_of_zero_requests_nothing() {
    let (sender, mut receiver) = unbounded_channel();
    let mut pool = DownloadChunkPool::new(4, 0, sender);
    assert_eq!(pool.set_completed(None).progress(), Ok(ProgressCheck::Requested(0)));
    assert_eq!(requested(&mut receiver), vec![]);
    assert!(!pool.is_finished());
}

#[test]
fn window_wider_than_the_file_requests_everything() {
    let (sender, mut receiver) = unbounded_channel();
    let mut pool = DownloadChunkPool::new(2, 5, sender);
    let requests = pool.fill_window(std::time::SystemTime::now());
    let handed: Vec<(u64, bool)> = requests.iter().map(|r| (r.offset, r.receipt.delivered())).collect();
    assert_eq!(handed, vec![(0, true), (1, true)]);
    assert_eq!(requested(&mut receiver), vec![pull(0), pull(1)]);
    assert!(pool.fill_window(std::time::SystemTime::now()).is_empty());
    pool.mark_downloaded(1);
    assert_eq!(pool.arrived_count(), 1);
    assert_eq!(pool.in_flight(), 1);
    assert_eq!(pool.set_completed(Some(0)).progress(), Ok(ProgressCheck::Complete));
    assert_eq!(requested(&mut receiver), vec![DownloadRequest::Complete]);
}

#[test]
fn steps_record_what_was_handed_to_the_stream() {
    let (sender, mut receiver) = unbounded_channel();
    let mut pool = DownloadChunkPool::new(3, 2, sender);
    let step = pool.advance(None, std::time::SystemTime::now());
    let handed: Vec<(u64, bool)> = step.requests.iter().map(|r| (r.offset, r.receipt.delivered())).collect();
    assert_eq!(handed, vec![(0, true), (1, true)]);
    assert!(step.completion.is_none());
    assert_eq!(step.progress(), Ok(ProgressCheck::Requested(2)));
    assert_eq!(requested(&mut receiver), vec![pull(0), pull(1)]);

    let step = pool.advance(Some(0), std::time::UNIX_EPOCH);
    assert_eq!(step.requests.len(), 1);
    assert_eq!(step.requests[0].offset, 2);
    assert!(step.completion.is_none());
    let step = pool.advance(Some(2), std::time::UNIX_EPOCH);
    assert!(step.requests.is_empty());
    assert_eq!(step.progress(), Ok(ProgressCheck::Requested(0)));
    let step = pool.advance(Some(1), std::time::UNIX_EPOCH);
    assert!(step.requests.is_empty());
    assert!(step.completion.as_ref().unwrap().delivered());
    assert_eq!(step.progress(), Ok(ProgressCheck::Complete));
    assert_eq!(requested(&mut receiver), vec![pull(2), DownloadRequest::Complete]);
}

#[test]
fn refused_request_ends_the_step() {
    let (sender, receiver) = unbounded_channel();
    let mut pool = DownloadChunkPool::new(5, 2, sender);
    drop(receiver);
    let step = pool.set_completed(None);
    assert_eq!(step.requests.len(), 1);
    assert!(step.completion.is_none());
    let error = step.progress().unwrap_err();
    assert_eq!(error, TransferError::RequestRefused { offset: 0 });
    assert_eq!(error.message(), "the download stream refused a chunk request");
    // the offset of the refused request stays in flight
    assert!(pool.is_downloading(0));
    assert_eq!(pool.in_flight(), 1);
}

#[test]
fn refused_completion_is_reported() {
    let (sender, mut receiver) = unbounded_channel();
    let mut pool = DownloadChunkPool::new(1, 1, sender);
    pool.set_completed(None).progress().unwrap();
    assert_eq!(requested(&mut receiver), vec![pull(0)]);
    drop(receiver);
    let error = pool.set_completed(Some(0)).progress().unwrap_err();
    assert_eq!(error, TransferError::CompletionRefused);
    assert_eq!(error.message(), "the download stream refused the completion signal");
    assert!(pool.is_finished());
}

#[test]
fn download_starts_with_an_initiate_message() {
    let message = initiate_download(
        &"W".to_string(),
        &"laptop".to_string(),
        &"desktop".to_string(),
        &"notes/today.txt".to_string(),
    );
    assert_eq!(
        message,
        DownloadRequest::Initiate(InitiateDownload {
            workspace: "W".to_string(),
            download_device: "laptop".to_string(),
            upload_device: "desktop".to_string(),
            relative_path: "notes/today.txt".to_string(),
            buffer_size: None,
        })
    );
}

fn described(chunks: u64, buffer_size: u64) -> DownloadInitiated {
    DownloadInitiated { number_of_chunks: chunks, checksum: "cafe".to_string(), buffer_size, permissions: None }
}

#[test]
fn session_places_chunks_by_offset() {
    let (sender, mut receiver) = unbounded_channel();
    let mut session = DownloadSession::new(described(3, 4096), 2, sender).unwrap();
    assert_eq!(session.start().progress(), Ok(ProgressCheck::Requested(2)));
    assert_eq!(requested(&mut receiver), vec![pull(0), pull(1)]);
    assert!(session.expects(1));
    assert!(!session.expects(2));

    let chunk = DownloadResponse::Chunk(SharedFileChunk { offset: 1, data: vec![7, 8] });
    assert_eq!(session.receive(chunk), DownloadAction::WriteChunk { offset: 1, position: 4096, data: vec![7, 8] });
    assert_eq!(session.chunk_written(1).progress(), Ok(ProgressCheck::Requested(1)));
    assert_eq!(requested(&mut receiver), vec![pull(2)]);

    let chunk = DownloadResponse::Chunk(SharedFileChunk { offset: 0, data: vec![1] });
    assert_eq!(session.receive(chunk), DownloadAction::WriteChunk { offset: 0, position: 0, data: vec![1] });
    assert_eq!(session.chunk_written(0).progress(), Ok(ProgressCheck::Requested(0)));
    let chunk = DownloadResponse::Chunk(SharedFileChunk { offset: 2, data: vec![] });
    assert_eq!(session.receive(chunk), DownloadAction::WriteChunk { offset: 2, position: 8192, data: vec![] });
    assert_eq!(session.chunk_written(2).progress(), Ok(ProgressCheck::Complete));
    assert_eq!(requested(&mut receiver), vec![DownloadRequest::Complete]);

    assert!(session.checksum_matches(&"cafe".to_string()));
    assert!(!session.checksum_matches(&"c0ffee".to_string()));
}

#[test]
fn session_rejects_what_breaks_the_protocol() {
    let (sender, _receiver) = unbounded_channel();
    let mut session = DownloadSession::new(described(3, u64::MAX), 3, sender).unwrap();
    session.start().progress().unwrap();
    assert_eq!(
        session.receive(DownloadResponse::Initiated(described(3, 1))),
        DownloadAction::Reject(Rejection::InitiatedTwice)
    );
    let stray = DownloadResponse::Chunk(SharedFileChunk { offset: 3, data: vec![] });
    assert_eq!(session.receive(stray), DownloadAction::Reject(Rejection::NotInFlight));
    let far = DownloadResponse::Chunk(SharedFileChunk { offset: 2, data: vec![] });
    assert_eq!(session.receive(far), DownloadAction::Reject(Rejection::OutOfRange));
    let near = DownloadResponse::Chunk(SharedFileChunk { offset: 1, data: vec![] });
    assert_eq!(session.receive(near), DownloadAction::WriteChunk { offset: 1, position: u64::MAX, data: vec![] });
    session.chunk_written(1).progress().unwrap();
    let again = DownloadResponse::Chunk(SharedFileChunk { offset: 1, data: vec![] });
    assert_eq!(session.receive(again), DownloadAction::Reject(Rejection::NotInFlight));

    assert_eq!(Rejection::InitiatedTwice.message(), "Download should only be initiated once");
    assert_eq!(Rejection::NotInFlight.message(), "Chunk was not being downloaded");
    assert_eq!(Rejection::OutOfRange.message(), "Chunk lies beyond the end of any file");
}

#[test]
fn checksum_is_the_sha256_in_hexadecimal() {
    assert_eq!(compute_hash(b"abc"), "ba7816bf8f01cfea414140de5dae2223b00361a396177a9cb410ff61f20015ad");
    assert_eq!(compute_hash(b""), "e3b0c44298fc1c149afbf4c8996fb92427ae41e4649b934ca495991b7852b855");
    assert_eq!(compute_hash(b"hello world"), "b94d27b9934d3e08a52e52d7da7dabfac484efe37a5380ee9088f7ace2efcde9");
    let digest = "ba7816bf8f01cfea414140de5dae2223b00361a396177a9cb410ff61f20015ad".to_string();
    assert!(verify_checksum(b"abc", &digest));
    assert!(!verify_checksum(b"abd", &digest));
    assert!(checksum_matches(&digest, &compute_hash(b"abc")));
    assert!(!checksum_matches(&digest, &digest.to_uppercase()));
}

#[test]
fn chunks_are_counted_by_rounding_up() {
    assert_eq!(div_ceil(0, 4096), 0);
    assert_eq!(div_ceil(1, 4096), 1);
    assert_eq!(div_ceil(4096, 4096), 1);
    assert_eq!(div_ceil(4097, 4096), 2);
    assert_eq!(div_ceil(10, 3), 4);
    assert_eq!(div_ceil(9, 3), 3);
    assert_eq!(div_ceil(7, 1), 7);
    assert_eq!(div_ceil(u64::MAX - 1, 1), u64::MAX - 1);
    assert_eq!(number_of_chunks(40960, 4096), Some(10));
    assert_eq!(number_of_chunks(40961, 4096), Some(11));
    assert_eq!(number_of_chunks(0, 16384), Some(0));
    assert_eq!(number_of_chunks(5, 0), None);
    assert_eq!(number_of_chunks(u64::MAX, 1), None);
    assert_eq!(number_of_chunks(u64::MAX - 1, 1), Some(u64::MAX - 1));
    assert_eq!(number_of_chunks(1, u64::MAX), None);
    assert_eq!(number_of_chunks(0, u64::MAX), Some(0));
}

#[test]
fn chunk_positions_are_multiples_of_the_buffer_size() {
    assert_eq!(chunk_position(0, 4096), Some(0));
    assert_eq!(chunk_position(3, 4096), Some(12288));
    assert_eq!(chunk_position(7, 0), Some(0));
    assert_eq!(chunk_position(u64::MAX, 1), Some(u64::MAX));
    assert_eq!(chunk_position(u64::MAX, 2), None);
    assert_eq!(chunk_position(1 << 32, 1 << 32), None);
}

fn upload_wish(buffer_size: Option<u64>) -> UploadRequested {
    UploadRequested { download_device: "laptop".to_string(), relative_path: "a/b.bin".to_string(), buffer_size }
}

#[test]
fn upload_is_offered_in_chunks() {
    assert_eq!(DEFAULT_BUFFER_SIZE, 4096);
    assert_eq!(buffer_size_of(&upload_wish(None)), 4096);
    assert_eq!(buffer_size_of(&upload_wish(Some(16384))), 16384);
    let message =
        initiate_upload(&"W".to_string(), &"desktop".to_string(), &upload_wish(None), 10000, "c0de".to_string());
    assert_eq!(
        message,
        Some(InitiateUpload {
            workspace: "W".to_string(),
            download_device: "laptop".to_string(),
            upload_device: "desktop".to_string(),
            relative_path: "a/b.bin".to_string(),
            buffer_size: 4096,
            checksum: "c0de".to_string(),
            number_of_chunks: 3,
            permissions: None,
        })
    );
    let message =
        initiate_upload(&"W".to_string(), &"desktop".to_string(), &upload_wish(Some(16384)), 16384, String::new());
    assert_eq!(message.unwrap().number_of_chunks, 1);
    let none = initiate_upload(&"W".to_string(), &"desktop".to_string(), &upload_wish(Some(0)), 10, String::new());
    assert_eq!(none, None);
    let none =
        initiate_upload(&"W".to_string(), &"desktop".to_string(), &upload_wish(Some(2)), u64::MAX, String::new());
    assert_eq!(none, None);
}

#[test]
fn uploader_answers_requests_until_complete() {
    assert_eq!(
        upload_action(&UploadResponse::Request { offset: 3 }, 4096, 40960),
        Some(UploadAction::SendChunk { offset: 3, position: 12288, length: 4096 })
    );
    assert_eq!(
        upload_action(&UploadResponse::Request { offset: 0 }, 16384, 16384),
        Some(UploadAction::SendChunk { offset: 0, position: 0, length: 16384 })
    );
    assert_eq!(upload_action(&UploadResponse::Request { offset: u64::MAX }, 2, u64::MAX), None);
    assert_eq!(upload_action(&UploadResponse::Complete, 4096, 0), Some(UploadAction::Finish));
    assert_eq!(
        chunk_message(3, vec![1, 2, 3]),
        UploadRequest::Chunk(SharedFileChunk { offset: 3, data: vec![1, 2, 3] })
    );
}

#[test]
fn last_chunk_ends_with_the_file() {
    // a file of 5 bytes in chunks of 4
    assert_eq!(number_of_chunks(5, 4), Some(2));
    assert_eq!(
        upload_action(&UploadResponse::Request { offset: 0 }, 4, 5),
        Some(UploadAction::SendChunk { offset: 0, position: 0, length: 4 })
    );
    assert_eq!(
        upload_action(&UploadResponse::Request { offset: 1 }, 4, 5),
        Some(UploadAction::SendChunk { offset: 1, position: 4, length: 1 })
    );
    // there is no chunk at or beyond the end of the file
    assert_eq!(upload_action(&UploadResponse::Request { offset: 2 }, 4, 5), None);
    assert_eq!(upload_action(&UploadResponse::Request { offset: 1 }, 4, 4), None);
    assert_eq!(upload_action(&UploadResponse::Request { offset: 0 }, 4, 0), None);
    assert_eq!(
        upload_action(&UploadResponse::Request { offset: 1 }, 4, 8),
        Some(UploadAction::SendChunk { offset: 1, position: 4, length: 4 })
    );
    assert_eq!(
        upload_action(&UploadResponse::Request { offset: 2 }, 4, 11),
        Some(UploadAction::SendChunk { offset: 2, position: 8, length: 3 })
    );
}

#[test]
fn chunks_carry_the_bytes_of_the_file() {
    let file = [10u8, 20, 30, 40, 50];
    assert_eq!(
        upload_step(&UploadResponse::Request { offset: 0 }, &file, 4),
        Some(UploadStep::Send(UploadRequest::Chunk(SharedFileChunk { offset: 0, data: vec![10, 20, 30, 40] })))
    );
    assert_eq!(
        upload_step(&UploadResponse::Request { offset: 1 }, &file, 4),
        Some(UploadStep::Send(UploadRequest::Chunk(SharedFileChunk { offset: 1, data: vec![50] })))
    );
    assert_eq!(upload_step(&UploadResponse::Request { offset: 2 }, &file, 4), None);
    assert_eq!(upload_step(&UploadResponse::Complete, &file, 4), Some(UploadStep::Finish));
    assert_eq!(upload_step(&UploadResponse::Request { offset: 0 }, &[], 4), None);
}

#[test]
fn uploaded_chunks_reassemble_to_the_file() {
    let file: Vec<u8> = (0..=22u8).collect();
    for buffer_size in [1u64, 4, 5, 22, 23, 24, 100] {
        let chunks = number_of_chunks(file.len() as u64, buffer_size).unwrap();
        let mut received = vec![0u8; 0];
        for offset in 0..chunks {
            match upload_step(&UploadResponse::Request { offset }, &file, buffer_size) {
                Some(UploadStep::Send(UploadRequest::Chunk(chunk))) => {
                    assert_eq!(chunk.offset, offset);
                    // written where the downloader writes it
                    let position = chunk_position(offset, buffer_size).unwrap() as usize;
                    assert_eq!(position, received.len());
                    received.extend_from_slice(&chunk.data);
                }
                _ => panic!("the chunk at {} is missing", offset),
            }
        }
        assert_eq!(received, file);
        assert_eq!(compute_hash(&received), compute_hash(&file));
        assert_eq!(upload_step(&UploadResponse::Request { offset: chunks }, &file, buffer_size), None);
    }
}
