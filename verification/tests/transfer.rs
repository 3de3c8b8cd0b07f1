use sinnergasm::download_manager::{DownloadEvent, DownloadKey, DownloadsActor, TransferOutcome};
use sinnergasm::messages::{
    DownloadInitiated, DownloadResponse, InitiateDownload, InitiateUpload, SharedFileChunk, UploadResponse,
};
use tokio::sync::mpsc::error::TryRecvError;
use tokio::sync::mpsc::unbounded_channel;

fn key(path: &str) -> DownloadKey {
    DownloadKey {
        workspace: "W".to_string(),
        download_device: "laptop".to_string(),
        upload_device: "desktop".to_string(),
        relative_path: path.to_string(),
    }
}

fn offer(path: &str) -> InitiateUpload {
    InitiateUpload {
        workspace: "W".to_string(),
        download_device: "laptop".to_string(),
        upload_device: "desktop".to_string(),
        relative_path: path.to_string(),
        buffer_size: 4096,
        checksum: "abc123".to_string(),
        number_of_chunks: 10,
        permissions: Some(0o644),
    }
}

#[test]
fn keys_are_taken_from_the_first_messages() {
    let upload = DownloadKey::new(&offer("a.txt"));
    assert_eq!(upload, key("a.txt"));
    let download = DownloadKey::new2(&InitiateDownload {
        workspace: "W".to_string(),
        download_device: "laptop".to_string(),
        upload_device: "desktop".to_string(),
        relative_path: "a.txt".to_string(),
        buffer_size: None,
    });
    assert_eq!(download, key("a.txt"));
    assert!(upload.same(&download));
    assert!(!upload.same(&key("b.txt")));
    assert_eq!(upload.clone(), upload);
}

#[test]
fn transfer_is_paired_and_relayed() {
    let mut actor = DownloadsActor::default();
    let (down_tx, mut down_rx) = unbounded_channel();
    let (up_tx, mut up_rx) = unbounded_channel();

    assert!(matches!(actor.receive(DownloadEvent::CreateConnection(key("a.txt"), down_tx)), TransferOutcome::Created));
    assert!(actor.has_session(&key("a.txt")));
    assert_eq!(actor.len(), 1);
    assert_eq!(down_rx.try_recv(), Err(TryRecvError::Empty));

    // no uploader yet
    assert!(matches!(actor.receive(DownloadEvent::RequestFileChunk(key("a.txt"), 0)), TransferOutcome::NoUploader));

    assert!(matches!(
        actor.receive(DownloadEvent::ConnectUploader(key("a.txt"), up_tx, offer("a.txt"))),
        TransferOutcome::Paired(receipt) if receipt.delivered()
    ));
    assert_eq!(
        down_rx.try_recv(),
        Ok(DownloadResponse::Initiated(DownloadInitiated {
            number_of_chunks: 10,
            checksum: "abc123".to_string(),
            buffer_size: 4096,
            permissions: Some(0o644),
        }))
    );

    assert!(matches!(
        actor.receive(DownloadEvent::RequestFileChunk(key("a.txt"), 7)),
        TransferOutcome::RequestRelayed(receipt) if receipt.delivered()
    ));
    assert_eq!(up_rx.try_recv(), Ok(UploadResponse::Request { offset: 7 }));

    let chunk = SharedFileChunk { offset: 7, data: vec![1, 2, 3] };
    assert!(matches!(
        actor.receive(DownloadEvent::SendFileChunk(key("a.txt"), chunk)),
        TransferOutcome::ChunkRelayed(receipt) if receipt.delivered()
    ));
    assert_eq!(down_rx.try_recv(), Ok(DownloadResponse::Chunk(SharedFileChunk { offset: 7, data: vec![1, 2, 3] })));

    assert!(matches!(
        actor.receive(DownloadEvent::DownloadComplete(key("a.txt"))),
        TransferOutcome::Completed(receipt) if receipt.delivered()
    ));
    assert_eq!(up_rx.try_recv(), Ok(UploadResponse::Complete));
    assert!(!actor.has_session(&key("a.txt")));
    assert_eq!(actor.len(), 0);
}

#[test]
fn completed_session_cannot_be_used_again() {
    let mut actor = DownloadsActor::default();
    let (down_tx, mut down_rx) = unbounded_channel();
    let (up_tx, mut up_rx) = unbounded_channel();
    actor.create_connection(key("a.txt"), down_tx);
    actor.connect_uploader(&key("a.txt"), up_tx, &offer("a.txt"));
    let _ = down_rx.try_recv();
    assert!(matches!(actor.complete(&key("a.txt")), TransferOutcome::Completed(receipt) if receipt.delivered()));
    assert_eq!(up_rx.try_recv(), Ok(UploadResponse::Complete));

    assert!(matches!(actor.relay_chunk_request(&key("a.txt"), 3), TransferOutcome::NoConnection));
    assert!(matches!(
        actor.relay_chunk(&key("a.txt"), SharedFileChunk { offset: 3, data: vec![9] }),
        TransferOutcome::NoConnection
    ));
    assert!(matches!(actor.complete(&key("a.txt")), TransferOutcome::NoConnection));
    // the sinks of the finished session were dropped with it
    assert_eq!(up_rx.try_recv(), Err(TryRecvError::Disconnected));
    assert_eq!(down_rx.try_recv(), Err(TryRecvError::Disconnected));
    assert!(!actor.has_session(&key("a.txt")));
}

#[test]
fn uploader_without_session_is_ignored() {
    let mut actor = DownloadsActor::default();
    let (other_tx, mut other_rx) = unbounded_channel();
    actor.create_connection(key("other.txt"), other_tx);
    let (up_tx, mut up_rx) = unbounded_channel();
    let outcome = actor.receive(DownloadEvent::ConnectUploader(key("a.txt"), up_tx, offer("a.txt")));
    assert!(matches!(outcome, TransferOutcome::NoConnection));
    assert!(!actor.has_session(&key("a.txt")));
    assert_eq!(actor.len(), 1);
    assert_eq!(other_rx.try_recv(), Err(TryRecvError::Empty));
    // the uploader's sink was not kept
    assert_eq!(up_rx.try_recv(), Err(TryRecvError::Disconnected));
}

#[test]
fn second_create_keeps_the_first_downloader() {
    let mut actor = DownloadsActor::default();
    let (first_tx, mut first_rx) = unbounded_channel();
    let (second_tx, mut second_rx) = unbounded_channel();
    let (up_tx, _up_rx) = unbounded_channel();
    assert!(matches!(actor.create_connection(key("a.txt"), first_tx), TransferOutcome::Created));
    assert!(matches!(actor.create_connection(key("a.txt"), second_tx), TransferOutcome::AlreadyConnected));
    assert_eq!(actor.len(), 1);
    actor.connect_uploader(&key("a.txt"), up_tx, &offer("a.txt"));
    assert!(matches!(first_rx.try_recv(), Ok(DownloadResponse::Initiated(_))));
    assert_eq!(second_rx.try_recv(), Err(TryRecvError::Disconnected));
}

#[test]
fn second_uploader_is_ignored() {
    let mut actor = DownloadsActor::default();
    let (down_tx, mut down_rx) = unbounded_channel();
    let (first_tx, mut first_rx) = unbounded_channel();
    let (second_tx, mut second_rx) = unbounded_channel();
    actor.create_connection(key("a.txt"), down_tx);
    assert!(matches!(
        actor.connect_uploader(&key("a.txt"), first_tx, &offer("a.txt")),
        TransferOutcome::Paired(receipt) if receipt.delivered()
    ));
    assert!(matches!(
        actor.connect_uploader(&key("a.txt"), second_tx, &offer("a.txt")),
        TransferOutcome::AlreadyPaired
    ));
    assert!(matches!(down_rx.try_recv(), Ok(DownloadResponse::Initiated(_))));
    assert_eq!(down_rx.try_recv(), Err(TryRecvError::Empty));
    actor.relay_chunk_request(&key("a.txt"), 1);
    assert_eq!(first_rx.try_recv(), Ok(UploadResponse::Request { offset: 1 }));
    assert_eq!(second_rx.try_recv(), Err(TryRecvError::Disconnected));
}

#[test]
fn closed_sinks_change_nothing_in_the_pairing_actor() {
    let mut actor = DownloadsActor::default();
    let (down_tx, down_rx) = unbounded_channel();
    let (up_tx, up_rx) = unbounded_channel();
    actor.create_connection(key("a.txt"), down_tx);
    drop(down_rx);
    assert!(matches!(
        actor.connect_uploader(&key("a.txt"), up_tx, &offer("a.txt")),
        TransferOutcome::Paired(receipt) if !receipt.delivered()
    ));
    drop(up_rx);
    assert!(matches!(
        actor.relay_chunk_request(&key("a.txt"), 0),
        TransferOutcome::RequestRelayed(receipt) if !receipt.delivered()
    ));
    assert!(matches!(
        actor.relay_chunk(&key("a.txt"), SharedFileChunk { offset: 0, data: vec![] }),
        TransferOutcome::ChunkRelayed(receipt) if !receipt.delivered()
    ));
    assert!(actor.has_session(&key("a.txt")));
    assert!(matches!(actor.complete(&key("a.txt")), TransferOutcome::Completed(receipt) if !receipt.delivered()));
    assert!(!actor.has_session(&key("a.txt")));
}

#[test]
fn completion_without_uploader_removes_the_session() {
    let mut actor = DownloadsActor::default();
    let (down_tx, _down_rx) = unbounded_channel();
    actor.create_connection(key("a.txt"), down_tx);
    assert!(matches!(actor.complete(&key("a.txt")), TransferOutcome::CompletedUnpaired));
    assert!(!actor.has_session(&key("a.txt")));
}

#[test]
fn shutdown_drops_every_session() {
    let mut actor = DownloadsActor::default();
    let (a_tx, mut a_rx) = unbounded_channel();
    let (b_tx, mut b_rx) = unbounded_channel();
    actor.create_connection(key("a.txt"), a_tx);
    actor.create_connection(key("b.txt"), b_tx);
    assert_eq!(actor.len(), 2);
    assert!(matches!(actor.receive(DownloadEvent::ApplicationClosing), TransferOutcome::Closed));
    assert_eq!(actor.len(), 0);
    assert_eq!(a_rx.try_recv(), Err(TryRecvError::Disconnected));
    assert_eq!(b_rx.try_recv(), Err(TryRecvError::Disconnected));
}

#[test]
fn sessions_are_told_apart_by_every_part_of_the_key() {
    let mut actor = DownloadsActor::default();
    let (a_tx, _a_rx) = unbounded_channel();
    actor.create_connection(key("a.txt"), a_tx);
    let mut other = key("a.txt");
    other.upload_device = "tablet".to_string();
    assert!(!actor.has_session(&other));
    let mut other = key("a.txt");
    other.workspace = "V".to_string();
    assert!(!actor.has_session(&other));
    let mut other = key("a.txt");
    other.download_device = "phone".to_string();
    assert!(!actor.has_session(&other));
    assert!(actor.has_session(&key("a.txt")));
}
