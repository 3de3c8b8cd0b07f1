use sinnergasm::download_manager::{DownloadEvent, DownloadKey};
use sinnergasm::messages::{
    ControlRequest, Device, DownloadRequest, InitiateDownload, InitiateUpload, Monitor, SharedFile, SharedFileChunk,
    UploadRequest, Workspace, WorkspaceEvent,
};
use sinnergasm::simulate::SimulationEvent;
use sinnergasm::workspace::SubscriptionEvent;
use sinnergasm::workspace_server::{
    accepted, download_event_for, open_control, the_workspace, upload_event_for, RelayOutcome, RpcError, StatusKind,
    WorkspaceServer,
};
use tokio::sync::mpsc::error::TryRecvError;
use tokio::sync::mpsc::{unbounded_channel, UnboundedReceiver};

fn s(text: &str) -> String {
    text.to_string()
}

struct Inboxes {
    broker: UnboundedReceiver<SubscriptionEvent>,
    router: UnboundedReceiver<SimulationEvent<u32>>,
    pairing: UnboundedReceiver<DownloadEvent>,
}

fn server() -> (WorkspaceServer<u32>, Inboxes) {
    let (broker_tx, broker) = unbounded_channel();
    let (router_tx, router) = unbounded_channel();
    let (pairing_tx, pairing) = unbounded_channel();
    (WorkspaceServer::new(broker_tx, router_tx, pairing_tx), Inboxes { broker, router, pairing })
}

/// Whether a message that followed the first was forwarded, and taken.
fn forwarded(outcome: RelayOutcome) -> Option<bool> {
    match outcome {
        RelayOutcome::Forwarded(receipt) => Some(receipt.delivered()),
        _ => None,
    }
}

fn key() -> DownloadKey {
    DownloadKey {
        workspace: s("W"),
        download_device: s("laptop"),
        upload_device: s("desktop"),
        relative_path: s("a.txt"),
    }
}

fn wish() -> InitiateDownload {
    InitiateDownload {
        workspace: s("W"),
        download_device: s("laptop"),
        upload_device: s("desktop"),
        relative_path: s("a.txt"),
        buffer_size: Some(8),
    }
}

fn offer() -> InitiateUpload {
    InitiateUpload {
        workspace: s("W"),
        download_device: s("laptop"),
        upload_device: s("desktop"),
        relative_path: s("a.txt"),
        buffer_size: 16384,
        checksum: s("c0de"),
        number_of_chunks: 2,
        permissions: None,
    }
}

#[test]
fn server_describes_its_workspace() {
    let expected = Workspace {
        name: s("The Workspace"),
        controller: s("desktop"),
        target: s(""),
        devices: vec![
            Device {
                name: s("desktop"),
                controller: true,
                files: vec![SharedFile { relative_path: s("simulate"), size: None }],
            },
            Device { name: s("laptop"), controller: false, files: vec![] },
        ],
        monitors: vec![
            Monitor { name: s("left"), x: 0, y: 0, w: 1920, h: 1080, device: s("desktop") },
            Monitor { name: s("middle"), x: 1920, y: 0, w: 1920, h: 1200, device: s("desktop") },
            Monitor { name: s("right"), x: 3840, y: 0, w: 1920, h: 1080, device: s("desktop") },
        ],
    };
    assert_eq!(the_workspace(), expected);
    let (server, _inboxes) = server();
    assert_eq!(*server.get_workspace(), expected);
}

#[test]
fn target_request_goes_to_router_then_broker() {
    let (server, mut inboxes) = server();
    let posting = server.target_device(s("W"), s("laptop"), Some(s("clip")));
    assert!(posting.router.delivered());
    assert!(posting.broker.as_ref().unwrap().delivered());
    assert_eq!(posting.reply(), Ok(()));
    match inboxes.router.try_recv() {
        Ok(SimulationEvent::TargetEvent(workspace, device)) => assert_eq!((workspace, device), (s("W"), s("laptop"))),
        _ => panic!("the router was not asked"),
    }
    match inboxes.broker.try_recv() {
        Ok(SubscriptionEvent::TargetEvent(workspace, device, clipboard)) => {
            assert_eq!((workspace, device, clipboard), (s("W"), s("laptop"), Some(s("clip"))))
        }
        _ => panic!("the broker was not asked"),
    }
    assert!(inboxes.pairing.try_recv().is_err());
}

#[test]
fn stopped_router_fails_the_target_request_before_the_broker() {
    let (server, mut inboxes) = server();
    inboxes.router.close();
    let posting = server.target_device(s("W"), s("laptop"), None);
    assert!(!posting.router.delivered());
    assert!(posting.broker.is_none());
    assert_eq!(posting.reply(), Err(RpcError::ActorStopped));
    assert!(matches!(inboxes.broker.try_recv(), Err(TryRecvError::Empty)));
    assert_eq!(accepted(&server.cancel_simulation(s("W"), s("laptop"))), Err(RpcError::ActorStopped));
    assert_eq!(accepted(&server.simulate_workspace(s("W"), s("laptop")).0), Err(RpcError::ActorStopped));
    let relayed = server.relay_control(Some(ControlRequest::InputEvent(1))).ok().unwrap();
    assert_eq!(accepted(&relayed), Err(RpcError::ActorStopped));
}

#[test]
fn stopped_broker_fails_its_calls() {
    let (server, mut inboxes) = server();
    inboxes.broker.close();
    let posting = server.target_device(s("W"), s("laptop"), None);
    assert!(posting.router.delivered());
    assert!(!posting.broker.as_ref().unwrap().delivered());
    assert_eq!(posting.reply(), Err(RpcError::ActorStopped));
    assert!(matches!(inboxes.router.try_recv(), Ok(SimulationEvent::TargetEvent(_, _))));
    assert_eq!(accepted(&server.cancel_subscription(s("W"), s("laptop"))), Err(RpcError::ActorStopped));
    assert_eq!(accepted(&server.subscribe_to_workspace(s("W"), s("laptop")).0), Err(RpcError::ActorStopped));
    let opening = server.open_download(Some(DownloadRequest::Initiate(wish()))).ok().unwrap();
    assert!(opening.session.delivered());
    assert!(!opening.request.as_ref().unwrap().delivered());
    assert_eq!(opening.reply(), Err(RpcError::ActorStopped));
}

#[test]
fn cancellations_become_removals() {
    let (server, mut inboxes) = server();
    assert_eq!(accepted(&server.cancel_simulation(s("W"), s("laptop"))), Ok(()));
    assert_eq!(accepted(&server.cancel_subscription(s("W"), s("tablet"))), Ok(()));
    match inboxes.router.try_recv() {
        Ok(SimulationEvent::RemoveSimulator(workspace, device)) => {
            assert_eq!((workspace, device), (s("W"), s("laptop")))
        }
        _ => panic!("the router was not asked"),
    }
    match inboxes.broker.try_recv() {
        Ok(SubscriptionEvent::Unsubscribe(workspace, device)) => assert_eq!((workspace, device), (s("W"), s("tablet"))),
        _ => panic!("the broker was not asked"),
    }
}

#[test]
fn subscription_registers_the_sending_end() {
    let (server, mut inboxes) = server();
    let (receipt, mut events) = server.subscribe_to_workspace(s("W"), s("laptop"));
    assert_eq!(accepted(&receipt), Ok(()));
    match inboxes.broker.try_recv() {
        Ok(SubscriptionEvent::Subscribe(workspace, device, sink)) => {
            assert_eq!((workspace, device), (s("W"), s("laptop")));
            sink.send(WorkspaceEvent::TargetUpdate { device: s("desktop") }).unwrap();
        }
        _ => panic!("the broker was not asked"),
    }
    assert_eq!(events.try_recv(), Ok(WorkspaceEvent::TargetUpdate { device: s("desktop") }));

    let (receipt, mut input) = server.simulate_workspace(s("W"), s("laptop"));
    assert_eq!(accepted(&receipt), Ok(()));
    match inboxes.router.try_recv() {
        Ok(SimulationEvent::AddSimulator(workspace, device, sink)) => {
            assert_eq!((workspace, device), (s("W"), s("laptop")));
            sink.send(42).unwrap();
        }
        _ => panic!("the router was not asked"),
    }
    assert_eq!(input.try_recv(), Ok(42));
}

#[test]
fn control_stream_has_to_name_its_workspace_first() {
    let first: Option<ControlRequest<u32>> = Some(ControlRequest::Workspace { workspace: s("W"), device: s("desktop") });
    assert_eq!(open_control(first), Ok((s("W"), s("desktop"))));
    assert_eq!(open_control(Some(ControlRequest::InputEvent(1u32))), Err(RpcError::NoMessagesInControlStream));
    assert_eq!(open_control::<u32>(None), Err(RpcError::NoMessagesInControlStream));
}

#[test]
fn control_stream_carries_input_for_the_servers_workspace() {
    let (server, mut inboxes) = server();
    let relayed = server.relay_control(Some(ControlRequest::InputEvent(9))).ok().unwrap();
    assert_eq!(accepted(&relayed), Ok(()));
    match inboxes.router.try_recv() {
        Ok(SimulationEvent::SimulationEvent(workspace, event)) => assert_eq!((workspace, event), (s("The Workspace"), 9)),
        _ => panic!("the router was not asked"),
    }
    let again = ControlRequest::Workspace { workspace: s("W"), device: s("desktop") };
    assert!(matches!(server.relay_control(Some(again)), Err(RpcError::InvalidControlMessage)));
    assert!(matches!(server.relay_control(None), Err(RpcError::InvalidControlMessage)));
    assert!(inboxes.router.try_recv().is_err());
}

#[test]
fn download_stream_has_to_start_with_initiate() {
    let (server, mut inboxes) = server();
    assert!(matches!(
        server.open_download(Some(DownloadRequest::Request { offset: 0 })),
        Err(RpcError::FirstMessageMustBeInitiate)
    ));
    assert!(matches!(server.open_download(Some(DownloadRequest::Complete)), Err(RpcError::FirstMessageMustBeInitiate)));
    assert!(matches!(server.open_download(None), Err(RpcError::FirstMessageMustBeInitiate)));
    assert!(inboxes.pairing.try_recv().is_err());
    assert!(inboxes.broker.try_recv().is_err());
}

#[test]
fn download_stream_creates_a_session_and_asks_the_uploader() {
    let (server, mut inboxes) = server();
    let opening = server.open_download(Some(DownloadRequest::Initiate(wish()))).ok().unwrap();
    assert_eq!(opening.key, key());
    assert_eq!(opening.reply(), Ok(()));
    match inboxes.pairing.try_recv() {
        Ok(DownloadEvent::CreateConnection(created, _)) => assert_eq!(created, key()),
        _ => panic!("the pairing actor was not asked"),
    }
    match inboxes.broker.try_recv() {
        Ok(SubscriptionEvent::DownloadRequested(workspace, initiate)) => {
            assert_eq!(workspace, s("W"));
            assert_eq!(initiate, wish());
        }
        _ => panic!("the broker was not asked"),
    }
}

#[test]
fn download_stream_relays_requests_and_completion() {
    let (server, mut inboxes) = server();
    let pull = server.relay_download_request(&key(), Some(DownloadRequest::Request { offset: 4 }));
    assert_eq!(forwarded(pull), Some(true));
    match inboxes.pairing.try_recv() {
        Ok(DownloadEvent::RequestFileChunk(relayed, offset)) => assert_eq!((relayed, offset), (key(), 4)),
        _ => panic!("the pairing actor was not asked"),
    }
    let done = server.relay_download_request(&key(), Some(DownloadRequest::Complete));
    assert_eq!(forwarded(done), Some(true));
    assert!(matches!(inboxes.pairing.try_recv(), Ok(DownloadEvent::DownloadComplete(relayed)) if relayed == key()));
    let again = server.relay_download_request(&key(), Some(DownloadRequest::Initiate(wish())));
    assert!(matches!(again, RelayOutcome::RepeatedInitiate));
    assert!(matches!(server.relay_download_request(&key(), None), RelayOutcome::Invalid));
    assert!(inboxes.pairing.try_recv().is_err());
    inboxes.pairing.close();
    let late = server.relay_download_request(&key(), Some(DownloadRequest::Complete));
    assert_eq!(forwarded(late), Some(false));
}

#[test]
fn upload_stream_connects_and_relays_chunks() {
    let (server, mut inboxes) = server();
    assert!(matches!(
        server.open_upload(Some(UploadRequest::Chunk(SharedFileChunk { offset: 0, data: vec![] }))),
        Err(RpcError::FirstMessageMustBeInitiate)
    ));
    assert!(matches!(server.open_upload(None), Err(RpcError::FirstMessageMustBeInitiate)));
    assert!(inboxes.pairing.try_recv().is_err());

    let opening = server.open_upload(Some(UploadRequest::Initiate(offer()))).ok().unwrap();
    assert_eq!(opening.key, key());
    assert_eq!(accepted(&opening.connection), Ok(()));
    match inboxes.pairing.try_recv() {
        Ok(DownloadEvent::ConnectUploader(connected, _, initiate)) => {
            assert_eq!(connected, key());
            assert_eq!(initiate, offer());
        }
        _ => panic!("the pairing actor was not asked"),
    }
    let chunk = SharedFileChunk { offset: 1, data: vec![5, 6] };
    assert_eq!(forwarded(server.relay_upload_request(&key(), Some(UploadRequest::Chunk(chunk)))), Some(true));
    match inboxes.pairing.try_recv() {
        Ok(DownloadEvent::SendFileChunk(relayed, chunk)) => {
            assert_eq!(relayed, key());
            assert_eq!(chunk, SharedFileChunk { offset: 1, data: vec![5, 6] });
        }
        _ => panic!("the pairing actor was not asked"),
    }
    let again = server.relay_upload_request(&key(), Some(UploadRequest::Initiate(offer())));
    assert!(matches!(again, RelayOutcome::RepeatedInitiate));
    assert!(matches!(server.relay_upload_request(&key(), None), RelayOutcome::Invalid));
    inboxes.pairing.close();
    let refused = server.open_upload(Some(UploadRequest::Initiate(offer()))).ok().unwrap();
    assert_eq!(accepted(&refused.connection), Err(RpcError::ActorStopped));
}

#[test]
fn stream_messages_become_events() {
    assert!(matches!(
        download_event_for(&key(), Some(DownloadRequest::Request { offset: 2 })),
        Some(DownloadEvent::RequestFileChunk(relayed, 2)) if relayed == key()
    ));
    assert!(matches!(
        download_event_for(&key(), Some(DownloadRequest::Complete)),
        Some(DownloadEvent::DownloadComplete(relayed)) if relayed == key()
    ));
    assert!(download_event_for(&key(), Some(DownloadRequest::Initiate(wish()))).is_none());
    assert!(download_event_for(&key(), None).is_none());
    assert!(upload_event_for(&key(), Some(UploadRequest::Initiate(offer()))).is_none());
    assert!(upload_event_for(&key(), None).is_none());
}

#[test]
fn errors_have_a_kind_and_words() {
    assert_eq!(RpcError::ActorStopped.kind(), StatusKind::Unknown);
    assert_eq!(RpcError::FirstMessageMustBeInitiate.kind(), StatusKind::Aborted);
    assert_eq!(RpcError::NoMessagesInControlStream.kind(), StatusKind::Aborted);
    assert_eq!(RpcError::InvalidControlMessage.kind(), StatusKind::Aborted);
    assert_eq!(RpcError::ActorStopped.message(), "channel closed");
    assert_eq!(RpcError::FirstMessageMustBeInitiate.message(), "First message must be initiate");
    assert_eq!(RpcError::NoMessagesInControlStream.message(), "No messages in control stream");
    assert_eq!(RpcError::InvalidControlMessage.message(), "Invalid control message");
}
