//! The transfer pairing actor: it joins a downloader's stream and an
//! uploader's stream by session key and relays chunk requests and chunks
//! between them until the downloader says that it is done.

use vstd::prelude::*;
use tokio::sync::mpsc::UnboundedSender;
use crate::messages::{
    DownloadInitiated, DownloadResponse, InitiateDownload, InitiateUpload, SharedFileChunk, UploadResponse,
};
use crate::sink::{deliver, Receipt};

verus! {

/// The mathematical model of a session key: four names.
pub struct SessionKey {
    pub workspace: Seq<char>,
    pub download_device: Seq<char>,
    pub upload_device: Seq<char>,
    pub relative_path: Seq<char>,
}

/// Identifies one transfer: the workspace, the two devices and the file.
#[derive(Debug, PartialEq, Eq)]
pub struct DownloadKey {
    pub workspace: String,
    pub download_device: String,
    pub upload_device: String,
    pub relative_path: String,
}

impl View for DownloadKey {
    type V = SessionKey;

    open spec fn view(&self) -> SessionKey {
        SessionKey {
            workspace: self.workspace@,
            download_device: self.download_device@,
            upload_device: self.upload_device@,
            relative_path: self.relative_path@,
        }
    }
}

impl Clone for DownloadKey {
    fn clone(&self) -> (copy: Self)
        ensures
            copy == *self,
    {
        DownloadKey {
            workspace: self.workspace.clone(),
            download_device: self.download_device.clone(),
            upload_device: self.upload_device.clone(),
            relative_path: self.relative_path.clone(),
        }
    }
}

impl DownloadKey {
    /// The key of the transfer that an uploader's first message names.
    pub open spec fn key_of_upload(initiate: InitiateUpload) -> SessionKey {
        SessionKey {
            workspace: initiate.workspace@,
            download_device: initiate.download_device@,
            upload_device: initiate.upload_device@,
            relative_path: initiate.relative_path@,
        }
    }

    /// The key of the transfer that a downloader's first message names.
    pub open spec fn key_of_download(initiate: InitiateDownload) -> SessionKey {
        SessionKey {
            workspace: initiate.workspace@,
            download_device: initiate.download_device@,
            upload_device: initiate.upload_device@,
            relative_path: initiate.relative_path@,
        }
    }

    /// The key of the transfer that an uploader's first message names.
    pub fn new(initiate: &InitiateUpload) -> (key: Self)
        ensures
            key@ == Self::key_of_upload(*initiate),
            key.workspace == initiate.workspace,
            key.download_device == initiate.download_device,
            key.upload_device == initiate.upload_device,
            key.relative_path == initiate.relative_path,
    {
        DownloadKey {
            workspace: initiate.workspace.clone(),
            download_device: initiate.download_device.clone(),
            upload_device: initiate.upload_device.clone(),
            relative_path: initiate.relative_path.clone(),
        }
    }

    /// The key of the transfer that a downloader's first message names.
    pub fn new2(initiate: &InitiateDownload) -> (key: Self)
        ensures
            key@ == Self::key_of_download(*initiate),
            key.workspace == initiate.workspace,
            key.download_device == initiate.download_device,
            key.upload_device == initiate.upload_device,
            key.relative_path == initiate.relative_path,
    {
        DownloadKey {
            workspace: initiate.workspace.clone(),
            download_device: initiate.download_device.clone(),
            upload_device: initiate.upload_device.clone(),
            relative_path: initiate.relative_path.clone(),
        }
    }

    /// Whether two keys name the same transfer.
    pub fn same(&self, other: &DownloadKey) -> (equal: bool)
        ensures
            equal == (self@ == other@),
    {
        self.workspace == other.workspace && self.download_device == other.download_device
            && self.upload_device == other.upload_device && self.relative_path == other.relative_path
    }
}

/// One transfer session: the downloader's sink, there from the start, and
/// the uploader's sink, attached when the uploader connects.
pub struct DownloadConnection {
    pub download_sender: UnboundedSender<DownloadResponse>,
    pub upload_sender: Option<UnboundedSender<UploadResponse>>,
}

impl DownloadConnection {
    /// A session that waits for its uploader.
    pub fn new(download_sender: UnboundedSender<DownloadResponse>) -> (connection: Self)
        ensures
            connection == (DownloadConnection { download_sender, upload_sender: None }),
    {
        DownloadConnection { download_sender, upload_sender: None }
    }

    /// Attaches the uploader's sink.
    pub fn set_upload_sender(&mut self, upload_sender: UnboundedSender<UploadResponse>)
        ensures
            *final(self) == old(self).paired_with(upload_sender),
    {
        self.upload_sender = Some(upload_sender);
    }

    /// The session with `upload_sender` attached.
    pub open spec fn paired_with(self, upload_sender: UnboundedSender<UploadResponse>) -> Self {
        DownloadConnection { download_sender: self.download_sender, upload_sender: Some(upload_sender) }
    }
}

/// What the pairing actor is asked to do.
pub enum DownloadEvent {
    /// A downloader has opened its stream.
    CreateConnection(DownloadKey, UnboundedSender<DownloadResponse>),
    /// An uploader has opened its stream.
    ConnectUploader(DownloadKey, UnboundedSender<UploadResponse>, InitiateUpload),
    /// The downloader pulls the chunk at an offset.
    RequestFileChunk(DownloadKey, u64),
    /// The uploader hands over a chunk.
    SendFileChunk(DownloadKey, SharedFileChunk),
    /// The downloader has every chunk.
    DownloadComplete(DownloadKey),
    /// The server shuts down.
    ApplicationClosing,
}

/// What the pairing actor did with an event. A sink that refuses its
/// message changes nothing in the actor.
#[must_use]
pub enum TransferOutcome {
    /// A session was created for the key.
    Created,
    /// The key had a session already: nothing was done.
    AlreadyConnected,
    /// The uploader was attached and the downloader was sent the
    /// description of the transfer.
    Paired(Receipt<DownloadResponse>),
    /// The session had an uploader already: nothing was done.
    AlreadyPaired,
    /// The chunk request was handed to the uploader.
    RequestRelayed(Receipt<UploadResponse>),
    /// The chunk was handed to the downloader.
    ChunkRelayed(Receipt<DownloadResponse>),
    /// The session was removed and the uploader was told that the transfer
    /// is complete.
    Completed(Receipt<UploadResponse>),
    /// The session was removed; no uploader had connected to it.
    CompletedUnpaired,
    /// No session exists for the key: nothing was done and nothing was sent.
    NoConnection,
    /// The session has no uploader yet: nothing was sent.
    NoUploader,
    /// Every session was dropped, without a word to the peers.
    Closed,
}

/// No key occurs twice.
pub open spec fn distinct(keys: Seq<SessionKey>) -> bool {
    forall|i: int, j: int| 0 <= i < j < keys.len() ==> #[trigger] keys[i] != #[trigger] keys[j]
}

/// A place at which `key` stands in `keys`.
pub open spec fn place_of(keys: Seq<SessionKey>, key: SessionKey) -> int {
    choose|i: int| 0 <= i < keys.len() && keys[i] == key
}

/// The map that the parallel sequences `keys` and `connections` stand for.
pub open spec fn sessions_of(keys: Seq<SessionKey>, connections: Seq<DownloadConnection>) -> Map<
    SessionKey,
    DownloadConnection,
> {
    Map::new(|key: SessionKey| keys.contains(key), |key: SessionKey| connections[place_of(keys, key)])
}

/// The sessions after a downloader has asked for a session under `key`: an
/// existing session stays as it is.
pub open spec fn after_create(
    sessions: Map<SessionKey, DownloadConnection>,
    key: SessionKey,
    download_sender: UnboundedSender<DownloadResponse>,
) -> Map<SessionKey, DownloadConnection> {
    if sessions.contains_key(key) {
        sessions
    } else {
        sessions.insert(key, DownloadConnection { download_sender, upload_sender: None })
    }
}

/// The sessions after an uploader has connected under `key`: it is attached
/// to a session that waits for its uploader, and nothing changes otherwise.
pub open spec fn after_pairing(
    sessions: Map<SessionKey, DownloadConnection>,
    key: SessionKey,
    upload_sender: UnboundedSender<UploadResponse>,
) -> Map<SessionKey, DownloadConnection> {
    if sessions.contains_key(key) && sessions[key].upload_sender is None {
        sessions.insert(key, sessions[key].paired_with(upload_sender))
    } else {
        sessions
    }
}

/// The sessions after the downloader of `key` has signalled completion.
pub open spec fn after_complete(sessions: Map<SessionKey, DownloadConnection>, key: SessionKey) -> Map<
    SessionKey,
    DownloadConnection,
> {
    sessions.remove(key)
}

/// Where a chunk request for a key goes.
pub enum RequestRoute {
    /// No session exists for the key.
    NoConnection,
    /// The session has no uploader yet.
    NoUploader,
    /// To the uploader's sink.
    Uploader(UnboundedSender<UploadResponse>),
}

/// Where a chunk request for `key` goes, given the sessions.
pub open spec fn request_route(sessions: Map<SessionKey, DownloadConnection>, key: SessionKey) -> RequestRoute {
    if !sessions.contains_key(key) {
        RequestRoute::NoConnection
    } else {
        match sessions[key].upload_sender {
            Some(sink) => RequestRoute::Uploader(sink),
            None => RequestRoute::NoUploader,
        }
    }
}

/// The message that tells a downloader what the uploader announced in
/// `request`.
pub open spec fn initiated(request: InitiateUpload) -> DownloadResponse {
    DownloadResponse::Initiated(
        DownloadInitiated {
            number_of_chunks: request.number_of_chunks,
            checksum: request.checksum,
            buffer_size: request.buffer_size,
            permissions: request.permissions,
        },
    )
}

/// What the connection of an uploader under `key` may lead to: it is
/// attached to a session that waits for its uploader, and the downloader of
/// that session is handed [`initiated`]. Otherwise nothing happens.
pub open spec fn pairing_result(
    before: Map<SessionKey, DownloadConnection>,
    key: SessionKey,
    upload_sender: UnboundedSender<UploadResponse>,
    request: InitiateUpload,
    outcome: TransferOutcome,
    after: Map<SessionKey, DownloadConnection>,
) -> bool {
    &&& after == after_pairing(before, key, upload_sender)
    &&& match outcome {
        TransferOutcome::NoConnection => request_route(before, key) is NoConnection,
        TransferOutcome::AlreadyPaired => request_route(before, key) is Uploader,
        TransferOutcome::Paired(receipt) => {
            &&& request_route(before, key) is NoUploader
            &&& receipt.sink() == before[key].download_sender
            &&& receipt.message() == initiated(request)
        },
        _ => false,
    }
}

/// What a chunk request for `key` may lead to: it is handed to the uploader
/// of the session, where there is one. The sessions stay as they are.
pub open spec fn chunk_request_result(
    before: Map<SessionKey, DownloadConnection>,
    key: SessionKey,
    offset: u64,
    outcome: TransferOutcome,
) -> bool {
    match outcome {
        TransferOutcome::NoConnection => request_route(before, key) is NoConnection,
        TransferOutcome::NoUploader => request_route(before, key) is NoUploader,
        TransferOutcome::RequestRelayed(receipt) => {
            &&& request_route(before, key) == RequestRoute::Uploader(receipt.sink())
            &&& receipt.message() == UploadResponse::Request { offset }
        },
        _ => false,
    }
}

/// What a chunk for `key` may lead to: it is handed to the downloader of the
/// session, where there is a session. The sessions stay as they are.
pub open spec fn chunk_result(
    before: Map<SessionKey, DownloadConnection>,
    key: SessionKey,
    chunk: SharedFileChunk,
    outcome: TransferOutcome,
) -> bool {
    match outcome {
        TransferOutcome::NoConnection => !before.contains_key(key),
        TransferOutcome::ChunkRelayed(receipt) => {
            &&& before.contains_key(key)
            &&& receipt.sink() == before[key].download_sender
            &&& receipt.message() == DownloadResponse::Chunk(chunk)
        },
        _ => false,
    }
}

/// What the completion of `key` may lead to: the session is removed, and
/// its uploader, where it has one, is told.
pub open spec fn completion_result(
    before: Map<SessionKey, DownloadConnection>,
    key: SessionKey,
    outcome: TransferOutcome,
    after: Map<SessionKey, DownloadConnection>,
) -> bool {
    &&& after == after_complete(before, key)
    &&& match outcome {
        TransferOutcome::NoConnection => request_route(before, key) is NoConnection,
        TransferOutcome::CompletedUnpaired => request_route(before, key) is NoUploader,
        TransferOutcome::Completed(receipt) => {
            &&& request_route(before, key) == RequestRoute::Uploader(receipt.sink())
            &&& receipt.message() == UploadResponse::Complete
        },
        _ => false,
    }
}

/// Sessions are single-use: once the downloader of `key` has signalled
/// completion, a chunk request for `key` finds no session, an uploader that
/// connects under `key` is not attached to anything, and a second
/// completion changes nothing, whatever the sessions were before.
pub proof fn lemma_session_single_use(
    sessions: Map<SessionKey, DownloadConnection>,
    key: SessionKey,
    upload_sender: UnboundedSender<UploadResponse>,
)
    ensures
        !after_complete(sessions, key).contains_key(key),
        request_route(after_complete(sessions, key), key) is NoConnection,
        after_pairing(after_complete(sessions, key), key, upload_sender) == after_complete(sessions, key),
        after_complete(after_complete(sessions, key), key) == after_complete(sessions, key),
{
}

/// A session exists only between a downloader's request for it and that
/// downloader's completion: creating a session that exists already changes
/// nothing.
pub proof fn lemma_create_is_idempotent(
    sessions: Map<SessionKey, DownloadConnection>,
    key: SessionKey,
    first: UnboundedSender<DownloadResponse>,
    second: UnboundedSender<DownloadResponse>,
)
    ensures
        after_create(after_create(sessions, key, first), key, second) == after_create(sessions, key, first),
{
}

proof fn lemma_sessions_push(
    keys: Seq<SessionKey>,
    connections: Seq<DownloadConnection>,
    key: SessionKey,
    connection: DownloadConnection,
)
    requires
        distinct(keys),
        keys.len() == connections.len(),
        !keys.contains(key),
    ensures
        distinct(keys.push(key)),
        sessions_of(keys.push(key), connections.push(connection)) == sessions_of(keys, connections).insert(
            key,
            connection,
        ),
{
    let keys2 = keys.push(key);
    let connections2 = connections.push(connection);
    assert forall|i: int, j: int| 0 <= i < j < keys2.len() implies #[trigger] keys2[i] != #[trigger] keys2[j] by {
        if j == keys.len() {
            assert(keys[i] == keys2[i]);
            assert(keys.contains(keys[i]));
        } else {
            assert(keys[i] == keys2[i] && keys[j] == keys2[j]);
        }
    }
    let before = sessions_of(keys, connections).insert(key, connection);
    let after = sessions_of(keys2, connections2);
    assert forall|other: SessionKey| #[trigger] after.contains_key(other) == before.contains_key(other) by {
        if keys2.contains(other) {
            let k = choose|k: int| 0 <= k < keys2.len() && keys2[k] == other;
            if k < keys.len() {
                assert(keys[k] == other);
            }
        }
        if keys.contains(other) {
            let k = choose|k: int| 0 <= k < keys.len() && keys[k] == other;
            assert(keys2[k] == other);
        }
        if other == key {
            assert(keys2[keys.len() as int] == key);
        }
    }
    assert forall|other: SessionKey| #[trigger] after.contains_key(other) implies after[other] == before[other] by {
        let k2 = place_of(keys2, other);
        if other == key {
            if k2 < keys.len() {
                assert(keys[k2] == key);
            }
        } else {
            assert(keys[k2] == other);
            let k = place_of(keys, other);
            if k != k2 {
                assert(keys[k] == keys[k2]);
            }
        }
    }
    assert(after =~= before);
}

proof fn lemma_sessions_remove(keys: Seq<SessionKey>, connections: Seq<DownloadConnection>, i: int)
    requires
        distinct(keys),
        keys.len() == connections.len(),
        0 <= i < keys.len(),
    ensures
        distinct(keys.remove(i)),
        sessions_of(keys.remove(i), connections.remove(i)) == sessions_of(keys, connections).remove(keys[i]),
{
    let keys2 = keys.remove(i);
    let connections2 = connections.remove(i);
    assert forall|a: int, b: int| 0 <= a < b < keys2.len() implies #[trigger] keys2[a] != #[trigger] keys2[b] by {
        let a0 = if a < i { a } else { a + 1 };
        let b0 = if b < i { b } else { b + 1 };
        assert(keys2[a] == keys[a0] && keys2[b] == keys[b0]);
    }
    let before = sessions_of(keys, connections).remove(keys[i]);
    let after = sessions_of(keys2, connections2);
    assert forall|other: SessionKey| #[trigger] after.contains_key(other) == before.contains_key(other) by {
        if keys2.contains(other) {
            let k = choose|k: int| 0 <= k < keys2.len() && keys2[k] == other;
            let k0 = if k < i { k } else { k + 1 };
            assert(keys[k0] == other);
            assert(k0 != i);
            if other == keys[i] {
                if k0 < i {
                    assert(keys[k0] != keys[i]);
                } else {
                    assert(keys[i] != keys[k0]);
                }
            }
        }
        if keys.contains(other) && other != keys[i] {
            let k = choose|k: int| 0 <= k < keys.len() && keys[k] == other;
            let k2 = if k < i { k } else { k - 1 };
            assert(keys2[k2] == other);
        }
    }
    assert forall|other: SessionKey| #[trigger] after.contains_key(other) implies after[other] == before[other] by {
        let k2 = place_of(keys2, other);
        let k0 = if k2 < i { k2 } else { k2 + 1 };
        assert(keys[k0] == other);
        let k = place_of(keys, other);
        if k < k0 {
            assert(keys[k] != keys[k0]);
        } else if k0 < k {
            assert(keys[k0] != keys[k]);
        }
    }
    assert(after =~= before);
}

proof fn lemma_sessions_update(
    keys: Seq<SessionKey>,
    connections: Seq<DownloadConnection>,
    i: int,
    connection: DownloadConnection,
)
    requires
        distinct(keys),
        keys.len() == connections.len(),
        0 <= i < keys.len(),
    ensures
        sessions_of(keys, connections.update(i, connection)) == sessions_of(keys, connections).insert(
            keys[i],
            connection,
        ),
{
    let before = sessions_of(keys, connections).insert(keys[i], connection);
    let after = sessions_of(keys, connections.update(i, connection));
    assert forall|other: SessionKey| #[trigger] after.contains_key(other) == before.contains_key(other) by {
        if other == keys[i] {
            assert(keys.contains(other));
        }
    }
    assert forall|other: SessionKey| #[trigger] after.contains_key(other) implies after[other] == before[other] by {
        let k = place_of(keys, other);
        if k < i {
            assert(keys[k] != keys[i]);
        } else if i < k {
            assert(keys[i] != keys[k]);
        }
    }
    assert(after =~= before);
}

/// The message that tells a downloader that its transfer is paired: what
/// the uploader announced in `request`.
pub fn initiated_message(request: &InitiateUpload) -> (message: DownloadResponse)
    ensures
        message == initiated(*request),
{
    DownloadResponse::Initiated(
        DownloadInitiated {
            number_of_chunks: request.number_of_chunks,
            checksum: request.checksum.clone(),
            buffer_size: request.buffer_size,
            permissions: request.permissions,
        },
    )
}

/// The transfer pairing actor: the sessions in flight, by key.
pub struct DownloadsActor {
    keys: Vec<DownloadKey>,
    connections: Vec<DownloadConnection>,
}

impl View for DownloadsActor {
    type V = Map<SessionKey, DownloadConnection>;

    closed spec fn view(&self) -> Map<SessionKey, DownloadConnection> {
        sessions_of(self.key_views(), self.connections@)
    }
}

impl Default for DownloadsActor {
    /// The actor with no session.
    fn default() -> (actor: Self)
        ensures
            actor.wf(),
            actor@ == Map::<SessionKey, DownloadConnection>::empty(),
    {
        let actor = DownloadsActor { keys: Vec::new(), connections: Vec::new() };
        actor
    }
}

impl DownloadsActor {
    spec fn key_views(&self) -> Seq<SessionKey> {
        self.keys@.map_values(|key: DownloadKey| key@)
    }

    /// Every key has its session, and no key occurs twice.
    pub closed spec fn wf(&self) -> bool {
        &&& self.keys@.len() == self.connections@.len()
        &&& distinct(self.key_views())
    }

    fn find(&self, key: &DownloadKey) -> (place: Option<usize>)
        requires
            self.wf(),
        ensures
            match place {
                Some(i) => i < self.keys@.len() && self.key_views()[i as int] == key@ && self@.contains_key(key@)
                    && self@[key@] == self.connections@[i as int],
                None => !self@.contains_key(key@),
            },
    {
        let mut i: usize = 0;
        while i < self.keys.len()
            invariant
                self.wf(),
                i <= self.keys@.len(),
                forall|k: int| 0 <= k < i ==> self.key_views()[k] != key@,
            decreases self.keys@.len() - i,
        {
            if self.keys[i].same(key) {
                proof {
                    assert(self.key_views()[i as int] == key@);
                    let k = place_of(self.key_views(), key@);
                    if k < i {
                        assert(self.key_views()[k] != self.key_views()[i as int]);
                    } else if i < k {
                        assert(self.key_views()[i as int] != self.key_views()[k]);
                    }
                }
                return Some(i);
            }
            i = i + 1;
        }
        None
    }

    /// The number of sessions in flight.
    pub fn len(&self) -> (n: usize)
        requires
            self.wf(),
        ensures
            n == self@.dom().len(),
            self@.dom().finite(),
    {
        proof {
            self.lemma_domain();
        }
        self.keys.len()
    }

    proof fn lemma_domain(&self)
        requires
            self.wf(),
        ensures
            self@.dom().finite(),
            self@.dom().len() == self.keys@.len(),
    {
        let keys = self.key_views();
        assert(self@.dom() =~= keys.to_set());
        vstd::seq_lib::seq_to_set_is_finite(keys);
        assert(keys.no_duplicates()) by {
            assert forall|i: int, j: int| 0 <= i < keys.len() && 0 <= j < keys.len() && i != j implies keys[i]
                != keys[j] by {
                if i < j {
                    assert(keys[i] != keys[j]);
                } else {
                    assert(keys[j] != keys[i]);
                }
            }
        }
        keys.unique_seq_to_set();
    }

    /// Whether a session exists for `key`.
    pub fn has_session(&self, key: &DownloadKey) -> (found: bool)
        requires
            self.wf(),
        ensures
            found == self@.contains_key(key@),
    {
        self.find(key).is_some()
    }

    /// A downloader has opened its stream: a session is created for `key`
    /// unless one exists, which then keeps its downloader's sink.
    pub fn create_connection(&mut self, key: DownloadKey, download_sender: UnboundedSender<DownloadResponse>) -> (outcome:
        TransferOutcome)
        requires
            old(self).wf(),
        ensures
            final(self).wf(),
            final(self)@ == after_create(old(self)@, key@, download_sender),
            match outcome {
                TransferOutcome::AlreadyConnected => old(self)@.contains_key(key@),
                TransferOutcome::Created => !old(self)@.contains_key(key@),
                _ => false,
            },
    {
        match self.find(&key) {
            Some(_) => TransferOutcome::AlreadyConnected,
            None => {
                let connection = DownloadConnection::new(download_sender);
                proof {
                    lemma_sessions_push(self.key_views(), self.connections@, key@, connection);
                }
                let ghost keys = self.key_views();
                self.keys.push(key);
                self.connections.push(connection);
                assert(self.key_views() =~= keys.push(key@));
                TransferOutcome::Created
            },
        }
    }

    /// An uploader has opened its stream: it is attached to the session of
    /// `key`, and the downloader is sent what `request` announces. Without a
    /// session, or with an uploader attached already, nothing is done and
    /// nothing is sent.
    pub fn connect_uploader(
        &mut self,
        key: &DownloadKey,
        upload_sender: UnboundedSender<UploadResponse>,
        request: &InitiateUpload,
    ) -> (outcome: TransferOutcome)
        requires
            old(self).wf(),
        ensures
            final(self).wf(),
            pairing_result(old(self)@, key@, upload_sender, *request, outcome, final(self)@),
    {
        match self.find(key) {
            None => TransferOutcome::NoConnection,
            Some(i) => {
                if self.connections[i].upload_sender.is_some() {
                    TransferOutcome::AlreadyPaired
                } else {
                    proof {
                        lemma_sessions_update(
                            self.key_views(),
                            self.connections@,
                            i as int,
                            self.connections@[i as int].paired_with(upload_sender),
                        );
                    }
                    self.connections[i].set_upload_sender(upload_sender);
                    let receipt = deliver(&self.connections[i].download_sender, initiated_message(request));
                    TransferOutcome::Paired(receipt)
                }
            },
        }
    }

    /// Hands a pull request for the chunk at `offset` to the uploader of the
    /// session of `key`, if the session exists and has one.
    pub fn relay_chunk_request(&self, key: &DownloadKey, offset: u64) -> (outcome: TransferOutcome)
        requires
            self.wf(),
        ensures
            chunk_request_result(self@, key@, offset, outcome),
    {
        match self.find(key) {
            None => TransferOutcome::NoConnection,
            Some(i) => match &self.connections[i].upload_sender {
                None => TransferOutcome::NoUploader,
                Some(upload_sender) => TransferOutcome::RequestRelayed(
                    deliver(upload_sender, UploadResponse::Request { offset }),
                ),
            },
        }
    }

    /// Hands `chunk` to the downloader of the session of `key`, if the
    /// session exists.
    pub fn relay_chunk(&self, key: &DownloadKey, chunk: SharedFileChunk) -> (outcome: TransferOutcome)
        requires
            self.wf(),
        ensures
            chunk_result(self@, key@, chunk, outcome),
    {
        match self.find(key) {
            None => TransferOutcome::NoConnection,
            Some(i) => TransferOutcome::ChunkRelayed(
                deliver(&self.connections[i].download_sender, DownloadResponse::Chunk(chunk)),
            ),
        }
    }

    /// The downloader of `key` has every chunk: the session is removed and
    /// its uploader, if one had connected, is told that the transfer is
    /// complete.
    pub fn complete(&mut self, key: &DownloadKey) -> (outcome: TransferOutcome)
        requires
            old(self).wf(),
        ensures
            final(self).wf(),
            completion_result(old(self)@, key@, outcome, final(self)@),
    {
        match self.find(key) {
            None => {
                assert(self@.remove(key@) =~= self@);
                TransferOutcome::NoConnection
            },
            Some(i) => {
                proof {
                    lemma_sessions_remove(self.key_views(), self.connections@, i as int);
                }
                let ghost keys = self.key_views();
                let _ = self.keys.remove(i);
                let connection = self.connections.remove(i);
                assert(self.key_views() =~= keys.remove(i as int));
                match connection.upload_sender {
                    None => TransferOutcome::CompletedUnpaired,
                    Some(upload_sender) => TransferOutcome::Completed(deliver(&upload_sender, UploadResponse::Complete)),
                }
            },
        }
    }

    /// Drops every session, without a word to the peers.
    pub fn close(&mut self)
        ensures
            final(self).wf(),
            final(self)@ == Map::<SessionKey, DownloadConnection>::empty(),
    {
        self.keys.clear();
        self.connections.clear();
    }

    /// Handles one event. Events are handled one at a time, in the order in
    /// which they arrive.
    pub fn receive(&mut self, download_event: DownloadEvent) -> (outcome: TransferOutcome)
        requires
            old(self).wf(),
        ensures
            final(self).wf(),
            match download_event {
                DownloadEvent::CreateConnection(key, download_sender) => {
                    &&& final(self)@ == after_create(old(self)@, key@, download_sender)
                    &&& match outcome {
                        TransferOutcome::AlreadyConnected => old(self)@.contains_key(key@),
                        TransferOutcome::Created => !old(self)@.contains_key(key@),
                        _ => false,
                    }
                },
                DownloadEvent::ConnectUploader(key, upload_sender, request) => pairing_result(
                    old(self)@,
                    key@,
                    upload_sender,
                    request,
                    outcome,
                    final(self)@,
                ),
                DownloadEvent::RequestFileChunk(key, offset) => {
                    &&& final(self)@ == old(self)@
                    &&& chunk_request_result(old(self)@, key@, offset, outcome)
                },
                DownloadEvent::SendFileChunk(key, chunk) => {
                    &&& final(self)@ == old(self)@
                    &&& chunk_result(old(self)@, key@, chunk, outcome)
                },
                DownloadEvent::DownloadComplete(key) => completion_result(old(self)@, key@, outcome, final(self)@),
                DownloadEvent::ApplicationClosing => {
                    &&& final(self)@ == Map::<SessionKey, DownloadConnection>::empty()
                    &&& outcome is Closed
                },
            },
    {
        match download_event {
            DownloadEvent::CreateConnection(key, download_sender) => self.create_connection(key, download_sender),
            DownloadEvent::ConnectUploader(key, upload_sender, request) => self.connect_uploader(
                &key,
                upload_sender,
                &request,
            ),
            DownloadEvent::RequestFileChunk(key, offset) => self.relay_chunk_request(&key, offset),
            DownloadEvent::SendFileChunk(key, chunk) => self.relay_chunk(&key, chunk),
            DownloadEvent::DownloadComplete(key) => self.complete(&key),
            DownloadEvent::ApplicationClosing => {
                self.close();
                TransferOutcome::Closed
            },
        }
    }
}

} // verus!
