//! The downloading side of a file transfer: the pool of chunk offsets and the
//! window that bounds how many chunks are in flight at once.

use vstd::prelude::*;
use std::time::SystemTime;
use tokio::sync::mpsc::UnboundedSender;
use crate::messages::{DownloadInitiated, DownloadRequest, DownloadResponse, InitiateDownload};
use crate::sink::{deliver, Receipt};

verus! {

/// `std::time::SystemTime`, a point in time. Its inside is not looked at.
#[verifier::external_type_specification]
#[verifier::external_body]
pub struct ExSystemTime(SystemTime);

/// `SystemTime::now` reads the system clock. Nothing is claimed of the time
/// that it returns.
pub assume_specification[ SystemTime::now ]() -> (now: SystemTime);

/// How far a download has come after a step.
#[derive(Debug, PartialEq, Eq)]
pub enum ProgressCheck {
    /// Every chunk has arrived, and the completion signal was emitted.
    Complete,
    /// The step issued this many new chunk requests.
    Requested(usize),
}

/// A message that the pool could not hand to its stream, which is closed.
#[derive(Debug, PartialEq, Eq)]
pub enum TransferError {
    /// The request for the chunk at `offset` was refused.
    RequestRefused { offset: u64 },
    /// The completion signal was refused.
    CompletionRefused,
}

impl TransferError {
    /// The error in words.
    pub fn message(&self) -> (text: &'static str)
        ensures
            text@ == (match self {
                TransferError::RequestRefused { .. } => "the download stream refused a chunk request"@,
                TransferError::CompletionRefused => "the download stream refused the completion signal"@,
            }),
    {
        match self {
            TransferError::RequestRefused { .. } => "the download stream refused a chunk request",
            TransferError::CompletionRefused => "the download stream refused the completion signal",
        }
    }
}

/// One chunk request that was handed to the stream.
#[must_use]
pub struct ChunkRequest {
    /// The offset of the chunk that was asked for.
    pub offset: u64,
    /// What the stream was handed, and whether it took it.
    pub receipt: Receipt<DownloadRequest>,
}

/// What one step of a download handed to its stream.
#[must_use]
pub struct Step {
    /// The chunk requests, in the order in which they were handed out. A
    /// request that the stream refused is the last one.
    pub requests: Vec<ChunkRequest>,
    /// The completion signal, if the step found every chunk arrived.
    pub completion: Option<Receipt<DownloadRequest>>,
}

/// The stream took every request.
pub open spec fn all_taken(requests: Seq<ChunkRequest>) -> bool {
    requests.len() == 0 || requests.last().receipt.taken()
}

impl Step {
    /// How far the download has come after the step, or what the stream
    /// refused: see [`Step::progress`].
    pub open spec fn progress_of(self) -> Result<ProgressCheck, TransferError> {
        if !all_taken(self.requests@) {
            Err(TransferError::RequestRefused { offset: self.requests@.last().offset })
        } else {
            match self.completion {
                Some(receipt) => if receipt.taken() {
                    Ok(ProgressCheck::Complete)
                } else {
                    Err(TransferError::CompletionRefused)
                },
                None => Ok(ProgressCheck::Requested(self.requests@.len() as usize)),
            }
        }
    }

    /// Tells how far the download has come after the step: complete, or so
    /// many new requests issued. A message that the stream refused is an
    /// error.
    pub fn progress(&self) -> (progress: Result<ProgressCheck, TransferError>)
        ensures
            progress == self.progress_of(),
    {
        let n = self.requests.len();
        if n > 0 && !self.requests[n - 1].receipt.delivered() {
            return Err(TransferError::RequestRefused { offset: self.requests[n - 1].offset });
        }
        match &self.completion {
            Some(receipt) => if receipt.delivered() {
                Ok(ProgressCheck::Complete)
            } else {
                Err(TransferError::CompletionRefused)
            },
            None => Ok(ProgressCheck::Requested(n)),
        }
    }
}

/// The mathematical model of a chunk pool: the offsets that were not yet
/// requested, those in flight and those that have arrived, each in the order
/// in which they got there.
pub struct ChunkPool {
    /// The number of chunks of the file.
    pub number_of_chunks: nat,
    /// The most chunks that may be in flight at once.
    pub window: nat,
    pub to_download: Seq<u64>,
    pub downloading: Seq<u64>,
    /// When each chunk in flight was requested, in the order of
    /// `downloading`.
    pub requested_at: Seq<SystemTime>,
    pub downloaded: Seq<u64>,
}

impl ChunkPool {
    /// All offsets that the pool holds.
    pub open spec fn offsets(self) -> Seq<u64> {
        self.downloaded + self.downloading + self.to_download
    }

    /// The three sets partition the offsets below the number of chunks: each
    /// such offset is in exactly one of them, once, and nothing else is.
    pub open spec fn is_partition(self) -> bool {
        &&& self.requested_at.len() == self.downloading.len()
        &&& self.offsets().no_duplicates()
        &&& forall|offset: u64| offset < self.number_of_chunks <==> #[trigger] self.offsets().contains(offset)
    }

    /// The pool at the start of a download: nothing requested yet.
    pub open spec fn fresh(number_of_chunks: nat, window: nat) -> Self {
        ChunkPool {
            number_of_chunks,
            window,
            to_download: Seq::new(number_of_chunks, |i: int| i as u64),
            downloading: Seq::empty(),
            requested_at: Seq::empty(),
            downloaded: Seq::empty(),
        }
    }

    /// Every chunk has arrived.
    pub open spec fn finished(self) -> bool {
        self.to_download.len() == 0 && self.downloading.len() == 0
    }

    /// After the chunk at `offset`, which was in flight, has arrived.
    pub open spec fn completed(self, offset: u64) -> Self {
        ChunkPool {
            downloading: self.downloading.remove(self.downloading.index_of(offset)),
            requested_at: self.requested_at.remove(self.downloading.index_of(offset)),
            downloaded: self.downloaded.push(offset),
            ..self
        }
    }

    /// After the arrival that `offset` reports, if it reports one.
    pub open spec fn arrived(self, offset: Option<u64>) -> Self {
        match offset {
            Some(offset) => self.completed(offset),
            None => self,
        }
    }

    /// How many requests the window admits: as many as fit into it, and no
    /// more than there are offsets left to request.
    pub open spec fn admissible(self) -> nat {
        if self.downloading.len() >= self.window {
            0
        } else if self.window - self.downloading.len() <= self.to_download.len() {
            (self.window - self.downloading.len()) as nat
        } else {
            self.to_download.len()
        }
    }

    /// After the first `count` offsets that were not yet requested have been
    /// put in flight, at the time `now`.
    pub open spec fn admitted(self, count: nat, now: SystemTime) -> Self {
        ChunkPool {
            to_download: self.to_download.skip(count as int),
            downloading: self.downloading + self.to_download.take(count as int),
            requested_at: self.requested_at + Seq::new(count, |i: int| now),
            ..self
        }
    }
}

/// A new pool is a partition.
pub proof fn lemma_fresh_is_partition(number_of_chunks: nat, window: nat)
    requires
        number_of_chunks <= u64::MAX,
    ensures
        ChunkPool::fresh(number_of_chunks, window).is_partition(),
{
    let pool = ChunkPool::fresh(number_of_chunks, window);
    assert forall|offset: u64| offset < number_of_chunks implies #[trigger] pool.offsets().contains(offset) by {
        assert(pool.offsets()[offset as int] == offset);
    }
}

/// The arrival of a chunk that is in flight keeps the partition: the offset
/// moves from the chunks in flight to the chunks that have arrived.
pub proof fn lemma_completed_is_partition(pool: ChunkPool, offset: u64)
    requires
        pool.is_partition(),
        pool.downloading.contains(offset),
    ensures
        pool.completed(offset).is_partition(),
        pool.completed(offset).downloaded.contains(offset),
        !pool.completed(offset).downloading.contains(offset),
        !pool.completed(offset).to_download.contains(offset),
{
    let after = pool.completed(offset);
    let place = pool.downloading.index_of(offset);
    let a = pool.downloaded.len() as int;
    let b = pool.downloading.len() as int;
    let before = pool.offsets();
    let now = after.offsets();
    assert(0 <= place < b && pool.downloading[place] == offset);
    // where each offset of the new pool stood in the old one
    let origin = |k: int|
        if k < a {
            k
        } else if k == a {
            a + place
        } else if k <= a + place {
            k - 1
        } else {
            k
        };
    assert forall|k: int| 0 <= k < now.len() implies 0 <= origin(k) < before.len() && now[k] == before[origin(k)] by {
    }
    assert forall|i: int, j: int| 0 <= i < now.len() && 0 <= j < now.len() && i != j implies now[i] != now[j] by {
        assert(now[i] == before[origin(i)] && now[j] == before[origin(j)]);
        assert(origin(i) != origin(j));
    }
    assert forall|x: u64| x < pool.number_of_chunks <==> #[trigger] now.contains(x) by {
        if now.contains(x) {
            let k = choose|k: int| 0 <= k < now.len() && now[k] == x;
            assert(before[origin(k)] == x);
            assert(before.contains(x));
        }
        if before.contains(x) {
            let k = choose|k: int| 0 <= k < before.len() && before[k] == x;
            let k2 = if k < a {
                k
            } else if k < a + place {
                k + 1
            } else if k == a + place {
                a
            } else {
                k
            };
            assert(now[k2] == x);
        }
    }
    assert(after.downloaded[a] == offset);
    if after.downloading.contains(offset) {
        let k = choose|k: int| 0 <= k < after.downloading.len() && after.downloading[k] == offset;
        assert(now[a + 1 + k] == offset && now[a] == offset);
    }
    if after.to_download.contains(offset) {
        let k = choose|k: int| 0 <= k < after.to_download.len() && after.to_download[k] == offset;
        assert(now[a + b + k] == offset && now[a] == offset);
    }
}

/// Admitting requests keeps the partition: the offsets move, in their order,
/// from those not yet requested to those in flight.
pub proof fn lemma_admitted_is_partition(pool: ChunkPool, count: nat, now: SystemTime)
    requires
        pool.is_partition(),
        count <= pool.to_download.len(),
    ensures
        pool.admitted(count, now).is_partition(),
{
    assert(pool.admitted(count, now).offsets() =~= pool.offsets());
}

/// One operation on a chunk pool.
pub enum PoolStep {
    /// The chunk at this offset has arrived.
    Arrival(u64),
    /// So many of the offsets that were not yet requested were put in
    /// flight, at this time.
    Requests(nat, SystemTime),
}

impl ChunkPool {
    /// The pool can take `step`: a chunk that arrives is in flight, and no
    /// more offsets are put in flight than are left.
    pub open spec fn allows(self, step: PoolStep) -> bool {
        match step {
            PoolStep::Arrival(offset) => self.downloading.contains(offset),
            PoolStep::Requests(count, _) => count <= self.to_download.len(),
        }
    }

    /// The pool after `step`.
    pub open spec fn after(self, step: PoolStep) -> Self {
        match step {
            PoolStep::Arrival(offset) => self.completed(offset),
            PoolStep::Requests(count, now) => self.admitted(count, now),
        }
    }

    /// The pool after `steps`, one after the other.
    pub open spec fn after_all(self, steps: Seq<PoolStep>) -> Self
        decreases steps.len(),
    {
        if steps.len() == 0 {
            self
        } else {
            self.after_all(steps.drop_last()).after(steps.last())
        }
    }

    /// The pool can take `steps`, one after the other.
    pub open spec fn allows_all(self, steps: Seq<PoolStep>) -> bool
        decreases steps.len(),
    {
        steps.len() == 0 || (self.allows_all(steps.drop_last()) && self.after_all(steps.drop_last()).allows(
            steps.last(),
        ))
    }
}

/// The partition holds at every point of every run: whatever arrivals and
/// requests a new pool goes through, in whatever order, after each of them
/// the three sets partition the offsets of the file.
pub proof fn lemma_partition_throughout(number_of_chunks: u64, window: nat, steps: Seq<PoolStep>, seen: int)
    requires
        ChunkPool::fresh(number_of_chunks as nat, window).allows_all(steps),
        0 <= seen <= steps.len(),
    ensures
        ChunkPool::fresh(number_of_chunks as nat, window).allows_all(steps.take(seen)),
        ChunkPool::fresh(number_of_chunks as nat, window).after_all(steps.take(seen)).is_partition(),
    decreases steps.len(),
{
    let fresh = ChunkPool::fresh(number_of_chunks as nat, window);
    if steps.len() == 0 {
        assert(steps.take(seen) =~= steps);
        lemma_fresh_is_partition(number_of_chunks as nat, window);
    } else if seen < steps.len() {
        assert(steps.drop_last().take(seen) =~= steps.take(seen));
        lemma_partition_throughout(number_of_chunks, window, steps.drop_last(), seen);
    } else {
        let before = steps.drop_last();
        assert(steps.take(seen) =~= steps);
        assert(before.take(seen - 1) =~= before);
        lemma_partition_throughout(number_of_chunks, window, before, seen - 1);
        match steps.last() {
            PoolStep::Arrival(offset) => lemma_completed_is_partition(fresh.after_all(before), offset),
            PoolStep::Requests(count, now) => lemma_admitted_is_partition(fresh.after_all(before), count, now),
        }
    }
}

/// In a partition no offset is in two of the three sets, every offset below
/// the number of chunks is in one of them, and no set holds anything else.
pub proof fn lemma_partition(pool: ChunkPool, offset: u64)
    requires
        pool.is_partition(),
    ensures
        offset < pool.number_of_chunks <==> (pool.to_download.contains(offset) || pool.downloading.contains(offset)
            || pool.downloaded.contains(offset)),
        !(pool.to_download.contains(offset) && pool.downloading.contains(offset)),
        !(pool.to_download.contains(offset) && pool.downloaded.contains(offset)),
        !(pool.downloading.contains(offset) && pool.downloaded.contains(offset)),
{
    let all = pool.offsets();
    let a = pool.downloaded.len() as int;
    let b = pool.downloading.len() as int;
    if pool.downloaded.contains(offset) {
        let k = choose|k: int| 0 <= k < pool.downloaded.len() && pool.downloaded[k] == offset;
        assert(all[k] == offset);
    }
    if pool.downloading.contains(offset) {
        let k = choose|k: int| 0 <= k < pool.downloading.len() && pool.downloading[k] == offset;
        assert(all[a + k] == offset);
    }
    if pool.to_download.contains(offset) {
        let k = choose|k: int| 0 <= k < pool.to_download.len() && pool.to_download[k] == offset;
        assert(all[a + b + k] == offset);
    }
    if all.contains(offset) {
        let k = choose|k: int| 0 <= k < all.len() && all[k] == offset;
        if k < a {
            assert(pool.downloaded[k] == offset);
        } else if k < a + b {
            assert(pool.downloading[k - a] == offset);
        } else {
            assert(pool.to_download[k - a - b] == offset);
        }
    }
}

/// `requests` is what filling the window of `pool` may hand to `stream`:
/// requests for the first offsets that were not yet requested, in their
/// order, as many as the window takes in, or fewer if the stream refused
/// one, which is then the last.
pub open spec fn window_requests(
    pool: ChunkPool,
    stream: UnboundedSender<DownloadRequest>,
    requests: Seq<ChunkRequest>,
) -> bool {
    &&& requests.len() <= pool.admissible()
    &&& forall|i: int|
        0 <= i < requests.len() ==> {
            &&& (#[trigger] requests[i]).offset == pool.to_download[i]
            &&& requests[i].receipt.sink() == stream
            &&& requests[i].receipt.message() == DownloadRequest::Request { offset: requests[i].offset }
            &&& (i + 1 < requests.len() ==> requests[i].receipt.taken())
        }
    &&& (requests.len() < pool.admissible() ==> !all_taken(requests))
}

/// What one step of a download may lead to: `step` and `after` are a
/// possible outcome of the step that starts from `before` at the time `now`
/// and reports the arrival `offset`. The stream decides what it takes, and the pool decides
/// the rest: the window is filled, and the completion signal is handed out
/// exactly if nothing was refused and every chunk has arrived.
pub open spec fn step_result(
    before: ChunkPool,
    stream: UnboundedSender<DownloadRequest>,
    offset: Option<u64>,
    now: SystemTime,
    step: Step,
    after: ChunkPool,
) -> bool {
    let arrived = before.arrived(offset);
    &&& window_requests(arrived, stream, step.requests@)
    &&& after == arrived.admitted(step.requests@.len(), now)
    &&& match step.completion {
        Some(receipt) => {
            &&& all_taken(step.requests@)
            &&& after.finished()
            &&& receipt.sink() == stream
            &&& receipt.message() == DownloadRequest::Complete
        },
        None => !(all_taken(step.requests@) && after.finished()),
    }
}

/// The pool of a download in progress, with the stream on which its requests
/// go out.
pub struct DownloadChunkPool {
    number_of_chunks: u64,
    to_download: Vec<u64>,
    downloading: Vec<(u64, SystemTime)>,
    downloaded: Vec<u64>,
    parallel_downloads: usize,
    sender: UnboundedSender<DownloadRequest>,
}

impl View for DownloadChunkPool {
    type V = ChunkPool;

    closed spec fn view(&self) -> ChunkPool {
        ChunkPool {
            number_of_chunks: self.number_of_chunks as nat,
            window: self.parallel_downloads as nat,
            to_download: self.to_download@,
            downloading: self.downloading@.map_values(|entry: (u64, SystemTime)| entry.0),
            requested_at: self.downloading@.map_values(|entry: (u64, SystemTime)| entry.1),
            downloaded: self.downloaded@,
        }
    }
}

impl DownloadChunkPool {
    /// The three sets partition the offsets of the file.
    pub open spec fn wf(&self) -> bool {
        self@.is_partition()
    }

    /// The stream on which the pool's requests go out.
    pub closed spec fn stream(&self) -> UnboundedSender<DownloadRequest> {
        self.sender
    }

    /// The pool of a file of `number_of_chunks` chunks, of which at most
    /// `parallel_downloads` are in flight at once. Nothing is requested yet.
    pub fn new(number_of_chunks: u64, parallel_downloads: usize, sender: UnboundedSender<DownloadRequest>) -> (pool:
        Self)
        requires
            number_of_chunks <= usize::MAX,
        ensures
            pool.wf(),
            pool@ == ChunkPool::fresh(number_of_chunks as nat, parallel_downloads as nat),
            pool.stream() == sender,
    {
        let mut to_download: Vec<u64> = Vec::new();
        let mut offset: u64 = 0;
        while offset < number_of_chunks
            invariant
                offset <= number_of_chunks,
                to_download@.len() == offset,
                forall|i: int| 0 <= i < offset ==> to_download@[i] == i as u64,
            decreases number_of_chunks - offset,
        {
            to_download.push(offset);
            offset = offset + 1;
        }
        let pool = DownloadChunkPool {
            number_of_chunks,
            to_download,
            downloading: Vec::new(),
            downloaded: Vec::new(),
            parallel_downloads,
            sender,
        };
        proof {
            let fresh = ChunkPool::fresh(number_of_chunks as nat, parallel_downloads as nat);
            assert(pool@.to_download =~= fresh.to_download);
            assert(pool@.downloading =~= fresh.downloading);
            assert(pool@.requested_at =~= fresh.requested_at);
            lemma_fresh_is_partition(number_of_chunks as nat, parallel_downloads as nat);
        }
        pool
    }

    /// The number of chunks of the file.
    pub fn number_of_chunks(&self) -> (n: u64)
        ensures
            n == self@.number_of_chunks,
    {
        self.number_of_chunks
    }

    /// Whether every chunk has arrived.
    pub fn is_finished(&self) -> (finished: bool)
        ensures
            finished == self@.finished(),
    {
        self.to_download.len() == 0 && self.downloading.len() == 0
    }

    /// The number of chunks in flight.
    pub fn in_flight(&self) -> (n: usize)
        ensures
            n == self@.downloading.len(),
    {
        self.downloading.len()
    }

    /// The number of chunks that have arrived.
    pub fn arrived_count(&self) -> (n: usize)
        ensures
            n == self@.downloaded.len(),
    {
        self.downloaded.len()
    }

    fn position(&self, offset: u64) -> (place: Option<usize>)
        ensures
            match place {
                Some(i) => i < self@.downloading.len() && self@.downloading[i as int] == offset,
                None => !self@.downloading.contains(offset),
            },
    {
        let mut i: usize = 0;
        while i < self.downloading.len()
            invariant
                i <= self.downloading@.len(),
                forall|k: int| 0 <= k < i ==> self@.downloading[k] != offset,
            decreases self.downloading@.len() - i,
        {
            if self.downloading[i].0 == offset {
                return Some(i);
            }
            i = i + 1;
        }
        None
    }

    /// Whether the chunk at `offset` is in flight.
    pub fn is_downloading(&self, offset: u64) -> (in_flight: bool)
        ensures
            in_flight == self@.downloading.contains(offset),
    {
        self.position(offset).is_some()
    }

    /// Records the arrival of the chunk at `offset`, which is in flight.
    pub fn mark_downloaded(&mut self, offset: u64)
        requires
            old(self).wf(),
            old(self)@.downloading.contains(offset),
        ensures
            final(self).wf(),
            final(self)@ == old(self)@.completed(offset),
            final(self).stream() == old(self).stream(),
    {
        proof {
            lemma_completed_is_partition(self@, offset);
        }
        let ghost before = self@;
        let place = self.position(offset);
        match place {
            Some(i) => {
                proof {
                    // the offset stands once among the chunks in flight
                    lemma_partition(before, offset);
                    let first = before.downloading.index_of(offset);
                    before.downloading.index_of_first_ensures(offset);
                    let a = before.downloaded.len() as int;
                    if first != i {
                        assert(before.offsets()[a + first] == offset);
                        assert(before.offsets()[a + i] == offset);
                    }
                }
                let _ = self.downloading.remove(i);
                self.downloaded.push(offset);
                assert(self@.downloading =~= before.downloading.remove(i as int));
                assert(self@.requested_at =~= before.requested_at.remove(i as int));
            },
            None => {},
        }
    }

    /// Fills the window: while fewer chunks are in flight than the window
    /// admits and offsets are left, the first of them is put in flight, with
    /// the time `now`, and a request for it is handed to the stream. Returns
    /// the requests that were handed out. A request that the stream refuses
    /// ends the step; its offset stays in flight.
    pub fn fill_window(&mut self, now: SystemTime) -> (requests: Vec<ChunkRequest>)
        requires
            old(self).wf(),
        ensures
            final(self).wf(),
            final(self).stream() == old(self).stream(),
            window_requests(old(self)@, old(self).stream(), requests@),
            final(self)@ == old(self)@.admitted(requests@.len(), now),
    {
        let ghost before = self@;
        let mut requests: Vec<ChunkRequest> = Vec::new();
        assert(before.admitted(0, now) =~= before) by {
            assert(before.to_download.skip(0) =~= before.to_download);
        }
        while self.downloading.len() < self.parallel_downloads && self.to_download.len() > 0
            invariant
                before.is_partition(),
                before == old(self)@,
                requests@.len() <= before.admissible(),
                requests@.len() <= before.to_download.len(),
                self@ == before.admitted(requests@.len(), now),
                self.stream() == old(self).stream(),
                forall|i: int|
                    0 <= i < requests@.len() ==> {
                        &&& (#[trigger] requests@[i]).offset == before.to_download[i]
                        &&& requests@[i].receipt.sink() == self.stream()
                        &&& requests@[i].receipt.message() == DownloadRequest::Request { offset: requests@[i].offset }
                        &&& requests@[i].receipt.taken()
                    },
            decreases self.to_download@.len(),
        {
            let ghost current = self@;
            let ghost count = requests@.len();
            let next = self.to_download.remove(0);
            self.downloading.push((next, now));
            proof {
                assert(self@.to_download =~= before.to_download.skip(count as int + 1));
                assert(self@.downloading =~= current.downloading.push(next));
                assert(self@.downloading =~= before.downloading + before.to_download.take(count as int + 1));
                assert(self@.requested_at =~= current.requested_at.push(now));
                assert(self@.requested_at =~= before.requested_at + Seq::new(count + 1, |i: int| now));
                lemma_admitted_is_partition(before, count + 1, now);
            }
            let receipt = deliver(&self.sender, DownloadRequest::Request { offset: next });
            let taken = receipt.delivered();
            requests.push(ChunkRequest { offset: next, receipt });
            if !taken {
                return requests;
            }
        }
        proof {
            lemma_admitted_is_partition(before, requests@.len(), now);
        }
        requests
    }

    /// One step of the download, at the time `now`. Records the arrival of
    /// the chunk at `offset`, if one is reported, then fills the window as
    /// [`Self::fill_window`] does. If nothing was refused, no chunk is left
    /// to request and none is in flight, the completion signal is handed to
    /// the stream.
    pub fn advance(&mut self, offset: Option<u64>, now: SystemTime) -> (step: Step)
        requires
            old(self).wf(),
            offset matches Some(offset) ==> old(self)@.downloading.contains(offset),
        ensures
            final(self).wf(),
            final(self).stream() == old(self).stream(),
            step_result(old(self)@, old(self).stream(), offset, now, step, final(self)@),
    {
        if let Some(offset) = offset {
            self.mark_downloaded(offset);
        }
        let requests = self.fill_window(now);
        let n = requests.len();
        let refused = n > 0 && !requests[n - 1].receipt.delivered();
        let completion = if !refused && self.is_finished() {
            Some(deliver(&self.sender, DownloadRequest::Complete))
        } else {
            None
        };
        Step { requests, completion }
    }

    /// One step of the download, at the time at which it is made: see
    /// [`Self::advance`].
    pub fn set_completed(&mut self, offset: Option<u64>) -> (step: Step)
        requires
            old(self).wf(),
            offset matches Some(offset) ==> old(self)@.downloading.contains(offset),
        ensures
            final(self).wf(),
            final(self).stream() == old(self).stream(),
            exists|now: SystemTime| step_result(old(self)@, old(self).stream(), offset, now, step, final(self)@),
    {
        self.advance(offset, SystemTime::now())
    }
}

/// The first message of the download stream on which `device` of
/// `workspace` asks `upload_device` for the file at `relative_path`. No wish
/// is stated for the chunk size.
pub fn initiate_download(workspace: &String, device: &String, upload_device: &String, relative_path: &String) -> (message:
    DownloadRequest)
    ensures
        message == DownloadRequest::Initiate(
            InitiateDownload {
                workspace: *workspace,
                download_device: *device,
                upload_device: *upload_device,
                relative_path: *relative_path,
                buffer_size: None,
            },
        ),
{
    DownloadRequest::Initiate(
        InitiateDownload {
            workspace: workspace.clone(),
            download_device: device.clone(),
            upload_device: upload_device.clone(),
            relative_path: relative_path.clone(),
            buffer_size: None,
        },
    )
}

/// Why a message of the download stream cannot be used.
#[derive(Debug, Clone, Copy, PartialEq, Eq)]
pub enum Rejection {
    /// The transfer was described a second time.
    InitiatedTwice,
    /// The chunk is not in flight: it was never requested, or it has arrived
    /// before.
    NotInFlight,
    /// The chunk would lie beyond the range of the integers.
    OutOfRange,
}

impl Rejection {
    /// The rejection in words.
    pub fn message(&self) -> (text: &'static str)
        ensures
            text@ == (match self {
                Rejection::InitiatedTwice => "Download should only be initiated once"@,
                Rejection::NotInFlight => "Chunk was not being downloaded"@,
                Rejection::OutOfRange => "Chunk lies beyond the end of any file"@,
            }),
    {
        match self {
            Rejection::InitiatedTwice => "Download should only be initiated once",
            Rejection::NotInFlight => "Chunk was not being downloaded",
            Rejection::OutOfRange => "Chunk lies beyond the end of any file",
        }
    }
}

/// What the downloader does with a message of its stream.
#[derive(Debug, PartialEq, Eq)]
pub enum DownloadAction {
    /// Write `data` at `position` of the output, then report the chunk at
    /// `offset` as written.
    WriteChunk { offset: u64, position: u64, data: Vec<u8> },
    /// The message breaks the protocol.
    Reject(Rejection),
}

/// A download in progress: its pool, the chunk size and the checksum that
/// the uploader announced.
pub struct DownloadSession {
    pool: DownloadChunkPool,
    buffer_size: u64,
    expected_checksum: String,
}

impl DownloadSession {
    /// The session's pool.
    pub closed spec fn pool(&self) -> ChunkPool {
        self.pool@
    }

    /// The size of a chunk in bytes.
    pub closed spec fn chunk_size(&self) -> u64 {
        self.buffer_size
    }

    /// The checksum that the uploader announced.
    pub closed spec fn announced_checksum(&self) -> Seq<char> {
        self.expected_checksum@
    }

    /// The stream on which the session's requests go out.
    pub closed spec fn stream(&self) -> UnboundedSender<DownloadRequest> {
        self.pool.stream()
    }

    /// The session's pool is a partition.
    pub open spec fn wf(&self) -> bool {
        self.pool().is_partition()
    }

    /// What the downloader does with `response`, in a download with this
    /// pool and chunk size.
    pub open spec fn action_for(pool: ChunkPool, chunk_size: u64, response: DownloadResponse) -> DownloadAction {
        match response {
            DownloadResponse::Initiated(_) => DownloadAction::Reject(Rejection::InitiatedTwice),
            DownloadResponse::Chunk(chunk) => if !pool.downloading.contains(chunk.offset) {
                DownloadAction::Reject(Rejection::NotInFlight)
            } else if chunk.offset * chunk_size > u64::MAX {
                DownloadAction::Reject(Rejection::OutOfRange)
            } else {
                DownloadAction::WriteChunk {
                    offset: chunk.offset,
                    position: (chunk.offset * chunk_size) as u64,
                    data: chunk.data,
                }
            },
        }
    }

    /// Starts the download that `initiated` describes, with at most
    /// `parallel_downloads` chunks in flight and requests going out on
    /// `sender`. Nothing is requested yet. There is no session for a file of
    /// more chunks than a pool can hold.
    pub fn new(initiated: DownloadInitiated, parallel_downloads: usize, sender: UnboundedSender<DownloadRequest>) -> (session:
        Option<Self>)
        ensures
            match session {
                Some(session) => {
                    &&& initiated.number_of_chunks <= usize::MAX
                    &&& session.wf()
                    &&& session.pool() == ChunkPool::fresh(
                        initiated.number_of_chunks as nat,
                        parallel_downloads as nat,
                    )
                    &&& session.chunk_size() == initiated.buffer_size
                    &&& session.announced_checksum() == initiated.checksum@
                    &&& session.stream() == sender
                },
                None => initiated.number_of_chunks > usize::MAX,
            },
    {
        if initiated.number_of_chunks > usize::MAX as u64 {
            return None;
        }
        let pool = DownloadChunkPool::new(initiated.number_of_chunks, parallel_downloads, sender);
        Some(DownloadSession { pool, buffer_size: initiated.buffer_size, expected_checksum: initiated.checksum })
    }

    /// Issues the first requests: see [`DownloadChunkPool::set_completed`].
    pub fn start(&mut self) -> (step: Step)
        requires
            old(self).wf(),
        ensures
            final(self).wf(),
            final(self).chunk_size() == old(self).chunk_size(),
            final(self).announced_checksum() == old(self).announced_checksum(),
            final(self).stream() == old(self).stream(),
            exists|now: SystemTime|
                step_result(old(self).pool(), old(self).stream(), None, now, step, final(self).pool()),
    {
        let now = SystemTime::now();
        let step = self.pool.advance(None, now);
        assert(step_result(old(self).pool(), old(self).stream(), None, now, step, self.pool()));
        step
    }

    /// Decides what to do with `response`. Nothing changes in the session.
    pub fn receive(&self, response: DownloadResponse) -> (action: DownloadAction)
        requires
            self.wf(),
        ensures
            action == Self::action_for(self.pool(), self.chunk_size(), response),
    {
        match response {
            DownloadResponse::Initiated(_) => DownloadAction::Reject(Rejection::InitiatedTwice),
            DownloadResponse::Chunk(chunk) => {
                if !self.pool.is_downloading(chunk.offset) {
                    DownloadAction::Reject(Rejection::NotInFlight)
                } else {
                    match chunk.offset.checked_mul(self.buffer_size) {
                        None => DownloadAction::Reject(Rejection::OutOfRange),
                        Some(position) => DownloadAction::WriteChunk {
                            offset: chunk.offset,
                            position,
                            data: chunk.data,
                        },
                    }
                }
            },
        }
    }

    /// Whether the chunk at `offset` is in flight.
    pub fn expects(&self, offset: u64) -> (in_flight: bool)
        ensures
            in_flight == self.pool().downloading.contains(offset),
    {
        self.pool.is_downloading(offset)
    }

    /// Reports that the chunk at `offset`, which is in flight, was written,
    /// and refills the window: see [`DownloadChunkPool::set_completed`].
    pub fn chunk_written(&mut self, offset: u64) -> (step: Step)
        requires
            old(self).wf(),
            old(self).pool().downloading.contains(offset),
        ensures
            final(self).wf(),
            final(self).chunk_size() == old(self).chunk_size(),
            final(self).announced_checksum() == old(self).announced_checksum(),
            final(self).stream() == old(self).stream(),
            exists|now: SystemTime|
                step_result(old(self).pool(), old(self).stream(), Some(offset), now, step, final(self).pool()),
    {
        let now = SystemTime::now();
        let step = self.pool.advance(Some(offset), now);
        assert(step_result(old(self).pool(), old(self).stream(), Some(offset), now, step, self.pool()));
        step
    }

    /// Whether `actual`, the checksum of what was written, is the checksum
    /// that the uploader announced. A mismatch is for the caller to report;
    /// what was written stays.
    pub fn checksum_matches(&self, actual: &String) -> (equal: bool)
        ensures
            equal == (self.announced_checksum() == actual@),
    {
        self.expected_checksum == *actual
    }
}

} // verus!
