//! The uploading side of a file transfer: the checksum of the file, how it
//! is cut into chunks, and what to do with each message of the stream.

use vstd::prelude::*;
use vstd::slice::{slice_subrange, slice_to_vec};
use sha2::{Digest, Sha256};
use crate::messages::{InitiateUpload, SharedFileChunk, UploadRequest, UploadRequested, UploadResponse};

verus! {

/// The chunk size that is used where the downloader states no wish.
pub const DEFAULT_BUFFER_SIZE: u64 = 4096;

/// The SHA-256 digest of `data`, written as 64 lower-case hexadecimal digits.
pub uninterp spec fn sha256_hex(data: Seq<u8>) -> Seq<char>;

/// `sha2::Sha256::digest` computes the SHA-256 digest of the bytes in one
/// call, and the digest's `LowerHex` form writes it out in hexadecimal. The
/// result depends on the bytes alone, and is given the name [`sha256_hex`].
#[verifier::external_body]
fn sha256_hex_digest(data: &[u8]) -> (hex: String)
    ensures
        hex@ == sha256_hex(data@),
{
    format!("{:x}", Sha256::digest(data))
}

/// The checksum of a file with the content `data`.
pub fn compute_hash(data: &[u8]) -> (checksum: String)
    ensures
        checksum@ == sha256_hex(data@),
{
    sha256_hex_digest(data)
}

/// Whether the checksum `actual`, computed over what was received, is the
/// checksum `expected` that the uploader announced.
pub fn checksum_matches(expected: &String, actual: &String) -> (equal: bool)
    ensures
        equal == (expected@ == actual@),
{
    *expected == *actual
}

/// Whether a file with the content `data` has the checksum `expected`.
pub fn verify_checksum(data: &[u8], expected: &String) -> (valid: bool)
    ensures
        valid == (sha256_hex(data@) == expected@),
{
    let actual = compute_hash(data);
    checksum_matches(expected, &actual)
}

/// The least number of chunks of `buffer_size` bytes that hold `len` bytes.
pub open spec fn chunks_needed(len: nat, buffer_size: nat) -> nat {
    ((len + buffer_size - 1) / (buffer_size as int)) as nat
}

/// The quotient of [`chunks_needed`] is the least number of chunks that
/// suffices: that many chunks hold `len` bytes, and one chunk fewer does not.
pub proof fn lemma_chunks_needed(len: nat, buffer_size: nat)
    requires
        buffer_size > 0,
    ensures
        chunks_needed(len, buffer_size) * buffer_size >= len,
        (chunks_needed(len, buffer_size) - 1) * buffer_size < len,
{
    let b = buffer_size as int;
    let x = len + b - 1;
    let q = x / b;
    assert(x == b * q + x % b && 0 <= x % b < b) by (nonlinear_arith)
        requires
            b > 0,
            q == x / b,
    ;
    assert(q >= 0) by (nonlinear_arith)
        requires
            b > 0,
            x >= 0,
            q == x / b,
    ;
    assert(q * b == b * q && (q - 1) * b == b * q - b) by (nonlinear_arith);
}

/// `a` divided by `b`, rounded up.
pub fn div_ceil(a: u64, b: u64) -> (quotient: u64)
    requires
        b > 0,
        a + b <= u64::MAX,
    ensures
        quotient == chunks_needed(a as nat, b as nat),
        quotient * b >= a,
        (quotient - 1) * b < a,
{
    proof {
        lemma_chunks_needed(a as nat, b as nat);
    }
    (a + b - 1) / b
}

/// The number of chunks of `buffer_size` bytes into which a file of
/// `file_len` bytes is cut. There is none for a chunk size of zero, nor
/// where the sum of the two sizes leaves the range of the integers.
pub fn number_of_chunks(file_len: u64, buffer_size: u64) -> (chunks: Option<u64>)
    ensures
        chunks == if buffer_size > 0 && file_len + buffer_size <= u64::MAX {
            Some(chunks_needed(file_len as nat, buffer_size as nat) as u64)
        } else {
            None
        },
{
    if buffer_size == 0 {
        return None;
    }
    match file_len.checked_add(buffer_size) {
        Some(_) => Some(div_ceil(file_len, buffer_size)),
        None => None,
    }
}

/// The chunk size for a request: what the downloader wished, or
/// [`DEFAULT_BUFFER_SIZE`].
pub fn buffer_size_of(request: &UploadRequested) -> (buffer_size: u64)
    ensures
        buffer_size == match request.buffer_size {
            Some(size) => size,
            None => DEFAULT_BUFFER_SIZE,
        },
{
    match request.buffer_size {
        Some(size) => size,
        None => DEFAULT_BUFFER_SIZE,
    }
}

/// The first message of the upload stream that answers `request`: it offers
/// the file of `file_len` bytes with the checksum `checksum`, on behalf of
/// `device` in `workspace`. There is none where the file cannot be cut into
/// chunks: see [`number_of_chunks`].
pub fn initiate_upload(
    workspace: &String,
    device: &String,
    request: &UploadRequested,
    file_len: u64,
    checksum: String,
) -> (message: Option<InitiateUpload>)
    ensures
        match message {
            Some(initiate) => {
                &&& request.buffer_size.unwrap_or(DEFAULT_BUFFER_SIZE) > 0
                &&& file_len + request.buffer_size.unwrap_or(DEFAULT_BUFFER_SIZE) <= u64::MAX
                &&& initiate == (InitiateUpload {
                    workspace: *workspace,
                    download_device: request.download_device,
                    upload_device: *device,
                    relative_path: request.relative_path,
                    buffer_size: request.buffer_size.unwrap_or(DEFAULT_BUFFER_SIZE),
                    checksum,
                    number_of_chunks: chunks_needed(
                        file_len as nat,
                        request.buffer_size.unwrap_or(DEFAULT_BUFFER_SIZE) as nat,
                    ) as u64,
                    permissions: None,
                })
            },
            None => request.buffer_size.unwrap_or(DEFAULT_BUFFER_SIZE) == 0 || file_len
                + request.buffer_size.unwrap_or(DEFAULT_BUFFER_SIZE) > u64::MAX,
        },
{
    let buffer_size = buffer_size_of(request);
    match number_of_chunks(file_len, buffer_size) {
        None => None,
        Some(chunks) => Some(
            InitiateUpload {
                workspace: workspace.clone(),
                download_device: request.download_device.clone(),
                upload_device: device.clone(),
                relative_path: request.relative_path.clone(),
                buffer_size,
                checksum,
                number_of_chunks: chunks,
                permissions: None,
            },
        ),
    }
}

/// Where the chunk at `offset` starts in a file that is cut into chunks of
/// `buffer_size` bytes, if that place is within the range of the integers.
pub fn chunk_position(offset: u64, buffer_size: u64) -> (position: Option<u64>)
    ensures
        position == if offset * buffer_size <= u64::MAX {
            Some((offset * buffer_size) as u64)
        } else {
            None
        },
{
    offset.checked_mul(buffer_size)
}

/// How many bytes the chunk at `offset` carries, in a file of `file_len`
/// bytes that is cut into chunks of `buffer_size` bytes: a whole buffer, or
/// what is left of the file where that is less.
pub open spec fn chunk_len(file_len: u64, offset: u64, buffer_size: u64) -> int {
    if file_len - offset * buffer_size < buffer_size {
        file_len - offset * buffer_size
    } else {
        buffer_size as int
    }
}

/// The bytes that the chunk at `offset` carries, in a file with the content
/// `content` that is cut into chunks of `buffer_size` bytes.
pub open spec fn chunk_data(content: Seq<u8>, offset: u64, buffer_size: u64) -> Seq<u8> {
    content.subrange(
        offset * buffer_size,
        offset * buffer_size + chunk_len(content.len() as u64, offset, buffer_size),
    )
}

/// What the uploader does next.
#[derive(Debug, PartialEq, Eq)]
pub enum UploadAction {
    /// Read `length` bytes at `position` of the file and send them as the
    /// chunk at `offset`.
    SendChunk { offset: u64, position: u64, length: usize },
    /// The downloader is done: end the stream.
    Finish,
}

/// What the uploader hands to its stream next.
#[derive(Debug, PartialEq, Eq)]
pub enum UploadStep {
    /// This message, which carries a chunk.
    Send(UploadRequest),
    /// Nothing more: the downloader is done.
    Finish,
}

/// What the uploader does on `response`, for a file of `file_len` bytes that
/// is cut into chunks of `buffer_size` bytes: see [`upload_action`].
pub open spec fn upload_decision(response: UploadResponse, buffer_size: u64, file_len: u64) -> Option<UploadAction> {
    match response {
        UploadResponse::Complete => Some(UploadAction::Finish),
        UploadResponse::Request { offset } => if offset * buffer_size < file_len && chunk_len(
            file_len,
            offset,
            buffer_size,
        ) <= usize::MAX {
            Some(
                UploadAction::SendChunk {
                    offset,
                    position: (offset * buffer_size) as u64,
                    length: chunk_len(file_len, offset, buffer_size) as usize,
                },
            )
        } else {
            None
        },
    }
}

/// Every chunk that a downloader can ask for exists: the chunks of a file
/// are numbered from 0 up to their number, each of them starts within the
/// file, carries at least one byte and at most a buffer of them, and ends
/// within the file.
pub proof fn lemma_chunk_within_file(file_len: u64, buffer_size: u64, offset: u64)
    requires
        buffer_size > 0,
        offset < chunks_needed(file_len as nat, buffer_size as nat),
    ensures
        offset * buffer_size < file_len,
        0 < chunk_len(file_len, offset, buffer_size) <= buffer_size,
        offset * buffer_size + chunk_len(file_len, offset, buffer_size) <= file_len,
{
    let b = buffer_size as int;
    let x = file_len + b - 1;
    let q = x / b;
    let o = offset as int;
    assert(x == b * q + x % b && 0 <= x % b < b) by (nonlinear_arith)
        requires
            b > 0,
            q == x / b,
    ;
    assert(o * b <= b * q - b) by (nonlinear_arith)
        requires
            b > 0,
            0 <= o <= q - 1,
    ;
}

/// The chunks carry the file, each byte once: the byte at place `i` of the
/// file travels in the chunk at offset `i / buffer_size`, which is one of the
/// chunks of the file, and stands there at the place that puts it back at
/// `i` when the chunk is written at `offset * buffer_size`.
pub proof fn lemma_chunks_carry_the_file(content: Seq<u8>, buffer_size: u64, i: int)
    requires
        buffer_size > 0,
        content.len() <= u64::MAX,
        0 <= i < content.len(),
    ensures
        ({
            let offset = (i / (buffer_size as int)) as u64;
            let start = offset * buffer_size;
            &&& offset < chunks_needed(content.len(), buffer_size as nat)
            &&& 0 <= i - start < chunk_data(content, offset, buffer_size).len()
            &&& chunk_data(content, offset, buffer_size)[i - start] == content[i]
        }),
{
    let b = buffer_size as int;
    let o = i / b;
    assert(i == b * o + i % b && 0 <= i % b < b && 0 <= o <= i) by (nonlinear_arith)
        requires
            b > 0,
            i >= 0,
            o == i / b,
    ;
    assert(o * b == b * o) by (nonlinear_arith);
    let n = chunks_needed(content.len(), buffer_size as nat) as int;
    lemma_chunks_needed(content.len(), buffer_size as nat);
    assert(o < n) by (nonlinear_arith)
        requires
            b > 0,
            o * b <= i,
            i < n * b,
    ;
}

/// Decides what the uploader does on `response`, for a file of `file_len`
/// bytes that is cut into chunks of `buffer_size` bytes. A request is
/// answered with the chunk at its offset, which ends where the file ends.
/// There is no action for a request whose chunk would start at or beyond the
/// end of the file: no such chunk exists.
pub fn upload_action(response: &UploadResponse, buffer_size: u64, file_len: u64) -> (action: Option<UploadAction>)
    ensures
        action == upload_decision(*response, buffer_size, file_len),
{
    match response {
        UploadResponse::Complete => Some(UploadAction::Finish),
        UploadResponse::Request { offset } => {
            let position = match chunk_position(*offset, buffer_size) {
                Some(position) => position,
                None => {
                    return None;
                },
            };
            if position >= file_len {
                return None;
            }
            let left = file_len - position;
            let length = if left < buffer_size {
                left
            } else {
                buffer_size
            };
            if length > usize::MAX as u64 {
                return None;
            }
            Some(UploadAction::SendChunk { offset: *offset, position, length: length as usize })
        },
    }
}

/// The message that carries the bytes `data` as the chunk at `offset`.
pub fn chunk_message(offset: u64, data: Vec<u8>) -> (message: UploadRequest)
    ensures
        message == UploadRequest::Chunk(SharedFileChunk { offset, data }),
{
    UploadRequest::Chunk(SharedFileChunk { offset, data })
}

/// Answers `response` for the file with the content `content`, cut into
/// chunks of `buffer_size` bytes: a request is answered with the message
/// that carries the chunk at its offset, which holds the bytes of
/// [`chunk_data`] and no others. There is no answer where
/// [`upload_action`] has no action.
pub fn upload_step(response: &UploadResponse, content: &[u8], buffer_size: u64) -> (step: Option<UploadStep>)
    ensures
        match upload_decision(*response, buffer_size, content@.len() as u64) {
            Some(UploadAction::Finish) => step == Some(UploadStep::Finish),
            Some(UploadAction::SendChunk { offset, .. }) => {
                &&& step matches Some(UploadStep::Send(UploadRequest::Chunk(chunk)))
                &&& chunk.offset == offset
                &&& chunk.data@ == chunk_data(content@, offset, buffer_size)
            },
            None => step is None,
        },
{
    match upload_action(response, buffer_size, content.len() as u64) {
        None => None,
        Some(UploadAction::Finish) => Some(UploadStep::Finish),
        Some(UploadAction::SendChunk { offset, position, length }) => {
            let start = position as usize;
            let data = slice_to_vec(slice_subrange(content, start, start + length));
            Some(UploadStep::Send(chunk_message(offset, data)))
        },
    }
}

} // verus!
