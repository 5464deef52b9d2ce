//! Chunked file transfer: what a sender announces, how a receiver checks and
//! records chunks, and when a transfer counts as complete.
//!
//! A file travels in chunks of 64 KiB. Each chunk carries the SHA-256 digest
//! of its bytes; the metadata carries the digest of the whole file. The
//! manager keeps, per transfer, which chunks have arrived. Reading and
//! writing the file itself is left to the caller, who is told where.

use crate::hex::hex_text;
use crate::primitives::{
    base64_bytes, base64_decode, base64_encode, base64_text, sha256, sha256_absorbed, sha256_begin,
    sha256_digest, sha256_finish, sha256_update, Sha256Stream,
};
use crate::table::Table;
use crate::text::{decimal, decimal_text, lowercase_text, same_text};
use vstd::prelude::*;

verus! {

/// The size of a chunk in bytes.
pub const CHUNK_SIZE: usize = 65536;

/// How often a sender offers a chunk again before giving up.
pub const MAX_RETRIES: u32 = 3;

/// What a sender announces about a file.
#[derive(Debug, Clone)]
pub struct FileMetadata {
    pub transfer_id: String,
    pub file_name: String,
    pub file_size: u64,
    pub file_type: String,
    pub total_chunks: u32,
    pub checksum: String,
}

/// One chunk as it travels: the bytes in Base64, with their checksum.
#[derive(Debug, Clone)]
pub struct FileChunk {
    pub transfer_id: String,
    pub chunk_index: u32,
    pub data: String,
    pub checksum: String,
}

/// The receiver's answer to one chunk.
#[derive(Debug, Clone)]
pub struct ChunkAck {
    pub transfer_id: String,
    pub chunk_index: u32,
    pub success: bool,
}

/// The receiver's verdict on the whole file.
#[derive(Debug, Clone)]
pub struct TransferComplete {
    pub transfer_id: String,
    pub success: bool,
    pub checksum: String,
}

/// What the manager knows of one transfer.
#[derive(Debug)]
pub struct TransferState {
    pub transfer_id: String,
    pub file_name: String,
    pub file_size: u64,
    pub total_chunks: u32,
    pub received_chunks: Vec<bool>,
    pub is_sender: bool,
    pub is_complete: bool,
    pub file_path: String,
    pub checksum: String,
}

/// How far a transfer has come, in chunks and in bytes.
#[derive(Debug, Clone)]
pub struct TransferProgress {
    pub transfer_id: String,
    pub chunks_completed: u32,
    pub total_chunks: u32,
    pub bytes_transferred: u64,
    pub total_bytes: u64,
}

/// Why an operation on a transfer failed.
#[derive(Debug, Clone, Copy, PartialEq, Eq, Structural)]
pub enum TransferError {
    /// The manager knows no transfer of that identifier.
    TransferNotFound,
}

impl TransferError {
    /// The message that goes with the error.
    pub fn message(&self) -> (text: String)
        ensures
            text@ == match *self {
                TransferError::TransferNotFound => "Transfer not found"@,
            },
    {
        match self {
            TransferError::TransferNotFound => String::from_str("Transfer not found"),
        }
    }
}

/// What to do with a chunk that has arrived.
#[derive(Debug)]
pub enum ChunkDecision {
    /// The checksum does not fit: answer with this negative acknowledgement
    /// and write nothing.
    Reject { ack: ChunkAck },
    /// The chunk is sound: write `data` into the file at `offset`, then
    /// report the chunk as written.
    Write { file_path: String, offset: u64, data: Vec<u8> },
}

/// The number of chunks that a file of `file_size` bytes is cut into.
pub open spec fn chunk_count(file_size: int) -> int {
    (file_size + CHUNK_SIZE - 1) / (CHUNK_SIZE as int)
}

/// The number of chunks as metadata carries it: `chunk_count`, held to what
/// 32 bits can say.
pub open spec fn announced_chunks(file_size: u64) -> u32 {
    if chunk_count(file_size as int) > u32::MAX {
        u32::MAX
    } else {
        chunk_count(file_size as int) as u32
    }
}

/// Where in the file the chunk of this index begins.
pub open spec fn chunk_start(chunk_index: u32) -> int {
    chunk_index * CHUNK_SIZE
}

/// The bytes of chunk `index` of `file`: up to 64 KiB from `chunk_start`.
pub open spec fn chunk_bytes(file: Seq<u8>, index: int) -> Seq<u8> {
    let start = index * CHUNK_SIZE;
    let end = if start + CHUNK_SIZE <= file.len() {
        start + CHUNK_SIZE
    } else {
        file.len() as int
    };
    if 0 <= start <= end {
        file.subrange(start, end)
    } else {
        Seq::empty()
    }
}

/// The checksum that goes with `data`: its SHA-256 digest in hexadecimal.
pub open spec fn checksum_of(data: Seq<u8>) -> Seq<char> {
    hex_text(sha256(data))
}

/// How many of the first `n` chunks have arrived.
pub open spec fn received_before(bits: Seq<bool>, n: int) -> int
    decreases n,
{
    if n <= 0 {
        0
    } else {
        received_before(bits, n - 1) + if bits[n - 1] {
            1int
        } else {
            0int
        }
    }
}

/// How many chunks have arrived.
pub open spec fn received_count(bits: Seq<bool>) -> int {
    received_before(bits, bits.len() as int)
}

/// Whether every chunk has arrived.
pub open spec fn all_received(bits: Seq<bool>) -> bool {
    forall|i: int| 0 <= i < bits.len() ==> bits[i]
}

/// Whether `missing` lists, in rising order, exactly the chunks that have
/// not arrived.
pub open spec fn lists_missing(missing: Seq<u32>, bits: Seq<bool>) -> bool {
    &&& forall|k: int| 0 <= k < missing.len() ==> missing[k] < bits.len() && !bits[missing[k] as int]
    &&& forall|k: int, l: int| 0 <= k < l < missing.len() ==> missing[k] < missing[l]
    &&& forall|i: int| 0 <= i < bits.len() && !bits[i] ==> missing.contains(i as u32)
}

impl TransferState {
    /// The bitmap has one entry per chunk, and a complete transfer has all
    /// its chunks.
    pub open spec fn wf(&self) -> bool {
        &&& self.received_chunks.len() == self.total_chunks
        &&& self.is_complete ==> all_received(self.received_chunks@)
    }
}

impl Clone for TransferState {
    fn clone(&self) -> (copy: Self)
        ensures
            copy.transfer_id == self.transfer_id,
            copy.file_name == self.file_name,
            copy.file_size == self.file_size,
            copy.total_chunks == self.total_chunks,
            copy.received_chunks@ == self.received_chunks@,
            copy.is_sender == self.is_sender,
            copy.is_complete == self.is_complete,
            copy.file_path == self.file_path,
            copy.checksum == self.checksum,
    {
        TransferState {
            transfer_id: self.transfer_id.clone(),
            file_name: self.file_name.clone(),
            file_size: self.file_size,
            total_chunks: self.total_chunks,
            received_chunks: self.received_chunks.clone(),
            is_sender: self.is_sender,
            is_complete: self.is_complete,
            file_path: self.file_path.clone(),
            checksum: self.checksum.clone(),
        }
    }
}

/// The number of chunks for a file of `file_size` bytes.
pub fn total_chunks_for(file_size: u64) -> (chunks: u32)
    ensures
        chunks == announced_chunks(file_size),
{
    let whole: u64 = file_size / 65536;
    let count: u64 = if file_size % 65536 == 0 {
        whole
    } else {
        whole + 1
    };
    if count > 0xffff_ffff {
        0xffff_ffff
    } else {
        count as u32
    }
}

/// Where in the file the chunk of this index begins.
pub fn chunk_offset(chunk_index: u32) -> (offset: u64)
    ensures
        offset == chunk_start(chunk_index),
{
    (chunk_index as u64) * 65536
}

/// A bitmap of `n` chunks of which none has arrived.
fn empty_bitmap(n: u32) -> (bits: Vec<bool>)
    ensures
        bits.len() == n,
        forall|i: int| 0 <= i < n ==> !bits[i],
{
    let mut bits: Vec<bool> = Vec::new();
    let mut i: u32 = 0;
    while i < n
        invariant
            i <= n,
            bits.len() == i,
            forall|j: int| 0 <= j < i ==> !bits[j],
        decreases n - i,
    {
        bits.push(false);
        i += 1;
    }
    bits
}

/// The transfers that a device sends or receives.
pub struct FileTransferManager {
    transfers: Table<TransferState>,
    downloads_dir: String,
}

impl FileTransferManager {
    /// No transfer occurs twice, each is stored under its own identifier, and
    /// each is well formed.
    pub closed spec fn wf(&self) -> bool {
        &&& self.transfers.wf()
        &&& forall|i: int|
            0 <= i < self.transfers.values.len() ==> (#[trigger] self.transfers.values[i]).wf()
                && self.transfers.values[i].transfer_id@ == self.transfers.keys[i]@
    }

    /// The transfers by identifier.
    pub closed spec fn transfers(&self) -> Map<Seq<char>, TransferState> {
        self.transfers@
    }

    /// The directory under which received files are put.
    pub closed spec fn downloads(&self) -> Seq<char> {
        self.downloads_dir@
    }

    /// Every transfer that the manager holds is well formed and stored under
    /// its own identifier.
    pub proof fn lemma_transfers_wf(&self, transfer_id: Seq<char>)
        requires
            self.wf(),
            self.transfers().contains_key(transfer_id),
        ensures
            self.transfers()[transfer_id].wf(),
            self.transfers()[transfer_id].transfer_id@ == transfer_id,
    {
        let i = self.transfers.index_of(transfer_id);
        self.transfers.lemma_index_unique(i);
    }

    /// A manager without transfers that puts received files under
    /// `downloads_dir`.
    pub fn new(downloads_dir: String) -> (manager: Self)
        ensures
            manager.wf(),
            manager.transfers() == Map::<Seq<char>, TransferState>::empty(),
            manager.downloads() == downloads_dir@,
    {
        FileTransferManager { transfers: Table::new(), downloads_dir }
    }

    /// The directory under which received files are put.
    pub fn get_downloads_dir(&self) -> (dir: String)
        ensures
            dir@ == self.downloads(),
    {
        self.downloads_dir.clone()
    }

    fn store(&mut self, state: TransferState)
        requires
            old(self).wf(),
            state.wf(),
        ensures
            final(self).wf(),
            final(self).transfers() == old(self).transfers().insert(state.transfer_id@, state),
            final(self).downloads() == old(self).downloads(),
    {
        let ghost before = *self;
        let key = state.transfer_id.clone();
        self.transfers.insert(key, state);
        proof {
            if before.transfers@.contains_key(state.transfer_id@) {
                let p = before.transfers.index_of(state.transfer_id@);
                assert forall|i: int| 0 <= i < self.transfers.values.len() implies (
                #[trigger] self.transfers.values[i]).wf() && self.transfers.values[i].transfer_id@
                    == self.transfers.keys[i]@ by {
                    if i != p {
                        assert(before.transfers.values[i].wf());
                    }
                }
            } else {
                assert forall|i: int| 0 <= i < self.transfers.values.len() implies (
                #[trigger] self.transfers.values[i]).wf() && self.transfers.values[i].transfer_id@
                    == self.transfers.keys[i]@ by {
                    if i < before.transfers.values.len() {
                        assert(before.transfers.values[i].wf());
                    }
                }
            }
        }
    }

    /// Registers a file for sending and says what to announce. The caller has
    /// measured the file and computed its checksum; `file_name` and
    /// `extension` are the last component of the path and its extension,
    /// where the path has them.
    pub fn prepare_send(
        &mut self,
        file_path: &str,
        transfer_id: &str,
        file_name: Option<&str>,
        extension: Option<&str>,
        file_size: u64,
        checksum: &str,
    ) -> (metadata: FileMetadata)
        requires
            old(self).wf(),
        ensures
            final(self).wf(),
            final(self).downloads() == old(self).downloads(),
            metadata.transfer_id@ == transfer_id@,
            metadata.file_name@ == match file_name {
                Some(name) => name@,
                None => "unknown"@,
            },
            metadata.file_size == file_size,
            metadata.file_type@ == match extension {
                Some(ext) => ext@,
                None => "bin"@,
            },
            metadata.total_chunks == announced_chunks(file_size),
            metadata.checksum@ == checksum@,
            final(self).transfers().dom() == old(self).transfers().dom().insert(transfer_id@),
            forall|other: Seq<char>|
                other != transfer_id@ && old(self).transfers().contains_key(other) ==> final(self).transfers()[other] == old(self).transfers()[other],
            ({
                let state = final(self).transfers()[transfer_id@];
                &&& state.transfer_id@ == transfer_id@
                &&& state.file_name@ == metadata.file_name@
                &&& state.file_size == file_size
                &&& state.total_chunks == metadata.total_chunks
                &&& state.received_chunks@.len() == metadata.total_chunks
                &&& forall|i: int| 0 <= i < state.received_chunks@.len() ==> !state.received_chunks@[i]
                &&& state.is_sender
                &&& !state.is_complete
                &&& state.file_path@ == file_path@
                &&& state.checksum@ == checksum@
            }),
    {
        let name = match file_name {
            Some(name) => String::from_str(name),
            None => String::from_str("unknown"),
        };
        let file_type = match extension {
            Some(ext) => String::from_str(ext),
            None => String::from_str("bin"),
        };
        let total_chunks = total_chunks_for(file_size);
        let state = TransferState {
            transfer_id: String::from_str(transfer_id),
            file_name: name.clone(),
            file_size,
            total_chunks,
            received_chunks: empty_bitmap(total_chunks),
            is_sender: true,
            is_complete: false,
            file_path: String::from_str(file_path),
            checksum: String::from_str(checksum),
        };
        self.store(state);
        FileMetadata {
            transfer_id: String::from_str(transfer_id),
            file_name: name,
            file_size,
            file_type,
            total_chunks,
            checksum: String::from_str(checksum),
        }
    }

    /// Registers an announced file for receiving into `file_path`, which the
    /// caller has chosen and created. No chunk has arrived yet.
    pub fn prepare_receive(&mut self, metadata: &FileMetadata, file_path: &str) -> (path: String)
        requires
            old(self).wf(),
        ensures
            final(self).wf(),
            final(self).downloads() == old(self).downloads(),
            path@ == file_path@,
            final(self).transfers().dom() == old(self).transfers().dom().insert(
                metadata.transfer_id@,
            ),
            forall|other: Seq<char>|
                other != metadata.transfer_id@ && old(self).transfers().contains_key(other)
                    ==> final(self).transfers()[other] == old(self).transfers()[other],
            ({
                let state = final(self).transfers()[metadata.transfer_id@];
                &&& state.transfer_id@ == metadata.transfer_id@
                &&& state.file_name@ == metadata.file_name@
                &&& state.file_size == metadata.file_size
                &&& state.total_chunks == metadata.total_chunks
                &&& state.received_chunks@.len() == metadata.total_chunks
                &&& forall|i: int| 0 <= i < state.received_chunks@.len() ==> !state.received_chunks@[i]
                &&& !state.is_sender
                &&& !state.is_complete
                &&& state.file_path@ == file_path@
                &&& state.checksum@ == metadata.checksum@
            }),
    {
        let state = TransferState {
            transfer_id: metadata.transfer_id.clone(),
            file_name: metadata.file_name.clone(),
            file_size: metadata.file_size,
            total_chunks: metadata.total_chunks,
            received_chunks: empty_bitmap(metadata.total_chunks),
            is_sender: false,
            is_complete: false,
            file_path: String::from_str(file_path),
            checksum: metadata.checksum.clone(),
        };
        self.store(state);
        String::from_str(file_path)
    }

    /// Packs the bytes that the caller read at `chunk_offset(chunk_index)`
    /// into a chunk: the bytes in Base64 and their checksum.
    pub fn get_chunk(&self, transfer_id: &str, chunk_index: u32, data: &[u8]) -> (chunk: Result<
        FileChunk,
        TransferError,
    >)
        requires
            self.wf(),
            data@.len() <= CHUNK_SIZE,
        ensures
            match chunk {
                Ok(c) => {
                    &&& self.transfers().contains_key(transfer_id@)
                    &&& c.transfer_id@ == transfer_id@
                    &&& c.chunk_index == chunk_index
                    &&& c.data@ == base64_text(data@)
                    &&& base64_bytes(c.data@) == Some(data@)
                    &&& c.checksum@ == checksum_of(data@)
                },
                Err(e) => e == TransferError::TransferNotFound && !self.transfers().contains_key(
                    transfer_id@,
                ),
            },
    {
        if !self.transfers.contains_key(transfer_id) {
            return Err(TransferError::TransferNotFound);
        }
        Ok(
            FileChunk {
                transfer_id: String::from_str(transfer_id),
                chunk_index,
                data: base64_encode(data),
                checksum: self.calculate_checksum(data),
            },
        )
    }

    /// Examines a chunk that has arrived and says what to do with it. A
    /// payload that is damaged, be it that it is no longer Base64 or that its
    /// checksum does not fit, is answered with a negative acknowledgement
    /// and not written, so that the sender may send the chunk again; a sound
    /// chunk of an unknown transfer is an error; anything else is to be
    /// written at its place in the file.
    pub fn receive_chunk(&self, chunk: &FileChunk) -> (decision: Result<
        ChunkDecision,
        TransferError,
    >)
        requires
            self.wf(),
        ensures
            match base64_bytes(chunk.data@) {
                None => {
                    &&& decision matches Ok(ChunkDecision::Reject { ack })
                    &&& ack.transfer_id@ == chunk.transfer_id@
                    &&& ack.chunk_index == chunk.chunk_index
                    &&& !ack.success
                },
                Some(bytes) => if checksum_of(bytes) != chunk.checksum@ {
                    &&& decision matches Ok(ChunkDecision::Reject { ack })
                    &&& ack.transfer_id@ == chunk.transfer_id@
                    &&& ack.chunk_index == chunk.chunk_index
                    &&& !ack.success
                } else if !self.transfers().contains_key(chunk.transfer_id@) {
                    decision == Err::<ChunkDecision, TransferError>(
                        TransferError::TransferNotFound,
                    )
                } else {
                    &&& decision matches Ok(ChunkDecision::Write { file_path, offset, data })
                    &&& file_path@ == self.transfers()[chunk.transfer_id@].file_path@
                    &&& offset == chunk_start(chunk.chunk_index)
                    &&& data@ == bytes
                },
            },
    {
        let data = match base64_decode(chunk.data.as_str()) {
            Ok(bytes) => bytes,
            Err(_) => {
                return Ok(
                    ChunkDecision::Reject {
                        ack: ChunkAck {
                            transfer_id: chunk.transfer_id.clone(),
                            chunk_index: chunk.chunk_index,
                            success: false,
                        },
                    },
                );
            },
        };
        let calculated = self.calculate_checksum(data.as_slice());
        self.judge_chunk(chunk, data, calculated.as_str())
    }

    /// Decides on a chunk whose payload has been decoded to `data` and whose
    /// checksum has been calculated: a checksum other than the one the chunk
    /// carries is answered, not written; a chunk of an unknown transfer is an
    /// error; anything else is to be written at its place in the file.
    pub fn judge_chunk(&self, chunk: &FileChunk, data: Vec<u8>, calculated: &str) -> (decision:
        Result<ChunkDecision, TransferError>)
        requires
            self.wf(),
        ensures
            if calculated@ != chunk.checksum@ {
                &&& decision matches Ok(ChunkDecision::Reject { ack })
                &&& ack.transfer_id@ == chunk.transfer_id@
                &&& ack.chunk_index == chunk.chunk_index
                &&& !ack.success
            } else if !self.transfers().contains_key(chunk.transfer_id@) {
                decision == Err::<ChunkDecision, TransferError>(TransferError::TransferNotFound)
            } else {
                &&& decision matches Ok(ChunkDecision::Write { file_path, offset, data: written })
                &&& file_path@ == self.transfers()[chunk.transfer_id@].file_path@
                &&& offset == chunk_start(chunk.chunk_index)
                &&& written@ == data@
            },
    {
        if !same_text(calculated, chunk.checksum.as_str()) {
            return Ok(
                ChunkDecision::Reject {
                    ack: ChunkAck {
                        transfer_id: chunk.transfer_id.clone(),
                        chunk_index: chunk.chunk_index,
                        success: false,
                    },
                },
            );
        }
        let file_path = match self.transfers.get(chunk.transfer_id.as_str()) {
            Some(state) => state.file_path.clone(),
            None => {
                return Err(TransferError::TransferNotFound);
            },
        };
        Ok(ChunkDecision::Write { file_path, offset: chunk_offset(chunk.chunk_index), data })
    }

    /// Records that the chunk has been written to the file and acknowledges
    /// it. Recording a chunk again changes nothing; an index beyond the
    /// bitmap, or a transfer that is gone, is acknowledged all the same.
    pub fn chunk_written(&mut self, transfer_id: &str, chunk_index: u32) -> (ack: ChunkAck)
        requires
            old(self).wf(),
        ensures
            final(self).wf(),
            final(self).downloads() == old(self).downloads(),
            ack.transfer_id@ == transfer_id@,
            ack.chunk_index == chunk_index,
            ack.success,
            final(self).transfers().dom() == old(self).transfers().dom(),
            forall|other: Seq<char>|
                other != transfer_id@ && old(self).transfers().contains_key(other) ==> final(self).transfers()[other] == old(self).transfers()[other],
            old(self).transfers().contains_key(transfer_id@) ==> {
                let before = old(self).transfers()[transfer_id@];
                let after = final(self).transfers()[transfer_id@];
                &&& after.received_chunks@ == if chunk_index < before.received_chunks@.len() {
                    before.received_chunks@.update(chunk_index as int, true)
                } else {
                    before.received_chunks@
                }
                &&& after.transfer_id == before.transfer_id
                &&& after.file_name == before.file_name
                &&& after.file_size == before.file_size
                &&& after.total_chunks == before.total_chunks
                &&& after.is_sender == before.is_sender
                &&& after.is_complete == before.is_complete
                &&& after.file_path == before.file_path
                &&& after.checksum == before.checksum
            },
    {
        let ghost before = *self;
        match self.transfers.position(transfer_id) {
            Some(i) => {
                if (chunk_index as usize) < self.transfers.values[i].received_chunks.len() {
                    self.transfers.values[i].received_chunks.set(chunk_index as usize, true);
                }
                proof {
                    assert(before.transfers.values[i as int].wf());
                    assert(self.transfers.wf());
                    assert forall|j: int| 0 <= j < self.transfers.values.len() implies (
                    #[trigger] self.transfers.values[j]).wf()
                        && self.transfers.values[j].transfer_id@ == self.transfers.keys[j]@ by {
                        assert(before.transfers.values[j].wf());
                    }
                    assert forall|k: Seq<char>| #[trigger]
                        self.transfers@.contains_key(k) == before.transfers@.contains_key(k) by {
                        if before.transfers.contains(k) {
                            let j = before.transfers.index_of(k);
                            assert(self.transfers.keys[j]@ == k);
                        }
                        if self.transfers.contains(k) {
                            let j = self.transfers.index_of(k);
                            assert(before.transfers.keys[j]@ == k);
                        }
                    }
                    assert(self.transfers@.dom() =~= before.transfers@.dom());
                    assert forall|other: Seq<char>|
                        other != transfer_id@ && before.transfers().contains_key(
                            other,
                        ) implies self.transfers()[other] == before.transfers()[other] by {
                        let j = before.transfers.index_of(other);
                        before.transfers.lemma_index_unique(j);
                        self.transfers.lemma_index_unique(j);
                    }
                    before.transfers.lemma_index_unique(i as int);
                    self.transfers.lemma_index_unique(i as int);
                }
            },
            None => {},
        }
        ChunkAck { transfer_id: String::from_str(transfer_id), chunk_index, success: true }
    }

    /// How far the transfer has come, if the manager knows it.
    pub fn get_progress(&self, transfer_id: &str) -> (progress: Option<TransferProgress>)
        requires
            self.wf(),
        ensures
            match progress {
                Some(p) => {
                    let state = self.transfers()[transfer_id@];
                    let bytes = received_count(state.received_chunks@) * CHUNK_SIZE;
                    &&& self.transfers().contains_key(transfer_id@)
                    &&& p.transfer_id@ == transfer_id@
                    &&& p.chunks_completed == received_count(state.received_chunks@)
                    &&& p.total_chunks == state.total_chunks
                    &&& p.bytes_transferred == if bytes <= state.file_size {
                        bytes
                    } else {
                        state.file_size as int
                    }
                    &&& p.total_bytes == state.file_size
                },
                None => !self.transfers().contains_key(transfer_id@),
            },
    {
        let state = match self.transfers.get(transfer_id) {
            Some(state) => state,
            None => {
                return None;
            },
        };
        proof {
            self.lemma_transfers_wf(transfer_id@);
        }
        let mut completed: u32 = 0;
        let mut i: usize = 0;
        while i < state.received_chunks.len()
            invariant
                i <= state.received_chunks.len(),
                state.received_chunks.len() == state.total_chunks,
                completed == received_before(state.received_chunks@, i as int),
                completed <= i,
            decreases state.received_chunks.len() - i,
        {
            if state.received_chunks[i] {
                completed += 1;
            }
            i += 1;
        }
        let bytes: u64 = (completed as u64) * 65536;
        Some(
            TransferProgress {
                transfer_id: String::from_str(transfer_id),
                chunks_completed: completed,
                total_chunks: state.total_chunks,
                bytes_transferred: if bytes <= state.file_size {
                    bytes
                } else {
                    state.file_size
                },
                total_bytes: state.file_size,
            },
        )
    }

    /// The chunks that have not arrived, in rising order; none for a
    /// transfer that the manager does not know.
    pub fn get_missing_chunks(&self, transfer_id: &str) -> (missing: Vec<u32>)
        requires
            self.wf(),
        ensures
            if self.transfers().contains_key(transfer_id@) {
                lists_missing(missing@, self.transfers()[transfer_id@].received_chunks@)
            } else {
                missing@.len() == 0
            },
    {
        let state = match self.transfers.get(transfer_id) {
            Some(state) => state,
            None => {
                return Vec::new();
            },
        };
        proof {
            self.lemma_transfers_wf(transfer_id@);
        }
        let mut missing: Vec<u32> = Vec::new();
        let mut i: usize = 0;
        while i < state.received_chunks.len()
            invariant
                i <= state.received_chunks.len(),
                state.received_chunks.len() == state.total_chunks,
                forall|k: int|
                    0 <= k < missing@.len() ==> missing@[k] < i && !state.received_chunks@[missing@[k] as int],
                forall|k: int, l: int| 0 <= k < l < missing@.len() ==> missing@[k] < missing@[l],
                forall|j: int|
                    0 <= j < i && !state.received_chunks@[j] ==> missing@.contains(j as u32),
            decreases state.received_chunks.len() - i,
        {
            if !state.received_chunks[i] {
                let ghost earlier = missing@;
                missing.push(i as u32);
                proof {
                    assert(missing@[missing@.len() - 1] == i as u32);
                    assert forall|j: int|
                        0 <= j < i + 1 && !state.received_chunks@[j] implies missing@.contains(
                        j as u32,
                    ) by {
                        if j < i {
                            let k = choose|k: int| 0 <= k < earlier.len() && earlier[k] == j as u32;
                            assert(missing@[k] == j as u32);
                        }
                    }
                }
            }
            i += 1;
        }
        missing
    }

    /// Closes a transfer with the checksum that the caller computed over the
    /// file as it stands. The verdict is positive exactly when that checksum
    /// is the announced one; the transfer is marked complete only if, on top
    /// of that, every chunk has arrived.
    pub fn complete_transfer(&mut self, transfer_id: &str, actual_checksum: &str) -> (verdict:
        Result<TransferComplete, TransferError>)
        requires
            old(self).wf(),
        ensures
            final(self).wf(),
            final(self).downloads() == old(self).downloads(),
            final(self).transfers().dom() == old(self).transfers().dom(),
            forall|other: Seq<char>|
                other != transfer_id@ && old(self).transfers().contains_key(other) ==> final(self).transfers()[other] == old(self).transfers()[other],
            match verdict {
                Ok(v) => {
                    let before = old(self).transfers()[transfer_id@];
                    let after = final(self).transfers()[transfer_id@];
                    &&& old(self).transfers().contains_key(transfer_id@)
                    &&& v.transfer_id@ == transfer_id@
                    &&& v.success == (actual_checksum@ == before.checksum@)
                    &&& v.checksum@ == actual_checksum@
                    &&& after.is_complete == (v.success && all_received(before.received_chunks@))
                    &&& after.received_chunks@ == before.received_chunks@
                    &&& after.transfer_id == before.transfer_id
                    &&& after.file_name == before.file_name
                    &&& after.file_size == before.file_size
                    &&& after.total_chunks == before.total_chunks
                    &&& after.is_sender == before.is_sender
                    &&& after.file_path == before.file_path
                    &&& after.checksum == before.checksum
                },
                Err(e) => e == TransferError::TransferNotFound && !old(self).transfers().contains_key(transfer_id@),
            },
    {
        let ghost before = *self;
        let i = match self.transfers.position(transfer_id) {
            Some(i) => i,
            None => {
                return Err(TransferError::TransferNotFound);
            },
        };
        let success = same_text(actual_checksum, self.transfers.values[i].checksum.as_str());
        let whole = success && Self::has_all(&self.transfers.values[i].received_chunks);
        self.transfers.values[i].is_complete = whole;
        proof {
            assert(before.transfers.values[i as int].wf());
            assert(self.transfers.wf());
            assert forall|j: int| 0 <= j < self.transfers.values.len() implies (
            #[trigger] self.transfers.values[j]).wf() && self.transfers.values[j].transfer_id@
                == self.transfers.keys[j]@ by {
                assert(before.transfers.values[j].wf());
            }
            assert forall|k: Seq<char>| #[trigger]
                self.transfers@.contains_key(k) == before.transfers@.contains_key(k) by {
                if before.transfers.contains(k) {
                    let j = before.transfers.index_of(k);
                    assert(self.transfers.keys[j]@ == k);
                }
                if self.transfers.contains(k) {
                    let j = self.transfers.index_of(k);
                    assert(before.transfers.keys[j]@ == k);
                }
            }
            assert(self.transfers@.dom() =~= before.transfers@.dom());
            assert forall|other: Seq<char>|
                other != transfer_id@ && before.transfers().contains_key(
                    other,
                ) implies self.transfers()[other] == before.transfers()[other] by {
                let j = before.transfers.index_of(other);
                before.transfers.lemma_index_unique(j);
                self.transfers.lemma_index_unique(j);
            }
            before.transfers.lemma_index_unique(i as int);
            self.transfers.lemma_index_unique(i as int);
        }
        Ok(
            TransferComplete {
                transfer_id: String::from_str(transfer_id),
                success,
                checksum: String::from_str(actual_checksum),
            },
        )
    }

    fn has_all(bits: &Vec<bool>) -> (all: bool)
        ensures
            all == all_received(bits@),
    {
        let mut i: usize = 0;
        while i < bits.len()
            invariant
                i <= bits.len(),
                forall|j: int| 0 <= j < i ==> bits@[j],
            decreases bits.len() - i,
        {
            if !bits[i] {
                return false;
            }
            i += 1;
        }
        true
    }

    /// Forgets a transfer. Where it was a receiving one that had not been
    /// completed, the answer names the partial file, which is to be deleted.
    pub fn cancel_transfer(&mut self, transfer_id: &str) -> (partial_file: Option<String>)
        requires
            old(self).wf(),
        ensures
            final(self).wf(),
            final(self).downloads() == old(self).downloads(),
            final(self).transfers() == old(self).transfers().remove(transfer_id@),
            match partial_file {
                Some(path) => {
                    let state = old(self).transfers()[transfer_id@];
                    &&& old(self).transfers().contains_key(transfer_id@)
                    &&& !state.is_sender
                    &&& !state.is_complete
                    &&& path@ == state.file_path@
                },
                None => old(self).transfers().contains_key(transfer_id@) ==> {
                    let state = old(self).transfers()[transfer_id@];
                    state.is_sender || state.is_complete
                },
            },
    {
        let ghost before = *self;
        let taken = self.transfers.remove(transfer_id);
        proof {
            if taken is Some {
                let p = before.transfers.index_of(transfer_id@);
                assert forall|j: int| 0 <= j < self.transfers.values.len() implies (
                #[trigger] self.transfers.values[j]).wf()
                    && self.transfers.values[j].transfer_id@ == self.transfers.keys[j]@ by {
                    let j0 = if j < p {
                        j
                    } else {
                        j + 1
                    };
                    assert(before.transfers.values[j0].wf());
                }
            }
        }
        match taken {
            Some(state) => if !state.is_sender && !state.is_complete {
                Some(state.file_path)
            } else {
                None
            },
            None => None,
        }
    }

    /// What the manager knows of the transfer, as a copy.
    pub fn get_transfer(&self, transfer_id: &str) -> (state: Option<TransferState>)
        requires
            self.wf(),
        ensures
            match state {
                Some(s) => {
                    let held = self.transfers()[transfer_id@];
                    &&& self.transfers().contains_key(transfer_id@)
                    &&& s.wf()
                    &&& s.transfer_id == held.transfer_id
                    &&& s.file_name == held.file_name
                    &&& s.file_size == held.file_size
                    &&& s.total_chunks == held.total_chunks
                    &&& s.received_chunks@ == held.received_chunks@
                    &&& s.is_sender == held.is_sender
                    &&& s.is_complete == held.is_complete
                    &&& s.file_path == held.file_path
                    &&& s.checksum == held.checksum
                },
                None => !self.transfers().contains_key(transfer_id@),
            },
    {
        match self.transfers.get(transfer_id) {
            Some(state) => {
                proof {
                    self.lemma_transfers_wf(transfer_id@);
                }
                Some(state.clone())
            },
            None => None,
        }
    }

    /// The checksum of a chunk's bytes.
    pub fn calculate_checksum(&self, data: &[u8]) -> (checksum: String)
        ensures
            checksum@ == checksum_of(data@),
    {
        let digest = sha256_digest(data);
        hex_encode(digest.as_slice())
    }
}

/// The file after `data` has been written at `offset`. A write that reaches
/// beyond the end lengthens the file; a gap before it holds zeros.
pub open spec fn written(file: Seq<u8>, offset: int, data: Seq<u8>) -> Seq<u8> {
    let end = if offset + data.len() > file.len() {
        offset + data.len()
    } else {
        file.len() as int
    };
    Seq::new(
        end as nat,
        |p: int|
            if offset <= p < offset + data.len() {
                data[p - offset]
            } else if p < file.len() {
                file[p]
            } else {
                0u8
            },
    )
}

/// The receiver's file after the chunks of `source` named in `deliveries`
/// have been written, in that order, into a file that began as `initial`.
pub open spec fn after_deliveries(initial: Seq<u8>, source: Seq<u8>, deliveries: Seq<int>) -> Seq<
    u8,
>
    decreases deliveries.len(),
{
    if deliveries.len() == 0 {
        initial
    } else {
        written(
            after_deliveries(initial, source, deliveries.drop_last()),
            deliveries.last() * CHUNK_SIZE,
            chunk_bytes(source, deliveries.last()),
        )
    }
}

/// The bitmap after the chunks named in `deliveries` have been recorded.
pub open spec fn recorded(bits: Seq<bool>, deliveries: Seq<int>) -> Seq<bool>
    decreases deliveries.len(),
{
    if deliveries.len() == 0 {
        bits
    } else {
        let earlier = recorded(bits, deliveries.drop_last());
        if 0 <= deliveries.last() < earlier.len() {
            earlier.update(deliveries.last(), true)
        } else {
            earlier
        }
    }
}

/// After any deliveries of honest chunks, the file has the length of the
/// source and agrees with it on every chunk that was delivered; the bitmap
/// has kept its length and shows every delivered chunk.
pub proof fn lemma_deliveries(
    initial: Seq<u8>,
    source: Seq<u8>,
    bits: Seq<bool>,
    deliveries: Seq<int>,
)
    requires
        initial.len() == source.len(),
        bits.len() == chunk_count(source.len() as int),
        forall|k: int|
            0 <= k < deliveries.len() ==> 0 <= #[trigger] deliveries[k] < chunk_count(
                source.len() as int,
            ),
    ensures
        after_deliveries(initial, source, deliveries).len() == source.len(),
        forall|p: int|
            0 <= p < source.len() && deliveries.contains(p / (CHUNK_SIZE as int))
                ==> after_deliveries(initial, source, deliveries)[p] == source[p],
        recorded(bits, deliveries).len() == bits.len(),
        forall|i: int|
            0 <= i < bits.len() && deliveries.contains(i) ==> recorded(bits, deliveries)[i],
    decreases deliveries.len(),
{
    if deliveries.len() > 0 {
        let earlier = deliveries.drop_last();
        let last = deliveries.last();
        lemma_deliveries(initial, source, bits, earlier);
        let file = after_deliveries(initial, source, earlier);
        let result = after_deliveries(initial, source, deliveries);
        let data = chunk_bytes(source, last);
        assert(0 <= last < chunk_count(source.len() as int)) by {
            assert(deliveries[deliveries.len() - 1] == last);
        }
        assert forall|p: int|
            0 <= p < source.len() && deliveries.contains(
                p / (CHUNK_SIZE as int),
            ) implies result[p] == source[p] by {
            let c = p / (CHUNK_SIZE as int);
            if c == last {
                assert(data[p - last * CHUNK_SIZE] == source[p]);
            } else {
                let k = choose|k: int| 0 <= k < deliveries.len() && deliveries[k] == c;
                assert(earlier[k] == c);
                assert(earlier.contains(c));
            }
        }
        assert forall|i: int| 0 <= i < bits.len() && deliveries.contains(i) implies recorded(
            bits,
            deliveries,
        )[i] by {
            if i != last {
                let k = choose|k: int| 0 <= k < deliveries.len() && deliveries[k] == i;
                assert(earlier[k] == i);
                assert(earlier.contains(i));
            }
        }
    }
}

/// However the chunks of a file are delivered, in whatever order and however
/// often, once each has been delivered at least once the receiver's file is
/// the source file, no chunk is missing, and closing the transfer with the
/// file's checksum gives a positive verdict.
pub proof fn law_transfer_idempotence(
    initial: Seq<u8>,
    source: Seq<u8>,
    bits: Seq<bool>,
    deliveries: Seq<int>,
)
    requires
        initial.len() == source.len(),
        bits.len() == chunk_count(source.len() as int),
        forall|k: int|
            0 <= k < deliveries.len() ==> 0 <= #[trigger] deliveries[k] < chunk_count(
                source.len() as int,
            ),
        forall|i: int| 0 <= i < chunk_count(source.len() as int) ==> deliveries.contains(i),
    ensures
        after_deliveries(initial, source, deliveries) == source,
        all_received(recorded(bits, deliveries)),
        checksum_of(after_deliveries(initial, source, deliveries)) == checksum_of(source),
{
    lemma_deliveries(initial, source, bits, deliveries);
    let result = after_deliveries(initial, source, deliveries);
    assert forall|p: int| 0 <= p < source.len() implies result[p] == source[p] by {
        let c = p / (CHUNK_SIZE as int);
        assert(0 <= c < chunk_count(source.len() as int));
    }
    assert(result =~= source);
    assert forall|i: int| 0 <= i < recorded(bits, deliveries).len() implies recorded(
        bits,
        deliveries,
    )[i] by {
        assert(deliveries.contains(i));
    }
}

/// A chunk that has been recorded as written is not listed as missing.
pub proof fn law_written_chunk_not_missing(bits: Seq<bool>, chunk_index: u32, missing: Seq<u32>)
    requires
        lists_missing(
            missing,
            if chunk_index < bits.len() {
                bits.update(chunk_index as int, true)
            } else {
                bits
            },
        ),
    ensures
        !missing.contains(chunk_index),
{
    if missing.contains(chunk_index) {
        let k = choose|k: int| 0 <= k < missing.len() && missing[k] == chunk_index;
        assert(missing[k] == chunk_index);
    }
}

/// The checksum of a file that is read piece by piece.
pub struct FileChecksum {
    hasher: Sha256Stream,
}

impl FileChecksum {
    /// The bytes taken in so far.
    pub closed spec fn absorbed(&self) -> Seq<u8> {
        sha256_absorbed(self.hasher)
    }

    /// A checksum over nothing yet.
    pub fn new() -> (checksum: Self)
        ensures
            checksum.absorbed() == Seq::<u8>::empty(),
    {
        FileChecksum { hasher: sha256_begin() }
    }

    /// Takes in the next piece of the file.
    pub fn update(&mut self, data: &[u8])
        ensures
            final(self).absorbed() == old(self).absorbed() + data@,
    {
        sha256_update(&mut self.hasher, data);
    }

    /// The checksum of all the pieces, in the order they were taken in: the
    /// checksum of the file as a whole.
    pub fn finish(self) -> (checksum: String)
        ensures
            checksum@ == checksum_of(self.absorbed()),
    {
        let digest = sha256_finish(self.hasher);
        hex_encode(digest.as_slice())
    }
}

/// The name of the folder that an instance of the application keeps its
/// files in: `Pingo`, or `Pingo_<instance>` for an instance that has a name.
pub open spec fn instance_folder_name(instance: Seq<char>) -> Seq<char> {
    if instance.len() == 0 {
        "Pingo"@
    } else {
        "Pingo_"@ + instance
    }
}

/// The name of the folder that an instance of the application keeps its
/// files in.
pub fn instance_folder(instance: &str) -> (folder: String)
    ensures
        folder@ == instance_folder_name(instance@),
{
    if instance.is_empty() {
        String::from_str("Pingo")
    } else {
        let mut folder = String::from_str("Pingo_");
        folder.append(instance);
        folder
    }
}

/// The `counter`th name to try for a received file: the announced name
/// first, then the stem with the counter in brackets before the extension.
/// A name without stem counts as `file`, one without extension gets none.
pub open spec fn candidate(
    file_name: Seq<char>,
    stem: Option<Seq<char>>,
    extension: Option<Seq<char>>,
    counter: u64,
) -> Seq<char> {
    if counter == 0 {
        file_name
    } else {
        let stem = match stem {
            Some(s) => s,
            None => "file"@,
        };
        let numbered = stem + " ("@ + decimal_text(counter as nat) + ")"@;
        match extension {
            Some(ext) => if ext.len() == 0 {
                numbered
            } else {
                numbered + "."@ + ext
            },
            None => numbered,
        }
    }
}

/// The `counter`th name to try for a received file. The caller tries the
/// names in order until one is free.
pub fn candidate_name(file_name: &str, stem: Option<&str>, extension: Option<&str>, counter: u64) -> (
name: String)
    ensures
        name@ == candidate(
            file_name@,
            match stem {
                Some(s) => Some(s@),
                None => None,
            },
            match extension {
                Some(e) => Some(e@),
                None => None,
            },
            counter,
        ),
{
    if counter == 0 {
        return String::from_str(file_name);
    }
    let mut name = match stem {
        Some(s) => String::from_str(s),
        None => String::from_str("file"),
    };
    name.append(" (");
    name.append(decimal(counter).as_str());
    name.append(")");
    match extension {
        Some(ext) => {
            if !ext.is_empty() {
                name.append(".");
                name.append(ext);
            }
        },
        None => {},
    }
    name
}

/// Renders `bytes` as lower-case hexadecimal text.
pub fn hex_encode(bytes: &[u8]) -> (text: String)
    ensures
        text@ == hex_text(bytes@),
{
    crate::hex::encode(bytes)
}

/// Whether a lower-case extension names an image format.
pub open spec fn image_extension(lowered: Seq<char>) -> bool {
    lowered == "jpg"@ || lowered == "jpeg"@ || lowered == "png"@ || lowered == "gif"@ || lowered
        == "webp"@ || lowered == "bmp"@ || lowered == "svg"@
}

/// Whether a lower-case extension names an image format.
pub fn is_image_extension(lowered: &str) -> (image: bool)
    ensures
        image == image_extension(lowered@),
{
    same_text(lowered, "jpg") || same_text(lowered, "jpeg") || same_text(lowered, "png")
        || same_text(lowered, "gif") || same_text(lowered, "webp") || same_text(lowered, "bmp")
        || same_text(lowered, "svg")
}

/// Whether the file type, whatever its case, names an image format.
pub fn is_image(file_type: &str) -> (image: bool)
    ensures
        image == image_extension(lowercase_text(file_type@)),
{
    let lowered = file_type.to_lowercase();
    is_image_extension(lowered.as_str())
}

/// The MIME type that goes with a lower-case extension.
pub open spec fn mime_of_extension(lowered: Seq<char>) -> Seq<char> {
    if lowered == "jpg"@ || lowered == "jpeg"@ {
        "image/jpeg"@
    } else if lowered == "png"@ {
        "image/png"@
    } else if lowered == "gif"@ {
        "image/gif"@
    } else if lowered == "webp"@ {
        "image/webp"@
    } else if lowered == "svg"@ {
        "image/svg+xml"@
    } else if lowered == "pdf"@ {
        "application/pdf"@
    } else if lowered == "doc"@ {
        "application/msword"@
    } else if lowered == "docx"@ {
        "application/vnd.openxmlformats-officedocument.wordprocessingml.document"@
    } else if lowered == "xls"@ {
        "application/vnd.ms-excel"@
    } else if lowered == "xlsx"@ {
        "application/vnd.openxmlformats-officedocument.spreadsheetml.sheet"@
    } else if lowered == "zip"@ {
        "application/zip"@
    } else if lowered == "mp3"@ {
        "audio/mpeg"@
    } else if lowered == "mp4"@ {
        "video/mp4"@
    } else if lowered == "txt"@ {
        "text/plain"@
    } else {
        "application/octet-stream"@
    }
}

/// The MIME type that goes with a lower-case extension.
pub fn mime_type_of(lowered: &str) -> (mime: &'static str)
    ensures
        mime@ == mime_of_extension(lowered@),
{
    if same_text(lowered, "jpg") || same_text(lowered, "jpeg") {
        "image/jpeg"
    } else if same_text(lowered, "png") {
        "image/png"
    } else if same_text(lowered, "gif") {
        "image/gif"
    } else if same_text(lowered, "webp") {
        "image/webp"
    } else if same_text(lowered, "svg") {
        "image/svg+xml"
    } else if same_text(lowered, "pdf") {
        "application/pdf"
    } else if same_text(lowered, "doc") {
        "application/msword"
    } else if same_text(lowered, "docx") {
        "application/vnd.openxmlformats-officedocument.wordprocessingml.document"
    } else if same_text(lowered, "xls") {
        "application/vnd.ms-excel"
    } else if same_text(lowered, "xlsx") {
        "application/vnd.openxmlformats-officedocument.spreadsheetml.sheet"
    } else if same_text(lowered, "zip") {
        "application/zip"
    } else if same_text(lowered, "mp3") {
        "audio/mpeg"
    } else if same_text(lowered, "mp4") {
        "video/mp4"
    } else if same_text(lowered, "txt") {
        "text/plain"
    } else {
        "application/octet-stream"
    }
}

/// The MIME type that goes with an extension, whatever its case.
pub fn get_mime_type(extension: &str) -> (mime: &'static str)
    ensures
        mime@ == mime_of_extension(lowercase_text(extension@)),
{
    let lowered = extension.to_lowercase();
    mime_type_of(lowered.as_str())
}

} // verus!
