//! The arithmetic and decisions of the downloader: whether to download in
//! ranges, how to split a file into ranges, how to read the size that the
//! server announces, and when a range arrived complete.
use vstd::prelude::*;
use crate::text::{decimal, parse_unsigned, parse_unsigned_str, push_decimal};
use crate::units::{format_scaled, scaled_size_text};

verus! {

/// Downloader error types.
#[derive(Debug)]
pub enum DownloadError {
    /// A network failure, with its text.
    Network { message: String },
    /// A file system failure, with its text.
    Io { message: String },
    FileSize,
    RangeNotSupported,
    ChunkDownloadFailed { message: String },
    Other { message: String },
}

/// The message of a download error.
pub open spec fn download_error_text(e: DownloadError) -> Seq<char> {
    match e {
        DownloadError::Network { message } => "Network error: "@ + message@,
        DownloadError::Io { message } => "IO error: "@ + message@,
        DownloadError::FileSize => "Could not get file size"@,
        DownloadError::RangeNotSupported => "Server does not support range requests"@,
        DownloadError::ChunkDownloadFailed { message } => "Chunk download failed: "@ + message@,
        DownloadError::Other { message } => "Other error: "@ + message@,
    }
}

impl DownloadError {
    /// The message shown for this error.
    pub fn message(&self) -> (res: String)
        ensures
            res@ == download_error_text(*self),
    {
        match self {
            DownloadError::Network { message } => {
                let mut s = String::from_str("Network error: ");
                s.append(message.as_str());
                s
            },
            DownloadError::Io { message } => {
                let mut s = String::from_str("IO error: ");
                s.append(message.as_str());
                s
            },
            DownloadError::FileSize => String::from_str("Could not get file size"),
            DownloadError::RangeNotSupported => String::from_str("Server does not support range requests"),
            DownloadError::ChunkDownloadFailed { message } => {
                let mut s = String::from_str("Chunk download failed: ");
                s.append(message.as_str());
                s
            },
            DownloadError::Other { message } => {
                let mut s = String::from_str("Other error: ");
                s.append(message.as_str());
                s
            },
        }
    }
}

/// Chunk download information: the byte range `start..=end` of the file.
#[derive(Debug, Clone)]
pub struct ChunkInfo {
    /// Chunk index
    pub index: usize,
    /// Start position
    pub start: u64,
    /// End position
    pub end: u64,
    /// Chunk size
    pub size: u64,
}

impl ChunkInfo {
    /// Creates new chunk information for the bytes `start..=end`.
    pub fn new(index: usize, start: u64, end: u64) -> (res: Self)
        requires
            start <= end,
            end < u64::MAX,
        ensures
            res.index == index,
            res.start == start,
            res.end == end,
            res.size == end - start + 1,
    {
        ChunkInfo { index, start, end, size: end - start + 1 }
    }
}

/// Download configuration
#[derive(Debug, Clone)]
pub struct DownloadConfig {
    /// User-Agent
    pub user_agent: String,
    /// Request timeout in seconds
    pub timeout_secs: u64,
    /// Connection timeout in seconds
    pub connect_timeout_secs: u64,
    /// Number of concurrent download threads
    pub concurrent_connections: usize,
    /// Minimum size of each chunk in bytes
    pub min_chunk_size: u64,
    /// Number of retries
    pub max_retries: u32,
    /// Retry interval in milliseconds
    pub retry_delay_ms: u64,
    /// Whether to enable chunked downloading
    pub enable_chunked_download: bool,
}

impl Default for DownloadConfig {
    fn default() -> (res: Self)
        ensures
            res.user_agent@ == "Tidepool-GVM/1.0"@,
            res.timeout_secs == 300,
            res.connect_timeout_secs == 30,
            res.concurrent_connections == 4,
            res.min_chunk_size == 1024 * 1024,
            res.max_retries == 3,
            res.retry_delay_ms == 1000,
            res.enable_chunked_download,
    {
        DownloadConfig {
            user_agent: String::from_str("Tidepool-GVM/1.0"),
            timeout_secs: 300,
            connect_timeout_secs: 30,
            concurrent_connections: 4,
            min_chunk_size: 1024 * 1024,
            max_retries: 3,
            retry_delay_ms: 1000,
            enable_chunked_download: true,
        }
    }
}

/// The number of ranges a file is split into: one per `min_chunk_size`
/// started, but no more than the connections allowed.
pub open spec fn chunk_count(total: nat, chunk_size: nat, connections: nat) -> nat {
    let wanted = ((total + chunk_size - 1) as nat) / chunk_size;
    if wanted < connections { wanted } else { connections }
}

impl DownloadConfig {
    /// Whether a file of `total_size` bytes is downloaded in ranges.
    pub fn use_chunked(&self, total_size: u64) -> (res: bool)
        ensures
            res == (self.enable_chunked_download && total_size > self.min_chunk_size),
    {
        self.enable_chunked_download && total_size > self.min_chunk_size
    }

    /// Splits `total_size` bytes into ranges: `n = chunk_count(..)` ranges of
    /// `total_size / n` bytes each, the last one extended to the end of the
    /// file.
    pub fn plan_chunks(&self, total_size: u64) -> (res: Vec<ChunkInfo>)
        requires
            total_size > 0,
            self.min_chunk_size > 0,
            self.concurrent_connections > 0,
            total_size + self.min_chunk_size <= u64::MAX,
        ensures
            res@.len() == chunk_count(total_size as nat, self.min_chunk_size as nat, self.concurrent_connections as nat),
            res@.len() >= 1,
            res@[0].start == 0,
            res@[res@.len() - 1].end == total_size - 1,
            forall|i: int| 0 <= i < res@.len() ==> {
                &&& (#[trigger] res@[i]).index == i
                &&& res@[i].start == i * (total_size as int / res@.len() as int)
                &&& res@[i].start <= res@[i].end
                &&& res@[i].size == res@[i].end - res@[i].start + 1
                &&& i < res@.len() - 1 ==> res@[i].end == res@[i].start + total_size as int / res@.len() as int - 1
            },
            forall|i: int| 0 <= i < res@.len() - 1 ==> #[trigger] res@[i + 1].start == res@[i].end + 1,
            contiguous_from_zero(res@),
    {
        let chunk_size = self.min_chunk_size;
        let wanted = (total_size + chunk_size - 1) / chunk_size;
        let connections = self.concurrent_connections as u64;
        let num_chunks = if wanted < connections { wanted } else { connections };
        proof {
            assert(wanted >= 1) by (nonlinear_arith)
                requires
                    wanted as int == (total_size as int + chunk_size as int - 1) / (chunk_size as int),
                    total_size >= 1,
                    chunk_size >= 1,
            ;
            assert(wanted <= total_size) by (nonlinear_arith)
                requires
                    wanted as int == (total_size as int + chunk_size as int - 1) / (chunk_size as int),
                    total_size >= 1,
                    chunk_size >= 1,
            ;
        }
        let actual = total_size / num_chunks;
        proof {
            assert(actual >= 1) by (nonlinear_arith)
                requires
                    actual == total_size / num_chunks,
                    1 <= num_chunks <= total_size,
            ;
            assert(actual * num_chunks <= total_size) by (nonlinear_arith)
                requires
                    actual == total_size / num_chunks,
                    num_chunks >= 1,
            ;
        }
        let mut chunks: Vec<ChunkInfo> = Vec::new();
        let mut i: u64 = 0;
        while i < num_chunks
            invariant
                1 <= num_chunks <= total_size,
                num_chunks <= connections,
                connections == self.concurrent_connections as u64,
                actual == total_size / num_chunks,
                actual >= 1,
                actual * num_chunks <= total_size,
                i <= num_chunks,
                chunks@.len() == i,
                forall|k: int| 0 <= k < i ==> {
                    &&& (#[trigger] chunks@[k]).index == k
                    &&& chunks@[k].start == k * actual
                    &&& chunks@[k].start <= chunks@[k].end
                    &&& chunks@[k].size == chunks@[k].end - chunks@[k].start + 1
                    &&& k < num_chunks - 1 ==> chunks@[k].end == chunks@[k].start + actual - 1
                    &&& k == num_chunks - 1 ==> chunks@[k].end == total_size - 1
                },
            decreases num_chunks - i,
        {
            proof {
                assert(i * actual + actual <= total_size) by (nonlinear_arith)
                    requires
                        i < num_chunks,
                        actual * num_chunks <= total_size,
                ;
            }
            let start = i * actual;
            let end = if i == num_chunks - 1 {
                total_size - 1
            } else {
                start + actual - 1
            };
            assert(i < self.concurrent_connections);
            chunks.push(ChunkInfo::new(i as usize, start, end));
            i = i + 1;
        }
        proof {
            assert forall|k: int| 0 <= k < chunks@.len() - 1 implies #[trigger] chunks@[k + 1].start == chunks@[k].end + 1 by {
                assert(chunks@[k + 1].start == (k + 1) * actual);
                assert((k + 1) * actual == k * actual + actual) by (nonlinear_arith);
            }
        }
        chunks
    }
}

/// The size that a `Content-Length` header announces, read as `str::parse`
/// reads a `u64`; a missing or unreadable header gives `FileSize`.
pub fn content_length(header: Option<&str>) -> (res: Result<u64, DownloadError>)
    ensures
        match header {
            Some(h) => match parse_unsigned(h@, u64::MAX as nat) {
                Some(v) => res matches Ok(n) && n == v,
                None => res matches Err(DownloadError::FileSize),
            },
            None => res matches Err(DownloadError::FileSize),
        },
{
    match header {
        Some(h) => match parse_unsigned_str(h, u64::MAX) {
            Some(v) => Ok(v),
            None => Err(DownloadError::FileSize),
        },
        None => Err(DownloadError::FileSize),
    }
}

/// The `Range` header that asks for a chunk: `bytes=<start>-<end>`.
pub fn range_header(chunk: &ChunkInfo) -> (res: String)
    ensures
        res@ == "bytes="@ + decimal(chunk.start as nat) + "-"@ + decimal(chunk.end as nat),
{
    let mut s = String::from_str("bytes=");
    push_decimal(&mut s, chunk.start as u128);
    s.append("-");
    push_decimal(&mut s, chunk.end as u128);
    s
}

/// Whether a chunk arrived whole: the bytes received must be its size.
pub fn check_chunk(chunk: &ChunkInfo, received: u64) -> (res: Result<(), DownloadError>)
    ensures
        received == chunk.size ==> res is Ok,
        received != chunk.size ==> (res matches Err(DownloadError::ChunkDownloadFailed { message })
            && message@ == "Chunk "@ + decimal(chunk.index as nat) + " downloaded "@ + decimal(received as nat)
                + " bytes, expected "@ + decimal(chunk.size as nat)),
{
    if received != chunk.size {
        let mut s = String::from_str("Chunk ");
        push_decimal(&mut s, chunk.index as u128);
        s.append(" downloaded ");
        push_decimal(&mut s, received as u128);
        s.append(" bytes, expected ");
        push_decimal(&mut s, chunk.size as u128);
        Err(DownloadError::ChunkDownloadFailed { message: s })
    } else {
        Ok(())
    }
}

/// What follows an attempt at downloading a chunk.
#[derive(Debug, Clone, Copy, PartialEq, Eq, Structural)]
pub enum ChunkRetry {
    /// The chunk arrived.
    Done,
    /// Wait this many milliseconds, then try again.
    RetryAfterMs(u64),
    /// Give up with the attempt's error.
    GiveUp,
}

/// After attempt number `attempt` (counting from 1) of at most
/// `max_retries`: done when it succeeded, else another attempt after the
/// delay while attempts are left, else give up.
pub fn after_chunk_attempt(attempt: u32, max_retries: u32, succeeded: bool, retry_delay_ms: u64) -> (res: ChunkRetry)
    ensures
        succeeded ==> res == ChunkRetry::Done,
        !succeeded && attempt < max_retries ==> res == ChunkRetry::RetryAfterMs(retry_delay_ms),
        !succeeded && attempt >= max_retries ==> res == ChunkRetry::GiveUp,
{
    if succeeded {
        ChunkRetry::Done
    } else if attempt < max_retries {
        ChunkRetry::RetryAfterMs(retry_delay_ms)
    } else {
        ChunkRetry::GiveUp
    }
}

/// The error of a chunk for which no attempt was made (no retries allowed).
pub fn chunk_attempts_exhausted(index: usize, max_retries: u32) -> (res: DownloadError)
    ensures
        res matches DownloadError::ChunkDownloadFailed { message }
            && message@ == "Chunk "@ + decimal(index as nat) + " failed after "@ + decimal(max_retries as nat) + " attempts"@,
{
    let mut s = String::from_str("Chunk ");
    push_decimal(&mut s, index as u128);
    s.append(" failed after ");
    push_decimal(&mut s, max_retries as u128);
    s.append(" attempts");
    DownloadError::ChunkDownloadFailed { message: s }
}

/// The error of a chunk request that the server refused: the status as
/// shown (code and reason) and its canonical reason, `Unknown` if it has none.
pub fn chunk_status_error(status: &str, canonical_reason: Option<&str>) -> (res: DownloadError)
    ensures
        res matches DownloadError::ChunkDownloadFailed { message }
            && message@ == "HTTP "@ + status@ + ": "@ + match canonical_reason {
                Some(r) => r@,
                None => "Unknown"@,
            },
{
    let mut s = String::from_str("HTTP ");
    s.append(status);
    s.append(": ");
    match canonical_reason {
        Some(r) => s.append(r),
        None => s.append("Unknown"),
    }
    DownloadError::ChunkDownloadFailed { message: s }
}

/// Whether a single-stream download reports its progress: once 100 ms have
/// passed since it started, or when the announced size is reached.
pub fn should_report_progress(elapsed_ms: u64, downloaded: u64, file_size: u64) -> (res: bool)
    ensures
        res == (elapsed_ms >= 100 || downloaded == file_size),
{
    elapsed_ms >= 100 || downloaded == file_size
}

/// The total size of some chunks.
pub open spec fn sizes_sum(chunks: Seq<ChunkInfo>) -> nat
    decreases chunks.len(),
{
    if chunks.len() == 0 {
        0
    } else {
        sizes_sum(chunks.drop_last()) + chunks.last().size as nat
    }
}

/// Chunks laid end to end from the start of the file.
pub open spec fn contiguous_from_zero(chunks: Seq<ChunkInfo>) -> bool {
    &&& chunks.len() >= 1
    &&& chunks[0].start == 0
    &&& forall|i: int| 0 <= i < chunks.len() ==> (#[trigger] chunks[i]).start <= chunks[i].end
        && chunks[i].size == chunks[i].end - chunks[i].start + 1
    &&& forall|i: int| 0 <= i < chunks.len() - 1 ==> #[trigger] chunks[i + 1].start == chunks[i].end + 1
}

proof fn lemma_prefix_sizes(chunks: Seq<ChunkInfo>, k: int)
    requires
        contiguous_from_zero(chunks),
        1 <= k <= chunks.len(),
    ensures
        sizes_sum(chunks.subrange(0, k)) == chunks[k - 1].end + 1,
    decreases k,
{
    let pre = chunks.subrange(0, k);
    assert(pre.last() == chunks[k - 1]);
    assert(chunks[k - 1].size == chunks[k - 1].end - chunks[k - 1].start + 1);
    assert(sizes_sum(pre) == sizes_sum(pre.drop_last()) + pre.last().size as nat);
    if k == 1 {
        assert(pre.drop_last() =~= Seq::<ChunkInfo>::empty());
        assert(sizes_sum(Seq::<ChunkInfo>::empty()) == 0);
    } else {
        lemma_prefix_sizes(chunks, k - 1);
        assert(pre.drop_last() =~= chunks.subrange(0, k - 1));
        let j = k - 2;
        assert(chunks[j + 1].start == chunks[j].end + 1);
    }
}

/// Law: the ranges of a split cover the file exactly once: laid end to end
/// from the first byte to the last, their sizes add up to the file's size.
pub proof fn lemma_chunks_cover_file(chunks: Seq<ChunkInfo>, total: nat)
    requires
        contiguous_from_zero(chunks),
        chunks.last().end == total - 1,
    ensures
        sizes_sum(chunks) == total,
{
    lemma_prefix_sizes(chunks, chunks.len() as int);
    assert(chunks.subrange(0, chunks.len() as int) =~= chunks);
}

/// Helper function to format file sizes in human-readable format.
pub fn format_file_size(bytes: u64) -> (res: String)
    ensures
        res@ == scaled_size_text(bytes as nat, 3, seq![' ']),
{
    proof {
        reveal_strlit(" ");
    }
    format_scaled(bytes, 3, " ")
}

} // verus!
