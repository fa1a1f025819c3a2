//! Download planning: the link a download fetches, how a file is split into
//! ranged chunks, and which strategy a file's size calls for.
use vstd::prelude::*;

use crate::errors::{api_error_message, is_api_error, NetDiskError, NetDiskResult};
use crate::file::{FileInfo, FileMeta};
use crate::text::{contains_seq, int_decimal, owned, str_contains, u64_to_string};

verus! {

/// The size of a downloaded chunk: 4 MiB.
pub const CHUNK_SIZE: u64 = 4194304;

/// Files of this size (10 MiB) and larger are downloaded in concurrent chunks.
pub const PARALLEL_THRESHOLD: u64 = 10485760;

/// The link with the access token appended as a query parameter: after `&`
/// when the link already has a query, after `?` otherwise.
pub open spec fn spec_download_url(dlink: Seq<char>, access_token: Seq<char>) -> Seq<char> {
    if contains_seq(dlink, seq!['?']) {
        dlink + "&access_token="@ + access_token
    } else {
        dlink + "?access_token="@ + access_token
    }
}

/// The URL that downloads a file: its link with the access token appended.
pub fn download_url(dlink: &str, access_token: &str) -> (r: String)
    ensures
        r@ == spec_download_url(dlink@, access_token@),
{
    let mut url = dlink.to_string();
    if str_contains(dlink, "?") {
        url.append("&access_token=");
    } else {
        url.append("?access_token=");
    }
    url.append(access_token);
    proof {
        assert("?"@ =~= seq!['?']) by {
            reveal_strlit("?");
        }
    }
    url
}

/// The download link of a file's metadata, or the API error -1 "Failed to get
/// download link" when it has none.
pub fn download_link(meta: &FileMeta) -> (r: NetDiskResult<String>)
    ensures
        match meta.dlink {
            Some(d) => r matches Ok(s) && s == d,
            None => r matches Err(e) && is_api_error(
                e,
                -1i32,
                api_error_message(-1i32, "Failed to get download link"@),
            ),
        },
{
    match &meta.dlink {
        Some(d) => Ok(d.clone()),
        None => Err(NetDiskError::api_error(-1, "Failed to get download link")),
    }
}

/// The server ID of a file, or the API error -1 "File has no fs_id" when it
/// has none.
pub fn fs_id_of(info: &FileInfo) -> (r: NetDiskResult<u64>)
    ensures
        match info.fs_id {
            Some(id) => r matches Ok(v) && v == id,
            None => r matches Err(e) && is_api_error(
                e,
                -1i32,
                api_error_message(-1i32, "File has no fs_id"@),
            ),
        },
{
    match info.fs_id {
        Some(id) => Ok(id),
        None => Err(NetDiskError::api_error(-1, "File has no fs_id")),
    }
}

/// The number of chunks of a file: its size divided by the chunk size,
/// rounded up.
pub open spec fn chunk_count(size: nat) -> nat {
    ((size + CHUNK_SIZE - 1) / (CHUNK_SIZE as int)) as nat
}

/// The first byte of chunk `i`.
pub open spec fn chunk_start(i: nat) -> nat {
    (i * CHUNK_SIZE) as nat
}

/// The last byte of chunk `i` of a file of `size` bytes.
pub open spec fn chunk_end(size: nat, i: nat) -> int {
    if (i + 1) * CHUNK_SIZE < size {
        (i + 1) * CHUNK_SIZE - 1
    } else {
        size - 1
    }
}

/// The chunks of a file of `size` bytes: for each index `i`, the index, the
/// first byte `i * 4 MiB` and the last byte, which is that of the next chunk's
/// start or of the file, whichever comes first.
pub fn chunk_ranges(file_size: u64) -> (r: Vec<(usize, u64, u64)>)
    requires
        file_size + CHUNK_SIZE <= u64::MAX,
        chunk_count(file_size as nat) <= usize::MAX,
    ensures
        r@.len() == chunk_count(file_size as nat),
        forall|i: int|
            0 <= i < r@.len() ==> #[trigger] r@[i] == (i as usize, chunk_start(i as nat) as u64, chunk_end(
                file_size as nat,
                i as nat,
            ) as u64),
{
    let total = (file_size + CHUNK_SIZE - 1) / CHUNK_SIZE;
    let mut chunks: Vec<(usize, u64, u64)> = Vec::new();
    let mut i: u64 = 0;
    while i < total
        invariant
            file_size + CHUNK_SIZE <= u64::MAX,
            total == chunk_count(file_size as nat),
            total <= usize::MAX,
            i <= total,
            chunks@.len() == i,
            forall|k: int|
                0 <= k < i ==> #[trigger] chunks@[k] == (k as usize, chunk_start(k as nat) as u64, chunk_end(
                    file_size as nat,
                    k as nat,
                ) as u64),
        decreases total - i,
    {
        assert(i * CHUNK_SIZE < file_size) by (nonlinear_arith)
            requires
                i < total,
                total == (file_size + CHUNK_SIZE - 1) / (CHUNK_SIZE as int),
        ;
        assert((i + 1) * CHUNK_SIZE <= file_size + CHUNK_SIZE) by (nonlinear_arith)
            requires
                i * CHUNK_SIZE < file_size,
        ;
        let start = i * CHUNK_SIZE;
        let next = (i + 1) * CHUNK_SIZE;
        let end = if next < file_size {
            next - 1
        } else {
            file_size - 1
        };
        chunks.push((i as usize, start, end));
        i = i + 1;
    }
    chunks
}

/// The chunks tile the file: the first starts at byte 0, each starts right
/// after the previous one ends, the last ends at the file's last byte, and
/// every chunk holds between one byte and 4 MiB.
pub proof fn lemma_chunks_tile_file(size: nat)
    ensures
        size > 0 ==> chunk_count(size) > 0 && chunk_start(0) == 0,
        size == 0 ==> chunk_count(size) == 0,
        forall|i: nat|
            i + 1 < chunk_count(size) ==> chunk_end(size, i) + 1 == chunk_start(
                #[trigger] (i + 1),
            ),
        chunk_count(size) > 0 ==> chunk_end(size, (chunk_count(size) - 1) as nat) == size - 1,
        forall|i: nat|
            i < chunk_count(size) ==> chunk_start(i) <= #[trigger] chunk_end(size, i) && chunk_end(
                size,
                i,
            ) - chunk_start(i) < CHUNK_SIZE,
{
    let n = chunk_count(size);
    assert(size > 0 ==> n > 0) by (nonlinear_arith)
        requires
            n == (size + CHUNK_SIZE - 1) / (CHUNK_SIZE as int),
    ;
    assert(size == 0 ==> n == 0) by (nonlinear_arith)
        requires
            n == (size + CHUNK_SIZE - 1) / (CHUNK_SIZE as int),
    ;
    assert forall|i: nat| i + 1 < n implies chunk_end(size, i) + 1 == chunk_start(
        #[trigger] (i + 1),
    ) by {
        assert((i + 1) * CHUNK_SIZE < size) by (nonlinear_arith)
            requires
                i + 1 < n,
                n == (size + CHUNK_SIZE - 1) / (CHUNK_SIZE as int),
        ;
    }
    if n > 0 {
        assert(n * CHUNK_SIZE >= size) by (nonlinear_arith)
            requires
                n == (size + CHUNK_SIZE - 1) / (CHUNK_SIZE as int),
        ;
        assert((n - 1) * CHUNK_SIZE < size) by (nonlinear_arith)
            requires
                n > 0,
                n == (size + CHUNK_SIZE - 1) / (CHUNK_SIZE as int),
        ;
    }
    assert forall|i: nat| i < n implies chunk_start(i) <= #[trigger] chunk_end(size, i)
        && chunk_end(size, i) - chunk_start(i) < CHUNK_SIZE by {
        assert(i * CHUNK_SIZE < size) by (nonlinear_arith)
            requires
                i < n,
                n == (size + CHUNK_SIZE - 1) / (CHUNK_SIZE as int),
        ;
        assert((i + 1) * CHUNK_SIZE == i * CHUNK_SIZE + CHUNK_SIZE) by (nonlinear_arith);
    }
}

/// The `Range` header value of a chunk: `bytes=start-end`.
pub fn range_header(start: u64, end: u64) -> (r: String)
    ensures
        r@ == "bytes="@ + int_decimal(start as int) + "-"@ + int_decimal(end as int),
{
    let mut r = owned("bytes=");
    let s = u64_to_string(start);
    r.append(s.as_str());
    r.append("-");
    let e = u64_to_string(end);
    r.append(e.as_str());
    r
}

/// A chunk's response is usable when its status is a success (2xx), which
/// includes 206 Partial Content.
pub fn chunk_status_ok(status: u16) -> (r: bool)
    ensures
        r == (200 <= status <= 299),
{
    (200 <= status && status <= 299) || status == 206
}

/// How a file is downloaded.
#[derive(Debug, Clone, Copy, PartialEq, Eq, Structural)]
pub enum DownloadStrategy {
    /// One request for the whole file.
    Single,
    /// Ranged chunk requests, this many at a time.
    Streaming { max_concurrency: usize },
}

/// The strategy a file's size calls for: concurrent chunks (4 at a time) from
/// 10 MiB up, a single request below (an unknown size counts as 0).
pub open spec fn spec_auto_strategy(size: Option<u64>) -> DownloadStrategy {
    let s = match size {
        Some(v) => v,
        None => 0,
    };
    if s >= PARALLEL_THRESHOLD {
        DownloadStrategy::Streaming { max_concurrency: 4 }
    } else {
        DownloadStrategy::Single
    }
}

/// The strategy an automatic download uses for a file: `spec_auto_strategy`
/// of its size.
pub fn auto_strategy(meta: &FileMeta) -> (r: DownloadStrategy)
    ensures
        r == spec_auto_strategy(meta.size),
{
    let file_size = match meta.size {
        Some(v) => v,
        None => 0,
    };
    if file_size >= PARALLEL_THRESHOLD {
        DownloadStrategy::Streaming { max_concurrency: 4 }
    } else {
        DownloadStrategy::Single
    }
}

/// The worker count of a parallel download (4 when not given) and the number
/// of chunks fetched at once, three per worker; the queue holds as many.
pub fn parallel_concurrency(thread_num: Option<usize>) -> (r: (usize, usize))
    requires
        match thread_num {
            Some(n) => n * 3 <= usize::MAX,
            None => true,
        },
    ensures
        r.0 == match thread_num {
            Some(n) => n,
            None => 4,
        },
        r.1 == r.0 * 3,
{
    let threads = match thread_num {
        Some(n) => n,
        None => 4,
    };
    (threads, threads * 3)
}

} // verus!
