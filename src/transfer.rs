use vstd::prelude::*;
use crate::error::{message_of, SshError};

verus! {

/// Bytes moved per read.
pub const CHUNK_SIZE: usize = 32768;

/// Which side of a transfer is remote, and so which error a failing read or
/// write is reported as.
#[derive(PartialEq, Eq, Structural, Clone, Copy, Debug)]
pub enum Direction {
    /// Remote file to local sink.
    Download,
    /// Local source to remote file.
    Upload,
}

/// A read failure is remote on a download and local on an upload.
pub open spec fn is_read_error(d: Direction, e: SshError) -> bool {
    match d {
        Direction::Download => e is RemoteIo,
        Direction::Upload => e is LocalIo,
    }
}

/// A write failure is local on a download and remote on an upload.
pub open spec fn is_write_error(d: Direction, e: SshError) -> bool {
    match d {
        Direction::Download => e is LocalIo,
        Direction::Upload => e is RemoteIo,
    }
}

/// Relies on `std::io::Read::read`: it fills a prefix of the buffer and
/// returns its length, zero at the end of the stream.
#[verifier::external_body]
fn read_into<R: std::io::Read>(src: &mut R, buf: &mut Vec<u8>) -> (r: Result<usize, String>)
    ensures
        final(buf)@.len() == old(buf)@.len(),
        r matches Ok(n) ==> n <= old(buf)@.len(),
{
    src.read(buf.as_mut_slice()).map_err(|e| e.to_string())
}

/// Relies on `std::io::Write::write_all`: it writes the first `n` bytes of
/// the buffer, all of them or fails.
#[verifier::external_body]
fn write_prefix<W: std::io::Write>(dst: &mut W, buf: &Vec<u8>, n: usize) -> (r: Result<(), String>)
    requires
        n <= buf@.len(),
{
    dst.write_all(&buf[..n]).map_err(|e| e.to_string())
}

/// The error of a read that failed, by direction.
pub fn read_error(d: Direction, msg: String) -> (r: SshError)
    ensures
        is_read_error(d, r),
        r matches SshError::RemoteIo(m) ==> m == msg,
        r matches SshError::LocalIo(m) ==> m == msg,
{
    match d {
        Direction::Download => SshError::RemoteIo(msg),
        Direction::Upload => SshError::LocalIo(msg),
    }
}

/// The error of a write that failed, by direction.
pub fn write_error(d: Direction, msg: String) -> (r: SshError)
    ensures
        is_write_error(d, r),
        r matches SshError::RemoteIo(m) ==> m == msg,
        r matches SshError::LocalIo(m) ==> m == msg,
{
    match d {
        Direction::Download => SshError::LocalIo(msg),
        Direction::Upload => SshError::RemoteIo(msg),
    }
}

/// What a transfer does after a read.
pub enum ReadStep {
    /// The source is exhausted: the transfer moved this many bytes.
    Finish(u64),
    /// Write the first `n` bytes of the buffer; `moved` bytes are then done.
    Write { n: usize, moved: u64 },
    /// The transfer ends with this error.
    Fail(SshError),
}

/// The message of a transfer whose byte count no longer fits in 64 bits.
pub open spec fn too_long_text() -> Seq<char> {
    "transfer longer than 2^64 bytes"@
}

/// The decision after a read that returned `outcome` when `moved` bytes were
/// done: an empty read ends the transfer, a failed one ends it with the
/// read-side error carrying the reader's message, any other goes on with the
/// count grown by the bytes read (or fails where the count would overflow).
pub fn after_read(moved: u64, outcome: Result<usize, String>, dir: Direction) -> (r: ReadStep)
    ensures
        outcome matches Err(m) ==> (r matches ReadStep::Fail(e) && is_read_error(dir, e)
            && message_of(e) == m@),
        outcome matches Ok(n) ==> (n == 0 <==> r == ReadStep::Finish(moved)),
        outcome matches Ok(n) ==> (n > 0 && moved + n <= u64::MAX <==> r == (ReadStep::Write {
            n,
            moved: (moved + n) as u64,
        })),
        outcome matches Ok(n) ==> (n > 0 && moved + n > u64::MAX <==> (r matches ReadStep::Fail(e)
            && is_read_error(dir, e) && message_of(e) == too_long_text())),
{
    match outcome {
        Err(m) => ReadStep::Fail(read_error(dir, m)),
        Ok(n) => {
            if n == 0 {
                ReadStep::Finish(moved)
            } else if u64::MAX - moved < n as u64 {
                proof {
                    reveal_strlit("transfer longer than 2^64 bytes");
                }
                ReadStep::Fail(read_error(dir, "transfer longer than 2^64 bytes".to_owned()))
            } else {
                ReadStep::Write { n, moved: moved + n as u64 }
            }
        },
    }
}

/// The progress reports of a transfer that has moved `moved` bytes: one
/// call of `report` per chunk, each with the bytes moved so far and `total`,
/// the counts growing by at most `CHUNK_SIZE` and by at least one each
/// time, none when nothing was moved, the last equal to `moved`.
pub open spec fn progress_trace<F: Fn(u64, u64)>(
    report: F,
    counts: Seq<u64>,
    total: u64,
    moved: u64,
) -> bool {
    &&& forall|i: int| 0 <= i < counts.len() ==> #[trigger] report.ensures((counts[i], total), ())
    &&& counts.len() > 0 ==> 0 < counts[0] <= CHUNK_SIZE
    &&& forall|i: int|
        0 < i < counts.len() ==> counts[i - 1] < #[trigger] counts[i] <= counts[i - 1] + CHUNK_SIZE
    &&& (counts.len() == 0 <==> moved == 0)
    &&& counts.len() > 0 ==> counts.last() == moved
}

/// Copies `src` into `dst` chunk by chunk until a read returns nothing.
/// After each chunk it reports the bytes moved so far together with
/// `total_size`; an empty source gets no report. It returns the number of
/// bytes moved; the first failing read or write ends it with the matching
/// error. Each step follows `after_read`.
pub fn pump<R: std::io::Read, W: std::io::Write, F: Fn(u64, u64)>(
    src: &mut R,
    dst: &mut W,
    total_size: u64,
    report: F,
    dir: Direction,
) -> (r: Result<u64, SshError>)
    requires
        forall|done: u64, total: u64| report.requires((done, total)),
    ensures
        r matches Err(e) ==> is_read_error(dir, e) || is_write_error(dir, e),
        r is Ok ==> exists|counts: Seq<u64>|
            #[trigger] progress_trace(report, counts, total_size, r->Ok_0),
{
    let mut buf: Vec<u8> = vec![0u8; CHUNK_SIZE];
    let mut moved: u64 = 0;
    let ghost mut counts: Seq<u64> = Seq::empty();
    loop
        invariant
            buf@.len() == CHUNK_SIZE,
            forall|done: u64, total: u64| report.requires((done, total)),
            progress_trace(report, counts, total_size, moved),
        decreases u64::MAX - moved,
    {
        let outcome = read_into(src, &mut buf);
        match after_read(moved, outcome, dir) {
            ReadStep::Finish(total) => {
                let done: Result<u64, SshError> = Ok(total);
                assert(progress_trace(report, counts, total_size, done->Ok_0));
                return done;
            },
            ReadStep::Fail(e) => return Err(e),
            ReadStep::Write { n, moved: next } => {
                match write_prefix(dst, &buf, n) {
                    Ok(()) => {},
                    Err(msg) => return Err(write_error(dir, msg)),
                }
                moved = next;
                report(moved, total_size);
                proof {
                    let old_counts = counts;
                    counts = counts.push(moved);
                    assert forall|i: int| 0 <= i < counts.len() implies #[trigger] report.ensures(
                        (counts[i], total_size),
                        (),
                    ) by {
                        if i < old_counts.len() {
                            assert(counts[i] == old_counts[i]);
                        }
                    }
                    assert forall|i: int| 0 < i < counts.len() implies counts[i - 1] < #[trigger] counts[i]
                        <= counts[i - 1] + CHUNK_SIZE by {
                        if i < old_counts.len() {
                            assert(counts[i] == old_counts[i]);
                            assert(counts[i - 1] == old_counts[i - 1]);
                        }
                    }
                }
            },
        }
    }
}

} // verus!
