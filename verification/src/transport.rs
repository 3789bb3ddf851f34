use vstd::prelude::*;
use bytes::BytesMut;
use crate::buffer::{
    buffer_bytes, buffer_capacity, buffer_clear, buffer_extend, buffer_len, buffer_slice,
    buffer_split_to, buffer_with_capacity,
};
use crate::constants::{
    BATCH_READ_MAX_BYTES, DEFAULT_BUFFER_CAPACITY, MAX_BUFFER_CAPACITY, MIO_BATCH_SIZE,
};

verus! {

/// `std::io::Error`: why an operation on a transport failed, opaque to the verifier.
#[verifier::external_type_specification]
#[verifier::external_body]
pub struct ExIoError(std::io::Error);

/// The smaller of two integers.
pub open spec fn min_int(a: int, b: int) -> int {
    if a <= b {
        a
    } else {
        b
    }
}

/// The number of bytes that one batch takes from a buffer of `len` bytes:
/// all of them, unless the byte limit or the chunk limit is reached first.
pub open spec fn batch_bytes(len: int, max_chunks: int, max_bytes: int) -> int {
    min_int(len, min_int(max_bytes, max_chunks * DEFAULT_BUFFER_CAPACITY as int))
}

/// The number of chunks into which `taken` bytes are cut: full chunks of
/// `DEFAULT_BUFFER_CAPACITY` bytes and, where bytes are left, one shorter chunk.
pub open spec fn batch_chunks(taken: int) -> int {
    (taken + DEFAULT_BUFFER_CAPACITY as int - 1) / (DEFAULT_BUFFER_CAPACITY as int)
}

/// The bytes of the `index`-th chunk of a batch of `taken` bytes cut from `data`.
pub open spec fn batch_chunk(data: Seq<u8>, taken: int, index: int) -> Seq<u8> {
    data.subrange(
        index * DEFAULT_BUFFER_CAPACITY as int,
        min_int((index + 1) * DEFAULT_BUFFER_CAPACITY as int, taken),
    )
}

/// Whether `chunks` is the batch cut from the front of `data` under the two limits.
pub open spec fn is_batch_of(
    chunks: Seq<BytesMut>,
    data: Seq<u8>,
    max_chunks: int,
    max_bytes: int,
) -> bool {
    let taken = batch_bytes(data.len() as int, max_chunks, max_bytes);
    &&& chunks.len() == batch_chunks(taken)
    &&& forall|i: int|
        0 <= i < chunks.len() ==> buffer_bytes(#[trigger] chunks[i]) == batch_chunk(data, taken, i)
}

/// Cuts a batch of raw chunks off the front of the buffer.
///
/// Chunks hold `DEFAULT_BUFFER_CAPACITY` bytes each, the last one possibly
/// fewer; the batch stops at `max_chunks` chunks or `max_bytes` bytes. The
/// bytes are not interpreted. The buffer keeps what the batch did not take.
pub fn split_batch(buf: &mut BytesMut, max_chunks: usize, max_bytes: usize) -> (chunks: Vec<
    BytesMut,
>)
    ensures
        is_batch_of(chunks@, buffer_bytes(*old(buf)), max_chunks as int, max_bytes as int),
        buffer_bytes(*final(buf)) == buffer_bytes(*old(buf)).subrange(
            batch_bytes(buffer_bytes(*old(buf)).len() as int, max_chunks as int, max_bytes as int),
            buffer_bytes(*old(buf)).len() as int,
        ),
{
    let ghost data = buffer_bytes(*buf);
    let ghost taken = batch_bytes(data.len() as int, max_chunks as int, max_bytes as int);
    let mut chunks: Vec<BytesMut> = Vec::new();
    let mut total_bytes: usize = 0;
    while buffer_len(buf) > 0 && chunks.len() < max_chunks
        invariant_except_break
            total_bytes == chunks@.len() * DEFAULT_BUFFER_CAPACITY,
            total_bytes <= taken,
            total_bytes <= max_bytes,
            total_bytes <= data.len(),
            buffer_bytes(*buf) == data.subrange(total_bytes as int, data.len() as int),
            forall|i: int|
                0 <= i < chunks@.len() ==> buffer_bytes(#[trigger] chunks@[i]) == batch_chunk(
                    data,
                    taken,
                    i,
                ),
        invariant
            data == buffer_bytes(*old(buf)),
            taken == batch_bytes(data.len() as int, max_chunks as int, max_bytes as int),
        ensures
            is_batch_of(chunks@, data, max_chunks as int, max_bytes as int),
            buffer_bytes(*buf) == data.subrange(taken, data.len() as int),
        decreases buffer_bytes(*buf).len(),
    {
        let held: usize = buffer_len(buf);
        let chunk_size: usize = if held < DEFAULT_BUFFER_CAPACITY {
            held
        } else {
            DEFAULT_BUFFER_CAPACITY
        };
        let ghost index = chunks@.len() as int;
        let ghost before = buffer_bytes(*buf);
        if chunk_size > max_bytes - total_bytes {
            let allowed: usize = max_bytes - total_bytes;
            if allowed > 0 {
                let chunk = buffer_split_to(buf, allowed);
                proof {
                    assert(taken == max_bytes);
                    assert(buffer_bytes(chunk) =~= batch_chunk(data, taken, index));
                    assert(buffer_bytes(*buf) =~= data.subrange(taken, data.len() as int));
                }
                chunks.push(chunk);
                proof {
                    assert(chunks@.len() == batch_chunks(taken));
                }
            } else {
                proof {
                    assert(taken == total_bytes);
                    assert(buffer_bytes(*buf) =~= data.subrange(taken, data.len() as int));
                    assert(chunks@.len() == batch_chunks(taken));
                }
            }
            break;
        }
        let chunk = buffer_split_to(buf, chunk_size);
        proof {
            assert(total_bytes + chunk_size <= taken);
            assert(buffer_bytes(chunk) =~= batch_chunk(data, taken, index));
            assert(buffer_bytes(*buf) =~= data.subrange(
                total_bytes + chunk_size,
                data.len() as int,
            ));
        }
        total_bytes = total_bytes + chunk_size;
        chunks.push(chunk);
        if chunk_size < DEFAULT_BUFFER_CAPACITY {
            proof {
                assert(total_bytes == data.len());
                assert(taken == total_bytes);
                assert(chunks@.len() == batch_chunks(taken));
            }
            break;
        }
    }
    chunks
}

/// What becomes of the reader's buffer once a batch has been cut from it.
#[derive(Debug, Clone, Copy, PartialEq, Eq, Structural)]
pub enum Recycle {
    /// The buffer is kept as it is.
    Keep,
    /// The buffer is empty and is reset in place.
    Reset,
    /// The buffer has grown past `MAX_BUFFER_CAPACITY` and is replaced by a
    /// smaller one that holds the same bytes.
    Replace,
}

/// Decides what becomes of a buffer of `len` bytes and `capacity` capacity.
pub fn recycle_policy(len: usize, capacity: usize) -> (decision: Recycle)
    ensures
        decision == if len == 0 {
            Recycle::Reset
        } else if capacity > MAX_BUFFER_CAPACITY {
            Recycle::Replace
        } else {
            Recycle::Keep
        },
{
    if len == 0 {
        Recycle::Reset
    } else if capacity > MAX_BUFFER_CAPACITY {
        Recycle::Replace
    } else {
        Recycle::Keep
    }
}

/// Cuts up to `max_chunks` raw chunks, of `max_bytes` bytes in all, off the
/// front of the buffer, then recycles the buffer.
///
/// Always succeeds. The buffer keeps the bytes that the batch did not
/// take, in their order, also where it is replaced by a smaller one for
/// having outgrown `MAX_BUFFER_CAPACITY`.
pub fn extract_chunks(buf: &mut BytesMut, max_chunks: usize, max_bytes: usize) -> (result: Result<
    Vec<BytesMut>,
    std::io::Error,
>)
    ensures
        result matches Ok(chunks) && is_batch_of(
            chunks@,
            buffer_bytes(*old(buf)),
            max_chunks as int,
            max_bytes as int,
        ),
        ({
            let data = buffer_bytes(*old(buf));
            let rest = data.subrange(
                batch_bytes(data.len() as int, max_chunks as int, max_bytes as int),
                data.len() as int,
            );
            buffer_bytes(*final(buf)) == rest
        }),
{
    if buffer_len(buf) == 0 {
        proof {
            assert(buffer_bytes(*buf).subrange(0, 0) =~= buffer_bytes(*buf));
        }
        return Ok(Vec::new());
    }
    let chunks = split_batch(buf, max_chunks, max_bytes);
    match recycle_policy(buffer_len(buf), buffer_capacity(buf)) {
        Recycle::Reset => {
            proof {
                assert(buffer_bytes(*buf) =~= Seq::<u8>::empty());
            }
            buffer_clear(buf);
        },
        Recycle::Replace => {
            let left: usize = buffer_len(buf);
            if left <= isize::MAX as usize {
                let capacity: usize = if left > DEFAULT_BUFFER_CAPACITY {
                    left
                } else {
                    DEFAULT_BUFFER_CAPACITY
                };
                let mut smaller = buffer_with_capacity(capacity);
                buffer_extend(&mut smaller, buffer_slice(buf));
                proof {
                    assert(buffer_bytes(smaller) =~= buffer_bytes(*buf));
                }
                *buf = smaller;
            }
        },
        Recycle::Keep => {},
    }
    Ok(chunks)
}

/// The bytes of all of `chunks`, one chunk after another.
pub open spec fn chunks_bytes(chunks: Seq<BytesMut>) -> Seq<u8>
    decreases chunks.len(),
{
    if chunks.len() == 0 {
        Seq::empty()
    } else {
        chunks_bytes(chunks.drop_last()) + buffer_bytes(chunks.last())
    }
}

/// Appends a batch of chunks to the caller's buffer and returns the number
/// of bytes appended.
pub fn append_chunks(buf: &mut BytesMut, chunks: &Vec<BytesMut>) -> (total: usize)
    requires
        buffer_bytes(*old(buf)).len() + chunks_bytes(chunks@).len() <= isize::MAX,
    ensures
        buffer_bytes(*final(buf)) == buffer_bytes(*old(buf)) + chunks_bytes(chunks@),
        total == chunks_bytes(chunks@).len(),
{
    let mut total: usize = 0;
    let mut index: usize = 0;
    while index < chunks.len()
        invariant
            index <= chunks@.len(),
            total == chunks_bytes(chunks@.subrange(0, index as int)).len(),
            buffer_bytes(*buf) == buffer_bytes(*old(buf)) + chunks_bytes(
                chunks@.subrange(0, index as int),
            ),
            buffer_bytes(*old(buf)).len() + chunks_bytes(chunks@).len() <= isize::MAX,
        decreases chunks@.len() - index,
    {
        let chunk = buffer_slice(&chunks[index]);
        proof {
            let done = chunks@.subrange(0, index as int);
            let next = chunks@.subrange(0, index + 1);
            assert(next.drop_last() =~= done);
            assert(next.last() == chunks@[index as int]);
            assert(chunks_bytes(next) == chunks_bytes(done) + buffer_bytes(chunks@[index as int]));
            lemma_chunks_bytes_prefix(chunks@, index + 1);
        }
        buffer_extend(buf, chunk);
        total = total + chunk.len();
        index = index + 1;
        proof {
            assert(buffer_bytes(*buf) =~= buffer_bytes(*old(buf)) + chunks_bytes(
                chunks@.subrange(0, index as int),
            ));
        }
    }
    proof {
        assert(chunks@.subrange(0, index as int) =~= chunks@);
    }
    total
}

/// The bytes of the first `count` chunks are no more than the bytes of all of them.
pub proof fn lemma_chunks_bytes_prefix(chunks: Seq<BytesMut>, count: int)
    requires
        0 <= count <= chunks.len(),
    ensures
        chunks_bytes(chunks.subrange(0, count)).len() <= chunks_bytes(chunks).len(),
    decreases chunks.len(),
{
    if count == chunks.len() {
        assert(chunks.subrange(0, count) =~= chunks);
    } else {
        lemma_chunks_bytes_prefix(chunks.drop_last(), count);
        assert(chunks.drop_last().subrange(0, count) =~= chunks.subrange(0, count));
    }
}

/// The first `count` chunks of a batch hold the first bytes of the data, in
/// their order.
pub proof fn lemma_batch_prefix(
    chunks: Seq<BytesMut>,
    data: Seq<u8>,
    max_chunks: int,
    max_bytes: int,
    count: int,
)
    requires
        is_batch_of(chunks, data, max_chunks, max_bytes),
        0 <= max_chunks,
        0 <= max_bytes,
        0 <= count <= chunks.len(),
    ensures
        chunks_bytes(chunks.subrange(0, count)) == data.subrange(
            0,
            min_int(
                count * DEFAULT_BUFFER_CAPACITY as int,
                batch_bytes(data.len() as int, max_chunks, max_bytes),
            ),
        ),
    decreases count,
{
    let taken = batch_bytes(data.len() as int, max_chunks, max_bytes);
    if count == 0 {
        assert(chunks_bytes(chunks.subrange(0, 0)) =~= data.subrange(0, 0));
    } else {
        lemma_batch_prefix(chunks, data, max_chunks, max_bytes, count - 1);
        let done = chunks.subrange(0, count - 1);
        let next = chunks.subrange(0, count);
        assert(next.drop_last() =~= done);
        assert(next.last() == chunks[count - 1]);
        assert(buffer_bytes(chunks[count - 1]) == batch_chunk(data, taken, count - 1));
        assert((count - 1) * (DEFAULT_BUFFER_CAPACITY as int) < taken);
        assert(chunks_bytes(next) =~= data.subrange(
            0,
            min_int(count * DEFAULT_BUFFER_CAPACITY as int, taken),
        ));
    }
}

/// A batch loses nothing: its chunks, one after another, and what the
/// buffer keeps are the bytes that the buffer held, in their order. The
/// batch keeps to both limits, no chunk is empty or holds more than
/// `DEFAULT_BUFFER_CAPACITY` bytes, and an empty buffer gives no chunk.
pub proof fn lemma_batch_loses_nothing(
    chunks: Seq<BytesMut>,
    data: Seq<u8>,
    max_chunks: int,
    max_bytes: int,
)
    requires
        is_batch_of(chunks, data, max_chunks, max_bytes),
        0 <= max_chunks,
        0 <= max_bytes,
    ensures
        chunks_bytes(chunks) + data.subrange(
            batch_bytes(data.len() as int, max_chunks, max_bytes),
            data.len() as int,
        ) == data,
        chunks.len() <= max_chunks,
        chunks_bytes(chunks).len() <= max_bytes,
        forall|i: int|
            0 <= i < chunks.len() ==> 0 < buffer_bytes(#[trigger] chunks[i]).len()
                <= DEFAULT_BUFFER_CAPACITY,
        data.len() == 0 ==> chunks.len() == 0,
{
    let taken = batch_bytes(data.len() as int, max_chunks, max_bytes);
    lemma_batch_prefix(chunks, data, max_chunks, max_bytes, chunks.len() as int);
    assert(chunks.subrange(0, chunks.len() as int) =~= chunks);
    assert(chunks_bytes(chunks) =~= data.subrange(0, taken));
    assert(chunks_bytes(chunks) + data.subrange(taken, data.len() as int) =~= data);
    assert forall|i: int| 0 <= i < chunks.len() implies 0 < buffer_bytes(
        #[trigger] chunks[i],
    ).len() <= DEFAULT_BUFFER_CAPACITY by {
        assert(buffer_bytes(chunks[i]) == batch_chunk(data, taken, i));
    }
}

/// Takes in the bytes of one socket read on the reader thread: appends them
/// to the thread's buffer and cuts the next batch for the consumer.
pub fn accumulate(read_buf: &mut BytesMut, received: &[u8]) -> (chunks: Vec<BytesMut>)
    requires
        buffer_bytes(*old(read_buf)).len() + received@.len() <= isize::MAX,
    ensures
        is_batch_of(
            chunks@,
            buffer_bytes(*old(read_buf)) + received@,
            MIO_BATCH_SIZE as int,
            BATCH_READ_MAX_BYTES as int,
        ),
        ({
            let data = buffer_bytes(*old(read_buf)) + received@;
            let rest = data.subrange(
                batch_bytes(data.len() as int, MIO_BATCH_SIZE as int, BATCH_READ_MAX_BYTES as int),
                data.len() as int,
            );
            buffer_bytes(*final(read_buf)) == rest
        }),
{
    buffer_extend(read_buf, received);
    match extract_chunks(read_buf, MIO_BATCH_SIZE, BATCH_READ_MAX_BYTES) {
        Ok(chunks) => chunks,
        Err(_) => {
            buffer_clear(read_buf);
            Vec::new()
        },
    }
}

/// The conditions of a failed transport operation that this library tells apart.
#[derive(Debug, Clone, Copy, PartialEq, Eq, Structural)]
pub enum FailureKind {
    ConnectionReset,
    ConnectionAborted,
    BrokenPipe,
    NotConnected,
    WouldBlock,
    WriteZero,
    PermissionDenied,
    InvalidData,
    /// Any other condition.
    Other,
}

/// `std::io::Error::kind`, mapped variant by variant; a kind that has no
/// variant of its own here becomes `Other`. Nothing is claimed of the result.
#[verifier::external_body]
pub(crate) fn failure_kind(error: &std::io::Error) -> FailureKind {
    match error.kind() {
        std::io::ErrorKind::ConnectionReset => FailureKind::ConnectionReset,
        std::io::ErrorKind::ConnectionAborted => FailureKind::ConnectionAborted,
        std::io::ErrorKind::BrokenPipe => FailureKind::BrokenPipe,
        std::io::ErrorKind::NotConnected => FailureKind::NotConnected,
        std::io::ErrorKind::WouldBlock => FailureKind::WouldBlock,
        std::io::ErrorKind::WriteZero => FailureKind::WriteZero,
        std::io::ErrorKind::PermissionDenied => FailureKind::PermissionDenied,
        std::io::ErrorKind::InvalidData => FailureKind::InvalidData,
        _ => FailureKind::Other,
    }
}

/// The text that `std::io::Error` displays. Nothing is claimed of the result.
#[verifier::external_body]
pub(crate) fn failure_message(error: &std::io::Error) -> String {
    error.to_string()
}

/// How one read or write on a transport ended.
#[derive(Debug, Clone, Copy, PartialEq, Eq, Structural)]
pub enum IoOutcome {
    /// The operation moved this many bytes.
    Moved(usize),
    /// The operation failed.
    Failed(FailureKind),
}

/// Turns the result of a read or a write into the outcome that the step
/// functions take.
pub fn io_outcome(result: &Result<usize, std::io::Error>) -> (outcome: IoOutcome)
    ensures
        result matches Ok(n) ==> outcome == IoOutcome::Moved(*n),
        result is Err ==> outcome is Failed,
{
    match result {
        Ok(n) => IoOutcome::Moved(*n),
        Err(error) => IoOutcome::Failed(failure_kind(error)),
    }
}

/// What the reader thread does after one socket read.
#[derive(Debug, Clone, Copy, PartialEq, Eq, Structural)]
pub enum ReaderStep {
    /// The peer closed the connection: the thread ends without an error.
    Closed,
    /// Bytes arrived: they are accumulated and handed on, then the socket is read again.
    Deliver(usize),
    /// The socket is drained for now: the thread waits for the next readiness event.
    Drained,
    /// The read failed for good: the thread ends with this error.
    Abort(FailureKind),
}

/// Decides what the reader thread does after one socket read.
pub fn reader_step(outcome: IoOutcome) -> (step: ReaderStep)
    ensures
        step == match outcome {
            IoOutcome::Moved(n) => if n == 0 {
                ReaderStep::Closed
            } else {
                ReaderStep::Deliver(n)
            },
            IoOutcome::Failed(kind) => if kind == FailureKind::WouldBlock {
                ReaderStep::Drained
            } else {
                ReaderStep::Abort(kind)
            },
        },
{
    match outcome {
        IoOutcome::Moved(n) => {
            if n == 0 {
                ReaderStep::Closed
            } else {
                ReaderStep::Deliver(n)
            }
        },
        IoOutcome::Failed(kind) => {
            match kind {
                FailureKind::WouldBlock => ReaderStep::Drained,
                _ => ReaderStep::Abort(kind),
            }
        },
    }
}

/// What a writer that must send a whole buffer does after one write attempt.
#[derive(Debug, Clone, Copy, PartialEq, Eq, Structural)]
pub enum WriteStep {
    /// Every byte has been written.
    Done,
    /// This many bytes are still to be written: write again.
    Continue(usize),
    /// The socket is full: yield to the scheduler, then write again.
    Yield,
    /// The write failed: give up with this error.
    Fail(FailureKind),
}

/// Decides what follows one write attempt while `remaining` bytes, at least
/// one, are still to be written. A write of zero bytes is a failure of kind
/// `WriteZero`; a full socket is no failure.
pub fn write_all_step(remaining: usize, outcome: IoOutcome) -> (step: WriteStep)
    requires
        remaining > 0,
        outcome matches IoOutcome::Moved(n) ==> n <= remaining,
    ensures
        step == match outcome {
            IoOutcome::Moved(n) => if n == 0 {
                WriteStep::Fail(FailureKind::WriteZero)
            } else if n == remaining {
                WriteStep::Done
            } else {
                WriteStep::Continue((remaining - n) as usize)
            },
            IoOutcome::Failed(kind) => if kind == FailureKind::WouldBlock {
                WriteStep::Yield
            } else {
                WriteStep::Fail(kind)
            },
        },
{
    match outcome {
        IoOutcome::Moved(n) => {
            if n == 0 {
                WriteStep::Fail(FailureKind::WriteZero)
            } else if n == remaining {
                WriteStep::Done
            } else {
                WriteStep::Continue(remaining - n)
            }
        },
        IoOutcome::Failed(kind) => {
            match kind {
                FailureKind::WouldBlock => WriteStep::Yield,
                _ => WriteStep::Fail(kind),
            }
        },
    }
}

} // verus!
