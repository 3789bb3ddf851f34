use bytes::BytesMut;
use soupbin_feed::transport::{
    accumulate, append_chunks, extract_chunks, io_outcome, reader_step, recycle_policy,
    split_batch, write_all_step, FailureKind, IoOutcome, ReaderStep, Recycle, WriteStep,
};

fn buffer_of(len: usize) -> BytesMut {
    let mut buf = BytesMut::new();
    let data: Vec<u8> = (0..len).map(|i| (i % 251) as u8).collect();
    buf.extend_from_slice(&data);
    buf
}

fn lengths(chunks: &[BytesMut]) -> Vec<usize> {
    chunks.iter().map(|chunk| chunk.len()).collect()
}

fn joined(chunks: &[BytesMut]) -> Vec<u8> {
    let mut all = Vec::new();
    for chunk in chunks {
        all.extend_from_slice(chunk);
    }
    all
}

#[test]
fn a_batch_takes_everything_when_no_limit_is_reached() {
    let mut buf = buffer_of(20000);
    let before = buf.to_vec();
    let chunks = extract_chunks(&mut buf, 100, 65536).unwrap();
    assert_eq!(lengths(&chunks), vec![8192, 8192, 3616]);
    assert_eq!(joined(&chunks), before);
    assert!(buf.is_empty());
}

#[test]
fn a_batch_stops_at_the_chunk_limit() {
    let mut buf = buffer_of(20000);
    let before = buf.to_vec();
    let chunks = extract_chunks(&mut buf, 2, 65536).unwrap();
    assert_eq!(lengths(&chunks), vec![8192, 8192]);
    assert_eq!(joined(&chunks), before[..16384].to_vec());
    assert_eq!(&buf[..], &before[16384..]);
}

#[test]
fn a_batch_stops_at_the_byte_limit() {
    let mut buf = buffer_of(20000);
    let before = buf.to_vec();
    let chunks = extract_chunks(&mut buf, 100, 10000).unwrap();
    assert_eq!(lengths(&chunks), vec![8192, 1808]);
    assert_eq!(joined(&chunks), before[..10000].to_vec());
    assert_eq!(&buf[..], &before[10000..]);

    let mut buf = buffer_of(20000);
    let chunks = extract_chunks(&mut buf, 100, 16384).unwrap();
    assert_eq!(lengths(&chunks), vec![8192, 8192]);
    assert_eq!(buf.len(), 20000 - 16384);
}

#[test]
fn a_batch_of_nothing() {
    let mut buf = BytesMut::new();
    assert!(extract_chunks(&mut buf, 100, 65536).unwrap().is_empty());
    let mut buf = buffer_of(10);
    assert!(extract_chunks(&mut buf, 0, 65536).unwrap().is_empty());
    assert_eq!(buf.len(), 10);
    let mut buf = buffer_of(10);
    assert!(extract_chunks(&mut buf, 100, 0).unwrap().is_empty());
    assert_eq!(buf.len(), 10);
}

#[test]
fn split_batch_cuts_without_recycling() {
    let mut buf = buffer_of(8193);
    let before = buf.to_vec();
    let chunks = split_batch(&mut buf, 32, 65536);
    assert_eq!(lengths(&chunks), vec![8192, 1]);
    assert_eq!(joined(&chunks), before);
    let mut buf = buffer_of(8192);
    assert_eq!(lengths(&split_batch(&mut buf, 32, 65536)), vec![8192]);
    let mut buf = buffer_of(5);
    assert_eq!(lengths(&split_batch(&mut buf, 32, 3)), vec![3]);
    assert_eq!(&buf[..], &[3, 4]);
}

#[test]
fn recycling_follows_length_and_capacity() {
    assert_eq!(recycle_policy(0, 100), Recycle::Reset);
    assert_eq!(recycle_policy(0, 8 * 1024 * 1024 + 1), Recycle::Reset);
    assert_eq!(recycle_policy(1, 8 * 1024 * 1024 + 1), Recycle::Replace);
    assert_eq!(recycle_policy(1, 8 * 1024 * 1024), Recycle::Keep);
    assert_eq!(recycle_policy(5000, 8192), Recycle::Keep);
}

#[test]
fn a_buffer_that_outgrew_its_ceiling_is_replaced_and_loses_nothing() {
    let mut buf = BytesMut::with_capacity(9 * 1024 * 1024);
    let data: Vec<u8> = (0..9000usize).map(|i| (i % 251) as u8).collect();
    buf.extend_from_slice(&data);
    let chunks = extract_chunks(&mut buf, 1, 65536).unwrap();
    assert_eq!(lengths(&chunks), vec![8192]);
    assert_eq!(joined(&chunks), data[..8192].to_vec());
    assert!(buf.capacity() <= 8 * 1024 * 1024);
    assert_eq!(&buf[..], &data[8192..]);
    // The next batch goes on where the first one stopped.
    let chunks = extract_chunks(&mut buf, 1, 65536).unwrap();
    assert_eq!(joined(&chunks), data[8192..].to_vec());
    assert!(buf.is_empty());
}

#[test]
fn batches_lose_nothing_under_any_limits() {
    for (len, max_chunks, max_bytes) in
        [(0usize, 3usize, 10usize), (1, 1, 1), (8192, 1, 8192), (8193, 1, 65536), (20000, 2, 9000), (20000, 5, 65536), (30000, 100, 8191)]
    {
        let mut buf = buffer_of(len);
        let before = buf.to_vec();
        let chunks = extract_chunks(&mut buf, max_chunks, max_bytes).unwrap();
        let mut all = joined(&chunks);
        all.extend_from_slice(&buf);
        assert_eq!(all, before);
        assert!(chunks.len() <= max_chunks);
        assert!(joined(&chunks).len() <= max_bytes);
        assert!(chunks.iter().all(|chunk| !chunk.is_empty() && chunk.len() <= 8192));
    }
}

#[test]
fn chunks_are_appended_in_order() {
    let mut source = buffer_of(20000);
    let before = source.to_vec();
    let chunks = extract_chunks(&mut source, 100, 65536).unwrap();
    let mut target = BytesMut::new();
    target.extend_from_slice(b"head");
    let total = append_chunks(&mut target, &chunks);
    assert_eq!(total, 20000);
    assert_eq!(&target[..4], b"head");
    assert_eq!(&target[4..], &before[..]);
    assert_eq!(append_chunks(&mut target, &Vec::new()), 0);
    assert_eq!(target.len(), 20004);
}

#[test]
fn received_bytes_are_accumulated_and_batched() {
    let mut read_buf = BytesMut::new();
    read_buf.extend_from_slice(b"ab");
    let chunks = accumulate(&mut read_buf, b"cde");
    assert_eq!(lengths(&chunks), vec![5]);
    assert_eq!(joined(&chunks), b"abcde".to_vec());
    assert!(read_buf.is_empty());

    let mut read_buf = BytesMut::new();
    let chunks = accumulate(&mut read_buf, &vec![3u8; 70000]);
    assert_eq!(chunks.len(), 8);
    assert_eq!(joined(&chunks).len(), 65536);
    assert_eq!(read_buf.len(), 70000 - 65536);
}

#[test]
fn read_and_write_results_become_outcomes() {
    assert_eq!(io_outcome(&Ok(12)), IoOutcome::Moved(12));
    assert_eq!(io_outcome(&Ok(0)), IoOutcome::Moved(0));
    let kinds = [
        (std::io::ErrorKind::ConnectionReset, FailureKind::ConnectionReset),
        (std::io::ErrorKind::ConnectionAborted, FailureKind::ConnectionAborted),
        (std::io::ErrorKind::BrokenPipe, FailureKind::BrokenPipe),
        (std::io::ErrorKind::NotConnected, FailureKind::NotConnected),
        (std::io::ErrorKind::WouldBlock, FailureKind::WouldBlock),
        (std::io::ErrorKind::WriteZero, FailureKind::WriteZero),
        (std::io::ErrorKind::PermissionDenied, FailureKind::PermissionDenied),
        (std::io::ErrorKind::InvalidData, FailureKind::InvalidData),
        (std::io::ErrorKind::TimedOut, FailureKind::Other),
        (std::io::ErrorKind::UnexpectedEof, FailureKind::Other),
    ];
    for (kind, expected) in kinds {
        let result: Result<usize, std::io::Error> = Err(std::io::Error::new(kind, "failed"));
        assert_eq!(io_outcome(&result), IoOutcome::Failed(expected));
    }
}

#[test]
fn the_reader_thread_follows_its_reads() {
    assert_eq!(reader_step(IoOutcome::Moved(0)), ReaderStep::Closed);
    assert_eq!(reader_step(IoOutcome::Moved(17)), ReaderStep::Deliver(17));
    assert_eq!(
        reader_step(IoOutcome::Failed(FailureKind::WouldBlock)),
        ReaderStep::Drained
    );
    assert_eq!(
        reader_step(IoOutcome::Failed(FailureKind::ConnectionReset)),
        ReaderStep::Abort(FailureKind::ConnectionReset)
    );
    assert_eq!(
        reader_step(IoOutcome::Failed(FailureKind::Other)),
        ReaderStep::Abort(FailureKind::Other)
    );
}

#[test]
fn writing_everything_goes_on_until_nothing_is_left() {
    assert_eq!(write_all_step(10, IoOutcome::Moved(10)), WriteStep::Done);
    assert_eq!(write_all_step(10, IoOutcome::Moved(4)), WriteStep::Continue(6));
    assert_eq!(write_all_step(1, IoOutcome::Moved(1)), WriteStep::Done);
    assert_eq!(
        write_all_step(10, IoOutcome::Moved(0)),
        WriteStep::Fail(FailureKind::WriteZero)
    );
    assert_eq!(
        write_all_step(10, IoOutcome::Failed(FailureKind::WouldBlock)),
        WriteStep::Yield
    );
    assert_eq!(
        write_all_step(10, IoOutcome::Failed(FailureKind::BrokenPipe)),
        WriteStep::Fail(FailureKind::BrokenPipe)
    );
}
