use wasi_async_runtime::Poll;
use wasi_async_runtime::polling::EventKey;
use wasi_async_runtime::reactor::Reactor;
use wasi_async_runtime::streams::HostBudget;
use wasi_async_runtime::streams::HostRead;
use wasi_async_runtime::streams::HostWrite;
use wasi_async_runtime::streams::InputStream;
use wasi_async_runtime::streams::OutputStream;
use wasi_async_runtime::streams::StreamError;

#[test]
fn buffered_fill_then_consume_then_closed_read() {
    let mut r = Reactor::new();
    let mut s = InputStream::new(5, 6, &mut r);
    // The mock yields "he": the fill returns all unconsumed bytes.
    let got = s.poll_fill_buf(&mut r, 1, true, Some(HostRead::Data(b"he".to_vec())));
    assert_eq!(got, Poll::Ready(Ok(b"he".to_vec())));
    s.consume(1);
    // The mock yields "llo": appended after the unconsumed "e".
    let got = s.poll_fill_buf(&mut r, 1, true, Some(HostRead::Data(b"llo".to_vec())));
    assert_eq!(got, Poll::Ready(Ok(b"ello".to_vec())));
    s.consume(4);
    // The stream then closes: a direct read is a zero-byte success.
    assert_eq!(s.buffered_len(), 0);
    let got = s.poll_read(&mut r, 1, true, 10, Some(HostRead::Closed));
    assert_eq!(got, Poll::Ready(Ok(Vec::new())));
}

#[test]
fn direct_read_drains_buffer_before_the_host() {
    let mut r = Reactor::new();
    let mut s = InputStream::new(5, 6, &mut r);
    // Two bytes sit in the read-ahead buffer.
    let got = s.poll_fill_buf(&mut r, 1, true, Some(HostRead::Data(b"he".to_vec())));
    assert_eq!(got, Poll::Ready(Ok(b"he".to_vec())));
    // Requesting 10: the buffer is served first, with no host call.
    let got = s.poll_read(&mut r, 1, true, 10, None);
    assert_eq!(got, Poll::Ready(Ok(b"he".to_vec())));
    // The buffer is empty now; the host has 3 more bytes.
    assert_eq!(s.buffered_len(), 0);
    let got = s.poll_read(&mut r, 1, true, 10, Some(HostRead::Data(b"llo".to_vec())));
    // Total over the two reads: min(10, 2 + 3) = 5 bytes, no error.
    assert_eq!(got, Poll::Ready(Ok(b"llo".to_vec())));
}

#[test]
fn direct_read_caps_buffer_service_to_requested_length() {
    let mut r = Reactor::new();
    let mut s = InputStream::new(5, 6, &mut r);
    let _ = s.poll_fill_buf(&mut r, 1, true, Some(HostRead::Data(b"hello".to_vec())));
    let got = s.poll_read(&mut r, 1, true, 2, None);
    assert_eq!(got, Poll::Ready(Ok(b"he".to_vec())));
    assert_eq!(s.buffered_len(), 3);
}

#[test]
fn reading_a_closed_stream_is_zero_byte_success() {
    let mut r = Reactor::new();
    let mut s = InputStream::new(5, 6, &mut r);
    let got = s.poll_read(&mut r, 1, true, 64, Some(HostRead::Closed));
    assert_eq!(got, Poll::Ready(Ok(Vec::new())));
    // Closed while filling: the unconsumed buffer comes back as-is.
    let got = s.poll_fill_buf(&mut r, 1, true, Some(HostRead::Closed));
    assert_eq!(got, Poll::Ready(Ok(Vec::new())));
}

#[test]
fn read_failure_carries_the_host_diagnostic() {
    let mut r = Reactor::new();
    let mut s = InputStream::new(5, 6, &mut r);
    let got = s.poll_read(&mut r, 1, true, 8, Some(HostRead::Failed("boom".to_string())));
    assert_eq!(got, Poll::Ready(Err(StreamError::Failed("boom".to_string()))));
}

#[test]
fn not_ready_read_is_pending_and_stores_the_waker() {
    let mut r = Reactor::new();
    let mut s = InputStream::new(5, 6, &mut r);
    let got = s.poll_read(&mut r, 99, false, 8, None);
    assert_eq!(got, Poll::Pending);
    // The wake pass finds the waker the pending read stored.
    let targets = r.targets();
    let to_wake = r.block_until(&targets, &vec![0]);
    assert_eq!(to_wake, vec![99]);
}

#[test]
fn short_write_accepts_exactly_the_budget() {
    let mut r = Reactor::new();
    let mut s = OutputStream::new(7, 8, &mut r);
    // Asking to write 10 bytes with a budget of 4: success, 4 accepted.
    let got = s.poll_write(
        &mut r,
        1,
        true,
        10,
        Some(HostBudget::Budget(4)),
        Some(HostWrite::Accepted),
    );
    assert_eq!(got, Poll::Ready(Ok(4)));
    // A budget beyond the request accepts the whole request.
    let got = s.poll_write(
        &mut r,
        1,
        true,
        10,
        Some(HostBudget::Budget(64)),
        Some(HostWrite::Accepted),
    );
    assert_eq!(got, Poll::Ready(Ok(10)));
}

#[test]
fn writing_a_closed_stream_is_a_broken_pipe_error() {
    let mut r = Reactor::new();
    let mut s = OutputStream::new(7, 8, &mut r);
    let got = s.poll_write(&mut r, 1, true, 10, Some(HostBudget::Closed), None);
    assert_eq!(got, Poll::Ready(Err(StreamError::Closed)));
    let got = s.poll_write(
        &mut r,
        1,
        true,
        10,
        Some(HostBudget::Failed("io fault".to_string())),
        None,
    );
    assert_eq!(got, Poll::Ready(Err(StreamError::Failed("io fault".to_string()))));
    let got = s.poll_write(
        &mut r,
        1,
        true,
        10,
        Some(HostBudget::Budget(4)),
        Some(HostWrite::Closed),
    );
    assert_eq!(got, Poll::Ready(Err(StreamError::Closed)));
}

#[test]
fn flush_maps_host_outcomes() {
    let mut r = Reactor::new();
    let mut s = OutputStream::new(7, 8, &mut r);
    let got = s.poll_flush(&mut r, 1, true, Some(HostWrite::Accepted));
    assert_eq!(got, Poll::Ready(Ok(())));
    let got = s.poll_flush(&mut r, 1, true, Some(HostWrite::Closed));
    assert_eq!(got, Poll::Ready(Err(StreamError::Closed)));
    let got = s.poll_flush(&mut r, 1, true, Some(HostWrite::Failed("gone".to_string())));
    assert_eq!(got, Poll::Ready(Err(StreamError::Failed("gone".to_string()))));
}

#[test]
fn close_behaves_as_flush() {
    let mut r = Reactor::new();
    let mut s = OutputStream::new(7, 8, &mut r);
    let got = s.poll_close(&mut r, 1, true, Some(HostWrite::Accepted));
    assert_eq!(got, Poll::Ready(Ok(())));
    let got = s.poll_close(&mut r, 1, false, None);
    assert_eq!(got, Poll::Pending);
}

#[test]
fn release_deregisters_before_handing_the_handles_back() {
    let mut r = Reactor::new();
    let s = InputStream::new(5, 6, &mut r);
    assert!(r.has_registration(&EventKey(0)));
    let (stream_handle, readiness_handle) = s.release(&mut r);
    // By the time the caller holds the handles and could dispose of them,
    // the registration is already gone.
    assert!(!r.has_registration(&EventKey(0)));
    assert_eq!(stream_handle, 5);
    assert_eq!(readiness_handle, 6);

    let s = OutputStream::new(7, 8, &mut r);
    assert!(r.has_registration(&EventKey(0)));
    let (stream_handle, readiness_handle) = s.release(&mut r);
    assert!(!r.has_registration(&EventKey(0)));
    assert_eq!(stream_handle, 7);
    assert_eq!(readiness_handle, 8);
}
