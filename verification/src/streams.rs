//! Cooperative stream adapters: wrap a host input or output stream handle
//! plus one scoped registration (and, for input, a read-ahead buffer) into
//! suspend-on-not-ready read/write/flush/buffered-read operations.
//!
//! Every operation first checks its registration: not ready means the
//! operation reports `Pending` and the supplied waker is recorded. Ready
//! means the embedding layer performs exactly one bounded non-blocking host
//! call and hands its outcome in; the adapter interprets it. On the read
//! side a closed stream is a clean end: a successful zero-byte result, never
//! an error. On the write side closure means no further progress is
//! possible: a broken-pipe-class error.
use vstd::prelude::*;
use bytes::Buf;
use bytes::BytesMut;
use crate::Poll;
use crate::polling::EventKey;
use crate::reactor::PollHandle;
use crate::reactor::Reactor;

verus! {

/// How many bytes one buffered fill asks the host for.
pub const DEFAULT_BUF_LEN: usize = 32;

/// Outcome of one bounded non-blocking host read: some bytes, a cleanly
/// closed stream, or a genuine failure with the host's diagnostic text.
#[derive(Debug, PartialEq, Eq)]
pub enum HostRead {
    Data(Vec<u8>),
    Closed,
    Failed(String),
}

/// Outcome of one bounded non-blocking host write or flush.
#[derive(Debug, PartialEq, Eq)]
pub enum HostWrite {
    Accepted,
    Closed,
    Failed(String),
}

/// The host's answer to the non-blocking writable-budget query: how many
/// bytes it would accept right now, or why none.
#[derive(Debug, PartialEq, Eq)]
pub enum HostBudget {
    Budget(u64),
    Closed,
    Failed(String),
}

/// A broken-pipe-class error: the stream can no longer make progress, either
/// because it closed or because the host reported a failure, whose
/// diagnostic text is carried verbatim.
#[derive(Debug, PartialEq, Eq)]
pub enum StreamError {
    Closed,
    Failed(String),
}

/// The bytes a read-ahead buffer holds, oldest first.
pub uninterp spec fn bytes_view(b: BytesMut) -> Seq<u8>;

#[verifier::external_type_specification]
#[verifier::external_body]
pub struct ExBytesMut(BytesMut);

/// Relies on bytes::BytesMut::new: a fresh buffer is empty.
#[verifier::external_body]
fn bytes_new() -> (b: BytesMut)
    ensures
        bytes_view(b) == Seq::<u8>::empty(),
{
    BytesMut::new()
}

/// Relies on bytes::BytesMut::len: the number of bytes held.
#[verifier::external_body]
fn bytes_len(b: &BytesMut) -> (n: usize)
    ensures
        n == bytes_view(*b).len(),
{
    b.len()
}

/// Relies on bytes::BytesMut::split_to: the first `at` bytes leave the
/// buffer and are handed back; the rest stay, in order.
#[verifier::external_body]
fn bytes_split_to_vec(b: &mut BytesMut, at: usize) -> (r: Vec<u8>)
    requires
        at <= bytes_view(*old(b)).len(),
    ensures
        r@ == bytes_view(*old(b)).take(at as int),
        bytes_view(*final(b)) == bytes_view(*old(b)).skip(at as int),
{
    b.split_to(at).to_vec()
}

/// Relies on bytes::BytesMut::extend_from_slice: appends at the tail.
#[verifier::external_body]
fn bytes_extend(b: &mut BytesMut, data: &Vec<u8>)
    ensures
        bytes_view(*final(b)) == bytes_view(*old(b)) + data@,
{
    b.extend_from_slice(data)
}

/// Relies on the `Buf` impl of bytes::BytesMut: `chunk` is all the bytes it
/// holds, in order.
#[verifier::external_body]
fn bytes_chunk_vec(b: &BytesMut) -> (r: Vec<u8>)
    ensures
        r@ == bytes_view(*b),
{
    b.chunk().to_vec()
}

/// Relies on the `Buf` impl of bytes::BytesMut: `advance` drops the first
/// `cnt` bytes and keeps the rest.
#[verifier::external_body]
fn bytes_advance(b: &mut BytesMut, cnt: usize)
    requires
        cnt <= bytes_view(*old(b)).len(),
    ensures
        bytes_view(*final(b)) == bytes_view(*old(b)).skip(cnt as int),
{
    b.advance(cnt)
}

/// Wraps a host input stream handle for cooperative reading, with a
/// read-ahead buffer that host reads append to at the tail and the caller
/// consumes from the head.
#[derive(Debug)]
pub struct InputStream {
    handle: u64,
    poll_handle: PollHandle,
    buf: BytesMut,
}

impl InputStream {
    /// The host input stream handle this adapter wraps.
    pub closed spec fn handle(&self) -> u64 {
        self.handle
    }

    /// The key of this adapter's scoped registration.
    pub closed spec fn key(&self) -> EventKey {
        self.poll_handle.key()
    }

    /// The unconsumed bytes read ahead of the caller, oldest first.
    pub closed spec fn buffered(&self) -> Seq<u8> {
        bytes_view(self.buf)
    }

    /// This adapter's registration is live in the reactor.
    pub open spec fn valid(&self, reactor: &Reactor) -> bool {
        reactor.entries().dom().contains(self.key().0 as int)
    }

    /// Instantiate the adapter: registers the stream's readiness handle
    /// under a fresh key and starts with an empty read-ahead buffer.
    pub fn new(handle: u64, readiness: u64, reactor: &mut Reactor) -> (s: InputStream)
        requires
            old(reactor).wf(),
            old(reactor).slots() <= u32::MAX as nat,
        ensures
            final(reactor).wf(),
            s.valid(final(reactor)),
            s.handle() == handle,
            s.buffered() == Seq::<u8>::empty(),
            !old(reactor).entries().dom().contains(s.key().0 as int),
            final(reactor).entries() == old(reactor).entries().insert(s.key().0 as int, readiness),
            final(reactor).wakers() == old(reactor).wakers().insert(
                s.key().0,
                crate::reactor::NOOP_WAKER,
            ),
            final(reactor).ready() == old(reactor).ready(),
            old(reactor).slots() <= final(reactor).slots() <= old(reactor).slots() + 1,
    {
        let poll_handle = reactor.register(readiness);
        InputStream { handle, poll_handle, buf: bytes_new() }
    }

    /// How many read-ahead bytes are waiting. When this is zero and the
    /// registration is ready, a direct read needs one bounded host read of
    /// the caller's requested length.
    pub fn buffered_len(&self) -> (n: usize)
        ensures
            n == self.buffered().len(),
    {
        bytes_len(&self.buf)
    }

    /// Direct read of up to `len` bytes. The read-ahead buffer is served
    /// first, in order and without any host call; only an empty buffer lets
    /// one bounded host read of up to `len` bytes happen, whose outcome
    /// `host` is. A closed stream is success with zero bytes, never an
    /// error; a host failure is a broken-pipe-class error carrying its text.
    pub fn poll_read(
        &mut self,
        reactor: &mut Reactor,
        waker: u64,
        ready: bool,
        len: usize,
        host: Option<HostRead>,
    ) -> (r: Poll<Result<Vec<u8>, StreamError>>)
        requires
            old(reactor).wf(),
            old(self).valid(old(reactor)),
            host is Some <==> (ready && old(self).buffered().len() == 0),
            host matches Some(HostRead::Data(d)) ==> d@.len() <= len,
        ensures
            final(reactor).wf(),
            final(self).valid(final(reactor)),
            final(self).handle() == old(self).handle(),
            final(self).key() == old(self).key(),
            final(reactor).entries() == old(reactor).entries(),
            final(reactor).wakers() == old(reactor).wakers().insert(old(self).key().0, waker),
            final(reactor).ready() == old(reactor).ready(),
            final(reactor).slots() == old(reactor).slots(),
            !ready ==> r is Pending && final(self).buffered() == old(self).buffered(),
            ready ==> r is Ready,
            // Buffered bytes are served first: min(len, buffered) of them
            // leave the head of the buffer and come back, with no host call.
            (ready && old(self).buffered().len() > 0) ==> {
                let take = if len as int <= old(self).buffered().len() {
                    len as int
                } else {
                    old(self).buffered().len() as int
                };
                &&& r matches Poll::Ready(out) && out matches Ok(v) && v@ == old(
                    self,
                ).buffered().take(take)
                &&& final(self).buffered() == old(self).buffered().skip(take)
            },
            // An empty buffer: the host's bytes come back as they are.
            host matches Some(HostRead::Data(d)) ==> (r matches Poll::Ready(out) && out matches Ok(
                v,
            ) && v@ == d@ && final(self).buffered() == old(self).buffered()),
            // Closed while reading directly: success with zero bytes.
            host == Some(HostRead::Closed) ==> (r matches Poll::Ready(out) && out matches Ok(v)
                && v@ == Seq::<u8>::empty() && final(self).buffered() == old(self).buffered()),
            host matches Some(HostRead::Failed(m)) ==> (r == Poll::Ready(
                Err::<Vec<u8>, StreamError>(StreamError::Failed(m)),
            ) && final(self).buffered() == old(self).buffered()),
    {
        let step = self.poll_handle.poll(reactor, waker, ready);
        if let Poll::Pending = step {
            return Poll::Pending;
        }
        let buffered = bytes_len(&self.buf);
        if buffered > 0 {
            let take = if len < buffered {
                len
            } else {
                buffered
            };
            let served = bytes_split_to_vec(&mut self.buf, take);
            Poll::Ready(Ok(served))
        } else {
            match host {
                Some(HostRead::Data(d)) => Poll::Ready(Ok(d)),
                Some(HostRead::Closed) => Poll::Ready(Ok(Vec::new())),
                Some(HostRead::Failed(m)) => Poll::Ready(Err(StreamError::Failed(m))),
                None => vstd::pervasive::unreached(),
            }
        }
    }

    /// Buffered fill: one bounded host read of up to `DEFAULT_BUF_LEN` bytes
    /// is appended at the buffer's tail, and all currently unconsumed bytes
    /// come back. A closed stream yields the unconsumed buffer as it stands
    /// rather than failing.
    pub fn poll_fill_buf(
        &mut self,
        reactor: &mut Reactor,
        waker: u64,
        ready: bool,
        host: Option<HostRead>,
    ) -> (r: Poll<Result<Vec<u8>, StreamError>>)
        requires
            old(reactor).wf(),
            old(self).valid(old(reactor)),
            host is Some <==> ready,
            host matches Some(HostRead::Data(d)) ==> d@.len() <= DEFAULT_BUF_LEN,
        ensures
            final(reactor).wf(),
            final(self).valid(final(reactor)),
            final(self).handle() == old(self).handle(),
            final(self).key() == old(self).key(),
            final(reactor).entries() == old(reactor).entries(),
            final(reactor).wakers() == old(reactor).wakers().insert(old(self).key().0, waker),
            final(reactor).ready() == old(reactor).ready(),
            final(reactor).slots() == old(reactor).slots(),
            !ready ==> r is Pending && final(self).buffered() == old(self).buffered(),
            host matches Some(HostRead::Data(d)) ==> (r matches Poll::Ready(out) && out matches Ok(
                v,
            ) && v@ == old(self).buffered() + d@ && final(self).buffered() == old(self).buffered()
                + d@),
            host == Some(HostRead::Closed) ==> (r matches Poll::Ready(out) && out matches Ok(v)
                && v@ == old(self).buffered() && final(self).buffered() == old(self).buffered()),
            host matches Some(HostRead::Failed(m)) ==> (r == Poll::Ready(
                Err::<Vec<u8>, StreamError>(StreamError::Failed(m)),
            ) && final(self).buffered() == old(self).buffered()),
    {
        let step = self.poll_handle.poll(reactor, waker, ready);
        if let Poll::Pending = step {
            return Poll::Pending;
        }
        match host {
            Some(HostRead::Data(d)) => {
                bytes_extend(&mut self.buf, &d);
                Poll::Ready(Ok(bytes_chunk_vec(&self.buf)))
            },
            Some(HostRead::Closed) => Poll::Ready(Ok(bytes_chunk_vec(&self.buf))),
            Some(HostRead::Failed(m)) => Poll::Ready(Err(StreamError::Failed(m))),
            None => vstd::pervasive::unreached(),
        }
    }

    /// Advance the buffer's head: the first `amt` unconsumed bytes are gone.
    pub fn consume(&mut self, amt: usize)
        requires
            amt <= old(self).buffered().len(),
        ensures
            final(self).buffered() == old(self).buffered().skip(amt as int),
            final(self).handle() == old(self).handle(),
            final(self).key() == old(self).key(),
    {
        bytes_advance(&mut self.buf, amt);
    }

    /// Tear the adapter down: its scoped registration is released strictly
    /// first — both reactor entries for the key are gone by the time this
    /// returns — and only then are the stream handle and the readiness
    /// handle handed back for the caller to dispose of.
    pub fn release(self, reactor: &mut Reactor) -> (r: (u64, u64))
        requires
            old(reactor).wf(),
            self.valid(old(reactor)),
        ensures
            final(reactor).wf(),
            final(reactor).entries() == old(reactor).entries().remove(self.key().0 as int),
            final(reactor).wakers() == old(reactor).wakers().remove(self.key().0),
            final(reactor).ready() == old(reactor).ready(),
            final(reactor).slots() == old(reactor).slots(),
            r.0 == self.handle(),
            r.1 == old(reactor).entries()[self.key().0 as int],
    {
        let readiness = self.poll_handle.release(reactor);
        (self.handle, readiness)
    }
}

/// Wraps a host output stream handle for cooperative writing.
#[derive(Debug)]
pub struct OutputStream {
    handle: u64,
    poll_handle: PollHandle,
}

impl OutputStream {
    /// The host output stream handle this adapter wraps.
    pub closed spec fn handle(&self) -> u64 {
        self.handle
    }

    /// The key of this adapter's scoped registration.
    pub closed spec fn key(&self) -> EventKey {
        self.poll_handle.key()
    }

    /// This adapter's registration is live in the reactor.
    pub open spec fn valid(&self, reactor: &Reactor) -> bool {
        reactor.entries().dom().contains(self.key().0 as int)
    }

    /// Instantiate the adapter: registers the stream's readiness handle
    /// under a fresh key.
    pub fn new(handle: u64, readiness: u64, reactor: &mut Reactor) -> (s: OutputStream)
        requires
            old(reactor).wf(),
            old(reactor).slots() <= u32::MAX as nat,
        ensures
            final(reactor).wf(),
            s.valid(final(reactor)),
            s.handle() == handle,
            !old(reactor).entries().dom().contains(s.key().0 as int),
            final(reactor).entries() == old(reactor).entries().insert(s.key().0 as int, readiness),
            final(reactor).wakers() == old(reactor).wakers().insert(
                s.key().0,
                crate::reactor::NOOP_WAKER,
            ),
            final(reactor).ready() == old(reactor).ready(),
            old(reactor).slots() <= final(reactor).slots() <= old(reactor).slots() + 1,
    {
        let poll_handle = reactor.register(readiness);
        OutputStream { handle, poll_handle }
    }

    /// How many of `requested` bytes one write may hand the host when it
    /// would accept `budget`: the write is capped to the smaller of the two.
    pub fn write_len(requested: usize, budget: u64) -> (n: usize)
        ensures
            n as int == if requested as int <= budget as int {
                requested as int
            } else {
                budget as int
            },
    {
        if (requested as u64) <= budget {
            requested
        } else {
            budget as usize
        }
    }

    /// Cooperative write of up to `len` bytes. While ready, the host is
    /// asked for its writable budget (`budget`); a closed or failed answer
    /// is a broken-pipe-class error. Otherwise exactly one bounded write of
    /// `write_len(len, budget)` bytes is issued, whose outcome `wrote` is:
    /// success reports exactly that many bytes accepted — possibly fewer
    /// than requested, and the caller loops to write the remainder.
    pub fn poll_write(
        &mut self,
        reactor: &mut Reactor,
        waker: u64,
        ready: bool,
        len: usize,
        budget: Option<HostBudget>,
        wrote: Option<HostWrite>,
    ) -> (r: Poll<Result<usize, StreamError>>)
        requires
            old(reactor).wf(),
            old(self).valid(old(reactor)),
            budget is Some <==> ready,
            wrote is Some <==> (ready && budget matches Some(HostBudget::Budget(_))),
        ensures
            final(reactor).wf(),
            final(self).valid(final(reactor)),
            final(self).handle() == old(self).handle(),
            final(self).key() == old(self).key(),
            final(reactor).entries() == old(reactor).entries(),
            final(reactor).wakers() == old(reactor).wakers().insert(old(self).key().0, waker),
            final(reactor).ready() == old(reactor).ready(),
            final(reactor).slots() == old(reactor).slots(),
            !ready ==> r is Pending,
            budget == Some(HostBudget::Closed) ==> r == Poll::Ready(
                Err::<usize, StreamError>(StreamError::Closed),
            ),
            budget matches Some(HostBudget::Failed(m)) ==> r == Poll::Ready(
                Err::<usize, StreamError>(StreamError::Failed(m)),
            ),
            // A short write is success: with budget b below the requested
            // length, exactly b bytes are accepted.
            budget matches Some(HostBudget::Budget(b)) ==> {
                &&& wrote == Some(HostWrite::Accepted) ==> (r matches Poll::Ready(out)
                    && out matches Ok(n) && n as int == (if len as int <= b as int {
                    len as int
                } else {
                    b as int
                }))
                &&& wrote == Some(HostWrite::Closed) ==> r == Poll::Ready(
                    Err::<usize, StreamError>(StreamError::Closed),
                )
                &&& wrote matches Some(HostWrite::Failed(m)) ==> r == Poll::Ready(
                    Err::<usize, StreamError>(StreamError::Failed(m)),
                )
            },
    {
        let step = self.poll_handle.poll(reactor, waker, ready);
        if let Poll::Pending = step {
            return Poll::Pending;
        }
        match budget {
            Some(HostBudget::Budget(b)) => {
                let n = Self::write_len(len, b);
                match wrote {
                    Some(HostWrite::Accepted) => Poll::Ready(Ok(n)),
                    Some(HostWrite::Closed) => Poll::Ready(Err(StreamError::Closed)),
                    Some(HostWrite::Failed(m)) => Poll::Ready(Err(StreamError::Failed(m))),
                    None => vstd::pervasive::unreached(),
                }
            },
            Some(HostBudget::Closed) => Poll::Ready(Err(StreamError::Closed)),
            Some(HostBudget::Failed(m)) => Poll::Ready(Err(StreamError::Failed(m))),
            None => vstd::pervasive::unreached(),
        }
    }

    /// Cooperative flush: while ready, one non-blocking host flush, whose
    /// outcome `host` is mapped as a write's is.
    pub fn poll_flush(
        &mut self,
        reactor: &mut Reactor,
        waker: u64,
        ready: bool,
        host: Option<HostWrite>,
    ) -> (r: Poll<Result<(), StreamError>>)
        requires
            old(reactor).wf(),
            old(self).valid(old(reactor)),
            host is Some <==> ready,
        ensures
            final(reactor).wf(),
            final(self).valid(final(reactor)),
            final(self).handle() == old(self).handle(),
            final(self).key() == old(self).key(),
            final(reactor).entries() == old(reactor).entries(),
            final(reactor).wakers() == old(reactor).wakers().insert(old(self).key().0, waker),
            final(reactor).ready() == old(reactor).ready(),
            final(reactor).slots() == old(reactor).slots(),
            !ready ==> r is Pending,
            (host == Some(HostWrite::Accepted)) ==> r == Poll::Ready(
                Ok::<(), StreamError>(()),
            ),
            (host == Some(HostWrite::Closed)) ==> r == Poll::Ready(
                Err::<(), StreamError>(StreamError::Closed),
            ),
            host matches Some(HostWrite::Failed(m)) ==> r == Poll::Ready(
                Err::<(), StreamError>(StreamError::Failed(m)),
            ),
    {
        let step = self.poll_handle.poll(reactor, waker, ready);
        if let Poll::Pending = step {
            return Poll::Pending;
        }
        match host {
            Some(HostWrite::Accepted) => Poll::Ready(Ok(())),
            Some(HostWrite::Closed) => Poll::Ready(Err(StreamError::Closed)),
            Some(HostWrite::Failed(m)) => Poll::Ready(Err(StreamError::Failed(m))),
            None => vstd::pervasive::unreached(),
        }
    }

    /// Cooperative close. The host stream capability offers no primitive
    /// distinct from flush, so close is a flush: a documented limitation,
    /// not a stronger guarantee.
    pub fn poll_close(
        &mut self,
        reactor: &mut Reactor,
        waker: u64,
        ready: bool,
        host: Option<HostWrite>,
    ) -> (r: Poll<Result<(), StreamError>>)
        requires
            old(reactor).wf(),
            old(self).valid(old(reactor)),
            host is Some <==> ready,
        ensures
            final(reactor).wf(),
            final(self).valid(final(reactor)),
            final(self).handle() == old(self).handle(),
            final(self).key() == old(self).key(),
            final(reactor).entries() == old(reactor).entries(),
            final(reactor).wakers() == old(reactor).wakers().insert(old(self).key().0, waker),
            final(reactor).ready() == old(reactor).ready(),
            final(reactor).slots() == old(reactor).slots(),
            !ready ==> r is Pending,
            (host == Some(HostWrite::Accepted)) ==> r == Poll::Ready(
                Ok::<(), StreamError>(()),
            ),
            (host == Some(HostWrite::Closed)) ==> r == Poll::Ready(
                Err::<(), StreamError>(StreamError::Closed),
            ),
            host matches Some(HostWrite::Failed(m)) ==> r == Poll::Ready(
                Err::<(), StreamError>(StreamError::Failed(m)),
            ),
    {
        self.poll_flush(reactor, waker, ready, host)
    }

    /// Tear the adapter down: its scoped registration is released strictly
    /// first — both reactor entries for the key are gone by the time this
    /// returns — and only then are the stream handle and the readiness
    /// handle handed back for the caller to dispose of.
    pub fn release(self, reactor: &mut Reactor) -> (r: (u64, u64))
        requires
            old(reactor).wf(),
            self.valid(old(reactor)),
        ensures
            final(reactor).wf(),
            final(reactor).entries() == old(reactor).entries().remove(self.key().0 as int),
            final(reactor).wakers() == old(reactor).wakers().remove(self.key().0),
            final(reactor).ready() == old(reactor).ready(),
            final(reactor).slots() == old(reactor).slots(),
            r.0 == self.handle(),
            r.1 == old(reactor).entries()[self.key().0 as int],
    {
        let readiness = self.poll_handle.release(reactor);
        (self.handle, readiness)
    }
}

/// A direct read drains the buffer before it touches the host. With `m`
/// bytes buffered and `k` more available from the host, a caller asking for
/// `n` bytes and repeating the read until satisfied receives min(n, m + k)
/// in total and sees no error: the first read serves min(n, m) from the
/// buffer (the host untouched), and one host read of the remainder can yield
/// at most min(n - min(n, m), k) more.
pub proof fn lemma_direct_read_total(n: int, m: int, k: int)
    requires
        0 <= n,
        0 <= m,
        0 <= k,
    ensures
        ({
            let from_buffer = if n <= m {
                n
            } else {
                m
            };
            let from_host = if n - from_buffer <= k {
                n - from_buffer
            } else {
                k
            };
            from_buffer + from_host == if n <= m + k {
                n
            } else {
                m + k
            }
        }),
{
}

} // verus!
