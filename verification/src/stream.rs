//! Adapters around the response stream of a download and the writer it feeds.

use vstd::prelude::*;

use bytes::Bytes;

use crate::downloader::DownloadError;

verus! {

#[verifier::external_type_specification]
#[verifier::external_body]
pub struct ExBytes(Bytes);

/// The bytes held by a `Bytes` buffer.
pub uninterp spec fn bytes_contents(b: Bytes) -> Seq<u8>;

/// `Bytes::len`: the number of bytes the buffer holds.
#[verifier::external_body]
fn bytes_len(b: &Bytes) -> (n: usize)
    ensures
        n == bytes_contents(*b).len(),
{
    b.len()
}

/// The number of bytes an item of a response stream carries: a chunk's
/// length, nothing for a failure or the end of the stream.
pub open spec fn item_len<E>(item: Option<Result<Bytes, E>>) -> nat {
    match item {
        Some(Ok(chunk)) => bytes_contents(chunk).len(),
        _ => 0,
    }
}

/// The total number of bytes held by a sequence of chunks.
pub open spec fn chunks_len(chunks: Seq<Bytes>) -> nat
    decreases chunks.len(),
{
    if chunks.len() == 0 {
        0
    } else {
        chunks_len(chunks.drop_last()) + bytes_contents(chunks.last()).len()
    }
}

/// The chunks passed on so far, after one more item: a chunk joins them, a
/// failure or the end of the stream leaves them as they were.
pub open spec fn passed_after<E>(passed: Seq<Bytes>, item: Option<Result<Bytes, E>>) -> Seq<
    Bytes,
> {
    match item {
        Some(Ok(chunk)) => passed.push(chunk),
        _ => passed,
    }
}

/// What a counting stream hands on for an item of the wrapped stream, with
/// `count` bytes counted before it: a chunk goes through unchanged, a failure
/// becomes `DownloadFailed(count)`, the end of the stream stays the end.
pub open spec fn passed_on<E>(count: nat, item: Option<Result<Bytes, E>>) -> Option<
    Result<Bytes, DownloadError>,
> {
    match item {
        Some(Ok(chunk)) => Some(Ok(chunk)),
        Some(Err(_)) => Some(Err(DownloadError::DownloadFailed(count as usize))),
        None => None,
    }
}

/// The byte counter of a stream, with the chunks it has counted.
struct ChunkCounter {
    byte_count: usize,
    passed: Ghost<Seq<Bytes>>,
}

impl ChunkCounter {
    #[verifier::type_invariant]
    spec fn counts_passed(self) -> bool {
        self.byte_count == chunks_len(self.passed@)
    }
}

/// A stream of response chunks that counts the bytes passing through it.
pub struct ByteCountingStream<S> {
    inner: S,
    counter: ChunkCounter,
}

impl<S> ByteCountingStream<S> {
    /// The number of bytes counted so far.
    pub closed spec fn count(&self) -> nat {
        self.counter.byte_count as nat
    }

    /// The chunks passed on so far, in order.
    pub closed spec fn passed(&self) -> Seq<Bytes> {
        self.counter.passed@
    }

    /// The wrapped stream.
    pub closed spec fn inner_stream(&self) -> S {
        self.inner
    }

    pub fn new(inner: S) -> (stream: Self)
        ensures
            stream.count() == 0,
            stream.passed() == Seq::<Bytes>::empty(),
            stream.inner_stream() == inner,
    {
        ByteCountingStream { inner, counter: ChunkCounter { byte_count: 0, passed: Ghost(Seq::empty()) } }
    }

    /// The number of bytes counted so far: the total length of the chunks
    /// passed on since the stream was made.
    pub fn byte_count(&self) -> (n: usize)
        ensures
            n == self.count(),
            n == chunks_len(self.passed()),
    {
        proof {
            use_type_invariant(&self.counter);
        }
        self.counter.byte_count
    }

    /// The wrapped stream, to be polled for the next item.
    pub fn inner_mut(&mut self) -> (inner: &mut S)
        ensures
            *inner == old(self).inner_stream(),
            final(self).inner_stream() == *final(inner),
            final(self).count() == old(self).count(),
            final(self).passed() == old(self).passed(),
    {
        &mut self.inner
    }

    /// Passes on an item that the wrapped stream produced: a chunk goes
    /// through unchanged and is counted; a failure becomes
    /// `DownloadFailed` with the number of bytes counted before it; the end
    /// of the stream stays the end.
    pub fn observe<E>(&mut self, item: Option<Result<Bytes, E>>) -> (out: Option<
        Result<Bytes, DownloadError>,
    >)
        requires
            old(self).count() + item_len(item) <= usize::MAX,
        ensures
            out == passed_on(old(self).count(), item),
            final(self).count() == old(self).count() + item_len(item),
            final(self).passed() == passed_after(old(self).passed(), item),
            final(self).count() == chunks_len(final(self).passed()),
            final(self).inner_stream() == old(self).inner_stream(),
    {
        proof {
            use_type_invariant(&self.counter);
        }
        match item {
            Some(Ok(chunk)) => {
                let n: usize = bytes_len(&chunk);
                let ghost passed: Seq<Bytes> = self.counter.passed@.push(chunk);
                assert(passed.drop_last() =~= self.counter.passed@);
                self.counter = ChunkCounter { byte_count: self.counter.byte_count + n, passed: Ghost(passed) };
                Some(Ok(chunk))
            },
            Some(Err(_)) => Some(Err(DownloadError::DownloadFailed(self.counter.byte_count))),
            None => None,
        }
    }

    /// Passes on an item as `observe` does when its bytes still fit the
    /// counter; when they would take the count past `usize::MAX`, hands the
    /// item back untouched in `Err` and leaves the stream as it was.
    pub fn try_observe<E>(&mut self, item: Option<Result<Bytes, E>>) -> (out: Result<
        Option<Result<Bytes, DownloadError>>,
        Option<Result<Bytes, E>>,
    >)
        ensures
            old(self).count() + item_len(item) <= usize::MAX ==> {
                &&& out == Ok::<_, Option<Result<Bytes, E>>>(passed_on(old(self).count(), item))
                &&& final(self).count() == old(self).count() + item_len(item)
                &&& final(self).passed() == passed_after(old(self).passed(), item)
                &&& final(self).inner_stream() == old(self).inner_stream()
            },
            old(self).count() + item_len(item) > usize::MAX ==> {
                &&& out == Err::<Option<Result<Bytes, DownloadError>>, _>(item)
                &&& *final(self) == *old(self)
            },
            final(self).count() == chunks_len(final(self).passed()),
    {
        proof {
            use_type_invariant(&self.counter);
        }
        let n: usize = match &item {
            Some(Ok(chunk)) => bytes_len(chunk),
            _ => 0,
        };
        if n > usize::MAX - self.counter.byte_count {
            return Err(item);
        }
        Ok(self.observe(item))
    }
}

/// A writer shared behind a handle, through which the decoded bytes of a download are written.
pub struct AsyncWriterWrapper<W> {
    inner: W,
}

impl<W> AsyncWriterWrapper<W> {
    /// The shared writer.
    pub closed spec fn writer(&self) -> W {
        self.inner
    }

    pub fn new(inner: W) -> (wrapper: Self)
        ensures
            wrapper.writer() == inner,
    {
        AsyncWriterWrapper { inner }
    }

    pub fn inner(&self) -> (inner: &W)
        ensures
            *inner == self.writer(),
    {
        &self.inner
    }
}

} // verus!
