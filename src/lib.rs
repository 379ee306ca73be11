use std::pin::Pin;
use std::task::{Context, Poll};
use tokio::io::{AsyncRead, AsyncWrite, ReadBuf};
use vstd::prelude::*;

verus! {

#[verifier::external_type_specification]
#[verifier::external_body]
#[verifier::reject_recursive_types(Ptr)]
pub struct ExPin<Ptr>(std::pin::Pin<Ptr>);

#[verifier::external_type_specification]
#[verifier::external_body]
pub struct ExContext<'a>(std::task::Context<'a>);

#[verifier::external_type_specification]
#[verifier::reject_recursive_types(T)]
pub struct ExPoll<T>(std::task::Poll<T>);

#[verifier::external_type_specification]
#[verifier::external_body]
pub struct ExIoError(std::io::Error);

/// The count a completed read reports: what the read buffer says was
/// filled, capped at the length `len` of the caller's buffer.
pub open spec fn reported_count(filled: usize, len: usize) -> usize {
    if filled <= len {
        filled
    } else {
        len
    }
}

/// How a read of the wrapped resource, whose read buffer reports `filled`
/// bytes, is reported to a caller whose buffer holds `len` bytes: pending
/// stays pending, and any completion, an error included, becomes a successful
/// read of `filled` bytes, capped at `len`. The error itself is dropped, so a
/// failed read looks like a short one.
pub fn read_outcome(inner: Poll<std::io::Result<()>>, filled: usize, len: usize) -> (r: Poll<
    std::io::Result<usize>,
>)
    ensures
        inner is Pending ==> r is Pending,
        inner is Ready ==> r == Poll::<std::io::Result<usize>>::Ready(
            Ok(reported_count(filled, len)),
        ),
{
    match inner {
        Poll::Pending => Poll::Pending,
        Poll::Ready(_) => {
            let count = if filled <= len {
                filled
            } else {
                len
            };
            Poll::Ready(Ok(count))
        },
    }
}


/// Relies on `Box::pin`: the value moves into a heap allocation that is pinned there.
pub assume_specification<T>[ Box::<T>::pin ](x: T) -> Pin<Box<T>>;

/// Relies on tokio's `AsyncRead::poll_read`, handed `ReadBuf::new(buf)`, and on
/// `ReadBuf::filled` for the count filled. The resource may replace the
/// `ReadBuf` it is handed, so nothing bounds that count; only the length of
/// `buf`, a slice, stays as it was.
#[verifier::external_body]
fn poll_inner_read<T: AsyncRead>(
    inner: &mut Pin<Box<T>>,
    cx: &mut Context<'_>,
    buf: &mut [u8],
) -> (r: (Poll<std::io::Result<()>>, usize))
    ensures
        final(buf)@.len() == old(buf)@.len(),
{
    let mut read_buf = ReadBuf::new(buf);
    let outcome = inner.as_mut().poll_read(cx, &mut read_buf);
    (outcome, read_buf.filled().len())
}

/// Relies on tokio's `AsyncWrite::poll_write`; its outcome is handed back as it
/// is. The trait requires that a successful write reports at most `buf.len()`
/// bytes written.
#[verifier::external_body]
fn poll_inner_write<T: AsyncWrite>(
    inner: &mut Pin<Box<T>>,
    cx: &mut Context<'_>,
    buf: &[u8],
) -> (r: Poll<std::io::Result<usize>>)
    ensures
        r matches Poll::Ready(Ok(n)) ==> n <= buf@.len(),
{
    inner.as_mut().poll_write(cx, buf)
}

/// Relies on tokio's `AsyncWrite::poll_flush`; its outcome is handed back as it is.
#[verifier::external_body]
fn poll_inner_flush<T: AsyncWrite>(inner: &mut Pin<Box<T>>, cx: &mut Context<'_>) -> Poll<
    std::io::Result<()>,
> {
    inner.as_mut().poll_flush(cx)
}

/// Relies on tokio's `AsyncWrite::poll_shutdown`; its outcome is handed back as it is.
#[verifier::external_body]
fn poll_inner_shutdown<T: AsyncWrite>(inner: &mut Pin<Box<T>>, cx: &mut Context<'_>) -> Poll<
    std::io::Result<()>,
> {
    inner.as_mut().poll_shutdown(cx)
}

/// Wraps a resource with tokio's read/write traits so that it can be driven
/// with slice buffers, byte counts and an explicit close.
#[verifier::reject_recursive_types(T)]
pub struct TokioAsyncReadWrite<T> {
    inner: Pin<Box<T>>,
}

impl<T> TokioAsyncReadWrite<T> {
    /// Takes ownership of `inner` and pins it on the heap.
    pub fn new(inner: T) -> Self {
        TokioAsyncReadWrite { inner: Box::pin(inner) }
    }
}

impl<T: AsyncRead + AsyncWrite> TokioAsyncReadWrite<T> {
    /// Reads into `buf`: a pending read stays pending, and a completed read
    /// reports how many bytes landed in `buf` (see `read_outcome`), never an
    /// error and never more than `buf` holds.
    pub fn poll_read(&mut self, cx: &mut Context<'_>, buf: &mut [u8]) -> (r: Poll<
        std::io::Result<usize>,
    >)
        ensures
            final(buf)@.len() == old(buf)@.len(),
            r matches Poll::Ready(res) ==> (res matches Ok(n) && n <= old(buf)@.len()),
    {
        let len = buf.len();
        let (outcome, filled) = poll_inner_read(&mut self.inner, cx, buf);
        read_outcome(outcome, filled, len)
    }

    /// Writes from `buf` through the wrapped resource; its outcome comes back unchanged.
    /// A successful write never reports more bytes than `buf` holds.
    pub fn poll_write(&mut self, cx: &mut Context<'_>, buf: &[u8]) -> (r: Poll<
        std::io::Result<usize>,
    >)
        ensures
            r matches Poll::Ready(Ok(n)) ==> n <= buf@.len(),
    {
        poll_inner_write(&mut self.inner, cx, buf)
    }

    /// Flushes the wrapped resource; its outcome comes back unchanged.
    pub fn poll_flush(&mut self, cx: &mut Context<'_>) -> Poll<std::io::Result<()>> {
        poll_inner_flush(&mut self.inner, cx)
    }

    /// Closes the wrapped resource by shutting it down; the outcome of the
    /// shutdown comes back unchanged.
    pub fn poll_close(&mut self, cx: &mut Context<'_>) -> Poll<std::io::Result<()>> {
        poll_inner_shutdown(&mut self.inner, cx)
    }
}

impl<T> From<T> for TokioAsyncReadWrite<T> {
    /// Same as `TokioAsyncReadWrite::new`.
    fn from(inner: T) -> Self {
        TokioAsyncReadWrite::new(inner)
    }
}

/// The pinned resource is opaque to contracts, so conversion promises
/// nothing beyond what `new` does.
impl<T> vstd::std_specs::convert::FromSpecImpl<T> for TokioAsyncReadWrite<T> {
    open spec fn obeys_from_spec() -> bool {
        false
    }

    open spec fn from_spec(v: T) -> Self {
        arbitrary()
    }
}

} // verus!
