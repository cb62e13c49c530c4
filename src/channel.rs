//! A transport behind an exclusive lock, and the three operations the
//! protocol engine invokes on it: receive, send and flush.

use vstd::prelude::*;
use vstd::rwlock::{RwLock, RwLockPredicate};

verus! {

/// Declares std's `std::io::Error`, the error a transport reports from a read,
/// a write or a flush. It is carried through unopened.
#[verifier::external_type_specification]
#[verifier::external_body]
pub struct ExIoError(std::io::Error);

/// A byte stream that can carry the protocol engine's traffic.
pub trait Channel {
    /// The numeric identity of this transport.
    fn get_id(&self) -> i32;

    /// Reads up to `buf.len()` bytes into `buf`, returning how many were read.
    fn read(&mut self, buf: &mut [u8]) -> std::io::Result<usize>;

    /// Writes bytes from `buf`, returning how many were written.
    fn write(&mut self, buf: &[u8]) -> std::io::Result<usize>;

    /// Pushes out anything the transport has buffered.
    fn flush(&mut self) -> std::io::Result<()>;
}

/// The status the send callback reports for a write of `len` bytes that the
/// transport answered with `outcome`: the count it wrote, or -1 on an error or
/// on a count that is larger than `len` or than an `i32` can hold.
pub open spec fn write_status(outcome: std::io::Result<usize>, len: nat) -> i32 {
    match outcome {
        Ok(n) => if n <= len && n <= i32::MAX { n as i32 } else { -1i32 },
        Err(_) => -1i32,
    }
}

/// The status the receive callback reports when the transport answered
/// `outcome` to a read into a scratch buffer that now holds `scratch`, on behalf
/// of a caller's buffer of `len` bytes: the count read, or -1 on an error, on a
/// count larger than the buffer or than an `i32` can hold, or on a scratch buffer
/// whose length is not `len`.
pub open spec fn read_status(outcome: std::io::Result<usize>, scratch: Seq<u8>, len: nat) -> i32 {
    match outcome {
        Ok(n) => if n <= len && n <= i32::MAX && scratch.len() == len { n as i32 } else { -1i32 },
        Err(_) => -1i32,
    }
}

/// What the caller's buffer holds after a receive that reported `status`:
/// the scratch buffer on success, its old contents otherwise.
pub open spec fn received(status: i32, scratch: Seq<u8>, before: Seq<u8>) -> Seq<u8> {
    if status >= 0 { scratch } else { before }
}

/// Turns the transport's answer to a write of `len` bytes into the send
/// callback's status.
pub fn settle_write(outcome: std::io::Result<usize>, len: usize) -> (r: i32)
    ensures
        r == write_status(outcome, len as nat),
        outcome is Err ==> r == -1,
{
    match outcome {
        Ok(n) => if n <= len && n <= 0x7fff_ffffusize { n as i32 } else { -1 },
        Err(_) => -1,
    }
}

/// Turns the transport's answer to a read into `scratch` into the receive
/// callback's status, and on success copies `scratch` into `out`. On failure
/// `out` is left as it was.
pub fn settle_read(outcome: std::io::Result<usize>, scratch: &[u8], out: &mut [u8]) -> (r: i32)
    ensures
        r == read_status(outcome, scratch@, old(out)@.len()),
        final(out)@ == received(r, scratch@, old(out)@),
        outcome is Err ==> r == -1,
{
    let len = out.len();
    let n = match outcome {
        Ok(n) => n,
        Err(_) => return -1,
    };
    if n > len || n > 0x7fff_ffffusize || scratch.len() != len {
        return -1;
    }
    let mut i: usize = 0;
    while i < len
        invariant
            len == scratch@.len(),
            out@.len() == len,
            i <= len,
            forall|j: int| 0 <= j < i ==> out@[j] == scratch@[j],
        decreases len - i,
    {
        out[i] = scratch[i];
        i = i + 1;
    }
    assert(out@ =~= scratch@);
    n as i32
}

/// A transport that takes all of `b` and then hands the same bytes back: the
/// send and the receive callbacks both report `b.len()`, and the caller's
/// receive buffer of that length ends up holding exactly `b`.
pub proof fn lemma_loopback_round_trip(b: Seq<u8>, before: Seq<u8>)
    requires
        b.len() <= i32::MAX,
        before.len() == b.len(),
    ensures
        write_status(Ok(b.len() as usize), b.len()) == b.len(),
        read_status(Ok(b.len() as usize), b, before.len()) == b.len(),
        received(read_status(Ok(b.len() as usize), b, before.len()), b, before) == b,
{
}

/// A transport whose every read and write fails: both callbacks report -1, and
/// the caller's receive buffer keeps its contents.
pub proof fn lemma_failures_reported(e: std::io::Error, scratch: Seq<u8>, before: Seq<u8>, len: nat)
    ensures
        write_status(Err(e), len) == -1,
        read_status(Err(e), scratch, before.len()) == -1,
        received(read_status(Err(e), scratch, before.len()), scratch, before) == before,
{
}

/// Any transport may be held by the lock.
pub struct AnyTransport;

impl RwLockPredicate<Box<dyn Channel>> for AnyTransport {
    open spec fn inv(self, v: Box<dyn Channel>) -> bool {
        true
    }
}

/// One transport, owned exclusively and reached only through its lock. Each
/// operation moves the transport out of the lock, works on it and puts it
/// back, so no two operations ever reach it at once, whatever threads call.
pub struct OsdpChannel {
    stream: RwLock<Box<dyn Channel>, AnyTransport>,
}

impl OsdpChannel {
    /// Takes ownership of `stream`.
    pub fn new(stream: Box<dyn Channel>) -> (r: OsdpChannel) {
        OsdpChannel { stream: RwLock::new(stream, Ghost(AnyTransport)) }
    }

    /// The identity the transport reports now.
    pub fn id(&self) -> (r: i32) {
        let (stream, handle) = self.stream.acquire_write();
        let id = stream.get_id();
        handle.release_write(stream);
        id
    }

    /// The receive callback: reads up to `out.len()` bytes from the transport
    /// while holding its lock, and reports the count read or -1.
    pub fn recv(&self, out: &mut [u8]) -> (r: i32)
        ensures
            -1 <= r <= old(out)@.len(),
            r == -1 ==> final(out)@ == old(out)@,
            final(out)@.len() == old(out)@.len(),
    {
        let len = out.len();
        let mut scratch: Vec<u8> = vec![0u8; len];
        let (mut stream, handle) = self.stream.acquire_write();
        let outcome = stream.read(scratch.as_mut_slice());
        handle.release_write(stream);
        settle_read(outcome, scratch.as_slice(), out)
    }

    /// The send callback: writes `buf` to the transport while holding its lock,
    /// and reports the count written or -1.
    pub fn send(&self, buf: &[u8]) -> (r: i32)
        ensures
            -1 <= r <= buf@.len(),
    {
        let (mut stream, handle) = self.stream.acquire_write();
        let outcome = stream.write(buf);
        handle.release_write(stream);
        settle_write(outcome, buf.len())
    }

    /// The flush callback: flushes the transport while holding its lock. A
    /// failure is not reported: the engine's flush has no way to receive one.
    pub fn flush(&self) {
        let (mut stream, handle) = self.stream.acquire_write();
        let _ = stream.flush();
        handle.release_write(stream);
    }
}

} // verus!
