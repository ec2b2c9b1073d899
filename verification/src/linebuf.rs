//! The shared read side of the port: a device handle behind a verified
//! exclusive lock, wrapped in a buffered line reader.
//!
//! The buffer keeps bytes already fetched from the device but not yet
//! consumed; a settings change on the shared device handle is visible to
//! subsequent reads without re-duplicating the handle, because reads and
//! settings changes go through the same underlying duplicate.

use vstd::prelude::*;
use vstd::rwlock::RwLock;
use std::sync::Arc;

use crate::device::{dev_read_chunk, Device};
use crate::errors::{classify_failure, IoFailure, ReadResult, SerialError};
use crate::line::{
    find_line_feed, line_shaped, strip_line_terminator, strip_terminator, LINE_FEED,
};

verus! {

/// How many bytes one refill asks of the device at most.
pub const CHUNK_BYTES: usize = 512;

/// The longest raw line the reader will accumulate before reporting the
/// stream as failed rather than growing without bound.
pub const MAX_LINE_BYTES: usize = 0x100_0000;

/// The lock predicate of a device lock: any handle may be stored.
pub open spec fn dev_inv() -> spec_fn(Device) -> bool {
    |d: Device| true
}

/// A device handle shared between the read path and the settings path,
/// behind a verified exclusive lock.
pub type SharedDevice = Arc<RwLock<Device, spec_fn(Device) -> bool>>;

/// The lock predicate of the shared read stream: the stored reader is
/// well formed and draws from the given shared device handle — the same
/// duplicate the settings path mutates, so a settings change is visible
/// to subsequent reads without re-duplicating the handle.
pub open spec fn stream_inv(dev: SharedDevice) -> spec_fn(LineBuf) -> bool {
    |lb: LineBuf| lb.wf() && lb.device() == dev
}

/// A buffered line reader shared between the facade and any listener,
/// behind a verified exclusive lock.
pub type SharedStream = Arc<RwLock<LineBuf, spec_fn(LineBuf) -> bool>>;

/// Whether a shared stream lock carries the reader invariant for some
/// shared device handle. Holders that do not care which handle it is —
/// builders, listeners — demand this much.
pub open spec fn is_stream_lock(s: SharedStream) -> bool {
    exists|dev: SharedDevice| (*s).pred() == #[trigger] stream_inv(dev)
}

/// A buffered byte-stream reader over the shared read-side device handle.
///
/// Each device access acquires the device lock only for the duration of
/// that single call; the buffer itself is guarded by the stream lock its
/// owner places around the whole `LineBuf`.
pub struct LineBuf {
    dev: SharedDevice,
    buf: Vec<u8>,
    pos: usize,
}

/// What a successful bounded read guarantees: some sequence `fed` of
/// bytes arrived from the device, the stream was conserved (the bytes
/// pending before, plus the bytes fed, equal the bytes delivered plus the
/// bytes pending after), and the delivered bytes were appended to the
/// output.
pub open spec fn chunk_read_ok(
    pend0: Seq<u8>,
    pend1: Seq<u8>,
    out0: Seq<u8>,
    out1: Seq<u8>,
    count: nat,
    max: nat,
) -> bool {
    exists|fed: Seq<u8>, delivered: Seq<u8>|
        #![trigger pend0 + fed, delivered + pend1]
        {
            &&& pend0 + fed == delivered + pend1
            &&& out1 == out0 + delivered
            &&& delivered.len() == count
            &&& count <= max
            &&& (max > 0 ==> count > 0)
        }
}

/// What a successful line read guarantees: some sequence `fed` of bytes
/// arrived from the device; the consumed raw line carries a line feed
/// only as its last byte, and either ends with one or — the unterminated
/// case, which covers a consumed count of zero — the stream ended and
/// nothing stays pending; the stream was conserved; and the line's
/// content with the terminator stripped was appended to the output.
pub open spec fn line_read_ok(
    pend0: Seq<u8>,
    pend1: Seq<u8>,
    out0: Seq<u8>,
    out1: Seq<u8>,
    count: nat,
) -> bool {
    exists|fed: Seq<u8>, raw: Seq<u8>|
        #![trigger pend0 + fed, raw + pend1]
        {
            &&& pend0 + fed == raw + pend1
            &&& line_shaped(raw)
            &&& ((raw.len() > 0 && raw[raw.len() - 1] == LINE_FEED) || pend1
                == Seq::<u8>::empty())
            &&& raw.len() == count
            &&& out1 == out0 + strip_terminator(raw)
        }
}

/// What a failed read guarantees: nothing was delivered, but bytes that
/// arrived from the device before the failure stay pending, so a retry
/// loses nothing.
pub open spec fn read_failed(pend0: Seq<u8>, pend1: Seq<u8>) -> bool {
    exists|fed: Seq<u8>| #[trigger] (pend0 + fed) == pend1
}

impl LineBuf {
    /// The bytes fetched from the device but not yet consumed.
    pub closed spec fn pending(self) -> Seq<u8> {
        self.buf@.subrange(self.pos as int, self.buf@.len() as int)
    }

    /// The shared device handle this reader draws from.
    pub closed spec fn device(self) -> SharedDevice {
        self.dev
    }

    /// Well-formedness: the consumed prefix lies inside the buffer, and
    /// the device lock stores arbitrary handles.
    pub closed spec fn wf(self) -> bool {
        &&& self.pos <= self.buf@.len()
        &&& self.buf@.len() <= MAX_LINE_BYTES + CHUNK_BYTES
        &&& (*self.dev).pred() == dev_inv()
    }

    /// A fresh reader over the given shared device handle, with nothing
    /// pending.
    pub(crate) fn new(dev: SharedDevice) -> (r: LineBuf)
        requires
            (*dev).pred() == dev_inv(),
        ensures
            r.wf(),
            r.pending() == Seq::<u8>::empty(),
            r.device() == dev,
    {
        let r = LineBuf { dev, buf: Vec::new(), pos: 0 };
        assert(r.pending() =~= Seq::<u8>::empty());
        r
    }

    /// Drops the consumed prefix once everything pending was delivered,
    /// so the buffer does not grow across lines.
    fn reset_if_drained(&mut self)
        requires
            old(self).wf(),
        ensures
            final(self).wf(),
            final(self).pending() == old(self).pending(),
            final(self).device() == old(self).device(),
            old(self).pending().len() == 0 ==> final(self).buf@.len() == 0,
    {
        if self.pos == self.buf.len() {
            let ghost p0 = self.pending();
            self.buf.clear();
            self.pos = 0;
            assert(self.pending() =~= p0);
        }
    }

    /// Asks the device for one chunk of at most `max` bytes and appends
    /// whatever arrived to the pending buffer. Acquires the device lock
    /// for the duration of this single call.
    fn refill(&mut self, max: usize) -> (r: Result<usize, IoFailure>)
        requires
            old(self).wf(),
            old(self).buf@.len() + max <= MAX_LINE_BYTES + CHUNK_BYTES,
        ensures
            final(self).wf(),
            final(self).device() == old(self).device(),
            match r {
                Ok(n) => {
                    &&& n <= max
                    &&& final(self).pending().len() == old(self).pending().len() + n
                    &&& final(self).pending().take(old(self).pending().len() as int) == old(
                        self,
                    ).pending()
                },
                Err(_) => final(self).pending() == old(self).pending(),
            },
    {
        let (mut d, handle) = self.dev.acquire_write();
        let res = dev_read_chunk(&mut d, max);
        handle.release_write(d);
        match res {
            Ok(mut chunk) => {
                let n = chunk.len();
                let ghost p0 = self.pending();
                self.buf.append(&mut chunk);
                assert(self.pending().take(p0.len() as int) =~= p0);
                Ok(n)
            },
            Err(k) => Err(k),
        }
    }

    /// Delivers the first `n` pending bytes to `out`.
    fn take_pending(&mut self, out: &mut Vec<u8>, n: usize)
        requires
            old(self).wf(),
            n <= old(self).pending().len(),
        ensures
            final(self).wf(),
            final(self).device() == old(self).device(),
            final(out)@ == old(out)@ + old(self).pending().take(n as int),
            final(self).pending() == old(self).pending().skip(n as int),
    {
        let ghost p0 = self.pending();
        assert(self.pos + n <= self.buf@.len());
        let slice = vstd::slice::slice_subrange(self.buf.as_slice(), self.pos, self.pos + n);
        let mut part = vstd::slice::slice_to_vec(slice);
        assert(part@ =~= p0.take(n as int));
        out.append(&mut part);
        self.pos = self.pos + n;
        assert(self.pending() =~= p0.skip(n as int));
        self.reset_if_drained();
    }

    /// One bounded read: delivers buffered bytes if any are pending, else
    /// asks the device once. Does not loop to fill the caller's buffer; a
    /// count of zero without an error happens only for a zero-length
    /// request.
    pub(crate) fn read(&mut self, out: &mut Vec<u8>, max: usize) -> (r: ReadResult)
        requires
            old(self).wf(),
        ensures
            final(self).wf(),
            final(self).device() == old(self).device(),
            r.error is NoErr ==> chunk_read_ok(
                old(self).pending(),
                final(self).pending(),
                old(out)@,
                final(out)@,
                r.bytes_read as nat,
                max as nat,
            ),
            !(r.error is NoErr) ==> final(out)@ == old(out)@ && r.bytes_read == 0 && read_failed(
                old(self).pending(),
                final(self).pending(),
            ),
            !(r.error is PortIOErr),
            max == 0 ==> r.error is NoErr && r.bytes_read == 0,
            max > 0 && old(self).pending().len() > 0 ==> r.error is NoErr,
    {
        let ghost p0 = self.pending();
        if max == 0 {
            proof {
                assert(p0 + Seq::<u8>::empty() =~= Seq::<u8>::empty() + p0);
            }
            return ReadResult { error: SerialError::NoErr, bytes_read: 0 };
        }
        if self.pos == self.buf.len() {
            assert(p0.len() == 0);
            self.reset_if_drained();
            let want = if max < CHUNK_BYTES {
                max
            } else {
                CHUNK_BYTES
            };
            match self.refill(want) {
                Ok(_) => {},
                Err(k) => {
                    proof {
                        assert(p0 + Seq::<u8>::empty() =~= self.pending());
                    }
                    return ReadResult { error: classify_failure(k), bytes_read: 0 };
                },
            }
            if self.pos == self.buf.len() {
                // The device reported the end of the stream; with a
                // nonzero request a count of zero must signal an error.
                proof {
                    assert(p0 + Seq::<u8>::empty() =~= self.pending());
                }
                return ReadResult { error: SerialError::Other, bytes_read: 0 };
            }
        }
        let ghost p1 = self.pending();
        let ghost fed = p1.skip(p0.len() as int);
        proof {
            assert(p1.take(p0.len() as int) == p0);
            assert(p0 + fed =~= p1);
        }
        let avail = self.buf.len() - self.pos;
        let n = if max < avail {
            max
        } else {
            avail
        };
        let ghost out0 = out@;
        self.take_pending(out, n);
        proof {
            let delivered = p1.take(n as int);
            assert(p0 + fed =~= delivered + self.pending());
            assert(out@ == out0 + delivered);
        }
        ReadResult { error: SerialError::NoErr, bytes_read: n }
    }

    /// Reads one line: bytes up to and including a line feed, or the rest
    /// of the stream if it ends first. The content with the terminator
    /// stripped is appended to `out`; the returned count is the raw
    /// number of bytes consumed, terminator included. On an error nothing
    /// is delivered, and bytes already fetched stay pending, so the same
    /// call can be reissued.
    pub(crate) fn read_line(&mut self, out: &mut Vec<u8>) -> (r: ReadResult)
        requires
            old(self).wf(),
        ensures
            final(self).wf(),
            final(self).device() == old(self).device(),
            r.error is NoErr ==> line_read_ok(
                old(self).pending(),
                final(self).pending(),
                old(out)@,
                final(out)@,
                r.bytes_read as nat,
            ),
            !(r.error is NoErr) ==> final(out)@ == old(out)@ && r.bytes_read == 0 && read_failed(
                old(self).pending(),
                final(self).pending(),
            ),
            !(r.error is PortIOErr),
            (exists|i: int|
                0 <= i < old(self).pending().len() && old(self).pending()[i] == LINE_FEED)
                ==> r.error is NoErr,
    {
        let ghost p0 = self.pending();
        let ghost out0 = out@;
        let ghost mut fed = Seq::<u8>::empty();
        proof {
            assert(p0 + fed =~= p0);
        }
        loop
            invariant
                self.wf(),
                self.device() == old(self).device(),
                p0 == old(self).pending(),
                out0 == old(out)@,
                out@ == out0,
                p0 + fed == self.pending(),
                self.buf@.len() <= MAX_LINE_BYTES + CHUNK_BYTES,
            decreases MAX_LINE_BYTES + CHUNK_BYTES - self.pending().len(),
        {
            let ghost pend = self.pending();
            match find_line_feed(&self.buf, self.pos) {
                Some(j) => {
                    // The raw line is pending up to and including the
                    // line feed at j.
                    let count = j + 1 - self.pos;
                    let ghost raw = pend.take(count as int);
                    proof {
                        assert(raw[count - 1] == LINE_FEED);
                        assert forall|i: int| 0 <= i < raw.len() - 1 implies raw[i]
                            != LINE_FEED by {
                            assert(raw[i] == self.buf@[self.pos + i]);
                        }
                        assert(line_shaped(raw));
                    }
                    let slice = vstd::slice::slice_subrange(
                        self.buf.as_slice(),
                        self.pos,
                        j + 1,
                    );
                    assert(slice@ =~= raw);
                    let mut content = strip_line_terminator(slice);
                    out.append(&mut content);
                    self.pos = j + 1;
                    proof {
                        assert(p0 + fed =~= raw + self.pending());
                    }
                    self.reset_if_drained();
                    proof {
                        assert(line_read_ok(p0, self.pending(), out0, out@, count as nat)) by {
                            assert(p0 + fed == raw + self.pending());
                            assert(out@ == out0 + strip_terminator(raw));
                            assert(line_shaped(raw));
                            assert(raw.len() == count);
                            assert(raw[raw.len() - 1] == LINE_FEED);
                        }
                    }
                    return ReadResult { error: SerialError::NoErr, bytes_read: count };
                },
                None => {},
            }
            proof {
                // No line feed is buffered, so none was pending at entry:
                // the error exits below cannot owe a success.
                assert forall|k: int| 0 <= k < p0.len() implies p0[k] != LINE_FEED by {
                    assert(p0[k] == (p0 + fed)[k]);
                    assert(self.pending()[k] == self.buf@[self.pos + k]);
                }
            }
            if self.buf.len() >= MAX_LINE_BYTES {
                // An unterminated line longer than the reader is willing
                // to hold: report the stream as failed rather than grow
                // without bound. The bytes stay pending.
                return ReadResult { error: SerialError::Other, bytes_read: 0 };
            }
            let ghost before = self.pending();
            match self.refill(CHUNK_BYTES) {
                Ok(n) => {
                    if n == 0 {
                        // End of stream: the rest of the pending bytes
                        // form one unterminated line.
                        let count = self.buf.len() - self.pos;
                        let ghost raw = self.pending();
                        proof {
                            assert(raw =~= before);
                            assert forall|i: int| 0 <= i < raw.len() implies raw[i]
                                != LINE_FEED by {
                                assert(raw[i] == self.buf@[self.pos + i]);
                            }
                            assert(line_shaped(raw));
                            assert(strip_terminator(raw) == raw);
                        }
                        let slice = vstd::slice::slice_subrange(
                            self.buf.as_slice(),
                            self.pos,
                            self.buf.len(),
                        );
                        let mut content = vstd::slice::slice_to_vec(slice);
                        assert(content@ =~= raw);
                        out.append(&mut content);
                        self.pos = self.buf.len();
                        proof {
                            assert(self.pending() =~= Seq::<u8>::empty());
                            assert(p0 + fed =~= raw + self.pending());
                        }
                        self.reset_if_drained();
                        proof {
                            assert(line_read_ok(p0, self.pending(), out0, out@, count as nat))
                                by {
                                assert(p0 + fed == raw + self.pending());
                                assert(out@ == out0 + strip_terminator(raw));
                                assert(line_shaped(raw));
                                assert(raw.len() == count);
                                assert(self.pending() =~= Seq::<u8>::empty());
                            }
                        }
                        return ReadResult { error: SerialError::NoErr, bytes_read: count };
                    }
                    proof {
                        let more = self.pending().skip(before.len() as int);
                        assert(self.pending().take(before.len() as int) == before);
                        assert(before + more =~= self.pending());
                        assert(p0 + (fed + more) =~= self.pending());
                        fed = fed + more;
                    }
                },
                Err(k) => {
                    return ReadResult { error: classify_failure(k), bytes_read: 0 };
                },
            }
        }
    }
}

} // verus!
