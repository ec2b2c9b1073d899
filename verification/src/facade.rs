//! The serial facade: one exclusive write handle and one shared, buffered
//! read handle over the same physical port, with configuration changes
//! mirrored to both sides.
//!
//! All synchronization is explicit: the write handle sits behind its own
//! lock; the read side is a shared stream lock around the buffered reader,
//! which in turn shares a device lock with the settings path. A settings
//! change through the shared device handle is therefore visible to
//! subsequent reads without re-duplicating the handle.

use vstd::prelude::*;
use vstd::rwlock::RwLock;
use vstd::string::StringSliceAdditionalSpecFns;

use crate::config::{CharSize, FlowControl, Parity, PortConfig};
use crate::device::{
    dev_set_baud_rate, dev_set_data_bits, dev_set_flow_control, dev_set_parity,
    dev_set_stop_bits, dev_set_timeout, dev_write_all, open_device, port_error_to_device_error,
    try_clone_device, Device,
};
use crate::errors::{classify_failure, DeviceError, ReadResult, SerialError};
use crate::line::{line_shaped, strip_terminator, LINE_FEED};
use crate::linebuf::{dev_inv, is_stream_lock, stream_inv, LineBuf, SharedDevice, SharedStream};
use crate::listener::SerialListenerBuilder;

verus! {

/// The per-call timeout a fresh port is opened with, functionally "block
/// until data or error".
pub const DEFAULT_TIMEOUT_MS: u64 = 99_999_000;

/// Full-duplex access to one serial port, safe to share across threads.
///
/// The port is opened once and duplicated once: the original handle is
/// the exclusive write side, the duplicate is the shared read side. The
/// read duplicate is reachable two ways that always refer to the same
/// handle: through the buffered stream for reads, and directly for
/// settings changes.
pub struct Serial {
    write_dev: RwLock<Device, spec_fn(Device) -> bool>,
    read_stream: SharedStream,
    read_settings: SharedDevice,
    write_log: Ghost<Seq<u8>>,
    read_cfg: Ghost<PortConfig>,
    write_cfg: Ghost<PortConfig>,
}

impl Serial {
    /// Well-formedness: each lock stores what its predicate demands. The
    /// stream predicate pins the shared-duplicate invariant: the reader
    /// inside the stream lock always draws from the same shared device
    /// handle as the settings path, so a settings change is visible to
    /// subsequent reads without re-duplicating the handle.
    pub closed spec fn wf(self) -> bool {
        &&& self.write_dev.pred() == dev_inv()
        &&& (*self.read_stream).pred() == stream_inv(self.read_settings)
        &&& (*self.read_settings).pred() == dev_inv()
    }

    /// Every byte successfully written through this facade, in order.
    pub closed spec fn written(self) -> Seq<u8> {
        self.write_log@
    }

    /// The settings the read-side duplicate has accepted.
    pub closed spec fn read_side(self) -> PortConfig {
        self.read_cfg@
    }

    /// The settings the write-side duplicate has accepted.
    pub closed spec fn write_side(self) -> PortConfig {
        self.write_cfg@
    }

    /// The shared read stream; listeners capture this same stream.
    pub closed spec fn stream_of(self) -> SharedStream {
        self.read_stream
    }

    /// Opens the device at `path` with the given baud rate and the
    /// default timeout, then duplicates the handle once for the read
    /// side. Fails if the driver cannot open or duplicate the handle.
    pub fn new(path: &str, baud: u32) -> (r: Result<Serial, DeviceError>)
        ensures
            (r matches Ok(s) ==> {
                &&& s.wf()
                &&& s.written() == Seq::<u8>::empty()
                &&& s.read_side() == PortConfig::initial(baud, DEFAULT_TIMEOUT_MS)
                &&& s.write_side() == PortConfig::initial(baud, DEFAULT_TIMEOUT_MS)
            }),
    {
        let raw = match open_device(path, baud, DEFAULT_TIMEOUT_MS) {
            Ok(d) => d,
            Err(e) => {
                return Err(port_error_to_device_error(e));
            },
        };
        let dup = match try_clone_device(&raw) {
            Ok(d) => d,
            Err(e) => {
                return Err(port_error_to_device_error(e));
            },
        };
        let read_dev: SharedDevice = std::sync::Arc::new(RwLock::new(dup, Ghost(dev_inv())));
        let reader = LineBuf::new(read_dev.clone());
        Ok(
            Serial {
                write_dev: RwLock::new(raw, Ghost(dev_inv())),
                read_stream: std::sync::Arc::new(
                    RwLock::new(reader, Ghost(stream_inv(read_dev))),
                ),
                read_settings: read_dev,
                write_log: Ghost(Seq::empty()),
                read_cfg: Ghost(PortConfig::initial(baud, DEFAULT_TIMEOUT_MS)),
                write_cfg: Ghost(PortConfig::initial(baud, DEFAULT_TIMEOUT_MS)),
            },
        )
    }

    /// Writes the entire buffer to the device under the write lock. On
    /// success every byte was handed to the device and is appended to the
    /// write log; on failure the log is unchanged and the error is
    /// classified: `Interrupted` and `Timeout` may be retried as the
    /// identical call, `Other` carries no retry guarantee.
    pub fn write(&mut self, data: &[u8]) -> (r: SerialError)
        requires
            old(self).wf(),
        ensures
            final(self).wf(),
            !(r is PortIOErr),
            r is NoErr ==> final(self).written() == old(self).written() + data@,
            !(r is NoErr) ==> final(self).written() == old(self).written(),
            data@.len() == 0 ==> r is NoErr,
            final(self).read_side() == old(self).read_side(),
            final(self).write_side() == old(self).write_side(),
            final(self).stream_of() == old(self).stream_of(),
    {
        let (mut d, handle) = self.write_dev.acquire_write();
        let res = dev_write_all(&mut d, data);
        handle.release_write(d);
        match res {
            Ok(_) => {
                self.write_log = Ghost(self.write_log@ + data@);
                SerialError::NoErr
            },
            Err(k) => classify_failure(k),
        }
    }

    /// Writes the whole string's UTF-8 bytes; the same contract as
    /// [`Serial::write`] on those bytes.
    pub fn write_str(&mut self, data: &str) -> (r: SerialError)
        requires
            old(self).wf(),
        ensures
            final(self).wf(),
            !(r is PortIOErr),
            r is NoErr ==> final(self).written() == old(self).written() + data.spec_bytes(),
            !(r is NoErr) ==> final(self).written() == old(self).written(),
            data.spec_bytes().len() == 0 ==> r is NoErr,
            final(self).read_side() == old(self).read_side(),
            final(self).write_side() == old(self).write_side(),
            final(self).stream_of() == old(self).stream_of(),
    {
        self.write(data.as_bytes())
    }

    /// One bounded read into the caller's buffer under the shared read
    /// lock: appends at most `max_bytes` bytes and returns how many. Does
    /// not loop to fill the buffer. A count of zero with `NoErr` happens
    /// only for a zero-length request; otherwise zero comes with the
    /// classified error and the buffer is untouched.
    pub fn read(&mut self, read_buff: &mut Vec<u8>, max_bytes: usize) -> (r: ReadResult)
        requires
            old(self).wf(),
        ensures
            final(self).wf(),
            !(r.error is PortIOErr),
            r.error is NoErr ==> {
                &&& final(read_buff)@.len() == old(read_buff)@.len() + r.bytes_read
                &&& final(read_buff)@.take(old(read_buff)@.len() as int) == old(read_buff)@
                &&& r.bytes_read <= max_bytes
                &&& (r.bytes_read == 0 ==> max_bytes == 0)
            },
            !(r.error is NoErr) ==> final(read_buff)@ == old(read_buff)@ && r.bytes_read == 0,
            max_bytes == 0 ==> r.error is NoErr && r.bytes_read == 0,
            final(self).written() == old(self).written(),
            final(self).read_side() == old(self).read_side(),
            final(self).write_side() == old(self).write_side(),
            final(self).stream_of() == old(self).stream_of(),
    {
        let (mut lb, handle) = self.read_stream.acquire_write();
        let ghost p0 = lb.pending();
        let ghost out0 = read_buff@;
        let rr = lb.read(read_buff, max_bytes);
        let ghost p1 = lb.pending();
        handle.release_write(lb);
        proof {
            if rr.error is NoErr {
                let (fed, delivered) = choose|fed: Seq<u8>, delivered: Seq<u8>|
                    #![trigger p0 + fed, delivered + p1]
                    {
                        &&& p0 + fed == delivered + p1
                        &&& read_buff@ == out0 + delivered
                        &&& delivered.len() == rr.bytes_read as nat
                        &&& rr.bytes_read as nat <= max_bytes as nat
                        &&& (max_bytes as nat > 0 ==> rr.bytes_read as nat > 0)
                    };
                assert(read_buff@.take(out0.len() as int) =~= out0);
            }
        }
        rr
    }

    /// Reads one line under the shared read lock: consumes bytes up to
    /// and including the line terminator (a line feed, optionally
    /// preceded by a carriage return) and appends the content with the
    /// terminator stripped — the content never contains a line feed. The
    /// count is the raw number of bytes consumed, terminator included; a
    /// stream that ends without a terminator yields its remaining bytes
    /// as one unterminated line, possibly none. On an error nothing is
    /// appended and the same call may be reissued without losing bytes.
    pub fn read_line(&mut self, read_buff: &mut Vec<u8>) -> (r: ReadResult)
        requires
            old(self).wf(),
        ensures
            final(self).wf(),
            !(r.error is PortIOErr),
            r.error is NoErr ==> exists|raw: Seq<u8>|
                {
                    &&& line_shaped(raw)
                    &&& raw.len() == r.bytes_read
                    &&& final(read_buff)@ == old(read_buff)@ + #[trigger] strip_terminator(raw)
                },
            r.error is NoErr ==> forall|i: int|
                old(read_buff)@.len() <= i < final(read_buff)@.len() ==> final(read_buff)@[i]
                    != LINE_FEED,
            !(r.error is NoErr) ==> final(read_buff)@ == old(read_buff)@ && r.bytes_read == 0,
            final(self).written() == old(self).written(),
            final(self).read_side() == old(self).read_side(),
            final(self).write_side() == old(self).write_side(),
            final(self).stream_of() == old(self).stream_of(),
    {
        let (mut lb, handle) = self.read_stream.acquire_write();
        let ghost p0 = lb.pending();
        let ghost out0 = read_buff@;
        let rr = lb.read_line(read_buff);
        let ghost p1 = lb.pending();
        handle.release_write(lb);
        proof {
            if rr.error is NoErr {
                let (fed, raw) = choose|fed: Seq<u8>, raw: Seq<u8>|
                    #![trigger p0 + fed, raw + p1]
                    {
                        &&& p0 + fed == raw + p1
                        &&& line_shaped(raw)
                        &&& raw.len() == rr.bytes_read as nat
                        &&& read_buff@ == out0 + strip_terminator(raw)
                    };
                crate::line::lemma_line_has_no_terminator(raw);
                assert(read_buff@ == out0 + strip_terminator(raw));
            }
        }
        rr
    }

    /// Sets the per-call timeout, in milliseconds, on both sides of the
    /// port. Locks the read-settings handle, then the write handle — the
    /// fixed order every settings change uses — applies the value to each
    /// independently duplicated handle, and reports true only if both
    /// sides accepted it. On false the two sides may now disagree; no
    /// rollback is attempted, and each side's record shows what it
    /// accepted.
    pub fn set_timeout(&mut self, timeout_ms: u64) -> (r: bool)
        requires
            old(self).wf(),
        ensures
            final(self).wf(),
            final(self).read_side() == old(self).read_side().with_timeout_ms(timeout_ms)
                || final(self).read_side() == old(self).read_side(),
            final(self).write_side() == old(self).write_side().with_timeout_ms(timeout_ms)
                || final(self).write_side() == old(self).write_side(),
            r ==> final(self).read_side() == old(self).read_side().with_timeout_ms(timeout_ms)
                && final(self).write_side() == old(self).write_side().with_timeout_ms(
                timeout_ms,
            ),
            !r ==> final(self).read_side() == old(self).read_side() || final(self).write_side()
                == old(self).write_side(),
            final(self).written() == old(self).written(),
            final(self).stream_of() == old(self).stream_of(),
    {
        let (mut rd, rh) = self.read_settings.acquire_write();
        let (mut wd, wh) = self.write_dev.acquire_write();
        let read_ok = dev_set_timeout(&mut rd, timeout_ms);
        let write_ok = dev_set_timeout(&mut wd, timeout_ms);
        wh.release_write(wd);
        rh.release_write(rd);
        if read_ok {
            self.read_cfg = Ghost(self.read_cfg@.with_timeout_ms(timeout_ms));
        }
        if write_ok {
            self.write_cfg = Ghost(self.write_cfg@.with_timeout_ms(timeout_ms));
        }
        read_ok && write_ok
    }

    /// Sets the character size on both sides; the same locking order and
    /// both-or-reported contract as [`Serial::set_timeout`].
    pub fn set_data_size(&mut self, bits: CharSize) -> (r: bool)
        requires
            old(self).wf(),
        ensures
            final(self).wf(),
            final(self).read_side() == old(self).read_side().with_char_size(bits) || final(self).read_side() == old(self).read_side(),
            final(self).write_side() == old(self).write_side().with_char_size(bits) || final(self).write_side() == old(self).write_side(),
            r ==> final(self).read_side() == old(self).read_side().with_char_size(bits) && final(self).write_side() == old(self).write_side().with_char_size(bits),
            !r ==> final(self).read_side() == old(self).read_side() || final(self).write_side()
                == old(self).write_side(),
            final(self).written() == old(self).written(),
            final(self).stream_of() == old(self).stream_of(),
    {
        let (mut rd, rh) = self.read_settings.acquire_write();
        let (mut wd, wh) = self.write_dev.acquire_write();
        let read_ok = dev_set_data_bits(&mut rd, bits);
        let write_ok = dev_set_data_bits(&mut wd, bits);
        wh.release_write(wd);
        rh.release_write(rd);
        if read_ok {
            self.read_cfg = Ghost(self.read_cfg@.with_char_size(bits));
        }
        if write_ok {
            self.write_cfg = Ghost(self.write_cfg@.with_char_size(bits));
        }
        read_ok && write_ok
    }

    /// Sets the baud rate on both sides; the same locking order and
    /// both-or-reported contract as [`Serial::set_timeout`].
    pub fn set_baud_rate(&mut self, baud: u32) -> (r: bool)
        requires
            old(self).wf(),
        ensures
            final(self).wf(),
            final(self).read_side() == old(self).read_side().with_baud(baud) || final(self).read_side() == old(self).read_side(),
            final(self).write_side() == old(self).write_side().with_baud(baud) || final(self).write_side() == old(self).write_side(),
            r ==> final(self).read_side() == old(self).read_side().with_baud(baud) && final(self).write_side() == old(self).write_side().with_baud(baud),
            !r ==> final(self).read_side() == old(self).read_side() || final(self).write_side()
                == old(self).write_side(),
            final(self).written() == old(self).written(),
            final(self).stream_of() == old(self).stream_of(),
    {
        let (mut rd, rh) = self.read_settings.acquire_write();
        let (mut wd, wh) = self.write_dev.acquire_write();
        let read_ok = dev_set_baud_rate(&mut rd, baud);
        let write_ok = dev_set_baud_rate(&mut wd, baud);
        wh.release_write(wd);
        rh.release_write(rd);
        if read_ok {
            self.read_cfg = Ghost(self.read_cfg@.with_baud(baud));
        }
        if write_ok {
            self.write_cfg = Ghost(self.write_cfg@.with_baud(baud));
        }
        read_ok && write_ok
    }

    /// Sets the number of stop bits — true for two, false for one — on
    /// both sides; the same locking order and both-or-reported contract
    /// as [`Serial::set_timeout`].
    pub fn set_stop_bits(&mut self, two_bits: bool) -> (r: bool)
        requires
            old(self).wf(),
        ensures
            final(self).wf(),
            final(self).read_side() == old(self).read_side().with_two_stop_bits(two_bits)
                || final(self).read_side() == old(self).read_side(),
            final(self).write_side() == old(self).write_side().with_two_stop_bits(two_bits)
                || final(self).write_side() == old(self).write_side(),
            r ==> final(self).read_side() == old(self).read_side().with_two_stop_bits(two_bits)
                && final(self).write_side() == old(self).write_side().with_two_stop_bits(
                two_bits,
            ),
            !r ==> final(self).read_side() == old(self).read_side() || final(self).write_side()
                == old(self).write_side(),
            final(self).written() == old(self).written(),
            final(self).stream_of() == old(self).stream_of(),
    {
        let (mut rd, rh) = self.read_settings.acquire_write();
        let (mut wd, wh) = self.write_dev.acquire_write();
        let read_ok = dev_set_stop_bits(&mut rd, two_bits);
        let write_ok = dev_set_stop_bits(&mut wd, two_bits);
        wh.release_write(wd);
        rh.release_write(rd);
        if read_ok {
            self.read_cfg = Ghost(self.read_cfg@.with_two_stop_bits(two_bits));
        }
        if write_ok {
            self.write_cfg = Ghost(self.write_cfg@.with_two_stop_bits(two_bits));
        }
        read_ok && write_ok
    }

    /// Sets the parity-checking mode on both sides; the same locking
    /// order and both-or-reported contract as [`Serial::set_timeout`].
    pub fn set_parity(&mut self, mode: Parity) -> (r: bool)
        requires
            old(self).wf(),
        ensures
            final(self).wf(),
            final(self).read_side() == old(self).read_side().with_parity(mode) || final(self).read_side() == old(self).read_side(),
            final(self).write_side() == old(self).write_side().with_parity(mode) || final(self).write_side() == old(self).write_side(),
            r ==> final(self).read_side() == old(self).read_side().with_parity(mode) && final(self).write_side() == old(self).write_side().with_parity(mode),
            !r ==> final(self).read_side() == old(self).read_side() || final(self).write_side()
                == old(self).write_side(),
            final(self).written() == old(self).written(),
            final(self).stream_of() == old(self).stream_of(),
    {
        let (mut rd, rh) = self.read_settings.acquire_write();
        let (mut wd, wh) = self.write_dev.acquire_write();
        let read_ok = dev_set_parity(&mut rd, mode);
        let write_ok = dev_set_parity(&mut wd, mode);
        wh.release_write(wd);
        rh.release_write(rd);
        if read_ok {
            self.read_cfg = Ghost(self.read_cfg@.with_parity(mode));
        }
        if write_ok {
            self.write_cfg = Ghost(self.write_cfg@.with_parity(mode));
        }
        read_ok && write_ok
    }

    /// Sets the flow-control mode on both sides; the same locking order
    /// and both-or-reported contract as [`Serial::set_timeout`].
    pub fn set_flow_control(&mut self, mode: FlowControl) -> (r: bool)
        requires
            old(self).wf(),
        ensures
            final(self).wf(),
            final(self).read_side() == old(self).read_side().with_flow_control(mode) || final(self).read_side() == old(self).read_side(),
            final(self).write_side() == old(self).write_side().with_flow_control(mode) || final(self).write_side() == old(self).write_side(),
            r ==> final(self).read_side() == old(self).read_side().with_flow_control(mode)
                && final(self).write_side() == old(self).write_side().with_flow_control(mode),
            !r ==> final(self).read_side() == old(self).read_side() || final(self).write_side()
                == old(self).write_side(),
            final(self).written() == old(self).written(),
            final(self).stream_of() == old(self).stream_of(),
    {
        let (mut rd, rh) = self.read_settings.acquire_write();
        let (mut wd, wh) = self.write_dev.acquire_write();
        let read_ok = dev_set_flow_control(&mut rd, mode);
        let write_ok = dev_set_flow_control(&mut wd, mode);
        wh.release_write(wd);
        rh.release_write(rd);
        if read_ok {
            self.read_cfg = Ghost(self.read_cfg@.with_flow_control(mode));
        }
        if write_ok {
            self.write_cfg = Ghost(self.write_cfg@.with_flow_control(mode));
        }
        read_ok && write_ok
    }

    /// Creates a builder for a listener on this port. The builder
    /// captures a new shared reference to the facade's existing read
    /// stream — no new device handle is created — so this always
    /// succeeds; the listener will see all settings changes, past and
    /// future, made through this facade's read side.
    pub fn create_listener_builder<C>(&self) -> (r: Result<
        SerialListenerBuilder<C>,
        DeviceError,
    >)
        requires
            self.wf(),
        ensures
            (r matches Ok(b) ==> {
                &&& b.wf()
                &&& b.reader_of() == Some(self.stream_of())
                &&& b.callback_of() is None
            }),
            r is Ok,
    {
        proof {
            assert((*self.read_stream).pred() == stream_inv(self.read_settings));
        }
        Ok(SerialListenerBuilder::from_stream(self.read_stream.clone()))
    }
}

/// Attempts to open the serial device at `path` with the given baud rate
/// and the default timeout.
pub fn open_port(path: &str, baud: u32) -> (r: Result<Box<Serial>, DeviceError>)
    ensures
        (r matches Ok(s) ==> {
            &&& s.wf()
            &&& s.written() == Seq::<u8>::empty()
            &&& s.read_side() == PortConfig::initial(baud, DEFAULT_TIMEOUT_MS)
            &&& s.write_side() == PortConfig::initial(baud, DEFAULT_TIMEOUT_MS)
        }),
{
    match Serial::new(path, baud) {
        Ok(s) => Ok(Box::new(s)),
        Err(e) => Err(e),
    }
}

} // verus!
