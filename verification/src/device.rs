//! The opaque device capability and the trusted boundary around it.
//!
//! Everything the facade knows of the physical port goes through the
//! wrappers here. Each wrapper makes one call into the serial-port driver
//! crate; its contract states only what that crate's source shows, and
//! nothing about the bytes a device chooses to deliver.

use vstd::prelude::*;

use crate::config::{CharSize, FlowControl, Parity};
use crate::errors::{DeviceError, DeviceErrorKind, IoFailure};

verus! {

/// The error type of the serial-port driver crate, carried opaquely.
#[verifier::external_type_specification]
#[verifier::external_body]
pub struct ExPortError(serialport::Error);

/// An open handle to one serial device.
///
/// Relies on the `serialport` crate: the handle is a `Box<dyn SerialPort>`,
/// which Verus cannot hold directly, so the whole struct is opaque. It
/// sits in a mutex only so duplicates can be shared across threads; every
/// access comes through the verified lock around the `Device`, so this
/// inner mutex is never contended. Duplicating the handle yields an
/// independent handle to the same physical port; configuration changes
/// made through one duplicate are not automatically visible through
/// another.
#[verifier::external_body]
pub struct Device {
    inner: parking_lot::Mutex<std::boxed::Box<dyn serialport::SerialPort>>,
}

/// Relies on `serialport::new`, `SerialPortBuilder::timeout` and
/// `SerialPortBuilder::open`: opens the device at `path` with the given
/// baud rate and per-call timeout.
#[verifier::external_body]
pub(crate) fn open_device(path: &str, baud: u32, timeout_ms: u64) -> (r: Result<
    Device,
    serialport::Error,
>) {
    let builder = serialport::new(path, baud).timeout(
        std::time::Duration::from_millis(timeout_ms),
    );
    match builder.open() {
        Ok(port) => Ok(Device { inner: parking_lot::Mutex::new(port) }),
        Err(e) => Err(e),
    }
}

/// Relies on `serialport::SerialPort::try_clone`: duplicates the handle;
/// both handles then share the same underlying device.
#[verifier::external_body]
pub(crate) fn try_clone_device(dev: &Device) -> (r: Result<Device, serialport::Error>) {
    match dev.inner.lock().try_clone() {
        Ok(port) => Ok(Device { inner: parking_lot::Mutex::new(port) }),
        Err(e) => Err(e),
    }
}

/// Relies on `serialport::Error`'s public fields `kind` and `description`:
/// carries the driver's construction-time failure into the library's own
/// error type, one variant for one variant.
#[verifier::external_body]
pub(crate) fn port_error_to_device_error(e: serialport::Error) -> (r: DeviceError) {
    let kind = match e.kind {
        serialport::ErrorKind::NoDevice => DeviceErrorKind::NoDevice,
        serialport::ErrorKind::InvalidInput => DeviceErrorKind::InvalidInput,
        serialport::ErrorKind::Unknown => DeviceErrorKind::Unknown,
        serialport::ErrorKind::Io(k) => DeviceErrorKind::Io(match k {
            std::io::ErrorKind::Interrupted => IoFailure::Interrupted,
            std::io::ErrorKind::TimedOut => IoFailure::TimedOut,
            _ => IoFailure::Other,
        }),
    };
    DeviceError { kind, description: e.description }
}

/// Relies on `std::io::Write::write_all` on the driver's handle: `Ok`
/// means the entire buffer was handed to the device; an empty buffer
/// always succeeds, as the default implementation, which the driver does
/// not override, never calls `write` for it; on `Err` the failure kind is
/// carried over, one variant for one variant.
#[verifier::external_body]
pub(crate) fn dev_write_all(dev: &mut Device, data: &[u8]) -> (r: Result<(), IoFailure>)
    ensures
        data@.len() == 0 ==> r is Ok,
{
    match dev.inner.lock().write_all(data) {
        Ok(()) => Ok(()),
        Err(e) => Err(match e.kind() {
            std::io::ErrorKind::Interrupted => IoFailure::Interrupted,
            std::io::ErrorKind::TimedOut => IoFailure::TimedOut,
            _ => IoFailure::Other,
        }),
    }
}

/// Relies on `std::io::Read::read` on the driver's handle: one bounded
/// read that delivers at most `max` bytes; zero bytes signals the end of
/// the stream.
#[verifier::external_body]
pub(crate) fn dev_read_chunk(dev: &mut Device, max: usize) -> (r: Result<Vec<u8>, IoFailure>)
    ensures
        (r matches Ok(v) ==> v@.len() <= max),
{
    let mut tmp = vec![0u8; max];
    match dev.inner.lock().read(&mut tmp) {
        Ok(n) => {
            tmp.truncate(n);
            Ok(tmp)
        },
        Err(e) => Err(match e.kind() {
            std::io::ErrorKind::Interrupted => IoFailure::Interrupted,
            std::io::ErrorKind::TimedOut => IoFailure::TimedOut,
            _ => IoFailure::Other,
        }),
    }
}

/// Relies on `serialport::SerialPort::set_timeout`: returns whether this
/// handle accepted the new per-call timeout.
#[verifier::external_body]
pub(crate) fn dev_set_timeout(dev: &mut Device, timeout_ms: u64) -> (r: bool) {
    dev.inner.lock().set_timeout(std::time::Duration::from_millis(timeout_ms)).is_ok()
}

/// Relies on `serialport::SerialPort::set_data_bits`: returns whether this
/// handle accepted the new character size.
#[verifier::external_body]
pub(crate) fn dev_set_data_bits(dev: &mut Device, bits: CharSize) -> (r: bool) {
    dev.inner.lock().set_data_bits(match bits {
        CharSize::Five => serialport::DataBits::Five,
        CharSize::Six => serialport::DataBits::Six,
        CharSize::Seven => serialport::DataBits::Seven,
        CharSize::Eight => serialport::DataBits::Eight,
    }).is_ok()
}

/// Relies on `serialport::SerialPort::set_baud_rate`: returns whether this
/// handle accepted the new baud rate.
#[verifier::external_body]
pub(crate) fn dev_set_baud_rate(dev: &mut Device, baud: u32) -> (r: bool) {
    dev.inner.lock().set_baud_rate(baud).is_ok()
}

/// Relies on `serialport::SerialPort::set_stop_bits`: returns whether this
/// handle accepted the new stop-bit count.
#[verifier::external_body]
pub(crate) fn dev_set_stop_bits(dev: &mut Device, two_bits: bool) -> (r: bool) {
    dev.inner.lock().set_stop_bits(if two_bits {
        serialport::StopBits::Two
    } else {
        serialport::StopBits::One
    }).is_ok()
}

/// Relies on `serialport::SerialPort::set_parity`: returns whether this
/// handle accepted the new parity mode.
#[verifier::external_body]
pub(crate) fn dev_set_parity(dev: &mut Device, mode: Parity) -> (r: bool) {
    dev.inner.lock().set_parity(match mode {
        Parity::Even => serialport::Parity::Even,
        Parity::Odd => serialport::Parity::Odd,
        Parity::NoParity => serialport::Parity::None,
    }).is_ok()
}

/// Relies on `serialport::SerialPort::set_flow_control`: returns whether
/// this handle accepted the new flow-control mode.
#[verifier::external_body]
pub(crate) fn dev_set_flow_control(dev: &mut Device, mode: FlowControl) -> (r: bool) {
    dev.inner.lock().set_flow_control(match mode {
        FlowControl::Hardware => serialport::FlowControl::Hardware,
        FlowControl::Software => serialport::FlowControl::Software,
        FlowControl::NoFlowControl => serialport::FlowControl::None,
    }).is_ok()
}

} // verus!
