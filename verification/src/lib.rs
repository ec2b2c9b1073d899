//! A thread-safe facade over a full-duplex serial port.
//!
//! One physical device is exposed through two independently locked handles:
//! an exclusive write handle and a shared, buffered read handle. Device
//! configuration changes are mirrored to both sides. A cancellable
//! background listener can take the read side for its whole lifetime and
//! deliver lines through a caller-supplied callback.

pub mod cancel;
pub mod config;
pub mod device;
pub mod errors;
pub mod facade;
pub mod laws;
pub mod line;
pub mod linebuf;
pub mod listener;

pub use config::{CharSize, FlowControl, Parity};
pub use errors::{BuildError, DeviceError, DeviceErrorKind, IoFailure, ReadResult, SerialError};
pub use facade::{open_port, Serial, DEFAULT_TIMEOUT_MS};
pub use listener::{
    add_read_callback, LineSink, ListenerPhase, ListenerTask, SerialListener,
    SerialListenerBuilder,
};
