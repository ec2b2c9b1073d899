//! End-to-end behavior over a pseudo-terminal pair: the slave side is
//! opened through the facade, the master side plays the device's peer.

use std::io::{Read, Write};

use serialguard::{
    add_read_callback, BuildError, CharSize, FlowControl, LineSink, Parity, Serial, SerialError,
};
use serialport::{SerialPort, TTYPort};

/// Opens a facade over the slave end of a fresh pseudo-terminal pair and
/// returns it with the master end.
fn open_pair() -> (TTYPort, Serial) {
    let (master, slave) = TTYPort::pair().expect("pseudo-terminal pair");
    let path = slave.name().expect("slave path");
    drop(slave);
    let serial = Serial::new(&path, 9600).expect("open facade over slave");
    (master, serial)
}

#[derive(Clone)]
struct RecordingSink {
    lines: Vec<Vec<u8>>,
}

impl LineSink for RecordingSink {
    fn on_line(&mut self, line: &[u8]) {
        self.lines.push(line.to_vec());
    }
}

#[test]
fn open_fails_on_missing_device() {
    let r = Serial::new("/this/path/does/not/exist", 9600);
    assert!(r.is_err());
}

#[test]
fn write_reaches_the_device() {
    let (mut master, mut serial) = open_pair();
    assert_eq!(serial.write(b"ping"), SerialError::NoErr);
    let mut buf = [0u8; 16];
    let n = master.read(&mut buf).expect("read on master");
    assert_eq!(&buf[..n], b"ping");
}

#[test]
fn sequential_writes_arrive_whole_and_in_order() {
    let (mut master, mut serial) = open_pair();
    assert_eq!(serial.write(b"ab"), SerialError::NoErr);
    assert_eq!(serial.write(b"cd"), SerialError::NoErr);
    let mut buf = [0u8; 16];
    let mut got = Vec::new();
    while got.len() < 4 {
        let n = master.read(&mut buf).expect("read on master");
        got.extend_from_slice(&buf[..n]);
    }
    assert_eq!(got, b"abcd".to_vec());
}

#[test]
fn write_str_reaches_the_device() {
    let (mut master, mut serial) = open_pair();
    assert_eq!(serial.write_str("pong"), SerialError::NoErr);
    let mut buf = [0u8; 16];
    let n = master.read(&mut buf).expect("read on master");
    assert_eq!(&buf[..n], b"pong");
}

#[test]
fn round_trip_lines_strip_terminators() {
    let (mut master, mut serial) = open_pair();
    master.write_all(b"hello\nworld\r\n").expect("feed lines");
    let mut line = Vec::new();
    let r = serial.read_line(&mut line);
    assert_eq!(r.error, SerialError::NoErr);
    assert_eq!(r.bytes_read, 6);
    assert_eq!(line, b"hello".to_vec());
    let mut line2 = Vec::new();
    let r2 = serial.read_line(&mut line2);
    assert_eq!(r2.error, SerialError::NoErr);
    assert_eq!(r2.bytes_read, 7);
    assert_eq!(line2, b"world".to_vec());
}

#[test]
fn read_is_bounded_and_keeps_the_rest() {
    let (mut master, mut serial) = open_pair();
    master.write_all(b"abcdef").expect("feed bytes");
    let mut buf = Vec::new();
    let r = serial.read(&mut buf, 4);
    assert_eq!(r.error, SerialError::NoErr);
    assert_eq!(r.bytes_read, 4);
    assert_eq!(buf, b"abcd".to_vec());
    let mut rest = Vec::new();
    let r2 = serial.read(&mut rest, 16);
    assert_eq!(r2.error, SerialError::NoErr);
    assert_eq!(r2.bytes_read, 2);
    assert_eq!(rest, b"ef".to_vec());
}

#[test]
fn zero_length_read_succeeds_with_zero_bytes() {
    let (_master, mut serial) = open_pair();
    let mut buf = Vec::new();
    let r = serial.read(&mut buf, 0);
    assert_eq!(r.error, SerialError::NoErr);
    assert_eq!(r.bytes_read, 0);
    assert!(buf.is_empty());
}

#[test]
fn read_times_out_when_nothing_arrives() {
    let (_master, mut serial) = open_pair();
    assert!(serial.set_timeout(100));
    let mut buf = Vec::new();
    let r = serial.read(&mut buf, 8);
    assert_eq!(r.error, SerialError::Timeout);
    assert_eq!(r.bytes_read, 0);
    assert!(buf.is_empty());
}

#[test]
fn settings_accepted_on_both_sides() {
    let (_master, mut serial) = open_pair();
    assert!(serial.set_timeout(250));
    assert!(serial.set_baud_rate(19200));
    assert!(serial.set_data_size(CharSize::Eight));
    assert!(serial.set_stop_bits(false));
    assert!(serial.set_parity(Parity::NoParity));
    assert!(serial.set_flow_control(FlowControl::NoFlowControl));
}

#[test]
fn build_without_callback_fails() {
    let (_master, serial) = open_pair();
    let mut builder = serial
        .create_listener_builder::<RecordingSink>()
        .expect("builder");
    let r = builder.build();
    assert!(matches!(r, Err(BuildError::CallbackMissing)));
}

#[test]
fn second_build_reports_spent_builder() {
    let (_master, serial) = open_pair();
    let mut builder = serial
        .create_listener_builder::<RecordingSink>()
        .expect("builder");
    assert!(add_read_callback(
        &mut builder,
        RecordingSink { lines: Vec::new() }
    ));
    let mut listener = builder.build().expect("first build succeeds");
    let second = builder.build();
    assert!(matches!(second, Err(BuildError::BuilderSpent)));
    // The first build's listener remains usable.
    let task = listener.listen();
    listener.stop();
    let sink = task.run(1);
    assert!(sink.lines.is_empty());
}

#[test]
fn listener_delivers_each_line_stripped() {
    let (mut master, mut serial) = open_pair();
    assert!(serial.set_timeout(100));
    master.write_all(b"one\ntwo\r\n").expect("feed lines");
    let mut builder = serial
        .create_listener_builder::<RecordingSink>()
        .expect("builder");
    assert!(add_read_callback(
        &mut builder,
        RecordingSink { lines: Vec::new() }
    ));
    let mut listener = builder.build().expect("build");
    let task = listener.listen();
    let sink = task.run(4);
    assert_eq!(sink.lines, vec![b"one".to_vec(), b"two".to_vec()]);
    listener.stop();
}

#[test]
fn stop_releases_the_read_side() {
    let (mut master, mut serial) = open_pair();
    assert!(serial.set_timeout(500));
    master.write_all(b"data\n").expect("feed line");
    let mut builder = serial
        .create_listener_builder::<RecordingSink>()
        .expect("builder");
    assert!(add_read_callback(
        &mut builder,
        RecordingSink { lines: Vec::new() }
    ));
    let mut listener = builder.build().expect("build");
    let task = listener.listen();
    listener.stop();
    // The task observes the token before reading anything and exits at
    // once, leaving the stream to direct readers.
    let sink = task.run(8);
    assert!(sink.lines.is_empty());
    let mut line = Vec::new();
    let r = serial.read_line(&mut line);
    assert_eq!(r.error, SerialError::NoErr);
    assert_eq!(line, b"data".to_vec());
}
