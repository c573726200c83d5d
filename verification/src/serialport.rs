//! Exclusive handle on a POSIX serial device: open/close, blocking reads
//! and writes, and flushing of the input queue.
//!
//! The device calls themselves go through the `nix` crate and are trusted
//! at their interface; everything that decides — which call runs when,
//! how partial results and errors are surfaced — is verified here.  What a
//! read returns depends on the wire, so nothing is assumed about the bytes
//! beyond the ranges they may occupy.

use vstd::prelude::*;

use nix::fcntl::{FcntlArg, OFlag};
use nix::sys::stat::Mode;
use nix::sys::termios::{BaudRate, ControlFlags, FlushArg, SetArg, SpecialCharacterIndices, Termios};

verus! {

#[verifier::external_type_specification]
#[verifier::external_body]
pub struct ExTermios(Termios);

#[verifier::external_type_specification]
#[verifier::external_body]
pub struct ExBaudRate(BaudRate);

/// The kinds of failure the device handle can surface.
#[derive(Clone, Copy, Debug, PartialEq, Eq, Structural)]
pub enum ErrorKind {
    /// The handle is not usable for the requested operation.
    Unknown,
    /// The operation needs an open device, and the handle is closed.
    PortClosed,
    /// The OS refused the call; the payload is the errno value.
    Errno(i32),
}

/// A device failure: its kind and a free-text diagnostic.
#[derive(Debug)]
pub struct Error {
    kind: ErrorKind,
    description: String,
}

impl Error {
    /// The kind, for specifications.
    pub closed spec fn spec_kind(&self) -> ErrorKind {
        self.kind
    }

    /// The diagnostic text, for specifications.
    pub closed spec fn spec_desc(&self) -> Seq<char> {
        self.description@
    }

    /// Pack a kind and a diagnostic into an error value.
    pub fn new(kind: ErrorKind, description: &str) -> (e: Error)
        ensures
            e.spec_kind() == kind,
            e.spec_desc() == description@,
    {
        Error { kind, description: description.to_owned() }
    }

    /// Kind of error.
    pub fn kind(&self) -> (k: &ErrorKind)
        ensures
            *k == self.spec_kind(),
    {
        &self.kind
    }

    /// Long description of the error.
    pub fn desc(&self) -> (d: &String)
        ensures
            d@ == self.spec_desc(),
    {
        &self.description
    }
}

pub type Result<T> = core::result::Result<T, Error>;

/// Relies on nix::fcntl::open: opens the named device for reading and
/// writing, without making it the controlling terminal, returning its
/// file descriptor (non-negative) or the errno value.
#[verifier::external_body]
fn sys_open(path: &str) -> (r: core::result::Result<i32, i32>)
    ensures
        r matches Ok(fd) ==> fd >= 0,
{
    match nix::fcntl::open(
        std::path::Path::new(path),
        OFlag::O_NOCTTY | OFlag::O_RDWR | OFlag::O_NONBLOCK,
        Mode::empty(),
    ) {
        Ok(fd) => Ok(fd),
        Err(e) => Err(e as i32),
    }
}

/// Relies on nix::sys::termios::tcgetattr: reads the device's current
/// terminal settings.
#[verifier::external_body]
fn sys_tcgetattr(fd: i32) -> (r: core::result::Result<Termios, i32>)
{
    match nix::sys::termios::tcgetattr(fd) {
        Ok(t) => Ok(t),
        Err(e) => Err(e as i32),
    }
}

/// Relies on nix::sys::termios::cfmakeraw: switches the settings to raw
/// mode (no echo, no line editing, no flow control, 8-bit characters).
#[verifier::external_body]
fn sys_cfmakeraw(t: &mut Termios) {
    nix::sys::termios::cfmakeraw(t);
}

/// Relies on the field layout of nix's Termios: enables the receiver and
/// ignores modem control lines, with one stop bit and no hardware flow
/// control.
#[verifier::external_body]
fn sys_receiver_mode(t: &mut Termios) {
    t.control_flags |= ControlFlags::CREAD | ControlFlags::CLOCAL;
    t.control_flags &= !(ControlFlags::CRTSCTS | ControlFlags::CSTOPB);
}

/// Relies on the field layout of nix's Termios: stores the VMIN and
/// VTIME control characters, which govern how long a blocking read waits
/// (VTIME counts deciseconds).
#[verifier::external_body]
fn sys_read_timing(t: &mut Termios, vmin: u8, vtime: u8) {
    t.control_chars[SpecialCharacterIndices::VMIN as usize] = vmin;
    t.control_chars[SpecialCharacterIndices::VTIME as usize] = vtime;
}

/// Relies on nix::sys::termios::cfsetspeed: stores the input and output
/// baud rate in the settings.
#[verifier::external_body]
fn sys_cfsetspeed(t: &mut Termios, baud: &BaudRate) -> (r: core::result::Result<(), i32>)
{
    match nix::sys::termios::cfsetspeed(t, *baud) {
        Ok(()) => Ok(()),
        Err(e) => Err(e as i32),
    }
}

/// Relies on nix::sys::termios::tcsetattr: applies the settings to the
/// device immediately.
#[verifier::external_body]
fn sys_tcsetattr(fd: i32, t: &Termios) -> (r: core::result::Result<(), i32>)
{
    match nix::sys::termios::tcsetattr(fd, SetArg::TCSANOW, t) {
        Ok(()) => Ok(()),
        Err(e) => Err(e as i32),
    }
}

/// Relies on nix::fcntl::fcntl: clears the descriptor's status flags, so
/// reads block (with the configured timing) instead of failing at once.
#[verifier::external_body]
fn sys_clear_nonblock(fd: i32) -> (r: core::result::Result<(), i32>)
{
    match nix::fcntl::fcntl(fd, FcntlArg::F_SETFL(OFlag::empty())) {
        Ok(_) => Ok(()),
        Err(e) => Err(e as i32),
    }
}

/// Relies on nix::unistd::read: reads at most `end - start` bytes into
/// `buf[start..end]`, returning how many arrived (0 on timeout or end of
/// input).  The borrow it is handed keeps every byte outside that range
/// unchanged; nothing is assumed about the bytes it does write.
#[verifier::external_body]
fn sys_read(fd: i32, buf: &mut Vec<u8>, start: usize, end: usize) -> (r: core::result::Result<
    usize,
    i32,
>)
    requires
        start <= end,
        end <= old(buf)@.len(),
    ensures
        final(buf)@.len() == old(buf)@.len(),
        forall|i: int|
            0 <= i < final(buf)@.len() && !(start <= i < end) ==> final(buf)@[i] == old(buf)@[i],
        r matches Ok(n) ==> n <= end - start,
{
    match nix::unistd::read(fd, &mut buf[start..end]) {
        Ok(n) => Ok(n),
        Err(e) => Err(e as i32),
    }
}

/// Relies on nix::unistd::write: writes the buffer to the device,
/// returning how many of its bytes were accepted.
#[verifier::external_body]
fn sys_write(fd: i32, buf: &[u8]) -> (r: core::result::Result<usize, i32>)
    ensures
        r matches Ok(n) ==> n <= buf@.len(),
{
    match nix::unistd::write(fd, buf) {
        Ok(n) => Ok(n),
        Err(e) => Err(e as i32),
    }
}

/// Relies on nix::unistd::close: closes the descriptor.
#[verifier::external_body]
fn sys_close(fd: i32) -> (r: core::result::Result<(), i32>)
{
    match nix::unistd::close(fd) {
        Ok(()) => Ok(()),
        Err(e) => Err(e as i32),
    }
}

/// Relies on nix::sys::termios::tcflush: discards input that has arrived
/// but not been read.
#[verifier::external_body]
fn sys_tcflush(fd: i32) -> (r: core::result::Result<(), i32>)
{
    match nix::sys::termios::tcflush(fd, FlushArg::TCIFLUSH) {
        Ok(()) => Ok(()),
        Err(e) => Err(e as i32),
    }
}

/// An exclusively owned serial device handle.
///
/// A handle made with [`SerialPort::new`] starts closed and configures
/// the named device when opened; one adopted with
/// [`SerialPort::from_fd`] wraps a descriptor that is already open and
/// configured.
pub struct SerialPort {
    fd: Option<i32>,
    path: String,
    baud: Option<BaudRate>,
    timeout_ds: u8,
}

impl SerialPort {
    /// Whether the handle currently holds an open descriptor.
    pub closed spec fn is_open(&self) -> bool {
        self.fd is Some
    }

    /// The configured device path, for specifications.
    pub closed spec fn spec_path(&self) -> Seq<char> {
        self.path@
    }

    /// A closed handle on the named device, to be configured at `baud`
    /// with the given per-read timeout (in deciseconds) when opened.
    pub fn new(path: &str, baud: BaudRate, timeout_ds: u8) -> (p: SerialPort)
        ensures
            !p.is_open(),
            p.spec_path() == path@,
    {
        SerialPort { fd: None, path: path.to_owned(), baud: Some(baud), timeout_ds }
    }

    /// Adopt a descriptor that is already open and configured.
    pub fn from_fd(fd: i32) -> (p: SerialPort)
        ensures
            p.is_open(),
    {
        SerialPort { fd: Some(fd), path: String::new(), baud: None, timeout_ds: 0 }
    }

    /// Open the serial port.
    ///
    /// Opens the device and puts it in raw mode at the configured baud
    /// rate, reads returning within the configured timeout.  A handle
    /// that is already open is left as it is; one adopted without a
    /// configured rate cannot be re-opened.
    pub fn open(&mut self) -> (r: Result<()>)
        ensures
            r is Ok ==> final(self).is_open(),
            r is Err ==> *final(self) == *old(self),
            r matches Err(e) ==> (e.spec_kind() is Errno || e.spec_kind() is Unknown),
            final(self).spec_path() == old(self).spec_path(),
    {
        if self.fd.is_some() {
            return Ok(());
        }
        let baud = match &self.baud {
            Some(b) => b,
            None => {
                return Err(Error::new(ErrorKind::Unknown, "no baud rate configured"));
            },
        };
        let fd = match sys_open(self.path.as_str()) {
            Ok(fd) => fd,
            Err(en) => {
                return Err(Error::new(ErrorKind::Errno(en), "could not open serial device"));
            },
        };
        let mut settings = match sys_tcgetattr(fd) {
            Ok(t) => t,
            Err(en) => {
                return Err(Error::new(ErrorKind::Errno(en), "could not read device settings"));
            },
        };
        sys_cfmakeraw(&mut settings);
        sys_receiver_mode(&mut settings);
        sys_read_timing(&mut settings, 0, self.timeout_ds);
        if let Err(en) = sys_cfsetspeed(&mut settings, baud) {
            return Err(Error::new(ErrorKind::Errno(en), "could not set baud rate"));
        }
        if let Err(en) = sys_tcsetattr(fd, &settings) {
            return Err(Error::new(ErrorKind::Errno(en), "could not apply device settings"));
        }
        if let Err(en) = sys_clear_nonblock(fd) {
            return Err(Error::new(ErrorKind::Errno(en), "could not clear non-blocking mode"));
        }
        self.fd = Some(fd);
        Ok(())
    }

    /// Read bytes from the serial port into `buf[start..end]`, returning
    /// how many arrived (possibly fewer than asked for, and 0 when the
    /// device's read timeout passes with nothing available).  Bytes
    /// outside the range are untouched.
    pub fn read_range(&self, buf: &mut Vec<u8>, start: usize, end: usize) -> (r: Result<usize>)
        requires
            start <= end,
            end <= old(buf)@.len(),
        ensures
            final(buf)@.len() == old(buf)@.len(),
            forall|i: int|
                0 <= i < final(buf)@.len() && !(start <= i < end) ==> final(buf)@[i] == old(
                    buf,
                )@[i],
            r matches Ok(n) ==> n <= end - start,
            !self.is_open() ==> (r matches Err(e) && e.spec_kind() is PortClosed),
            r matches Err(e) ==> (e.spec_kind() is PortClosed || e.spec_kind() is Errno),
    {
        match self.fd {
            Some(fd) => match sys_read(fd, buf, start, end) {
                Ok(n) => Ok(n),
                Err(en) => Err(Error::new(ErrorKind::Errno(en), "device read failed")),
            },
            None => Err(Error::new(ErrorKind::PortClosed, "Serial port is not open")),
        }
    }

    /// Write bytes from `arr` to the open serial port, returning how
    /// many of them the device accepted.
    pub fn write(&self, arr: &[u8]) -> (r: Result<usize>)
        ensures
            r matches Ok(n) ==> n <= arr@.len(),
            !self.is_open() ==> (r matches Err(e) && e.spec_kind() is PortClosed),
            r matches Err(e) ==> (e.spec_kind() is PortClosed || e.spec_kind() is Errno),
    {
        match self.fd {
            Some(fd) => match sys_write(fd, arr) {
                Ok(n) => Ok(n),
                Err(en) => Err(Error::new(ErrorKind::Errno(en), "device write failed")),
            },
            None => Err(Error::new(ErrorKind::PortClosed, "Serial port is not open")),
        }
    }

    /// Close the serial port.  The handle is closed afterwards whatever
    /// the outcome; closing an already-closed handle fails.
    pub fn close(&mut self) -> (r: Result<()>)
        ensures
            !final(self).is_open(),
            !old(self).is_open() ==> (r matches Err(e) && e.spec_kind() is PortClosed),
            r matches Err(e) ==> (e.spec_kind() is PortClosed || e.spec_kind() is Errno),
    {
        match self.fd {
            Some(fd) => {
                self.fd = None;
                match sys_close(fd) {
                    Ok(()) => Ok(()),
                    Err(en) => Err(Error::new(ErrorKind::Errno(en), "device close failed")),
                }
            },
            None => Err(Error::new(ErrorKind::PortClosed, "Serial port is not open")),
        }
    }

    /// Discard whatever has arrived on the device but not been read.
    pub fn flush(&self) -> (r: Result<()>)
        ensures
            !self.is_open() ==> (r matches Err(e) && e.spec_kind() is PortClosed),
            r matches Err(e) ==> (e.spec_kind() is PortClosed || e.spec_kind() is Errno),
    {
        match self.fd {
            Some(fd) => match sys_tcflush(fd) {
                Ok(()) => Ok(()),
                Err(en) => Err(Error::new(ErrorKind::Errno(en), "device flush failed")),
            },
            None => Err(Error::new(ErrorKind::PortClosed, "Serial port is not open")),
        }
    }
}

} // verus!
