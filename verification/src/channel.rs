//! The channel: reliable request/response exchange over a serial link.
//!
//! Each payload is wrapped into a frame (see [`crate::frame`]) and
//! written to the device; the peer answers every data frame with a
//! 7-byte control frame — an acknowledgment when the frame arrived
//! intact, a failure signal naming what went wrong otherwise.  A
//! heartbeat control frame confirms, before normal exchange begins, that
//! the remote endpoint is up.
//!
//! Every operation runs its own bounded retry loop against the channel's
//! attempt budget.  Transient protocol trouble — a lost or corrupted
//! frame, a missing acknowledgment — is retried until the budget runs
//! out and only then surfaced; a transport failure is surfaced at once,
//! since retrying against a broken link cannot succeed.

use vstd::prelude::*;

use crate::frame::{
    make_control_frame, make_data_frame, parse_control_frame, parse_data_frame, ControlType,
    FrameError, FRAME_CTRL_SIZE, FRAME_SIZE_MAX, PAYLOAD_MAX,
};
use crate::serialport;
use crate::serialport::SerialPort;

verus! {

/// The kinds of failure a channel operation can surface.
#[derive(Clone, Copy, Debug, PartialEq, Eq, Structural)]
pub enum ErrorKind {
    /// The peer never acknowledged a sent data frame.
    NoAck,
    /// The liveness handshake brought no heartbeat reply.
    NoHeartBeat,
    /// A payload or frame exceeds the effective ceiling.
    Oversize,
    /// The retry budget ran out without a terminal success.
    MaxAttempts,
    /// The underlying device failed; the wrapped kind says how.
    SerialPort(serialport::ErrorKind),
    /// A received frame failed structural validation.
    InvalidFrame,
    /// A received frame failed the checksum comparison.
    CRCFail,
}

/// A channel failure: its kind and a free-text diagnostic.
#[derive(Debug)]
pub struct Error {
    kind: ErrorKind,
    description: String,
}

impl Error {
    /// The kind, for specifications.
    pub closed spec fn spec_kind(&self) -> ErrorKind {
        self.kind
    }

    /// The diagnostic text, for specifications.
    pub closed spec fn spec_desc(&self) -> Seq<char> {
        self.description@
    }

    /// Pack a kind and a diagnostic into an error value.
    fn new(kind: ErrorKind, description: &str) -> (e: Error)
        ensures
            e.spec_kind() == kind,
            e.spec_desc() == description@,
    {
        Error { kind, description: description.to_owned() }
    }

    /// Wrap a device failure, preserving its classification.
    fn from_serial(e: serialport::Error) -> (r: Error)
        ensures
            r.spec_kind() == ErrorKind::SerialPort(e.spec_kind()),
    {
        let kind = ErrorKind::SerialPort(*e.kind());
        Error { kind, description: e.desc().clone() }
    }

    /// Kind of error.
    pub fn kind(&self) -> (k: &ErrorKind)
        ensures
            *k == self.spec_kind(),
    {
        &self.kind
    }

    /// Long description of the error.
    pub fn desc(&self) -> (d: &String)
        ensures
            d@ == self.spec_desc(),
    {
        &self.description
    }
}

pub type Result<T> = core::result::Result<T, Error>;

/// A channel over one exclusively owned serial device, with a fixed
/// retry budget shared by all its operations.
pub struct Channel {
    port: SerialPort,
    num_attempts: u32,
}

impl Channel {
    /// The retry budget, for specifications.
    pub closed spec fn spec_num_attempts(&self) -> u32 {
        self.num_attempts
    }

    /// The owned device handle, for specifications.
    pub closed spec fn spec_port(&self) -> SerialPort {
        self.port
    }

    /// Create a new channel to the serial device.
    pub fn new(port: SerialPort, num_attempts: u32) -> (c: Channel)
        ensures
            c.spec_port() == port,
            c.spec_num_attempts() == num_attempts,
    {
        Channel { port, num_attempts }
    }

    /// Build and transmit one control frame, without awaiting a reply.
    fn send_ctrl_frame(&self, ctype: ControlType) -> (r: Result<()>)
        ensures
            r matches Err(e) ==> e.spec_kind() is SerialPort,
    {
        let frame = make_control_frame(ctype);
        match self.port.write(frame.as_slice()) {
            Ok(_) => Ok(()),
            Err(e) => Err(Error::from_serial(e)),
        }
    }

    /// A single, non-retried heartbeat transmission: a standalone
    /// liveness probe, distinct from the handshake loop in [`Self::open`].
    pub fn send_heartbeat(&self) -> (r: Result<()>)
        ensures
            r matches Err(e) ==> e.spec_kind() is SerialPort,
    {
        self.send_ctrl_frame(ControlType::Heartbeat)
    }

    /// Open the channel for communication.
    ///
    /// Opens the underlying device, then tries up to the attempt budget
    /// to establish liveness: each attempt sends one heartbeat control
    /// frame, tops up a 7-byte accumulation buffer from whatever has
    /// arrived (partial reads carry over between attempts), and flushes
    /// the input queue.  Success needs the accumulated 7 bytes to parse
    /// as a control frame carrying the heartbeat discriminant; anything
    /// less closes the device again and surfaces `NoHeartBeat`.
    #[verifier::loop_isolation(false)]
    pub fn open(&mut self) -> (r: Result<()>)
        ensures
            final(self).spec_num_attempts() == old(self).spec_num_attempts(),
            r is Ok ==> final(self).spec_port().is_open(),
            r matches Err(e) ==> (e.spec_kind() is NoHeartBeat || e.spec_kind() is SerialPort),
            r matches Err(e) && e.spec_kind() is NoHeartBeat ==> !final(self).spec_port().is_open(),
    {
        if let Err(e) = self.port.open() {
            return Err(Error::from_serial(e));
        }
        let budget = self.num_attempts;
        let mut n_attempts: u32 = 0;
        let mut n_bytes: usize = 0;
        let mut frame: Vec<u8> = vec![0u8; FRAME_CTRL_SIZE];
        while n_attempts < budget && n_bytes < FRAME_CTRL_SIZE
            invariant
                n_attempts <= budget,
                n_bytes <= FRAME_CTRL_SIZE,
                frame@.len() == FRAME_CTRL_SIZE,
                self.spec_port().is_open(),
                self.spec_num_attempts() == budget,
            decreases budget - n_attempts,
        {
            match self.send_ctrl_frame(ControlType::Heartbeat) {
                Ok(()) => (),
                Err(e) => {
                    return Err(e);
                },
            }
            match self.port.read_range(&mut frame, n_bytes, FRAME_CTRL_SIZE) {
                Ok(n) => {
                    n_bytes = n_bytes + n;
                },
                Err(_) => (),
            }
            n_attempts = n_attempts + 1;
            // Clear the input queue on each attempt.
            if let Err(e) = self.port.flush() {
                return Err(Error::from_serial(e));
            }
        }
        let confirmed = if n_bytes == FRAME_CTRL_SIZE {
            match parse_control_frame(frame.as_slice()) {
                Ok(ControlType::Heartbeat) => true,
                _ => false,
            }
        } else {
            false
        };
        if !confirmed {
            if let Err(e) = self.port.close() {
                return Err(Error::from_serial(e));
            }
            return Err(Error::new(ErrorKind::NoHeartBeat, "Failed to establish heartbeat"));
        }
        Ok(())
    }

    /// One delivery attempt: write the frame, then accumulate the 7-byte
    /// reply and require it to be a well-formed acknowledgment.
    ///
    /// A device failure is surfaced as such; a reply that never
    /// completes within the device timeout, or is anything other than an
    /// acknowledgment, is `NoAck` (flushing the input queue first, so
    /// stale bytes cannot desynchronise the next attempt).
    fn try_send(&self, frame: &[u8]) -> (r: Result<()>)
        ensures
            r matches Err(e) ==> (e.spec_kind() is NoAck || e.spec_kind() is SerialPort),
    {
        if let Err(e) = self.port.write(frame) {
            return Err(Error::from_serial(e));
        }
        let mut control: Vec<u8> = vec![0u8; FRAME_CTRL_SIZE];
        let mut nbytes: usize = 0;
        while nbytes < FRAME_CTRL_SIZE
            invariant
                nbytes <= FRAME_CTRL_SIZE,
                control@.len() == FRAME_CTRL_SIZE,
            decreases FRAME_CTRL_SIZE - nbytes,
        {
            match self.port.read_range(&mut control, nbytes, FRAME_CTRL_SIZE) {
                Ok(n) => {
                    if n == 0 {
                        if let Err(e) = self.port.flush() {
                            return Err(Error::from_serial(e));
                        }
                        return Err(Error::new(ErrorKind::NoAck, "no reply before timeout"));
                    }
                    nbytes = nbytes + n;
                },
                Err(e) => {
                    return Err(Error::from_serial(e));
                },
            }
        }
        let acked = match parse_control_frame(control.as_slice()) {
            Ok(ControlType::Ack) => true,
            _ => false,
        };
        if !acked {
            if let Err(e) = self.port.flush() {
                return Err(Error::from_serial(e));
            }
            return Err(Error::new(ErrorKind::NoAck, "ACK not recieved"));
        }
        Ok(())
    }

    /// Send the payload over the channel.
    ///
    /// A payload beyond the effective ceiling is rejected with
    /// `Oversize` before any device traffic.  Otherwise the data frame
    /// is delivered via [`Self::try_send`], retrying a missing
    /// acknowledgment up to the attempt budget: exhausting it surfaces
    /// `MaxAttempts`, while a device failure is surfaced at once.
    pub fn send(&self, payload: &[u8]) -> (r: Result<()>)
        ensures
            r is Ok ==> payload@.len() <= PAYLOAD_MAX,
            payload@.len() > PAYLOAD_MAX ==> (r matches Err(e) && e.spec_kind() is Oversize),
            r matches Err(e) && e.spec_kind() is Oversize ==> payload@.len() > PAYLOAD_MAX,
            r matches Err(e) ==> (e.spec_kind() is Oversize || e.spec_kind() is MaxAttempts
                || e.spec_kind() is SerialPort),
    {
        if payload.len() > PAYLOAD_MAX {
            return Err(
                Error::new(ErrorKind::Oversize, "Payload larger than maximum payload size"),
            );
        }
        let frame = make_data_frame(payload);
        // send and listen for ACK or NACK
        let budget = self.num_attempts;
        let mut n_attempts: u32 = 0;
        while n_attempts < budget
            invariant
                n_attempts <= budget,
                payload@.len() <= PAYLOAD_MAX,
            decreases budget - n_attempts,
        {
            match self.try_send(frame.as_slice()) {
                Ok(()) => {
                    return Ok(());
                },
                Err(e) => {
                    match e.kind() {
                        ErrorKind::SerialPort(_) => {
                            return Err(e);
                        },
                        _ => (),
                    }
                },
            }
            n_attempts = n_attempts + 1;
        }
        Err(Error::new(ErrorKind::MaxAttempts, "Maximum number of resend attempts reached"))
    }

    /// One receive attempt.
    ///
    /// Reads the 3-byte header first; a declared length beyond the
    /// effective ceiling is answered with an `Oversize` control frame
    /// right away, without reading the bytes it announces.  Otherwise
    /// the rest of the frame is accumulated and validated — structure
    /// before checksum — answering with an acknowledgment and the
    /// payload on success, and with the matching failure control frame
    /// otherwise.  Every rejection path flushes the input queue so stale
    /// bytes cannot desynchronise the next attempt.
    fn try_recv(&self) -> (r: Result<Vec<u8>>)
        ensures
            r matches Ok(p) ==> p@.len() <= PAYLOAD_MAX,
            r matches Err(e) ==> (e.spec_kind() is Oversize || e.spec_kind() is InvalidFrame
                || e.spec_kind() is CRCFail || e.spec_kind() is SerialPort),
    {
        let mut frame: Vec<u8> = vec![0u8; FRAME_SIZE_MAX];
        let mut nbytes: usize = 0;
        // pull in the header
        while nbytes < 3
            invariant
                nbytes <= 3,
                frame@.len() == FRAME_SIZE_MAX,
            ensures
                nbytes <= 3,
                frame@.len() == FRAME_SIZE_MAX,
            decreases 3 - nbytes,
        {
            match self.port.read_range(&mut frame, nbytes, 3) {
                Ok(n) => {
                    if n == 0 {
                        break ;
                    }
                    nbytes = nbytes + n;
                },
                Err(e) => {
                    return Err(Error::from_serial(e));
                },
            }
        }
        if nbytes < 3 {
            // The header never completed within the device timeout: there
            // is no frame to validate, so reject the attempt outright.
            let _ = self.send_ctrl_frame(ControlType::InvalidFrame);
            let _ = self.port.flush();
            return Err(Error::new(ErrorKind::InvalidFrame, "Recieved frame is invalid"));
        }
        let declared = frame[2] as usize;
        if declared > PAYLOAD_MAX {
            let _ = self.send_ctrl_frame(ControlType::Oversize);
            let _ = self.port.flush();
            return Err(Error::new(ErrorKind::Oversize, "Frame oversize"));
        }
        let total = declared + 6;
        // pull in the payload and the trailer
        while nbytes < total
            invariant
                nbytes <= FRAME_SIZE_MAX,
                total <= FRAME_SIZE_MAX,
                frame@.len() == FRAME_SIZE_MAX,
            ensures
                nbytes <= FRAME_SIZE_MAX,
                frame@.len() == FRAME_SIZE_MAX,
            decreases total - nbytes,
        {
            match self.port.read_range(&mut frame, nbytes, total) {
                Ok(n) => {
                    if n == 0 {
                        break ;
                    }
                    nbytes = nbytes + n;
                },
                Err(e) => {
                    return Err(Error::from_serial(e));
                },
            }
        }
        let fslice = vstd::slice::slice_subrange(frame.as_slice(), 0, total);
        match parse_data_frame(fslice) {
            Ok(payload) => {
                let _ = self.send_ctrl_frame(ControlType::Ack);
                Ok(payload)
            },
            Err(fe) => {
                let (nack, kind, what) = match fe {
                    FrameError::Oversize => (
                        ControlType::Oversize,
                        ErrorKind::Oversize,
                        "Frame oversize",
                    ),
                    FrameError::InvalidFrame => (
                        ControlType::InvalidFrame,
                        ErrorKind::InvalidFrame,
                        "Recieved frame is invalid",
                    ),
                    FrameError::CRCFail => (
                        ControlType::CRCFail,
                        ErrorKind::CRCFail,
                        "CRC check did not pass",
                    ),
                };
                let _ = self.send_ctrl_frame(nack);
                let _ = self.port.flush();
                Err(Error::new(kind, what))
            },
        }
    }

    /// Receive one payload from the channel.
    ///
    /// Runs receive attempts up to the attempt budget, retrying every
    /// protocol-level rejection (oversize, malformed, corrupted);
    /// exhausting the budget surfaces `MaxAttempts`, while a device
    /// failure is surfaced at once.
    pub fn recv(&self) -> (r: Result<Vec<u8>>)
        ensures
            r matches Ok(p) ==> p@.len() <= PAYLOAD_MAX,
            r matches Err(e) ==> (e.spec_kind() is MaxAttempts || e.spec_kind() is SerialPort),
    {
        let budget = self.num_attempts;
        let mut attempts: u32 = 0;
        while attempts < budget
            invariant
                attempts <= budget,
            decreases budget - attempts,
        {
            match self.try_recv() {
                Ok(v) => {
                    return Ok(v);
                },
                Err(e) => {
                    match e.kind() {
                        ErrorKind::SerialPort(_) => {
                            return Err(e);
                        },
                        _ => (),
                    }
                },
            }
            attempts = attempts + 1;
        }
        Err(Error::new(ErrorKind::MaxAttempts, "Maximum number of recieve attempts reached"))
    }
}

} // verus!
