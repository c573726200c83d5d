//! Application messages carried in data-frame payloads: a one-byte
//! command/response identifier followed by the message body.

use vstd::prelude::*;

verus! {

/// The command and response identifiers the station understands.
#[derive(Clone, Copy, Debug, PartialEq, Eq, Structural)]
pub enum MessageId {
    CmdReset,
    CmdTph,
    CmdTemp,
    CmdPress,
    CmdHum,
    RspTph,
    RspTemp,
    RspPress,
    RspHum,
}

/// Error returned when a byte names no known message identifier.
pub struct IdError;

/// The wire byte of a message identifier.
pub open spec fn msg_id_value_spec(id: MessageId) -> u8 {
    match id {
        MessageId::CmdReset => 0x01,
        MessageId::CmdTph => 0x02,
        MessageId::CmdTemp => 0x03,
        MessageId::CmdPress => 0x04,
        MessageId::CmdHum => 0x05,
        MessageId::RspTph => 0x06,
        MessageId::RspTemp => 0x07,
        MessageId::RspPress => 0x08,
        MessageId::RspHum => 0x09,
    }
}

/// The message identifier a wire byte stands for, if any.
pub open spec fn msg_id_from_value_spec(b: u8) -> Option<MessageId> {
    match b {
        0x01 => Some(MessageId::CmdReset),
        0x02 => Some(MessageId::CmdTph),
        0x03 => Some(MessageId::CmdTemp),
        0x04 => Some(MessageId::CmdPress),
        0x05 => Some(MessageId::CmdHum),
        0x06 => Some(MessageId::RspTph),
        0x07 => Some(MessageId::RspTemp),
        0x08 => Some(MessageId::RspPress),
        0x09 => Some(MessageId::RspHum),
        _ => None,
    }
}

impl MessageId {
    /// The wire byte of this identifier.
    pub fn value(&self) -> (b: u8)
        ensures
            b == msg_id_value_spec(*self),
    {
        match *self {
            MessageId::CmdReset => 0x01,
            MessageId::CmdTph => 0x02,
            MessageId::CmdTemp => 0x03,
            MessageId::CmdPress => 0x04,
            MessageId::CmdHum => 0x05,
            MessageId::RspTph => 0x06,
            MessageId::RspTemp => 0x07,
            MessageId::RspPress => 0x08,
            MessageId::RspHum => 0x09,
        }
    }

    /// The identifier a wire byte stands for, or `IdError` on a byte
    /// outside the known range 0x01..=0x09.
    pub fn from_value(value: &u8) -> (r: Result<MessageId, IdError>)
        ensures
            r is Ok <==> msg_id_from_value_spec(*value) is Some,
            r matches Ok(id) ==> msg_id_from_value_spec(*value) == Some(id),
    {
        match *value {
            0x01 => Ok(MessageId::CmdReset),
            0x02 => Ok(MessageId::CmdTph),
            0x03 => Ok(MessageId::CmdTemp),
            0x04 => Ok(MessageId::CmdPress),
            0x05 => Ok(MessageId::CmdHum),
            0x06 => Ok(MessageId::RspTph),
            0x07 => Ok(MessageId::RspTemp),
            0x08 => Ok(MessageId::RspPress),
            0x09 => Ok(MessageId::RspHum),
            _ => Err(IdError),
        }
    }
}

/// A message: an identifier plus its body bytes.
pub struct Message {
    id: MessageId,
    payload: Vec<u8>,
}

impl Message {
    /// The identifier, for specifications.
    pub closed spec fn spec_id(&self) -> MessageId {
        self.id
    }

    /// The body bytes, for specifications.
    pub closed spec fn spec_payload(&self) -> Seq<u8> {
        self.payload@
    }
}

/// Error kind reserved for message-level failures.
pub struct MessageError;

impl Message {
    /// A fresh message under `id` with an empty body.
    pub fn new(id: MessageId) -> (m: Message)
        ensures
            m.spec_id() == id,
            m.spec_payload() == Seq::<u8>::empty(),
    {
        Message { id, payload: Vec::new() }
    }

    /// Serialized length: the identifier byte plus the body.
    pub fn len(&self) -> (n: usize)
        requires
            self.spec_payload().len() < usize::MAX,
        ensures
            n == self.spec_payload().len() + 1,
    {
        self.payload.len() + 1
    }

    /// The message identifier.
    pub fn id(&self) -> (id: &MessageId)
        ensures
            *id == self.spec_id(),
    {
        &self.id
    }

    /// Read a message back out of its serialized bytes: the first byte
    /// must name a known identifier, the rest become the body.  Fails on
    /// an empty input or an unknown identifier byte.
    pub fn deserialize(bytes: &[u8]) -> (r: Result<Message, &'static str>)
        ensures
            r is Ok <==> bytes@.len() > 0 && msg_id_from_value_spec(bytes@[0]) is Some,
            r matches Ok(m) ==> {
                &&& Some(m.spec_id()) == msg_id_from_value_spec(bytes@[0])
                &&& m.spec_payload() == bytes@.skip(1)
            },
    {
        if bytes.len() == 0 {
            return Err("Empty bytes");
        }
        let id = match MessageId::from_value(&bytes[0]) {
            Ok(msgid) => msgid,
            Err(_) => {
                return Err("Invalid Id value");
            },
        };
        let rest = vstd::slice::slice_subrange(bytes, 1, bytes.len());
        let payload = vstd::slice::slice_to_vec(rest);
        proof {
            assert(bytes@.subrange(1, bytes@.len() as int) =~= bytes@.skip(1));
        }
        Ok(Message { id, payload })
    }

    /// The serialized bytes: the identifier byte followed by the body.
    pub fn serialize(&self) -> (v: Vec<u8>)
        ensures
            v@ == seq![msg_id_value_spec(self.spec_id())] + self.spec_payload(),
    {
        let mut v: Vec<u8> = Vec::new();
        v.push(self.id.value());
        let mut i: usize = 0;
        while i < self.payload.len()
            invariant
                i <= self.payload@.len(),
                v@ == seq![msg_id_value_spec(self.id)] + self.payload@.take(i as int),
            decreases self.payload@.len() - i,
        {
            v.push(self.payload[i]);
            proof {
                assert(self.payload@.take(i + 1) =~= self.payload@.take(i as int).push(
                    self.payload@[i as int],
                ));
            }
            i = i + 1;
        }
        proof {
            assert(self.payload@.take(self.payload@.len() as int) =~= self.payload@);
        }
        v
    }

    /// The message body.
    pub fn payload(&self) -> (p: &Vec<u8>)
        ensures
            p@ == self.spec_payload(),
    {
        &self.payload
    }

    /// Replace the message body.
    pub fn set_payload(&mut self, data: &[u8])
        ensures
            final(self).spec_id() == old(self).spec_id(),
            final(self).spec_payload() == data@,
    {
        self.payload = vstd::slice::slice_to_vec(data);
    }
}

/// A little-endian 32-bit value read from the four bytes at `k`.
pub open spec fn le_u32_spec(s: Seq<u8>, k: int) -> u32 {
    (s[k] as u32) | ((s[k + 1] as u32) << 8) | ((s[k + 2] as u32) << 16) | ((s[k + 3] as u32)
        << 24)
}

/// Read the little-endian 32-bit value stored at `k`.
fn le_u32_at(data: &[u8], k: usize) -> (r: u32)
    requires
        k + 4 <= data@.len(),
    ensures
        r == le_u32_spec(data@, k as int),
{
    (data[k] as u32) | ((data[k + 1] as u32) << 8) | ((data[k + 2] as u32) << 16) | ((data[k + 3]
        as u32) << 24)
}

/// Unpack a temperature/pressure/humidity response body: three raw
/// 32-bit readings stored little-endian in its first twelve bytes, in
/// that order.  `None` on a body too short to hold them.
pub fn decode_tph(data: &[u8]) -> (r: Option<(u32, u32, u32)>)
    ensures
        r is Some <==> data@.len() >= 12,
        r matches Some(t) ==> {
            &&& t.0 == le_u32_spec(data@, 0)
            &&& t.1 == le_u32_spec(data@, 4)
            &&& t.2 == le_u32_spec(data@, 8)
        },
{
    if data.len() < 12 {
        return None;
    }
    let temp = le_u32_at(data, 0);
    let press = le_u32_at(data, 4);
    let hum = le_u32_at(data, 8);
    Some((temp, press, hum))
}

} // verus!
