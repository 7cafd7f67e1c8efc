//! Packets and the frames that carry them over a connection.

use crate::protocol::writer::put_u16;
use vstd::prelude::*;

verus! {

/// The length of the header of a frame.
pub const HEADER_LENGTH: usize = 6;

/// The most payload bytes that a frame can carry.
pub const MAX_DATA_LENGTH: usize = 65529;

/// A packet: the number of its command and its payload.
#[derive(Debug)]
pub struct Packet {
    pub command: u16,
    pub data: Vec<u8>,
}

/// A packet as a mathematical value.
pub struct PacketView {
    pub command: u16,
    pub data: Seq<u8>,
}

impl View for Packet {
    type V = PacketView;

    open spec fn view(&self) -> PacketView {
        PacketView { command: self.command, data: self.data@ }
    }
}

/// Why a connection ends.
#[derive(Copy, Clone, Debug, PartialEq, Eq, Structural)]
pub enum ProtocolError {
    /// The other side closed the connection.
    Disconnect,
    /// A packet was malformed, or came where none of its kind may come.
    InvalidPacket,
    /// The simulation dropped the connection.
    ServerInitiatedDisconnect,
}

/// The number whose two bytes, low byte first, stand at the position.
pub open spec fn u16_at(bytes: Seq<u8>, at: int) -> u16
    recommends
        0 <= at,
        at + 2 <= bytes.len(),
{
    (bytes[at] + 256 * bytes[at + 1]) as u16
}

/// The frame of a packet: the length of the frame, the command and the
/// sequence number, each in two bytes with the low byte first, and then
/// the payload.
pub open spec fn frame(packet: PacketView, sequence: u16) -> Seq<u8>
    recommends
        packet.data.len() <= MAX_DATA_LENGTH,
{
    put_u16((HEADER_LENGTH + packet.data.len()) as u16) + put_u16(packet.command) + put_u16(
        sequence,
    ) + packet.data
}

/// Why no frame can be taken from the front of some bytes.
#[derive(Copy, Clone, Debug, PartialEq, Eq, Structural)]
pub enum FrameError {
    /// The bytes end before the frame does: more must be read.
    Incomplete,
    /// The frame claims a length that is shorter than its own header.
    InvalidLength,
}

/// A frame that was taken from the front of some bytes.
pub struct ParsedFrame {
    pub packet: PacketView,
    pub sequence: u16,
    /// The length of the frame: as many bytes were used up.
    pub length: nat,
}

/// The frame at the front of the bytes.
pub open spec fn parse_frame(bytes: Seq<u8>) -> Result<ParsedFrame, FrameError> {
    if bytes.len() < HEADER_LENGTH {
        Err(FrameError::Incomplete)
    } else if u16_at(bytes, 0) < HEADER_LENGTH {
        Err(FrameError::InvalidLength)
    } else if bytes.len() < u16_at(bytes, 0) {
        Err(FrameError::Incomplete)
    } else {
        Ok(
            ParsedFrame {
                packet: PacketView {
                    command: u16_at(bytes, 2),
                    data: bytes.subrange(HEADER_LENGTH as int, u16_at(bytes, 0) as int),
                },
                sequence: u16_at(bytes, 4),
                length: u16_at(bytes, 0) as nat,
            },
        )
    }
}

/// The number that was written in two bytes is read back from them.
pub proof fn lemma_u16_round_trip(value: u16, bytes: Seq<u8>, at: int)
    requires
        0 <= at,
        at + 2 <= bytes.len(),
        bytes.subrange(at, at + 2) == put_u16(value),
    ensures
        u16_at(bytes, at) == value,
{
    assert(bytes[at] == bytes.subrange(at, at + 2)[0]);
    assert(bytes[at + 1] == bytes.subrange(at, at + 2)[1]);
}

/// Taking a frame from the bytes of a framed packet, whatever follows
/// them, gives the packet and the sequence number back and uses up
/// exactly the frame.
pub proof fn lemma_frame_round_trip(packet: PacketView, sequence: u16, rest: Seq<u8>)
    requires
        packet.data.len() <= MAX_DATA_LENGTH,
    ensures
        parse_frame(frame(packet, sequence) + rest) == Ok::<ParsedFrame, FrameError>(
            ParsedFrame {
                packet,
                sequence,
                length: (HEADER_LENGTH + packet.data.len()) as nat,
            },
        ),
        frame(packet, sequence).len() == HEADER_LENGTH + packet.data.len(),
{
    let length = (HEADER_LENGTH + packet.data.len()) as u16;
    let bytes = frame(packet, sequence) + rest;
    assert(bytes.subrange(0, 2) =~= put_u16(length));
    assert(bytes.subrange(2, 4) =~= put_u16(packet.command));
    assert(bytes.subrange(4, 6) =~= put_u16(sequence));
    lemma_u16_round_trip(length, bytes, 0);
    lemma_u16_round_trip(packet.command, bytes, 2);
    lemma_u16_round_trip(sequence, bytes, 4);
    assert(bytes.subrange(HEADER_LENGTH as int, length as int) =~= packet.data);
}

fn push_u16(bytes: &mut Vec<u8>, value: u16)
    ensures
        final(bytes)@ == old(bytes)@ + put_u16(value),
{
    bytes.push((value % 256) as u8);
    bytes.push((value / 256) as u8);
    assert(bytes@ =~= old(bytes)@ + put_u16(value));
}

fn get_u16(bytes: &Vec<u8>, at: usize) -> (value: u16)
    requires
        at + 2 <= bytes.len(),
    ensures
        value == u16_at(bytes@, at as int),
{
    (bytes[at] as u16) + 256 * (bytes[at + 1] as u16)
}

/// The bytes that carry the packet over a connection, or nothing where the
/// payload is too long for a frame.
pub fn encode_frame(packet: &Packet, sequence: u16) -> (bytes: Option<Vec<u8>>)
    ensures
        bytes.is_some() == (packet@.data.len() <= MAX_DATA_LENGTH),
        bytes matches Some(framed) ==> framed@ == frame(packet@, sequence),
{
    if packet.data.len() > MAX_DATA_LENGTH {
        return None;
    }
    let mut bytes: Vec<u8> = Vec::new();
    push_u16(&mut bytes, (HEADER_LENGTH + packet.data.len()) as u16);
    push_u16(&mut bytes, packet.command);
    push_u16(&mut bytes, sequence);
    let mut i: usize = 0;
    let ghost header = bytes@;
    while i < packet.data.len()
        invariant
            i <= packet.data.len(),
            bytes@ == header + packet.data@.take(i as int),
        decreases packet.data.len() - i,
    {
        bytes.push(packet.data[i]);
        assert(bytes@ =~= header + packet.data@.take(i + 1));
        i += 1;
    }
    assert(packet.data@.take(packet.data.len() as int) =~= packet.data@);
    assert(bytes@ =~= frame(packet@, sequence));
    Some(bytes)
}

/// Takes the frame at the front of the bytes that were read from a
/// connection: the packet, its sequence number, and the number of bytes
/// that the frame used up.
pub fn decode_frame(bytes: &Vec<u8>) -> (parsed: Result<(Packet, u16, usize), FrameError>)
    ensures
        match parsed {
            Ok((packet, sequence, length)) => parse_frame(bytes@) == Ok::<ParsedFrame, FrameError>(
                ParsedFrame { packet: packet@, sequence, length: length as nat },
            ),
            Err(error) => parse_frame(bytes@) == Err::<ParsedFrame, FrameError>(error),
        },
{
    if bytes.len() < HEADER_LENGTH {
        return Err(FrameError::Incomplete);
    }
    let length: usize = get_u16(bytes, 0) as usize;
    if length < HEADER_LENGTH {
        return Err(FrameError::InvalidLength);
    }
    if bytes.len() < length {
        return Err(FrameError::Incomplete);
    }
    let command = get_u16(bytes, 2);
    let sequence = get_u16(bytes, 4);
    let mut data: Vec<u8> = Vec::new();
    let mut i: usize = HEADER_LENGTH;
    while i < length
        invariant
            HEADER_LENGTH <= i <= length <= bytes.len(),
            data@ == bytes@.subrange(HEADER_LENGTH as int, i as int),
        decreases length - i,
    {
        data.push(bytes[i]);
        assert(data@ =~= bytes@.subrange(HEADER_LENGTH as int, i + 1));
        i += 1;
    }
    Ok((Packet { command, data }, sequence, length))
}

} // verus!
