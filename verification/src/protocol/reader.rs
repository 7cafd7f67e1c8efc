//! Reading the fields of a payload, front to back.

use crate::protocol::packet::{Packet, ProtocolError};
use vstd::prelude::*;
use vstd::utf8::{decode_utf8, valid_utf8};

verus! {

/// What is left of some bytes once a field was taken from their front.
pub struct Taken<T> {
    pub value: T,
    pub rest: Seq<u8>,
}

/// The byte at the front.
pub open spec fn take_u8(bytes: Seq<u8>) -> Option<Taken<u8>> {
    if bytes.len() < 1 {
        None
    } else {
        Some(Taken { value: bytes[0], rest: bytes.skip(1) })
    }
}

/// The number in the two bytes at the front, low byte first.
pub open spec fn take_u16(bytes: Seq<u8>) -> Option<Taken<u16>> {
    if bytes.len() < 2 {
        None
    } else {
        Some(Taken { value: (bytes[0] + 0x100 * bytes[1]) as u16, rest: bytes.skip(2) })
    }
}

/// The number in the four bytes at the front, low byte first.
pub open spec fn take_u32(bytes: Seq<u8>) -> Option<Taken<u32>> {
    if bytes.len() < 4 {
        None
    } else {
        Some(
            Taken {
                value: (bytes[0] + 0x100 * bytes[1] + 0x1_0000 * bytes[2] + 0x100_0000
                    * bytes[3]) as u32,
                rest: bytes.skip(4),
            },
        )
    }
}

/// The coordinate in the four bytes at the front, in whole units.
pub open spec fn take_units(bytes: Seq<u8>) -> Option<Taken<i32>> {
    match take_u32(bytes) {
        Some(taken) => Some(
            Taken { value: crate::protocol::single::units_of(taken.value), rest: taken.rest },
        ),
        None => None,
    }
}

/// The text in the `length` bytes at the front, which must be UTF-8.
pub open spec fn take_fixed_text(bytes: Seq<u8>, length: nat) -> Option<Taken<Seq<char>>> {
    if bytes.len() < length || !valid_utf8(bytes.take(length as int)) {
        None
    } else {
        Some(Taken { value: decode_utf8(bytes.take(length as int)), rest: bytes.skip(length as int) })
    }
}

/// The position of the first zero byte.
pub open spec fn first_zero(bytes: Seq<u8>) -> Option<int> {
    if exists|i: int| 0 <= i < bytes.len() && bytes[i] == 0 {
        Some(
            choose|i: int|
                0 <= i < bytes.len() && bytes[i] == 0 && forall|k: int| 0 <= k < i ==> bytes[k] != 0,
        )
    } else {
        None
    }
}

/// The first zero byte is at the position, if no byte before it is zero.
pub proof fn lemma_first_zero(bytes: Seq<u8>, at: int)
    requires
        0 <= at < bytes.len(),
        bytes[at] == 0,
        forall|k: int| 0 <= k < at ==> bytes[k] != 0,
    ensures
        first_zero(bytes) == Some(at),
{
    let found = choose|i: int|
        0 <= i < bytes.len() && bytes[i] == 0 && forall|k: int| 0 <= k < i ==> bytes[k] != 0;
    assert(0 <= found < bytes.len() && bytes[found] == 0 && forall|k: int|
        0 <= k < found ==> bytes[k] != 0);
    if found < at {
        assert(bytes[found] != 0);
    }
    if at < found {
        assert(bytes[at] != 0);
    }
}

/// The text at the front that a zero byte ends. The bytes before the zero
/// byte must be UTF-8; the zero byte is used up with them.
pub open spec fn take_text(bytes: Seq<u8>) -> Option<Taken<Seq<char>>> {
    match first_zero(bytes) {
        None => None,
        Some(end) => if valid_utf8(bytes.take(end)) {
            Some(Taken { value: decode_utf8(bytes.take(end)), rest: bytes.skip(end + 1) })
        } else {
            None
        },
    }
}

/// Makes a string of bytes with `String::from_utf8`, which accepts exactly
/// the byte sequences that are valid UTF-8 and returns the text that they
/// encode.
#[verifier::external_body]
fn string_from_utf8(bytes: Vec<u8>) -> (text: Option<String>)
    ensures
        text.is_some() == valid_utf8(bytes@),
        text matches Some(decoded) ==> decoded@ == decode_utf8(bytes@),
{
    String::from_utf8(bytes).ok()
}

/// Reads the fields of a payload one after the other.
pub struct PacketReader<'a> {
    data: &'a Vec<u8>,
    cursor: usize,
}

impl<'a> View for PacketReader<'a> {
    type V = Seq<u8>;

    /// The bytes that have not been read yet.
    closed spec fn view(&self) -> Seq<u8> {
        self.data@.skip(self.cursor as int)
    }
}

impl<'a> PacketReader<'a> {
    #[verifier::type_invariant]
    spec fn well_formed(self) -> bool {
        self.cursor <= self.data@.len()
    }

    /// A reader at the front of the payload of the packet.
    pub fn from_packet(packet: &'a Packet) -> (reader: Self)
        ensures
            reader@ == packet@.data,
    {
        let reader = PacketReader { data: &packet.data, cursor: 0 };
        assert(reader@ =~= packet@.data);
        reader
    }

    /// The number of bytes that have not been read yet.
    pub fn remaining(&self) -> (left: usize)
        ensures
            left == self@.len(),
    {
        proof {
            use_type_invariant(self);
        }
        self.data.len() - self.cursor
    }

    pub fn read_u8(&mut self) -> (read: Result<u8, ProtocolError>)
        ensures
            match take_u8(old(self)@) {
                Some(taken) => read == Ok::<u8, ProtocolError>(taken.value) && final(self)@
                    == taken.rest,
                None => read == Err::<u8, ProtocolError>(ProtocolError::InvalidPacket) && final(self)@ == old(self)@,
            },
    {
        proof {
            use_type_invariant(&*self);
        }
        if self.data.len() - self.cursor < 1 {
            return Err(ProtocolError::InvalidPacket);
        }
        let value = self.data[self.cursor];
        self.cursor = self.cursor + 1;
        assert(self@ =~= old(self)@.skip(1));
        Ok(value)
    }

    pub fn read_u16(&mut self) -> (read: Result<u16, ProtocolError>)
        ensures
            match take_u16(old(self)@) {
                Some(taken) => read == Ok::<u16, ProtocolError>(taken.value) && final(self)@
                    == taken.rest,
                None => read == Err::<u16, ProtocolError>(ProtocolError::InvalidPacket) && final(self)@ == old(self)@,
            },
    {
        proof {
            use_type_invariant(&*self);
        }
        if self.data.len() - self.cursor < 2 {
            return Err(ProtocolError::InvalidPacket);
        }
        let low: u16 = self.data[self.cursor] as u16;
        let high: u16 = self.data[self.cursor + 1] as u16;
        self.cursor = self.cursor + 2;
        assert(self@ =~= old(self)@.skip(2));
        Ok(low + 0x100 * high)
    }

    pub fn read_u32(&mut self) -> (read: Result<u32, ProtocolError>)
        ensures
            match take_u32(old(self)@) {
                Some(taken) => read == Ok::<u32, ProtocolError>(taken.value) && final(self)@
                    == taken.rest,
                None => read == Err::<u32, ProtocolError>(ProtocolError::InvalidPacket) && final(self)@ == old(self)@,
            },
    {
        proof {
            use_type_invariant(&*self);
        }
        if self.data.len() - self.cursor < 4 {
            return Err(ProtocolError::InvalidPacket);
        }
        let b0: u32 = self.data[self.cursor] as u32;
        let b1: u32 = self.data[self.cursor + 1] as u32;
        let b2: u32 = self.data[self.cursor + 2] as u32;
        let b3: u32 = self.data[self.cursor + 3] as u32;
        self.cursor = self.cursor + 4;
        assert(self@ =~= old(self)@.skip(4));
        Ok(b0 + 0x100 * b1 + 0x1_0000 * b2 + 0x100_0000 * b3)
    }

    /// Reads a coordinate and gives it in whole units.
    pub fn read_units(&mut self) -> (read: Result<i32, ProtocolError>)
        ensures
            match take_units(old(self)@) {
                Some(taken) => read == Ok::<i32, ProtocolError>(taken.value) && final(self)@
                    == taken.rest,
                None => read == Err::<i32, ProtocolError>(ProtocolError::InvalidPacket) && final(self)@
                    == old(self)@,
            },
    {
        match self.read_u32() {
            Ok(bits) => Ok(crate::protocol::single::bits_to_units(bits)),
            Err(error) => Err(error),
        }
    }

    fn copy_bytes(&self, length: usize) -> (bytes: Vec<u8>)
        requires
            length <= self@.len(),
        ensures
            bytes@ == self@.take(length as int),
    {
        proof {
            use_type_invariant(self);
        }
        let mut bytes: Vec<u8> = Vec::new();
        let mut i: usize = 0;
        while i < length
            invariant
                i <= length,
                self.cursor + length <= self.data.len(),
                bytes@ == self@.take(i as int),
            decreases length - i,
        {
            bytes.push(self.data[self.cursor + i]);
            assert(bytes@ =~= self@.take(i + 1));
            i += 1;
        }
        bytes
    }

    /// Reads a text that takes up `length` bytes.
    pub fn read_fixed_length_utf8(&mut self, length: usize) -> (read: Result<String, ProtocolError>)
        ensures
            match take_fixed_text(old(self)@, length as nat) {
                Some(taken) => read.is_ok() && read.unwrap()@ == taken.value && final(self)@
                    == taken.rest,
                None => read == Err::<String, ProtocolError>(ProtocolError::InvalidPacket) && final(self)@ == old(self)@,
            },
    {
        proof {
            use_type_invariant(&*self);
        }
        if self.data.len() - self.cursor < length {
            return Err(ProtocolError::InvalidPacket);
        }
        let bytes = self.copy_bytes(length);
        match string_from_utf8(bytes) {
            Some(text) => {
                self.cursor = self.cursor + length;
                assert(self@ =~= old(self)@.skip(length as int));
                Ok(text)
            },
            None => Err(ProtocolError::InvalidPacket),
        }
    }

    /// Reads a text that a zero byte ends.
    pub fn read_null_terminated_utf8(&mut self) -> (read: Result<String, ProtocolError>)
        ensures
            match take_text(old(self)@) {
                Some(taken) => read.is_ok() && read.unwrap()@ == taken.value && final(self)@
                    == taken.rest,
                None => read == Err::<String, ProtocolError>(ProtocolError::InvalidPacket) && final(self)@ == old(self)@,
            },
    {
        proof {
            use_type_invariant(&*self);
        }
        let left: usize = self.data.len() - self.cursor;
        let mut end: usize = 0;
        while end < left && self.data[self.cursor + end] != 0
            invariant
                end <= left,
                left == self.data.len() - self.cursor,
                self.cursor <= self.data.len(),
                forall|k: int| 0 <= k < end ==> self@[k] != 0,
            decreases left - end,
        {
            end += 1;
        }
        if end >= left {
            assert(first_zero(self@).is_none());
            return Err(ProtocolError::InvalidPacket);
        }
        proof {
            assert(self@[end as int] == 0);
            lemma_first_zero(self@, end as int);
        }
        let bytes = self.copy_bytes(end);
        match string_from_utf8(bytes) {
            Some(text) => {
                self.cursor = self.cursor + end + 1;
                assert(self@ =~= old(self)@.skip(end + 1));
                Ok(text)
            },
            None => Err(ProtocolError::InvalidPacket),
        }
    }
}

} // verus!
