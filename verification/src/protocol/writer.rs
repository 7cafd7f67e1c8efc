//! Writing the fields of a payload, front to back.

use crate::protocol::packet::{Packet, PacketView};
use vstd::prelude::*;
use vstd::utf8::encode_utf8;

verus! {

/// The two bytes of a number, low byte first.
pub open spec fn put_u16(value: u16) -> Seq<u8> {
    seq![(value % 0x100) as u8, (value / 0x100) as u8]
}

/// The four bytes of a number, low byte first.
pub open spec fn put_u32(value: u32) -> Seq<u8> {
    seq![
        (value % 0x100) as u8,
        (value / 0x100 % 0x100) as u8,
        (value / 0x1_0000 % 0x100) as u8,
        (value / 0x100_0000) as u8,
    ]
}

/// The four bytes of the coordinate nearest to a number of units.
pub open spec fn put_units(units: i32) -> Seq<u8> {
    put_u32(crate::protocol::single::bits_of(units))
}

/// The bytes of the numbers, two for each, one number after the other.
pub open spec fn put_u16_list(values: Seq<u16>) -> Seq<u8>
    decreases values.len(),
{
    if values.len() == 0 {
        Seq::empty()
    } else {
        put_u16_list(values.drop_last()) + put_u16(values.last())
    }
}

/// The bytes of a text and the zero byte that ends it.
pub open spec fn put_text(text: Seq<char>) -> Seq<u8> {
    encode_utf8(text).push(0u8)
}

/// Builds a packet field by field.
pub struct PacketWriter {
    command: u16,
    data: Vec<u8>,
}

impl View for PacketWriter {
    type V = PacketView;

    /// The packet as far as it has been written.
    closed spec fn view(&self) -> PacketView {
        PacketView { command: self.command, data: self.data@ }
    }
}

impl PacketWriter {
    /// A writer for a packet with the command and no payload yet.
    pub fn new(command: u16) -> (writer: Self)
        ensures
            writer@ == (PacketView { command, data: Seq::empty() }),
    {
        let writer = PacketWriter { command, data: Vec::new() };
        assert(writer@.data =~= Seq::<u8>::empty());
        writer
    }

    pub fn write_u8(&mut self, value: u8)
        ensures
            final(self)@ == (PacketView {
                command: old(self)@.command,
                data: old(self)@.data.push(value),
            }),
    {
        self.data.push(value);
    }

    pub fn write_u16(&mut self, value: u16)
        ensures
            final(self)@ == (PacketView {
                command: old(self)@.command,
                data: old(self)@.data + put_u16(value),
            }),
    {
        self.data.push((value % 0x100) as u8);
        self.data.push((value / 0x100) as u8);
        assert(self@.data =~= old(self)@.data + put_u16(value));
    }

    pub fn write_u32(&mut self, value: u32)
        ensures
            final(self)@ == (PacketView {
                command: old(self)@.command,
                data: old(self)@.data + put_u32(value),
            }),
    {
        self.data.push((value % 0x100) as u8);
        self.data.push((value / 0x100 % 0x100) as u8);
        self.data.push((value / 0x1_0000 % 0x100) as u8);
        self.data.push((value / 0x100_0000) as u8);
        assert(self@.data =~= old(self)@.data + put_u32(value));
    }

    /// Writes the numbers one after the other.
    pub fn write_u16_list(&mut self, values: &Vec<u16>)
        ensures
            final(self)@ == (PacketView {
                command: old(self)@.command,
                data: old(self)@.data + put_u16_list(values@),
            }),
    {
        let ghost head = self.data@;
        let mut i: usize = 0;
        assert(values@.take(0) =~= Seq::<u16>::empty());
        assert(head + put_u16_list(values@.take(0)) =~= head);
        while i < values.len()
            invariant
                i <= values.len(),
                self.command == old(self).command,
                self.data@ == head + put_u16_list(values@.take(i as int)),
            decreases values.len() - i,
        {
            proof {
                assert(values@.take(i + 1).drop_last() =~= values@.take(i as int));
                assert(values@.take(i + 1).last() == values@[i as int]);
            }
            let ghost before = self.data@;
            self.write_u16(values[i]);
            assert(self.data@ =~= head + put_u16_list(values@.take(i + 1)));
            i += 1;
        }
        assert(values@.take(values.len() as int) =~= values@);
    }

    /// Writes a coordinate that is given in whole units.
    pub fn write_units(&mut self, units: i32)
        ensures
            final(self)@ == (PacketView {
                command: old(self)@.command,
                data: old(self)@.data + put_units(units),
            }),
    {
        self.write_u32(crate::protocol::single::units_to_bits(units));
    }

    /// Writes the bytes of the text and nothing after them.
    pub fn write_utf8(&mut self, text: &String)
        ensures
            final(self)@ == (PacketView {
                command: old(self)@.command,
                data: old(self)@.data + encode_utf8(text@),
            }),
    {
        let bytes = text.as_str().as_bytes();
        let mut i: usize = 0;
        while i < bytes.len()
            invariant
                i <= bytes.len(),
                bytes@ == encode_utf8(text@),
                self.command == old(self).command,
                self.data@ == old(self).data@ + bytes@.take(i as int),
            decreases bytes.len() - i,
        {
            self.data.push(bytes[i]);
            assert(self.data@ =~= old(self).data@ + bytes@.take(i + 1));
            i += 1;
        }
        assert(bytes@.take(bytes.len() as int) =~= bytes@);
    }

    /// Writes the bytes of the text and a zero byte after them.
    pub fn write_null_terminated_utf8(&mut self, text: &String)
        ensures
            final(self)@ == (PacketView {
                command: old(self)@.command,
                data: old(self)@.data + put_text(text@),
            }),
    {
        let bytes = text.as_str().as_bytes();
        let mut i: usize = 0;
        while i < bytes.len()
            invariant
                i <= bytes.len(),
                bytes@ == encode_utf8(text@),
                self.command == old(self).command,
                self.data@ == old(self).data@ + bytes@.take(i as int),
            decreases bytes.len() - i,
        {
            self.data.push(bytes[i]);
            assert(self.data@ =~= old(self).data@ + bytes@.take(i + 1));
            i += 1;
        }
        assert(bytes@.take(bytes.len() as int) =~= bytes@);
        self.data.push(0);
        assert(self@.data =~= old(self)@.data + put_text(text@));
    }

    /// The packet that was written.
    pub fn into_packet(self) -> (packet: Packet)
        ensures
            packet@ == self@,
    {
        Packet { command: self.command, data: self.data }
    }
}

/// A number that was written in two bytes is read back from them.
pub proof fn lemma_take_put_u16(value: u16, rest: Seq<u8>)
    ensures
        crate::protocol::reader::take_u16(put_u16(value) + rest) == Some(
            crate::protocol::reader::Taken { value, rest },
        ),
{
    let bytes = put_u16(value) + rest;
    assert(bytes.skip(2) =~= rest);
    assert(bytes[0] == put_u16(value)[0]);
    assert(bytes[1] == put_u16(value)[1]);
}

/// A number that was written in four bytes is read back from them.
pub proof fn lemma_take_put_u32(value: u32, rest: Seq<u8>)
    ensures
        crate::protocol::reader::take_u32(put_u32(value) + rest) == Some(
            crate::protocol::reader::Taken { value, rest },
        ),
{
    let bytes = put_u32(value) + rest;
    assert(bytes.skip(4) =~= rest);
    assert(bytes[0] == put_u32(value)[0]);
    assert(bytes[1] == put_u32(value)[1]);
    assert(bytes[2] == put_u32(value)[2]);
    assert(bytes[3] == put_u32(value)[3]);
}

proof fn lemma_low_byte_of_small_scalar(scalar: u32)
    by (bit_vector)
    requires
        0 < scalar <= 0x7F,
    ensures
        (scalar & 0x7F) as u8 != 0,
{
}

proof fn lemma_marked_byte(bits: u8)
    by (bit_vector)
    ensures
        0x80u8 | bits != 0,
        0xC0u8 | bits != 0,
        0xE0u8 | bits != 0,
        0xF0u8 | bits != 0,
{
}

/// The encoding of a text without the character zero has no zero byte.
pub proof fn lemma_text_has_no_zero_byte(text: Seq<char>)
    requires
        forall|i: int| 0 <= i < text.len() ==> text[i] as u32 != 0,
    ensures
        forall|k: int| 0 <= k < encode_utf8(text).len() ==> encode_utf8(text)[k] != 0,
    decreases text.len(),
{
    if text.len() > 0 {
        let scalar = text[0] as u32;
        let head = vstd::utf8::encode_scalar(scalar);
        let tail = encode_utf8(text.drop_first());
        assert forall|i: int| 0 <= i < text.drop_first().len() implies text.drop_first()[i] as u32
            != 0 by {
            assert(text.drop_first()[i] == text[i + 1]);
        }
        lemma_text_has_no_zero_byte(text.drop_first());
        assert forall|k: int| 0 <= k < head.len() implies head[k] != 0 by {
            if vstd::utf8::has_width_1_encoding(scalar) {
                lemma_low_byte_of_small_scalar(scalar);
            } else {
                lemma_marked_byte(((scalar >> 6) & 0x1F) as u8);
                lemma_marked_byte(((scalar >> 12) & 0x0F) as u8);
                lemma_marked_byte(((scalar >> 18) & 0x7) as u8);
                lemma_marked_byte((scalar & 0x3F) as u8);
                lemma_marked_byte(((scalar >> 6) & 0x3F) as u8);
                lemma_marked_byte(((scalar >> 12) & 0x3F) as u8);
            }
        }
        assert forall|k: int| 0 <= k < encode_utf8(text).len() implies encode_utf8(text)[k] != 0 by {
            if k >= head.len() {
                assert(encode_utf8(text)[k] == tail[k - head.len()]);
            } else {
                assert(encode_utf8(text)[k] == head[k]);
            }
        }
    }
}

/// A text without the character zero that was written with a zero byte
/// after it is read back from the bytes.
pub proof fn lemma_take_put_text(text: Seq<char>, rest: Seq<u8>)
    requires
        forall|i: int| 0 <= i < text.len() ==> text[i] as u32 != 0,
    ensures
        crate::protocol::reader::take_text(put_text(text) + rest) == Some(
            crate::protocol::reader::Taken { value: text, rest },
        ),
{
    let encoded = encode_utf8(text);
    let bytes = put_text(text) + rest;
    let end = encoded.len() as int;
    lemma_text_has_no_zero_byte(text);
    assert(bytes[end] == 0);
    assert forall|k: int| 0 <= k < end implies bytes[k] != 0 by {
        assert(bytes[k] == encoded[k]);
    }
    crate::protocol::reader::lemma_first_zero(bytes, end);
    assert(bytes.take(end) =~= encoded);
    assert(bytes.skip(end + 1) =~= rest);
    vstd::utf8::encode_utf8_valid_utf8(text);
    vstd::utf8::encode_utf8_decode_utf8(text);
}

/// A byte that was written is read back.
pub proof fn lemma_take_put_u8(value: u8, rest: Seq<u8>)
    ensures
        crate::protocol::reader::take_u8(seq![value] + rest) == Some(
            crate::protocol::reader::Taken { value, rest },
        ),
{
    let bytes = seq![value] + rest;
    assert(bytes.skip(1) =~= rest);
    assert(bytes[0] == value);
}

/// A text that was written without a zero byte after it is read back by
/// who knows its length in bytes.
pub proof fn lemma_take_put_fixed_text(text: Seq<char>, rest: Seq<u8>)
    ensures
        crate::protocol::reader::take_fixed_text(encode_utf8(text) + rest, encode_utf8(text).len())
            == Some(crate::protocol::reader::Taken { value: text, rest }),
{
    let encoded = encode_utf8(text);
    let bytes = encoded + rest;
    assert(bytes.take(encoded.len() as int) =~= encoded);
    assert(bytes.skip(encoded.len() as int) =~= rest);
    vstd::utf8::encode_utf8_valid_utf8(text);
    vstd::utf8::encode_utf8_decode_utf8(text);
}

/// A coordinate of up to 2^24 units that was written is read back.
pub proof fn lemma_take_put_units(units: i32, rest: Seq<u8>)
    requires
        -0x100_0000 <= units <= 0x100_0000,
    ensures
        crate::protocol::reader::take_units(put_units(units) + rest) == Some(
            crate::protocol::reader::Taken { value: units, rest },
        ),
{
    lemma_take_put_u32(crate::protocol::single::bits_of(units), rest);
    crate::protocol::single::lemma_units_round_trip(units);
}

} // verus!
