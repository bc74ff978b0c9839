//! Big-endian packet codec.
//!
//! A message is two constant header bytes (message class, message type)
//! followed by its fields in declared order, each encoded as a
//! fixed-width big-endian byte string.  The set of encodable field types
//! is closed: signed and unsigned integers of 8/16/32/64 bits, and the
//! IEEE-754 bit patterns of 32/64-bit floating-point values.

use vstd::prelude::*;

verus! {

/// `256 ^ w`: the number of distinct values a `w`-byte field can carry.
pub open spec fn pow256(w: nat) -> nat
    decreases w,
{
    if w == 0 {
        1
    } else {
        256 * pow256((w - 1) as nat)
    }
}

/// The `w`-byte big-endian encoding of `v` (modulo `256^w`): most
/// significant byte first.
pub open spec fn be_bytes(v: nat, w: nat) -> Seq<u8>
    decreases w,
{
    if w == 0 {
        Seq::empty()
    } else {
        be_bytes(v / 256, (w - 1) as nat).push((v % 256) as u8)
    }
}

/// The integer a byte string denotes when read as big-endian.
pub open spec fn be_value(s: Seq<u8>) -> nat
    decreases s.len(),
{
    if s.len() == 0 {
        0nat
    } else {
        (be_value(s.drop_last()) * 256 + s.last()) as nat
    }
}

/// A big-endian encoding is always exactly `w` bytes long.
pub proof fn lemma_be_bytes_len(v: nat, w: nat)
    ensures
        be_bytes(v, w).len() == w,
    decreases w,
{
    if w > 0 {
        lemma_be_bytes_len(v / 256, (w - 1) as nat);
    }
}

/// Round trip: reading the `w` emitted bytes back as a big-endian
/// integer recovers the encoded value exactly, for every value that
/// fits in `w` bytes.
pub proof fn lemma_be_round_trip(v: nat, w: nat)
    requires
        v < pow256(w),
    ensures
        be_bytes(v, w).len() == w,
        be_value(be_bytes(v, w)) == v,
    decreases w,
{
    lemma_be_bytes_len(v, w);
    if w > 0 {
        assert(v / 256 < pow256((w - 1) as nat)) by (nonlinear_arith)
            requires
                v < 256 * pow256((w - 1) as nat),
        ;
        lemma_be_round_trip(v / 256, (w - 1) as nat);
        let s = be_bytes(v, w);
        assert(s.drop_last() =~= be_bytes(v / 256, (w - 1) as nat));
    }
}

/// One field of a message: a value of one of the fixed-width numeric
/// types that can be encoded unambiguously.  The set is closed — no
/// other field type can be expressed, so an unencodable field is ruled
/// out when a message value is built, before anything reaches the wire.
///
/// Floating-point fields are carried as their IEEE-754 bit patterns
/// (`F32Bits`, `F64Bits`): the encoding of a float is exactly the
/// big-endian encoding of its bit pattern.
#[derive(Clone, Copy, Debug, PartialEq, Eq, Structural)]
pub enum FieldValue {
    U8(u8),
    I8(i8),
    U16(u16),
    I16(i16),
    U32(u32),
    I32(i32),
    U64(u64),
    I64(i64),
    F32Bits(u32),
    F64Bits(u64),
}

/// The wire width of a field, in bytes.
pub open spec fn field_width(f: FieldValue) -> nat {
    match f {
        FieldValue::U8(_) => 1,
        FieldValue::I8(_) => 1,
        FieldValue::U16(_) => 2,
        FieldValue::I16(_) => 2,
        FieldValue::U32(_) => 4,
        FieldValue::I32(_) => 4,
        FieldValue::U64(_) => 8,
        FieldValue::I64(_) => 8,
        FieldValue::F32Bits(_) => 4,
        FieldValue::F64Bits(_) => 8,
    }
}

/// The unsigned bit pattern a field puts on the wire.  Signed values
/// are in two's complement: a negative `v` of width `w` becomes
/// `v + 256^w`.
pub open spec fn field_bits(f: FieldValue) -> nat {
    match f {
        FieldValue::U8(v) => v as nat,
        FieldValue::I8(v) => if v >= 0 {
            v as nat
        } else {
            (v + 0x100) as nat
        },
        FieldValue::U16(v) => v as nat,
        FieldValue::I16(v) => if v >= 0 {
            v as nat
        } else {
            (v + 0x1_0000) as nat
        },
        FieldValue::U32(v) => v as nat,
        FieldValue::I32(v) => if v >= 0 {
            v as nat
        } else {
            (v + 0x1_0000_0000) as nat
        },
        FieldValue::U64(v) => v as nat,
        FieldValue::I64(v) => if v >= 0 {
            v as nat
        } else {
            (v + 0x1_0000_0000_0000_0000) as nat
        },
        FieldValue::F32Bits(v) => v as nat,
        FieldValue::F64Bits(v) => v as nat,
    }
}

/// The bytes a field contributes to the wire image.
pub open spec fn field_bytes(f: FieldValue) -> Seq<u8> {
    be_bytes(field_bits(f), field_width(f))
}

/// The capacities of the four field widths, written out.
pub proof fn lemma_pow256_values()
    ensures
        pow256(1) == 0x100,
        pow256(2) == 0x1_0000,
        pow256(4) == 0x1_0000_0000,
        pow256(8) == 0x1_0000_0000_0000_0000,
{
    assert(pow256(0) == 1);
    assert(pow256(1) == 0x100);
    assert(pow256(2) == 0x1_0000);
    assert(pow256(3) == 0x100_0000);
    assert(pow256(4) == 0x1_0000_0000);
    assert(pow256(5) == 0x100_0000_0000);
    assert(pow256(6) == 0x1_0000_0000_0000);
    assert(pow256(7) == 0x100_0000_0000_0000);
    assert(pow256(8) == 0x1_0000_0000_0000_0000);
}

/// Every field's bit pattern fits its declared width, so by
/// `lemma_be_round_trip` the emitted bytes determine the value exactly.
pub proof fn lemma_field_bits_in_range(f: FieldValue)
    ensures
        field_bits(f) < pow256(field_width(f)),
{
    lemma_pow256_values();
}

/// Appends the `w`-byte big-endian encoding of `v` to `sink`.
pub fn push_be(sink: &mut Vec<u8>, v: u64, w: usize)
    ensures
        final(sink)@ == old(sink)@ + be_bytes(v as nat, w as nat),
    decreases w,
{
    if w == 0 {
        assert(sink@ =~= old(sink)@ + be_bytes(v as nat, 0));
    } else {
        push_be(sink, v / 256, w - 1);
        sink.push((v % 256) as u8);
        assert(sink@ =~= old(sink)@ + be_bytes(v as nat, w as nat));
    }
}

/// Appends the big-endian encoding of one field to `sink`.
pub fn push_field(sink: &mut Vec<u8>, f: &FieldValue)
    ensures
        final(sink)@ == old(sink)@ + field_bytes(*f),
{
    match *f {
        FieldValue::U8(v) => push_be(sink, v as u64, 1),
        FieldValue::I8(v) => {
            let bits: u64 = if v >= 0 {
                v as u64
            } else {
                (v as i16 + 0x100) as u64
            };
            push_be(sink, bits, 1);
        },
        FieldValue::U16(v) => push_be(sink, v as u64, 2),
        FieldValue::I16(v) => {
            let bits: u64 = if v >= 0 {
                v as u64
            } else {
                (v as i32 + 0x1_0000) as u64
            };
            push_be(sink, bits, 2);
        },
        FieldValue::U32(v) => push_be(sink, v as u64, 4),
        FieldValue::I32(v) => {
            let bits: u64 = if v >= 0 {
                v as u64
            } else {
                (v as i64 + 0x1_0000_0000) as u64
            };
            push_be(sink, bits, 4);
        },
        FieldValue::U64(v) => push_be(sink, v, 8),
        FieldValue::I64(v) => {
            let bits: u64 = if v >= 0 {
                v as u64
            } else {
                (v as i128 + 0x1_0000_0000_0000_0000) as u64
            };
            push_be(sink, bits, 8);
        },
        FieldValue::F32Bits(v) => push_be(sink, v as u64, 4),
        FieldValue::F64Bits(v) => push_be(sink, v, 8),
    }
}

/// The two constant bytes that open every message of one message type:
/// a message class and a message type, raw byte constants.
#[derive(Clone, Copy, Debug, PartialEq, Eq, Structural)]
pub struct PacketHeader {
    pub msg_class: u8,
    pub msg_type: u8,
}

/// The bytes of a field list, in declared order.
pub open spec fn fields_bytes(fs: Seq<FieldValue>) -> Seq<u8>
    decreases fs.len(),
{
    if fs.len() == 0 {
        Seq::empty()
    } else {
        fields_bytes(fs.drop_last()) + field_bytes(fs.last())
    }
}

/// The total wire width of a field list, in bytes.
pub open spec fn fields_width(fs: Seq<FieldValue>) -> nat
    decreases fs.len(),
{
    if fs.len() == 0 {
        0nat
    } else {
        fields_width(fs.drop_last()) + field_width(fs.last())
    }
}

/// The full wire image of a message: the two header bytes, then each
/// field in declared order, big-endian, with no padding and no length
/// prefix.
pub open spec fn message_bytes(h: PacketHeader, fs: Seq<FieldValue>) -> Seq<u8> {
    seq![h.msg_class, h.msg_type] + fields_bytes(fs)
}

/// Appending one more field to a prefix of a field list appends that
/// field's bytes to the prefix's bytes.
pub proof fn lemma_fields_bytes_take_step(fs: Seq<FieldValue>, i: int)
    requires
        0 <= i < fs.len(),
    ensures
        fields_bytes(fs.take(i + 1)) == fields_bytes(fs.take(i)) + field_bytes(fs[i]),
        fields_width(fs.take(i + 1)) == fields_width(fs.take(i)) + field_width(fs[i]),
{
    assert(fs.take(i + 1).drop_last() =~= fs.take(i));
    assert(fs.take(i + 1).last() == fs[i]);
}

/// Where field `i`'s bytes begin inside the field area (not counting
/// the two header bytes).
pub open spec fn field_offset(fs: Seq<FieldValue>, i: int) -> nat {
    fields_width(fs.take(i))
}

/// A field list's bytes are exactly as long as its total wire width.
pub proof fn lemma_fields_bytes_len(fs: Seq<FieldValue>)
    ensures
        fields_bytes(fs).len() == fields_width(fs),
    decreases fs.len(),
{
    if fs.len() > 0 {
        lemma_fields_bytes_len(fs.drop_last());
        lemma_be_bytes_len(field_bits(fs.last()), field_width(fs.last()));
    }
}

/// Field `i` occupies exactly the bytes `field_offset(fs, i)` up to
/// `field_offset(fs, i) + field_width(fs[i])` of the field area, and
/// those bytes are its big-endian encoding.
pub proof fn lemma_fields_bytes_field_region(fs: Seq<FieldValue>, i: int)
    requires
        0 <= i < fs.len(),
    ensures
        field_offset(fs, i) + field_width(fs[i]) <= fields_width(fs),
        fields_bytes(fs).subrange(
            field_offset(fs, i) as int,
            field_offset(fs, i) as int + field_width(fs[i]) as int,
        ) == field_bytes(fs[i]),
    decreases fs.len(),
{
    lemma_fields_bytes_len(fs);
    lemma_fields_bytes_len(fs.drop_last());
    lemma_be_bytes_len(field_bits(fs.last()), field_width(fs.last()));
    let off = field_offset(fs, i) as int;
    let w = field_width(fs[i]) as int;
    if i == fs.len() - 1 {
        assert(fs.take(i) =~= fs.drop_last());
        assert(fields_bytes(fs).subrange(off, off + w) =~= field_bytes(fs[i]));
    } else {
        let p = fs.drop_last();
        lemma_fields_bytes_field_region(p, i);
        assert(fs.take(i) =~= p.take(i));
        assert(fields_bytes(fs).subrange(off, off + w) =~= fields_bytes(p).subrange(
            off,
            off + w,
        ));
    }
}

/// The wire layout of a message, byte for byte: the image is exactly
/// `2 + fields_width(fs)` bytes; bytes 0 and 1 are the declared header
/// constants; and each field's region is the big-endian encoding of
/// that field's value.
pub proof fn lemma_message_layout(h: PacketHeader, fs: Seq<FieldValue>)
    ensures
        message_bytes(h, fs).len() == 2 + fields_width(fs),
        message_bytes(h, fs)[0] == h.msg_class,
        message_bytes(h, fs)[1] == h.msg_type,
        forall|i: int|
            0 <= i < fs.len() ==> #[trigger] message_bytes(h, fs).subrange(
                2 + field_offset(fs, i) as int,
                2 + field_offset(fs, i) as int + field_width(fs[i]) as int,
            ) == field_bytes(fs[i]),
{
    lemma_fields_bytes_len(fs);
    assert forall|i: int| 0 <= i < fs.len() implies #[trigger] message_bytes(h, fs).subrange(
        2 + field_offset(fs, i) as int,
        2 + field_offset(fs, i) as int + field_width(fs[i]) as int,
    ) == field_bytes(fs[i]) by {
        lemma_fields_bytes_field_region(fs, i);
        let off = field_offset(fs, i) as int;
        let w = field_width(fs[i]) as int;
        assert(message_bytes(h, fs).subrange(2 + off, 2 + off + w) =~= fields_bytes(fs).subrange(
            off,
            off + w,
        ));
    }
}

/// Round trip for one field: the emitted `w` bytes, read back as a
/// big-endian integer, are exactly the field's bit pattern — no
/// precision loss and no byte-order ambiguity, for integer fields and
/// IEEE-754 bit patterns alike.
pub proof fn lemma_field_round_trip(f: FieldValue)
    ensures
        field_bytes(f).len() == field_width(f),
        be_value(field_bytes(f)) == field_bits(f),
{
    lemma_field_bits_in_range(f);
    lemma_be_round_trip(field_bits(f), field_width(f));
}

/// The encoding is unambiguous: two fields of the same kind that emit
/// the same bytes are the same value.  Together with
/// `lemma_field_round_trip` this rules out both precision loss and
/// byte-order ambiguity.
pub proof fn lemma_field_encoding_injective(f1: FieldValue, f2: FieldValue)
    requires
        field_bytes(f1) == field_bytes(f2),
        (f1 is U8 && f2 is U8) || (f1 is I8 && f2 is I8) || (f1 is U16 && f2 is U16) || (f1 is I16
            && f2 is I16) || (f1 is U32 && f2 is U32) || (f1 is I32 && f2 is I32) || (f1 is U64
            && f2 is U64) || (f1 is I64 && f2 is I64) || (f1 is F32Bits && f2 is F32Bits) || (
        f1 is F64Bits && f2 is F64Bits),
    ensures
        f1 == f2,
{
    lemma_field_round_trip(f1);
    lemma_field_round_trip(f2);
    assert(field_bits(f1) == field_bits(f2));
}

/// A message type that can be put on the wire: its header and field
/// list are fixed by the implementing type, and `serialize` appends the
/// byte-exact wire image to the sink.
///
/// Only the fixed-width numeric field values of [`FieldValue`] can
/// appear in `wire_fields`, so the set of serializable field types is
/// closed at the point a message type is defined.
pub trait OutPacket {
    /// The two constant header bytes of this message type.
    spec fn wire_header(&self) -> PacketHeader;

    /// The message's fields, in declared order.
    spec fn wire_fields(&self) -> Seq<FieldValue>;

    /// Appends the wire image of the message to `sink`: the header
    /// bytes, then each field big-endian in declared order.
    fn serialize(&self, sink: &mut Vec<u8>)
        ensures
            final(sink)@ == old(sink)@ + message_bytes(self.wire_header(), self.wire_fields()),
    ;
}

/// A message held as plain data: a header plus an ordered field list.
#[derive(Debug)]
pub struct Message {
    pub header: PacketHeader,
    pub fields: Vec<FieldValue>,
}

impl OutPacket for Message {
    open spec fn wire_header(&self) -> PacketHeader {
        self.header
    }

    open spec fn wire_fields(&self) -> Seq<FieldValue> {
        self.fields@
    }

    fn serialize(&self, sink: &mut Vec<u8>) {
        sink.push(self.header.msg_class);
        sink.push(self.header.msg_type);
        let n = self.fields.len();
        let mut i: usize = 0;
        while i < n
            invariant
                n == self.fields.len(),
                i <= n,
                sink@ == old(sink)@ + seq![self.header.msg_class, self.header.msg_type]
                    + fields_bytes(self.fields@.take(i as int)),
            decreases n - i,
        {
            proof {
                lemma_fields_bytes_take_step(self.fields@, i as int);
            }
            push_field(sink, &self.fields[i]);
            i = i + 1;
        }
        proof {
            assert(self.fields@.take(n as int) =~= self.fields@);
        }
    }
}

/// Serializes a message into a fresh buffer: exactly its wire image,
/// ready to be handed to a frame send in one piece (the buffering that
/// callers needing atomic frame emission do before sending).
pub fn to_wire_bytes<T: OutPacket>(msg: &T) -> (r: Vec<u8>)
    ensures
        r@ == message_bytes(msg.wire_header(), msg.wire_fields()),
{
    let mut sink: Vec<u8> = Vec::new();
    msg.serialize(&mut sink);
    proof {
        assert(sink@ =~= message_bytes(msg.wire_header(), msg.wire_fields()));
    }
    sink
}

} // verus!
