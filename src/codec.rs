use vstd::prelude::*;
use crate::catalog::{lemma_tag_round_trip, opcode_of, tag_of, OpCode, OPCODE_COUNT};
use crate::var_helper::VarHelper;

verus! {

/// Big-endian bytes of a 16-bit value.
pub open spec fn be16(x: u16) -> Seq<u8> {
    seq![(x >> 8u16) as u8, x as u8]
}

/// Big-endian bytes of a 32-bit value.
pub open spec fn be32(x: u32) -> Seq<u8> {
    seq![(x >> 24u32) as u8, (x >> 16u32) as u8, (x >> 8u32) as u8, x as u8]
}

/// Big-endian bytes of a 64-bit value.
pub open spec fn be64(x: u64) -> Seq<u8> {
    seq![
        (x >> 56u64) as u8,
        (x >> 48u64) as u8,
        (x >> 40u64) as u8,
        (x >> 32u64) as u8,
        (x >> 24u64) as u8,
        (x >> 16u64) as u8,
        (x >> 8u64) as u8,
        x as u8,
    ]
}

/// The 16-bit value of the first two bytes, most significant first.
pub open spec fn from_be16(s: Seq<u8>) -> u16 {
    ((s[0] as u16) << 8u16) | (s[1] as u16)
}

/// The 32-bit value of the first four bytes, most significant first.
pub open spec fn from_be32(s: Seq<u8>) -> u32 {
    ((s[0] as u32) << 24u32) | ((s[1] as u32) << 16u32) | ((s[2] as u32) << 8u32) | (s[3] as u32)
}

/// The 64-bit value of the first eight bytes, most significant first.
pub open spec fn from_be64(s: Seq<u8>) -> u64 {
    ((s[0] as u64) << 56u64) | ((s[1] as u64) << 48u64) | ((s[2] as u64) << 40u64) | ((s[3] as u64)
        << 32u64) | ((s[4] as u64) << 24u64) | ((s[5] as u64) << 16u64) | ((s[6] as u64) << 8u64)
        | (s[7] as u64)
}

proof fn lemma_be16_bits(x: u16)
    by (bit_vector)
    ensures
        ((((x >> 8u16) as u8) as u16) << 8u16) | (((x as u8) as u16)) == x,
{
}

proof fn lemma_be32_bits(x: u32)
    by (bit_vector)
    ensures
        ((((x >> 24u32) as u8) as u32) << 24u32) | ((((x >> 16u32) as u8) as u32) << 16u32) | ((((x
            >> 8u32) as u8) as u32) << 8u32) | ((x as u8) as u32) == x,
{
}

proof fn lemma_be64_bits(x: u64)
    by (bit_vector)
    ensures
        ((((x >> 56u64) as u8) as u64) << 56u64) | ((((x >> 48u64) as u8) as u64) << 48u64) | ((((x
            >> 40u64) as u8) as u64) << 40u64) | ((((x >> 32u64) as u8) as u64) << 32u64) | ((((x
            >> 24u64) as u8) as u64) << 24u64) | ((((x >> 16u64) as u8) as u64) << 16u64) | ((((x
            >> 8u64) as u8) as u64) << 8u64) | ((x as u8) as u64) == x,
{
}

/// Decoding the big-endian bytes of a value gives the value back.
pub proof fn lemma_be_round_trip(a: u16, b: u32, c: u64)
    ensures
        from_be16(be16(a)) == a,
        from_be32(be32(b)) == b,
        from_be64(be64(c)) == c,
{
    lemma_be16_bits(a);
    lemma_be32_bits(b);
    lemma_be64_bits(c);
}

proof fn lemma_signed_bits(a: i8, b: i16, c: i32, d: i64)
    by (bit_vector)
    ensures
        (a as u8) as i8 == a,
        (b as u16) as i16 == b,
        (c as u32) as i32 == c,
        (d as u64) as i64 == d,
{
}

/// A growable byte sink. Every value is appended in its canonical encoding:
/// fixed width, big-endian, pointer-width values on 4 or 8 bytes as configured.
pub struct Encoder {
    x64: bool,
    bytes: Vec<u8>,
    vars: VarHelper,
}

impl Encoder {
    /// The bytes written so far.
    pub closed spec fn output(&self) -> Seq<u8> {
        self.bytes@
    }

    /// Whether pointer-width values take eight bytes (else four).
    pub closed spec fn is_x64(&self) -> bool {
        self.x64
    }

    /// The names bound so far.
    pub closed spec fn symbols(&self) -> VarHelper {
        self.vars
    }

    pub open spec fn wf(&self) -> bool {
        self.symbols().wf()
    }

    /// An empty sink with the given pointer width and no name bound.
    pub fn new(x64: bool) -> (r: Encoder)
        ensures
            r.wf(),
            r.output() == Seq::<u8>::empty(),
            r.is_x64() == x64,
            r.symbols().bindings() == Seq::<(Seq<char>, u16)>::empty(),
            r.symbols().next_id() == 0,
    {
        Encoder { x64, bytes: Vec::new(), vars: VarHelper::new() }
    }

    pub fn vars(&self) -> (r: &VarHelper)
        ensures
            *r == self.symbols(),
    {
        &self.vars
    }

    pub fn vars_mut(&mut self) -> (r: &mut VarHelper)
        ensures
            *r == old(self).symbols(),
            final(self).symbols() == *final(r),
            final(self).output() == old(self).output(),
            final(self).is_x64() == old(self).is_x64(),
    {
        &mut self.vars
    }

    pub fn x64(&self) -> (r: bool)
        ensures
            r == self.is_x64(),
    {
        self.x64
    }

    /// The bytes written so far.
    pub fn bytes(&self) -> (r: &Vec<u8>)
        ensures
            r@ == self.output(),
    {
        &self.bytes
    }

    /// Gives up the sink and returns its bytes.
    pub fn into_bytes(self) -> (r: Vec<u8>)
        ensures
            r@ == self.output(),
    {
        self.bytes
    }

    fn write_byte(&mut self, byte: u8)
        ensures
            final(self).output() == old(self).output().push(byte),
            final(self).is_x64() == old(self).is_x64(),
            final(self).symbols() == old(self).symbols(),
    {
        self.bytes.push(byte);
    }

    /// Appends `bytes` as they are.
    pub fn write_slice(&mut self, bytes: &[u8])
        ensures
            final(self).output() == old(self).output() + bytes@,
            final(self).is_x64() == old(self).is_x64(),
            final(self).symbols() == old(self).symbols(),
    {
        let mut i: usize = 0;
        while i < bytes.len()
            invariant
                i <= bytes@.len(),
                self.output() == old(self).output() + bytes@.subrange(0, i as int),
                self.is_x64() == old(self).is_x64(),
                self.symbols() == old(self).symbols(),
            decreases bytes@.len() - i,
        {
            self.write_byte(bytes[i]);
            i = i + 1;
            assert(bytes@.subrange(0, i as int) == bytes@.subrange(0, i - 1).push(bytes@[i - 1]));
        }
        assert(bytes@.subrange(0, i as int) == bytes@);
    }

    /// Appends the encoding of `val`.
    pub fn write<T: Encodee>(&mut self, val: T)
        ensures
            final(self).output() == old(self).output() + val.encoding(old(self).is_x64()),
            final(self).is_x64() == old(self).is_x64(),
            final(self).symbols() == old(self).symbols(),
    {
        val.write(self);
    }
}

/// A value with a canonical byte encoding.
pub trait Encodee {
    /// The bytes that encode this value under the given pointer width.
    spec fn encoding(&self, x64: bool) -> Seq<u8>;

    fn write(&self, encoder: &mut Encoder)
        ensures
            final(encoder).output() == old(encoder).output() + self.encoding(
                old(encoder).is_x64(),
            ),
            final(encoder).is_x64() == old(encoder).is_x64(),
            final(encoder).symbols() == old(encoder).symbols(),
    ;
}

impl Encodee for u8 {
    open spec fn encoding(&self, x64: bool) -> Seq<u8> {
        seq![*self]
    }

    fn write(&self, encoder: &mut Encoder) {
        encoder.write_byte(*self);
        assert(encoder.output() == old(encoder).output() + seq![*self]);
    }
}

impl Encodee for bool {
    open spec fn encoding(&self, x64: bool) -> Seq<u8> {
        seq![if *self { 1u8 } else { 0u8 }]
    }

    fn write(&self, encoder: &mut Encoder) {
        let b: u8 = if *self { 1 } else { 0 };
        encoder.write_byte(b);
        assert(encoder.output() == old(encoder).output() + seq![b]);
    }
}

impl Encodee for u16 {
    open spec fn encoding(&self, x64: bool) -> Seq<u8> {
        be16(*self)
    }

    fn write(&self, encoder: &mut Encoder) {
        let x = *self;
        encoder.write_byte((x >> 8u16) as u8);
        encoder.write_byte(x as u8);
        assert(encoder.output() == old(encoder).output() + be16(x));
    }
}

impl Encodee for u32 {
    open spec fn encoding(&self, x64: bool) -> Seq<u8> {
        be32(*self)
    }

    fn write(&self, encoder: &mut Encoder) {
        let x = *self;
        encoder.write_byte((x >> 24u32) as u8);
        encoder.write_byte((x >> 16u32) as u8);
        encoder.write_byte((x >> 8u32) as u8);
        encoder.write_byte(x as u8);
        assert(encoder.output() == old(encoder).output() + be32(x));
    }
}

impl Encodee for u64 {
    open spec fn encoding(&self, x64: bool) -> Seq<u8> {
        be64(*self)
    }

    fn write(&self, encoder: &mut Encoder) {
        let x = *self;
        encoder.write_byte((x >> 56u64) as u8);
        encoder.write_byte((x >> 48u64) as u8);
        encoder.write_byte((x >> 40u64) as u8);
        encoder.write_byte((x >> 32u64) as u8);
        encoder.write_byte((x >> 24u64) as u8);
        encoder.write_byte((x >> 16u64) as u8);
        encoder.write_byte((x >> 8u64) as u8);
        encoder.write_byte(x as u8);
        assert(encoder.output() == old(encoder).output() + be64(x));
    }
}

impl Encodee for usize {
    open spec fn encoding(&self, x64: bool) -> Seq<u8> {
        if x64 {
            be64(*self as u64)
        } else {
            be32(*self as u32)
        }
    }

    fn write(&self, encoder: &mut Encoder) {
        if encoder.x64 {
            (*self as u64).write(encoder);
        } else {
            (*self as u32).write(encoder);
        }
    }
}

impl Encodee for i8 {
    open spec fn encoding(&self, x64: bool) -> Seq<u8> {
        seq![*self as u8]
    }

    fn write(&self, encoder: &mut Encoder) {
        (*self as u8).write(encoder);
    }
}

impl Encodee for i16 {
    open spec fn encoding(&self, x64: bool) -> Seq<u8> {
        be16(*self as u16)
    }

    fn write(&self, encoder: &mut Encoder) {
        (*self as u16).write(encoder);
    }
}

impl Encodee for i32 {
    open spec fn encoding(&self, x64: bool) -> Seq<u8> {
        be32(*self as u32)
    }

    fn write(&self, encoder: &mut Encoder) {
        (*self as u32).write(encoder);
    }
}

impl Encodee for i64 {
    open spec fn encoding(&self, x64: bool) -> Seq<u8> {
        be64(*self as u64)
    }

    fn write(&self, encoder: &mut Encoder) {
        (*self as u64).write(encoder);
    }
}

impl Encodee for isize {
    open spec fn encoding(&self, x64: bool) -> Seq<u8> {
        if x64 {
            be64(*self as u64)
        } else {
            be32(*self as u32)
        }
    }

    fn write(&self, encoder: &mut Encoder) {
        if encoder.x64 {
            (*self as u64).write(encoder);
        } else {
            (*self as u32).write(encoder);
        }
    }
}

impl Encodee for OpCode {
    open spec fn encoding(&self, x64: bool) -> Seq<u8> {
        seq![tag_of(*self)]
    }

    fn write(&self, encoder: &mut Encoder) {
        self.tag().write(encoder);
    }
}

/// A read cursor over an immutable byte buffer. Reads advance the cursor;
/// a read that would pass the end of the buffer returns `None` and moves nothing.
#[derive(Clone, Copy)]
pub struct Decoder<'a> {
    bytes: &'a [u8],
    offs: usize,
    x64: bool,
}

/// What is left of `data` from `pos` on (empty once `pos` passes the end).
pub open spec fn rest_of(data: Seq<u8>, pos: int) -> Seq<u8> {
    if pos <= data.len() {
        data.subrange(pos, data.len() as int)
    } else {
        Seq::empty()
    }
}

impl<'a> Decoder<'a> {
    /// The whole buffer.
    pub closed spec fn data(&self) -> Seq<u8> {
        self.bytes@
    }

    /// The cursor's offset into the buffer.
    pub closed spec fn pos(&self) -> int {
        self.offs as int
    }

    /// Whether pointer-width values take eight bytes (else four).
    pub closed spec fn is_x64(&self) -> bool {
        self.x64
    }

    /// The bytes not read yet.
    pub open spec fn rest(&self) -> Seq<u8> {
        rest_of(self.data(), self.pos())
    }

    /// A cursor at the start of `bytes`.
    pub fn new(bytes: &'a [u8], x64: bool) -> (r: Decoder<'a>)
        ensures
            r.data() == bytes@,
            r.pos() == 0,
            r.is_x64() == x64,
    {
        Decoder { bytes, offs: 0, x64 }
    }

    pub fn offset(&self) -> (r: usize)
        ensures
            r == self.pos(),
    {
        self.offs
    }

    pub fn x64(&self) -> (r: bool)
        ensures
            r == self.is_x64(),
    {
        self.x64
    }

    /// How many bytes are left to read.
    pub fn remaining(&self) -> (r: usize)
        ensures
            r == self.rest().len(),
    {
        if self.offs > self.bytes.len() {
            0
        } else {
            self.bytes.len() - self.offs
        }
    }

    /// Sets the pointer width used by later reads of `usize` and `isize`.
    pub fn set_x64(&mut self, x64: bool)
        ensures
            final(self).data() == old(self).data(),
            final(self).pos() == old(self).pos(),
            final(self).is_x64() == x64,
    {
        self.x64 = x64;
    }

    /// Claims the next `n` bytes; returns the offset they start at.
    fn take(&mut self, n: usize) -> (r: Option<usize>)
        ensures
            final(self).data() == old(self).data(),
            final(self).is_x64() == old(self).is_x64(),
            r.is_some() <==> old(self).pos() <= old(self).data().len() && n <= old(
                self,
            ).rest().len(),
            r matches Some(start) ==> {
                &&& start == old(self).pos()
                &&& start + n <= old(self).data().len()
                &&& final(self).pos() == start + n
            },
            r.is_none() ==> final(self).pos() == old(self).pos(),
    {
        if self.offs > self.bytes.len() || self.bytes.len() - self.offs < n {
            None
        } else {
            let start = self.offs;
            self.offs = self.offs + n;
            Some(start)
        }
    }

    /// Reads one byte.
    pub fn read_byte(&mut self) -> (r: Option<u8>)
        ensures
            final(self).data() == old(self).data(),
            final(self).is_x64() == old(self).is_x64(),
            r.is_some() <==> 1 <= old(self).rest().len(),
            r matches Some(b) ==> b == old(self).rest()[0] && final(self).pos() == old(self).pos()
                + 1,
            r.is_none() ==> final(self).pos() == old(self).pos(),
    {
        match self.take(1) {
            Some(start) => Some(self.bytes[start]),
            None => None,
        }
    }

    /// Reads the next `n` bytes as they are.
    pub fn read_slice(&mut self, n: usize) -> (r: Option<&'a [u8]>)
        ensures
            final(self).data() == old(self).data(),
            final(self).is_x64() == old(self).is_x64(),
            r.is_some() <==> old(self).pos() <= old(self).data().len() && n <= old(self).rest().len(),
            r matches Some(b) ==> b@ == old(self).rest().subrange(0, n as int) && final(self).pos()
                == old(self).pos() + n,
            r.is_none() ==> final(self).pos() == old(self).pos(),
    {
        match self.take(n) {
            Some(start) => {
                let b = vstd::slice::slice_subrange(self.bytes, start, start + n);
                assert(b@ =~= old(self).rest().subrange(0, n as int));
                Some(b)
            },
            None => None,
        }
    }

    /// Reads the next value of type `T`.
    pub fn read<T: Decode>(&mut self) -> (r: Option<T>)
        ensures
            final(self).data() == old(self).data(),
            final(self).is_x64() == old(self).is_x64(),
            r.is_some() <==> T::width(old(self).is_x64()) <= old(self).rest().len() && T::decodable(
                old(self).rest(),
                old(self).is_x64(),
            ),
            r matches Some(v) ==> {
                &&& v == T::from_bytes(old(self).rest(), old(self).is_x64())
                &&& final(self).pos() == old(self).pos() + T::width(old(self).is_x64())
            },
            r.is_none() ==> final(self).pos() == old(self).pos(),
    {
        T::read(self)
    }

    /// Reads an opcode tag. `Err` carries the byte when it names no opcode;
    /// `Ok(None)` means the buffer has ended.
    pub fn read_opcode(&mut self) -> (r: Result<Option<OpCode>, u8>)
        ensures
            final(self).data() == old(self).data(),
            final(self).is_x64() == old(self).is_x64(),
            old(self).rest().len() == 0 ==> r == Ok::<Option<OpCode>, u8>(None) && final(self).pos()
                == old(self).pos(),
            old(self).rest().len() > 0 ==> {
                &&& final(self).pos() == old(self).pos() + 1
                &&& r == match opcode_of(old(self).rest()[0]) {
                    Some(op) => Ok::<Option<OpCode>, u8>(Some(op)),
                    None => Err(old(self).rest()[0]),
                }
            },
    {
        match self.read_byte() {
            None => Ok(None),
            Some(b) => match OpCode::from_tag(b) {
                Some(op) => Ok(Some(op)),
                None => Err(b),
            },
        }
    }

    /// A cursor over the same buffer at offset `offs`.
    pub fn fork_abs(&self, offs: usize) -> (r: Decoder<'a>)
        ensures
            r.data() == self.data(),
            r.is_x64() == self.is_x64(),
            r.pos() == offs,
    {
        Decoder { bytes: self.bytes, offs, x64: self.x64 }
    }

    /// A cursor over the same buffer, `offs` bytes further on.
    pub fn fork_inc(&self, offs: usize) -> (r: Decoder<'a>)
        requires
            self.pos() + offs <= usize::MAX,
        ensures
            r.data() == self.data(),
            r.is_x64() == self.is_x64(),
            r.pos() == self.pos() + offs,
    {
        Decoder { bytes: self.bytes, offs: self.offs + offs, x64: self.x64 }
    }

    /// A cursor over the same buffer, `offs` bytes back.
    pub fn fork_dec(&self, offs: usize) -> (r: Decoder<'a>)
        requires
            offs <= self.pos(),
        ensures
            r.data() == self.data(),
            r.is_x64() == self.is_x64(),
            r.pos() == self.pos() - offs,
    {
        Decoder { bytes: self.bytes, offs: self.offs - offs, x64: self.x64 }
    }
}

/// A value that can be read back from its canonical encoding. A read returns
/// `None`, and moves nothing, where the bytes run out or encode no value.
pub trait Decode: Sized + Encodee {
    /// How many bytes the encoding takes under the given pointer width.
    spec fn width(x64: bool) -> nat;

    /// The value that the first `width` bytes of `s` encode.
    spec fn from_bytes(s: Seq<u8>, x64: bool) -> Self;

    /// Whether the first `width` bytes of `s` encode a value at all (only an
    /// opcode tag may not).
    spec fn decodable(s: Seq<u8>, x64: bool) -> bool;

    /// Whether the value survives the given pointer width (only pointer-width
    /// values may not).
    spec fn representable(&self, x64: bool) -> bool;

    fn read(decoder: &mut Decoder) -> (r: Option<Self>)
        ensures
            final(decoder).data() == old(decoder).data(),
            final(decoder).is_x64() == old(decoder).is_x64(),
            r.is_some() <==> Self::width(old(decoder).is_x64()) <= old(decoder).rest().len()
                && Self::decodable(old(decoder).rest(), old(decoder).is_x64()),
            r matches Some(v) ==> {
                &&& v == Self::from_bytes(old(decoder).rest(), old(decoder).is_x64())
                &&& final(decoder).pos() == old(decoder).pos() + Self::width(
                    old(decoder).is_x64(),
                )
            },
            r.is_none() ==> final(decoder).pos() == old(decoder).pos(),
    ;

    proof fn lemma_decode_encode(v: Self, x64: bool)
        requires
            v.representable(x64),
        ensures
            v.encoding(x64).len() == Self::width(x64),
            Self::decodable(v.encoding(x64), x64),
            Self::from_bytes(v.encoding(x64), x64) == v,
    ;
}

/// Decoding what encoding a value wrote gives the value back, bit for bit,
/// under either pointer width where the value fits it.
pub proof fn lemma_round_trip<T: Decode>(v: T, x64: bool)
    requires
        v.representable(x64),
    ensures
        v.encoding(x64).len() == T::width(x64),
        T::decodable(v.encoding(x64), x64),
        T::from_bytes(v.encoding(x64), x64) == v,
{
    T::lemma_decode_encode(v, x64);
}

impl Decode for u8 {
    open spec fn width(x64: bool) -> nat {
        1
    }

    open spec fn from_bytes(s: Seq<u8>, x64: bool) -> u8 {
        s[0]
    }

    open spec fn decodable(s: Seq<u8>, x64: bool) -> bool {
        true
    }

    open spec fn representable(&self, x64: bool) -> bool {
        true
    }

    fn read(decoder: &mut Decoder) -> (r: Option<u8>) {
        decoder.read_byte()
    }

    proof fn lemma_decode_encode(v: u8, x64: bool) {
    }
}

impl Decode for bool {
    open spec fn width(x64: bool) -> nat {
        1
    }

    open spec fn from_bytes(s: Seq<u8>, x64: bool) -> bool {
        s[0] != 0
    }

    open spec fn decodable(s: Seq<u8>, x64: bool) -> bool {
        true
    }

    open spec fn representable(&self, x64: bool) -> bool {
        true
    }

    fn read(decoder: &mut Decoder) -> (r: Option<bool>) {
        match decoder.read_byte() {
            Some(b) => Some(b != 0),
            None => None,
        }
    }

    proof fn lemma_decode_encode(v: bool, x64: bool) {
    }
}

impl Decode for i8 {
    open spec fn width(x64: bool) -> nat {
        1
    }

    open spec fn from_bytes(s: Seq<u8>, x64: bool) -> i8 {
        s[0] as i8
    }

    open spec fn decodable(s: Seq<u8>, x64: bool) -> bool {
        true
    }

    open spec fn representable(&self, x64: bool) -> bool {
        true
    }

    fn read(decoder: &mut Decoder) -> (r: Option<i8>) {
        match decoder.read_byte() {
            Some(b) => Some(b as i8),
            None => None,
        }
    }

    proof fn lemma_decode_encode(v: i8, x64: bool) {
        lemma_signed_bits(v, 0, 0, 0);
    }
}

impl<'a> Decoder<'a> {
    fn read_u16(&mut self) -> (r: Option<u16>)
        ensures
            final(self).data() == old(self).data(),
            final(self).is_x64() == old(self).is_x64(),
            r.is_some() <==> 2 <= old(self).rest().len(),
            r matches Some(v) ==> v == from_be16(old(self).rest()) && final(self).pos() == old(
                self,
            ).pos() + 2,
            r.is_none() ==> final(self).pos() == old(self).pos(),
    {
        match self.take(2) {
            Some(i) => Some(((self.bytes[i] as u16) << 8u16) | (self.bytes[i + 1] as u16)),
            None => None,
        }
    }

    fn read_u32(&mut self) -> (r: Option<u32>)
        ensures
            final(self).data() == old(self).data(),
            final(self).is_x64() == old(self).is_x64(),
            r.is_some() <==> 4 <= old(self).rest().len(),
            r matches Some(v) ==> v == from_be32(old(self).rest()) && final(self).pos() == old(
                self,
            ).pos() + 4,
            r.is_none() ==> final(self).pos() == old(self).pos(),
    {
        match self.take(4) {
            Some(i) => Some(((self.bytes[i] as u32) << 24u32) | ((self.bytes[i + 1] as u32) << 16u32)
                | ((self.bytes[i + 2] as u32) << 8u32) | (self.bytes[i + 3] as u32)),
            None => None,
        }
    }

    fn read_u64(&mut self) -> (r: Option<u64>)
        ensures
            final(self).data() == old(self).data(),
            final(self).is_x64() == old(self).is_x64(),
            r.is_some() <==> 8 <= old(self).rest().len(),
            r matches Some(v) ==> v == from_be64(old(self).rest()) && final(self).pos() == old(
                self,
            ).pos() + 8,
            r.is_none() ==> final(self).pos() == old(self).pos(),
    {
        match self.take(8) {
            Some(i) => Some(((self.bytes[i] as u64) << 56u64) | ((self.bytes[i + 1] as u64) << 48u64)
                | ((self.bytes[i + 2] as u64) << 40u64) | ((self.bytes[i + 3] as u64) << 32u64) | ((
            self.bytes[i + 4] as u64) << 24u64) | ((self.bytes[i + 5] as u64) << 16u64) | ((
            self.bytes[i + 6] as u64) << 8u64) | (self.bytes[i + 7] as u64)),
            None => None,
        }
    }
}

impl Decode for u16 {
    open spec fn width(x64: bool) -> nat {
        2
    }

    open spec fn from_bytes(s: Seq<u8>, x64: bool) -> u16 {
        from_be16(s)
    }

    open spec fn decodable(s: Seq<u8>, x64: bool) -> bool {
        true
    }

    open spec fn representable(&self, x64: bool) -> bool {
        true
    }

    fn read(decoder: &mut Decoder) -> (r: Option<u16>) {
        decoder.read_u16()
    }

    proof fn lemma_decode_encode(v: u16, x64: bool) {
        lemma_be_round_trip(v, 0, 0);
    }
}

impl Decode for u32 {
    open spec fn width(x64: bool) -> nat {
        4
    }

    open spec fn from_bytes(s: Seq<u8>, x64: bool) -> u32 {
        from_be32(s)
    }

    open spec fn decodable(s: Seq<u8>, x64: bool) -> bool {
        true
    }

    open spec fn representable(&self, x64: bool) -> bool {
        true
    }

    fn read(decoder: &mut Decoder) -> (r: Option<u32>) {
        decoder.read_u32()
    }

    proof fn lemma_decode_encode(v: u32, x64: bool) {
        lemma_be_round_trip(0, v, 0);
    }
}

impl Decode for u64 {
    open spec fn width(x64: bool) -> nat {
        8
    }

    open spec fn from_bytes(s: Seq<u8>, x64: bool) -> u64 {
        from_be64(s)
    }

    open spec fn decodable(s: Seq<u8>, x64: bool) -> bool {
        true
    }

    open spec fn representable(&self, x64: bool) -> bool {
        true
    }

    fn read(decoder: &mut Decoder) -> (r: Option<u64>) {
        decoder.read_u64()
    }

    proof fn lemma_decode_encode(v: u64, x64: bool) {
        lemma_be_round_trip(0, 0, v);
    }
}

impl Decode for i16 {
    open spec fn width(x64: bool) -> nat {
        2
    }

    open spec fn from_bytes(s: Seq<u8>, x64: bool) -> i16 {
        from_be16(s) as i16
    }

    open spec fn decodable(s: Seq<u8>, x64: bool) -> bool {
        true
    }

    open spec fn representable(&self, x64: bool) -> bool {
        true
    }

    fn read(decoder: &mut Decoder) -> (r: Option<i16>) {
        match decoder.read_u16() {
            Some(x) => Some(x as i16),
            None => None,
        }
    }

    proof fn lemma_decode_encode(v: i16, x64: bool) {
        lemma_be_round_trip(v as u16, 0, 0);
        lemma_signed_bits(0, v, 0, 0);
    }
}

impl Decode for i32 {
    open spec fn width(x64: bool) -> nat {
        4
    }

    open spec fn from_bytes(s: Seq<u8>, x64: bool) -> i32 {
        from_be32(s) as i32
    }

    open spec fn decodable(s: Seq<u8>, x64: bool) -> bool {
        true
    }

    open spec fn representable(&self, x64: bool) -> bool {
        true
    }

    fn read(decoder: &mut Decoder) -> (r: Option<i32>) {
        match decoder.read_u32() {
            Some(x) => Some(x as i32),
            None => None,
        }
    }

    proof fn lemma_decode_encode(v: i32, x64: bool) {
        lemma_be_round_trip(0, v as u32, 0);
        lemma_signed_bits(0, 0, v, 0);
    }
}

impl Decode for i64 {
    open spec fn width(x64: bool) -> nat {
        8
    }

    open spec fn from_bytes(s: Seq<u8>, x64: bool) -> i64 {
        from_be64(s) as i64
    }

    open spec fn decodable(s: Seq<u8>, x64: bool) -> bool {
        true
    }

    open spec fn representable(&self, x64: bool) -> bool {
        true
    }

    fn read(decoder: &mut Decoder) -> (r: Option<i64>) {
        match decoder.read_u64() {
            Some(x) => Some(x as i64),
            None => None,
        }
    }

    proof fn lemma_decode_encode(v: i64, x64: bool) {
        lemma_be_round_trip(0, 0, v as u64);
        lemma_signed_bits(0, 0, 0, v);
    }
}

impl Decode for usize {
    open spec fn width(x64: bool) -> nat {
        if x64 { 8 } else { 4 }
    }

    open spec fn from_bytes(s: Seq<u8>, x64: bool) -> usize {
        if x64 {
            from_be64(s) as usize
        } else {
            from_be32(s) as usize
        }
    }

    open spec fn decodable(s: Seq<u8>, x64: bool) -> bool {
        true
    }

    open spec fn representable(&self, x64: bool) -> bool {
        x64 || *self <= u32::MAX
    }

    fn read(decoder: &mut Decoder) -> (r: Option<usize>) {
        if decoder.x64 {
            match decoder.read_u64() {
                Some(x) => Some(x as usize),
                None => None,
            }
        } else {
            match decoder.read_u32() {
                Some(x) => Some(x as usize),
                None => None,
            }
        }
    }

    proof fn lemma_decode_encode(v: usize, x64: bool) {
        lemma_be_round_trip(0, v as u32, v as u64);
    }
}

impl Decode for isize {
    open spec fn width(x64: bool) -> nat {
        if x64 { 8 } else { 4 }
    }

    open spec fn from_bytes(s: Seq<u8>, x64: bool) -> isize {
        if x64 {
            from_be64(s) as i64 as isize
        } else {
            from_be32(s) as i32 as isize
        }
    }

    open spec fn decodable(s: Seq<u8>, x64: bool) -> bool {
        true
    }

    open spec fn representable(&self, x64: bool) -> bool {
        x64 || (i32::MIN <= *self && *self <= i32::MAX)
    }

    fn read(decoder: &mut Decoder) -> (r: Option<isize>) {
        if decoder.x64 {
            match decoder.read_u64() {
                Some(x) => Some(x as i64 as isize),
                None => None,
            }
        } else {
            match decoder.read_u32() {
                Some(x) => Some(x as i32 as isize),
                None => None,
            }
        }
    }

    proof fn lemma_decode_encode(v: isize, x64: bool) {
        lemma_be_round_trip(0, v as u32, v as u64);
        lemma_signed_bits(0, 0, v as i32, v as i64);
    }
}

impl Decode for OpCode {
    open spec fn width(x64: bool) -> nat {
        1
    }

    open spec fn decodable(s: Seq<u8>, x64: bool) -> bool {
        s[0] < OPCODE_COUNT
    }

    open spec fn from_bytes(s: Seq<u8>, x64: bool) -> OpCode {
        match opcode_of(s[0]) {
            Some(op) => op,
            None => OpCode::Nop,
        }
    }

    open spec fn representable(&self, x64: bool) -> bool {
        true
    }

    fn read(decoder: &mut Decoder) -> (r: Option<OpCode>) {
        if decoder.remaining() == 0 {
            return None;
        }
        match OpCode::from_tag(decoder.bytes[decoder.offs]) {
            Some(op) => {
                decoder.offs = decoder.offs + 1;
                Some(op)
            },
            None => None,
        }
    }

    proof fn lemma_decode_encode(v: OpCode, x64: bool) {
        lemma_tag_round_trip(v);
    }
}

} // verus!
