use vstd::prelude::*;
use crate::codec::{Decode, Decoder, Encodee, Encoder};

verus! {

/// Format flag: pointer-width values take eight bytes.
pub const FLAG_X64: u8 = 1;

/// Format flag: the program is meant to be executed (reserved, not checked).
pub const FLAG_EXEC: u8 = 2;

/// The one-byte record at the start of every program.
#[derive(Clone, Copy, Debug, PartialEq, Eq, Structural)]
pub struct BytecodeHeader {
    pub format: u8,
}

impl BytecodeHeader {
    /// Whether bit 0 is set: the program's pointers are 64-bit.
    pub open spec fn spec_x64(&self) -> bool {
        self.format % 2 == 1
    }

    /// Whether bit 1 is set.
    pub open spec fn spec_exec(&self) -> bool {
        (self.format / 2) % 2 == 1
    }

    /// A header with the given flags and no reserved bit set.
    pub fn new(x64: bool, exec: bool) -> (r: BytecodeHeader)
        ensures
            r.spec_x64() == x64,
            r.spec_exec() == exec,
            r.format < 4,
    {
        let a: u8 = if x64 { FLAG_X64 } else { 0 };
        let b: u8 = if exec { FLAG_EXEC } else { 0 };
        BytecodeHeader { format: a + b }
    }

    pub fn is_x64(&self) -> (r: bool)
        ensures
            r == self.spec_x64(),
    {
        self.format % 2 == 1
    }

    pub fn is_exec(&self) -> (r: bool)
        ensures
            r == self.spec_exec(),
    {
        (self.format / 2) % 2 == 1
    }
}

impl Encodee for BytecodeHeader {
    open spec fn encoding(&self, x64: bool) -> Seq<u8> {
        seq![self.format]
    }

    fn write(&self, encoder: &mut Encoder) {
        encoder.write(self.format);
    }
}

impl Decode for BytecodeHeader {
    open spec fn width(x64: bool) -> nat {
        1
    }

    open spec fn from_bytes(s: Seq<u8>, x64: bool) -> BytecodeHeader {
        BytecodeHeader { format: s[0] }
    }

    open spec fn decodable(s: Seq<u8>, x64: bool) -> bool {
        true
    }

    open spec fn representable(&self, x64: bool) -> bool {
        true
    }

    fn read(decoder: &mut Decoder) -> (r: Option<BytecodeHeader>) {
        match decoder.read_byte() {
            Some(b) => Some(BytecodeHeader { format: b }),
            None => None,
        }
    }

    proof fn lemma_decode_encode(v: BytecodeHeader, x64: bool) {
    }
}

} // verus!
