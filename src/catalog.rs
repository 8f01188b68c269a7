use vstd::prelude::*;

verus! {

/// Number of entries in the instruction catalog; every byte below it is a valid opcode tag.
pub const OPCODE_COUNT: u8 = 93;

/// Operand width of an integer instruction.
#[derive(Clone, Copy, Debug, PartialEq, Eq, Structural)]
pub enum Width {
    W8,
    W16,
    W32,
    W64,
}

/// What an opcode does, grouped by operand shape and semantics.
#[derive(Clone, Copy, Debug, PartialEq, Eq, Structural)]
pub enum Kind {
    Nop,
    /// Loads an immediate of the given width.
    Const(Width),
    /// Reads the source as a signed value of the given width and sign-extends it.
    SignExtend(Width),
    /// Reads the source as an unsigned value of the given width and zero-extends it.
    ZeroExtend(Width),
    /// Keeps the low bits of the given width, zero-extended.
    Truncate(Width),
    /// A floating-point instruction with one source register.
    FloatUnary,
    /// A floating-point instruction with two source registers.
    FloatBinary,
    Add(Width),
    Sub(Width),
    Mul(Width),
    DivS(Width),
    DivU(Width),
    ModS(Width),
    ModU(Width),
    And(Width),
    Or(Width),
    Xor(Width),
    Not(Width),
    Shl(Width),
    ShrU(Width),
    ShrS(Width),
    Rotl(Width),
    Rotr(Width),
    /// Stores the address of a register-file slot.
    RegAddr,
}

/// The instruction catalog. Each opcode's tag is its position in this list.
#[derive(Clone, Copy, Debug, PartialEq, Eq, Structural)]
pub enum OpCode {
    Nop,
    Const8,
    Const16,
    Const32,
    Const64,
    SignExt64,
    SignExt32,
    SignExt16,
    ZeroExt64,
    ZeroExt32,
    ZeroExt16,
    Truncat32,
    Truncat16,
    Truncat8,
    U32ToF32,
    I32ToF32,
    U64ToF64,
    I64ToF64,
    F32ToU32,
    F64ToU64,
    F32ToI32,
    F64ToI64,
    FProm,
    FDemo,
    IAdd32,
    IAdd64,
    ISub32,
    ISub64,
    FAdd32,
    FAdd64,
    FSub32,
    FSub64,
    IMul32,
    IMul64,
    FMul32,
    FMul64,
    IDivI8,
    IDivI16,
    IDivI32,
    IDivI64,
    IDivU8,
    IDivU16,
    IDivU32,
    IDivU64,
    FDiv32,
    FDiv64,
    IModI8,
    IModI16,
    IModI32,
    IModI64,
    IModU8,
    IModU16,
    IModU32,
    IModU64,
    FMod32,
    FMod64,
    IAnd8,
    IAnd16,
    IAnd32,
    IAnd64,
    IOr8,
    IOr16,
    IOr32,
    IOr64,
    IXor8,
    IXor16,
    IXor32,
    IXor64,
    INot8,
    INot16,
    INot32,
    INot64,
    ILsh8,
    ILsh16,
    ILsh32,
    ILsh64,
    IRshU8,
    IRshU16,
    IRshU32,
    IRshU64,
    IRshI8,
    IRshI16,
    IRshI32,
    IRshI64,
    ILrot8,
    ILrot16,
    ILrot32,
    ILrot64,
    IRrot8,
    IRrot16,
    IRrot32,
    IRrot64,
    RegAddr,
}

/// The tag of an opcode, by declaration order.
pub open spec fn tag_of(op: OpCode) -> u8 {
    match op {
        OpCode::Nop => 0,
        OpCode::Const8 => 1,
        OpCode::Const16 => 2,
        OpCode::Const32 => 3,
        OpCode::Const64 => 4,
        OpCode::SignExt64 => 5,
        OpCode::SignExt32 => 6,
        OpCode::SignExt16 => 7,
        OpCode::ZeroExt64 => 8,
        OpCode::ZeroExt32 => 9,
        OpCode::ZeroExt16 => 10,
        OpCode::Truncat32 => 11,
        OpCode::Truncat16 => 12,
        OpCode::Truncat8 => 13,
        OpCode::U32ToF32 => 14,
        OpCode::I32ToF32 => 15,
        OpCode::U64ToF64 => 16,
        OpCode::I64ToF64 => 17,
        OpCode::F32ToU32 => 18,
        OpCode::F64ToU64 => 19,
        OpCode::F32ToI32 => 20,
        OpCode::F64ToI64 => 21,
        OpCode::FProm => 22,
        OpCode::FDemo => 23,
        OpCode::IAdd32 => 24,
        OpCode::IAdd64 => 25,
        OpCode::ISub32 => 26,
        OpCode::ISub64 => 27,
        OpCode::FAdd32 => 28,
        OpCode::FAdd64 => 29,
        OpCode::FSub32 => 30,
        OpCode::FSub64 => 31,
        OpCode::IMul32 => 32,
        OpCode::IMul64 => 33,
        OpCode::FMul32 => 34,
        OpCode::FMul64 => 35,
        OpCode::IDivI8 => 36,
        OpCode::IDivI16 => 37,
        OpCode::IDivI32 => 38,
        OpCode::IDivI64 => 39,
        OpCode::IDivU8 => 40,
        OpCode::IDivU16 => 41,
        OpCode::IDivU32 => 42,
        OpCode::IDivU64 => 43,
        OpCode::FDiv32 => 44,
        OpCode::FDiv64 => 45,
        OpCode::IModI8 => 46,
        OpCode::IModI16 => 47,
        OpCode::IModI32 => 48,
        OpCode::IModI64 => 49,
        OpCode::IModU8 => 50,
        OpCode::IModU16 => 51,
        OpCode::IModU32 => 52,
        OpCode::IModU64 => 53,
        OpCode::FMod32 => 54,
        OpCode::FMod64 => 55,
        OpCode::IAnd8 => 56,
        OpCode::IAnd16 => 57,
        OpCode::IAnd32 => 58,
        OpCode::IAnd64 => 59,
        OpCode::IOr8 => 60,
        OpCode::IOr16 => 61,
        OpCode::IOr32 => 62,
        OpCode::IOr64 => 63,
        OpCode::IXor8 => 64,
        OpCode::IXor16 => 65,
        OpCode::IXor32 => 66,
        OpCode::IXor64 => 67,
        OpCode::INot8 => 68,
        OpCode::INot16 => 69,
        OpCode::INot32 => 70,
        OpCode::INot64 => 71,
        OpCode::ILsh8 => 72,
        OpCode::ILsh16 => 73,
        OpCode::ILsh32 => 74,
        OpCode::ILsh64 => 75,
        OpCode::IRshU8 => 76,
        OpCode::IRshU16 => 77,
        OpCode::IRshU32 => 78,
        OpCode::IRshU64 => 79,
        OpCode::IRshI8 => 80,
        OpCode::IRshI16 => 81,
        OpCode::IRshI32 => 82,
        OpCode::IRshI64 => 83,
        OpCode::ILrot8 => 84,
        OpCode::ILrot16 => 85,
        OpCode::ILrot32 => 86,
        OpCode::ILrot64 => 87,
        OpCode::IRrot8 => 88,
        OpCode::IRrot16 => 89,
        OpCode::IRrot32 => 90,
        OpCode::IRrot64 => 91,
        OpCode::RegAddr => 92,
    }
}

/// The opcode with the given tag, if there is one.
pub open spec fn opcode_of(b: u8) -> Option<OpCode> {
    match b {
        0 => Some(OpCode::Nop),
        1 => Some(OpCode::Const8),
        2 => Some(OpCode::Const16),
        3 => Some(OpCode::Const32),
        4 => Some(OpCode::Const64),
        5 => Some(OpCode::SignExt64),
        6 => Some(OpCode::SignExt32),
        7 => Some(OpCode::SignExt16),
        8 => Some(OpCode::ZeroExt64),
        9 => Some(OpCode::ZeroExt32),
        10 => Some(OpCode::ZeroExt16),
        11 => Some(OpCode::Truncat32),
        12 => Some(OpCode::Truncat16),
        13 => Some(OpCode::Truncat8),
        14 => Some(OpCode::U32ToF32),
        15 => Some(OpCode::I32ToF32),
        16 => Some(OpCode::U64ToF64),
        17 => Some(OpCode::I64ToF64),
        18 => Some(OpCode::F32ToU32),
        19 => Some(OpCode::F64ToU64),
        20 => Some(OpCode::F32ToI32),
        21 => Some(OpCode::F64ToI64),
        22 => Some(OpCode::FProm),
        23 => Some(OpCode::FDemo),
        24 => Some(OpCode::IAdd32),
        25 => Some(OpCode::IAdd64),
        26 => Some(OpCode::ISub32),
        27 => Some(OpCode::ISub64),
        28 => Some(OpCode::FAdd32),
        29 => Some(OpCode::FAdd64),
        30 => Some(OpCode::FSub32),
        31 => Some(OpCode::FSub64),
        32 => Some(OpCode::IMul32),
        33 => Some(OpCode::IMul64),
        34 => Some(OpCode::FMul32),
        35 => Some(OpCode::FMul64),
        36 => Some(OpCode::IDivI8),
        37 => Some(OpCode::IDivI16),
        38 => Some(OpCode::IDivI32),
        39 => Some(OpCode::IDivI64),
        40 => Some(OpCode::IDivU8),
        41 => Some(OpCode::IDivU16),
        42 => Some(OpCode::IDivU32),
        43 => Some(OpCode::IDivU64),
        44 => Some(OpCode::FDiv32),
        45 => Some(OpCode::FDiv64),
        46 => Some(OpCode::IModI8),
        47 => Some(OpCode::IModI16),
        48 => Some(OpCode::IModI32),
        49 => Some(OpCode::IModI64),
        50 => Some(OpCode::IModU8),
        51 => Some(OpCode::IModU16),
        52 => Some(OpCode::IModU32),
        53 => Some(OpCode::IModU64),
        54 => Some(OpCode::FMod32),
        55 => Some(OpCode::FMod64),
        56 => Some(OpCode::IAnd8),
        57 => Some(OpCode::IAnd16),
        58 => Some(OpCode::IAnd32),
        59 => Some(OpCode::IAnd64),
        60 => Some(OpCode::IOr8),
        61 => Some(OpCode::IOr16),
        62 => Some(OpCode::IOr32),
        63 => Some(OpCode::IOr64),
        64 => Some(OpCode::IXor8),
        65 => Some(OpCode::IXor16),
        66 => Some(OpCode::IXor32),
        67 => Some(OpCode::IXor64),
        68 => Some(OpCode::INot8),
        69 => Some(OpCode::INot16),
        70 => Some(OpCode::INot32),
        71 => Some(OpCode::INot64),
        72 => Some(OpCode::ILsh8),
        73 => Some(OpCode::ILsh16),
        74 => Some(OpCode::ILsh32),
        75 => Some(OpCode::ILsh64),
        76 => Some(OpCode::IRshU8),
        77 => Some(OpCode::IRshU16),
        78 => Some(OpCode::IRshU32),
        79 => Some(OpCode::IRshU64),
        80 => Some(OpCode::IRshI8),
        81 => Some(OpCode::IRshI16),
        82 => Some(OpCode::IRshI32),
        83 => Some(OpCode::IRshI64),
        84 => Some(OpCode::ILrot8),
        85 => Some(OpCode::ILrot16),
        86 => Some(OpCode::ILrot32),
        87 => Some(OpCode::ILrot64),
        88 => Some(OpCode::IRrot8),
        89 => Some(OpCode::IRrot16),
        90 => Some(OpCode::IRrot32),
        91 => Some(OpCode::IRrot64),
        92 => Some(OpCode::RegAddr),
        _ => None,
    }
}

/// The kind of each opcode.
pub open spec fn kind_of(op: OpCode) -> Kind {
    match op {
        OpCode::Nop => Kind::Nop,
        OpCode::Const8 => Kind::Const(Width::W8),
        OpCode::Const16 => Kind::Const(Width::W16),
        OpCode::Const32 => Kind::Const(Width::W32),
        OpCode::Const64 => Kind::Const(Width::W64),
        OpCode::SignExt64 => Kind::SignExtend(Width::W32),
        OpCode::SignExt32 => Kind::SignExtend(Width::W16),
        OpCode::SignExt16 => Kind::SignExtend(Width::W8),
        OpCode::ZeroExt64 => Kind::ZeroExtend(Width::W32),
        OpCode::ZeroExt32 => Kind::ZeroExtend(Width::W16),
        OpCode::ZeroExt16 => Kind::ZeroExtend(Width::W8),
        OpCode::Truncat32 => Kind::Truncate(Width::W32),
        OpCode::Truncat16 => Kind::Truncate(Width::W16),
        OpCode::Truncat8 => Kind::Truncate(Width::W8),
        OpCode::U32ToF32 => Kind::FloatUnary,
        OpCode::I32ToF32 => Kind::FloatUnary,
        OpCode::U64ToF64 => Kind::FloatUnary,
        OpCode::I64ToF64 => Kind::FloatUnary,
        OpCode::F32ToU32 => Kind::FloatUnary,
        OpCode::F64ToU64 => Kind::FloatUnary,
        OpCode::F32ToI32 => Kind::FloatUnary,
        OpCode::F64ToI64 => Kind::FloatUnary,
        OpCode::FProm => Kind::FloatUnary,
        OpCode::FDemo => Kind::FloatUnary,
        OpCode::IAdd32 => Kind::Add(Width::W32),
        OpCode::IAdd64 => Kind::Add(Width::W64),
        OpCode::ISub32 => Kind::Sub(Width::W32),
        OpCode::ISub64 => Kind::Sub(Width::W64),
        OpCode::FAdd32 => Kind::FloatBinary,
        OpCode::FAdd64 => Kind::FloatBinary,
        OpCode::FSub32 => Kind::FloatBinary,
        OpCode::FSub64 => Kind::FloatBinary,
        OpCode::IMul32 => Kind::Mul(Width::W32),
        OpCode::IMul64 => Kind::Mul(Width::W64),
        OpCode::FMul32 => Kind::FloatBinary,
        OpCode::FMul64 => Kind::FloatBinary,
        OpCode::IDivI8 => Kind::DivS(Width::W8),
        OpCode::IDivI16 => Kind::DivS(Width::W16),
        OpCode::IDivI32 => Kind::DivS(Width::W32),
        OpCode::IDivI64 => Kind::DivS(Width::W64),
        OpCode::IDivU8 => Kind::DivU(Width::W8),
        OpCode::IDivU16 => Kind::DivU(Width::W16),
        OpCode::IDivU32 => Kind::DivU(Width::W32),
        OpCode::IDivU64 => Kind::DivU(Width::W64),
        OpCode::FDiv32 => Kind::FloatBinary,
        OpCode::FDiv64 => Kind::FloatBinary,
        OpCode::IModI8 => Kind::ModS(Width::W8),
        OpCode::IModI16 => Kind::ModS(Width::W16),
        OpCode::IModI32 => Kind::ModS(Width::W32),
        OpCode::IModI64 => Kind::ModS(Width::W64),
        OpCode::IModU8 => Kind::ModU(Width::W8),
        OpCode::IModU16 => Kind::ModU(Width::W16),
        OpCode::IModU32 => Kind::ModU(Width::W32),
        OpCode::IModU64 => Kind::ModU(Width::W64),
        OpCode::FMod32 => Kind::FloatBinary,
        OpCode::FMod64 => Kind::FloatBinary,
        OpCode::IAnd8 => Kind::And(Width::W8),
        OpCode::IAnd16 => Kind::And(Width::W16),
        OpCode::IAnd32 => Kind::And(Width::W32),
        OpCode::IAnd64 => Kind::And(Width::W64),
        OpCode::IOr8 => Kind::Or(Width::W8),
        OpCode::IOr16 => Kind::Or(Width::W16),
        OpCode::IOr32 => Kind::Or(Width::W32),
        OpCode::IOr64 => Kind::Or(Width::W64),
        OpCode::IXor8 => Kind::Xor(Width::W8),
        OpCode::IXor16 => Kind::Xor(Width::W16),
        OpCode::IXor32 => Kind::Xor(Width::W32),
        OpCode::IXor64 => Kind::Xor(Width::W64),
        OpCode::INot8 => Kind::Not(Width::W8),
        OpCode::INot16 => Kind::Not(Width::W16),
        OpCode::INot32 => Kind::Not(Width::W32),
        OpCode::INot64 => Kind::Not(Width::W64),
        OpCode::ILsh8 => Kind::Shl(Width::W8),
        OpCode::ILsh16 => Kind::Shl(Width::W16),
        OpCode::ILsh32 => Kind::Shl(Width::W32),
        OpCode::ILsh64 => Kind::Shl(Width::W64),
        OpCode::IRshU8 => Kind::ShrU(Width::W8),
        OpCode::IRshU16 => Kind::ShrU(Width::W16),
        OpCode::IRshU32 => Kind::ShrU(Width::W32),
        OpCode::IRshU64 => Kind::ShrU(Width::W64),
        OpCode::IRshI8 => Kind::ShrS(Width::W8),
        OpCode::IRshI16 => Kind::ShrS(Width::W16),
        OpCode::IRshI32 => Kind::ShrS(Width::W32),
        OpCode::IRshI64 => Kind::ShrS(Width::W64),
        OpCode::ILrot8 => Kind::Rotl(Width::W8),
        OpCode::ILrot16 => Kind::Rotl(Width::W16),
        OpCode::ILrot32 => Kind::Rotl(Width::W32),
        OpCode::ILrot64 => Kind::Rotl(Width::W64),
        OpCode::IRrot8 => Kind::Rotr(Width::W8),
        OpCode::IRrot16 => Kind::Rotr(Width::W16),
        OpCode::IRrot32 => Kind::Rotr(Width::W32),
        OpCode::IRrot64 => Kind::Rotr(Width::W64),
        OpCode::RegAddr => Kind::RegAddr,
    }
}

impl OpCode {
    /// The opcode's one-byte tag.
    pub fn tag(&self) -> (r: u8)
        ensures
            r == tag_of(*self),
            r < OPCODE_COUNT,
    {
        match self {
            OpCode::Nop => 0,
            OpCode::Const8 => 1,
            OpCode::Const16 => 2,
            OpCode::Const32 => 3,
            OpCode::Const64 => 4,
            OpCode::SignExt64 => 5,
            OpCode::SignExt32 => 6,
            OpCode::SignExt16 => 7,
            OpCode::ZeroExt64 => 8,
            OpCode::ZeroExt32 => 9,
            OpCode::ZeroExt16 => 10,
            OpCode::Truncat32 => 11,
            OpCode::Truncat16 => 12,
            OpCode::Truncat8 => 13,
            OpCode::U32ToF32 => 14,
            OpCode::I32ToF32 => 15,
            OpCode::U64ToF64 => 16,
            OpCode::I64ToF64 => 17,
            OpCode::F32ToU32 => 18,
            OpCode::F64ToU64 => 19,
            OpCode::F32ToI32 => 20,
            OpCode::F64ToI64 => 21,
            OpCode::FProm => 22,
            OpCode::FDemo => 23,
            OpCode::IAdd32 => 24,
            OpCode::IAdd64 => 25,
            OpCode::ISub32 => 26,
            OpCode::ISub64 => 27,
            OpCode::FAdd32 => 28,
            OpCode::FAdd64 => 29,
            OpCode::FSub32 => 30,
            OpCode::FSub64 => 31,
            OpCode::IMul32 => 32,
            OpCode::IMul64 => 33,
            OpCode::FMul32 => 34,
            OpCode::FMul64 => 35,
            OpCode::IDivI8 => 36,
            OpCode::IDivI16 => 37,
            OpCode::IDivI32 => 38,
            OpCode::IDivI64 => 39,
            OpCode::IDivU8 => 40,
            OpCode::IDivU16 => 41,
            OpCode::IDivU32 => 42,
            OpCode::IDivU64 => 43,
            OpCode::FDiv32 => 44,
            OpCode::FDiv64 => 45,
            OpCode::IModI8 => 46,
            OpCode::IModI16 => 47,
            OpCode::IModI32 => 48,
            OpCode::IModI64 => 49,
            OpCode::IModU8 => 50,
            OpCode::IModU16 => 51,
            OpCode::IModU32 => 52,
            OpCode::IModU64 => 53,
            OpCode::FMod32 => 54,
            OpCode::FMod64 => 55,
            OpCode::IAnd8 => 56,
            OpCode::IAnd16 => 57,
            OpCode::IAnd32 => 58,
            OpCode::IAnd64 => 59,
            OpCode::IOr8 => 60,
            OpCode::IOr16 => 61,
            OpCode::IOr32 => 62,
            OpCode::IOr64 => 63,
            OpCode::IXor8 => 64,
            OpCode::IXor16 => 65,
            OpCode::IXor32 => 66,
            OpCode::IXor64 => 67,
            OpCode::INot8 => 68,
            OpCode::INot16 => 69,
            OpCode::INot32 => 70,
            OpCode::INot64 => 71,
            OpCode::ILsh8 => 72,
            OpCode::ILsh16 => 73,
            OpCode::ILsh32 => 74,
            OpCode::ILsh64 => 75,
            OpCode::IRshU8 => 76,
            OpCode::IRshU16 => 77,
            OpCode::IRshU32 => 78,
            OpCode::IRshU64 => 79,
            OpCode::IRshI8 => 80,
            OpCode::IRshI16 => 81,
            OpCode::IRshI32 => 82,
            OpCode::IRshI64 => 83,
            OpCode::ILrot8 => 84,
            OpCode::ILrot16 => 85,
            OpCode::ILrot32 => 86,
            OpCode::ILrot64 => 87,
            OpCode::IRrot8 => 88,
            OpCode::IRrot16 => 89,
            OpCode::IRrot32 => 90,
            OpCode::IRrot64 => 91,
            OpCode::RegAddr => 92,
        }
    }

    /// Decodes a tag; `None` for every byte at or past `OPCODE_COUNT`.
    pub fn from_tag(b: u8) -> (r: Option<OpCode>)
        ensures
            r == opcode_of(b),
            r.is_some() <==> b < OPCODE_COUNT,
            r matches Some(op) ==> tag_of(op) == b,
    {
        match b {
            0 => Some(OpCode::Nop),
            1 => Some(OpCode::Const8),
            2 => Some(OpCode::Const16),
            3 => Some(OpCode::Const32),
            4 => Some(OpCode::Const64),
            5 => Some(OpCode::SignExt64),
            6 => Some(OpCode::SignExt32),
            7 => Some(OpCode::SignExt16),
            8 => Some(OpCode::ZeroExt64),
            9 => Some(OpCode::ZeroExt32),
            10 => Some(OpCode::ZeroExt16),
            11 => Some(OpCode::Truncat32),
            12 => Some(OpCode::Truncat16),
            13 => Some(OpCode::Truncat8),
            14 => Some(OpCode::U32ToF32),
            15 => Some(OpCode::I32ToF32),
            16 => Some(OpCode::U64ToF64),
            17 => Some(OpCode::I64ToF64),
            18 => Some(OpCode::F32ToU32),
            19 => Some(OpCode::F64ToU64),
            20 => Some(OpCode::F32ToI32),
            21 => Some(OpCode::F64ToI64),
            22 => Some(OpCode::FProm),
            23 => Some(OpCode::FDemo),
            24 => Some(OpCode::IAdd32),
            25 => Some(OpCode::IAdd64),
            26 => Some(OpCode::ISub32),
            27 => Some(OpCode::ISub64),
            28 => Some(OpCode::FAdd32),
            29 => Some(OpCode::FAdd64),
            30 => Some(OpCode::FSub32),
            31 => Some(OpCode::FSub64),
            32 => Some(OpCode::IMul32),
            33 => Some(OpCode::IMul64),
            34 => Some(OpCode::FMul32),
            35 => Some(OpCode::FMul64),
            36 => Some(OpCode::IDivI8),
            37 => Some(OpCode::IDivI16),
            38 => Some(OpCode::IDivI32),
            39 => Some(OpCode::IDivI64),
            40 => Some(OpCode::IDivU8),
            41 => Some(OpCode::IDivU16),
            42 => Some(OpCode::IDivU32),
            43 => Some(OpCode::IDivU64),
            44 => Some(OpCode::FDiv32),
            45 => Some(OpCode::FDiv64),
            46 => Some(OpCode::IModI8),
            47 => Some(OpCode::IModI16),
            48 => Some(OpCode::IModI32),
            49 => Some(OpCode::IModI64),
            50 => Some(OpCode::IModU8),
            51 => Some(OpCode::IModU16),
            52 => Some(OpCode::IModU32),
            53 => Some(OpCode::IModU64),
            54 => Some(OpCode::FMod32),
            55 => Some(OpCode::FMod64),
            56 => Some(OpCode::IAnd8),
            57 => Some(OpCode::IAnd16),
            58 => Some(OpCode::IAnd32),
            59 => Some(OpCode::IAnd64),
            60 => Some(OpCode::IOr8),
            61 => Some(OpCode::IOr16),
            62 => Some(OpCode::IOr32),
            63 => Some(OpCode::IOr64),
            64 => Some(OpCode::IXor8),
            65 => Some(OpCode::IXor16),
            66 => Some(OpCode::IXor32),
            67 => Some(OpCode::IXor64),
            68 => Some(OpCode::INot8),
            69 => Some(OpCode::INot16),
            70 => Some(OpCode::INot32),
            71 => Some(OpCode::INot64),
            72 => Some(OpCode::ILsh8),
            73 => Some(OpCode::ILsh16),
            74 => Some(OpCode::ILsh32),
            75 => Some(OpCode::ILsh64),
            76 => Some(OpCode::IRshU8),
            77 => Some(OpCode::IRshU16),
            78 => Some(OpCode::IRshU32),
            79 => Some(OpCode::IRshU64),
            80 => Some(OpCode::IRshI8),
            81 => Some(OpCode::IRshI16),
            82 => Some(OpCode::IRshI32),
            83 => Some(OpCode::IRshI64),
            84 => Some(OpCode::ILrot8),
            85 => Some(OpCode::ILrot16),
            86 => Some(OpCode::ILrot32),
            87 => Some(OpCode::ILrot64),
            88 => Some(OpCode::IRrot8),
            89 => Some(OpCode::IRrot16),
            90 => Some(OpCode::IRrot32),
            91 => Some(OpCode::IRrot64),
            92 => Some(OpCode::RegAddr),
            _ => None,
        }
    }

    /// The opcode's kind.
    pub fn kind(&self) -> (r: Kind)
        ensures
            r == kind_of(*self),
    {
        match self {
            OpCode::Nop => Kind::Nop,
            OpCode::Const8 => Kind::Const(Width::W8),
            OpCode::Const16 => Kind::Const(Width::W16),
            OpCode::Const32 => Kind::Const(Width::W32),
            OpCode::Const64 => Kind::Const(Width::W64),
            OpCode::SignExt64 => Kind::SignExtend(Width::W32),
            OpCode::SignExt32 => Kind::SignExtend(Width::W16),
            OpCode::SignExt16 => Kind::SignExtend(Width::W8),
            OpCode::ZeroExt64 => Kind::ZeroExtend(Width::W32),
            OpCode::ZeroExt32 => Kind::ZeroExtend(Width::W16),
            OpCode::ZeroExt16 => Kind::ZeroExtend(Width::W8),
            OpCode::Truncat32 => Kind::Truncate(Width::W32),
            OpCode::Truncat16 => Kind::Truncate(Width::W16),
            OpCode::Truncat8 => Kind::Truncate(Width::W8),
            OpCode::U32ToF32 => Kind::FloatUnary,
            OpCode::I32ToF32 => Kind::FloatUnary,
            OpCode::U64ToF64 => Kind::FloatUnary,
            OpCode::I64ToF64 => Kind::FloatUnary,
            OpCode::F32ToU32 => Kind::FloatUnary,
            OpCode::F64ToU64 => Kind::FloatUnary,
            OpCode::F32ToI32 => Kind::FloatUnary,
            OpCode::F64ToI64 => Kind::FloatUnary,
            OpCode::FProm => Kind::FloatUnary,
            OpCode::FDemo => Kind::FloatUnary,
            OpCode::IAdd32 => Kind::Add(Width::W32),
            OpCode::IAdd64 => Kind::Add(Width::W64),
            OpCode::ISub32 => Kind::Sub(Width::W32),
            OpCode::ISub64 => Kind::Sub(Width::W64),
            OpCode::FAdd32 => Kind::FloatBinary,
            OpCode::FAdd64 => Kind::FloatBinary,
            OpCode::FSub32 => Kind::FloatBinary,
            OpCode::FSub64 => Kind::FloatBinary,
            OpCode::IMul32 => Kind::Mul(Width::W32),
            OpCode::IMul64 => Kind::Mul(Width::W64),
            OpCode::FMul32 => Kind::FloatBinary,
            OpCode::FMul64 => Kind::FloatBinary,
            OpCode::IDivI8 => Kind::DivS(Width::W8),
            OpCode::IDivI16 => Kind::DivS(Width::W16),
            OpCode::IDivI32 => Kind::DivS(Width::W32),
            OpCode::IDivI64 => Kind::DivS(Width::W64),
            OpCode::IDivU8 => Kind::DivU(Width::W8),
            OpCode::IDivU16 => Kind::DivU(Width::W16),
            OpCode::IDivU32 => Kind::DivU(Width::W32),
            OpCode::IDivU64 => Kind::DivU(Width::W64),
            OpCode::FDiv32 => Kind::FloatBinary,
            OpCode::FDiv64 => Kind::FloatBinary,
            OpCode::IModI8 => Kind::ModS(Width::W8),
            OpCode::IModI16 => Kind::ModS(Width::W16),
            OpCode::IModI32 => Kind::ModS(Width::W32),
            OpCode::IModI64 => Kind::ModS(Width::W64),
            OpCode::IModU8 => Kind::ModU(Width::W8),
            OpCode::IModU16 => Kind::ModU(Width::W16),
            OpCode::IModU32 => Kind::ModU(Width::W32),
            OpCode::IModU64 => Kind::ModU(Width::W64),
            OpCode::FMod32 => Kind::FloatBinary,
            OpCode::FMod64 => Kind::FloatBinary,
            OpCode::IAnd8 => Kind::And(Width::W8),
            OpCode::IAnd16 => Kind::And(Width::W16),
            OpCode::IAnd32 => Kind::And(Width::W32),
            OpCode::IAnd64 => Kind::And(Width::W64),
            OpCode::IOr8 => Kind::Or(Width::W8),
            OpCode::IOr16 => Kind::Or(Width::W16),
            OpCode::IOr32 => Kind::Or(Width::W32),
            OpCode::IOr64 => Kind::Or(Width::W64),
            OpCode::IXor8 => Kind::Xor(Width::W8),
            OpCode::IXor16 => Kind::Xor(Width::W16),
            OpCode::IXor32 => Kind::Xor(Width::W32),
            OpCode::IXor64 => Kind::Xor(Width::W64),
            OpCode::INot8 => Kind::Not(Width::W8),
            OpCode::INot16 => Kind::Not(Width::W16),
            OpCode::INot32 => Kind::Not(Width::W32),
            OpCode::INot64 => Kind::Not(Width::W64),
            OpCode::ILsh8 => Kind::Shl(Width::W8),
            OpCode::ILsh16 => Kind::Shl(Width::W16),
            OpCode::ILsh32 => Kind::Shl(Width::W32),
            OpCode::ILsh64 => Kind::Shl(Width::W64),
            OpCode::IRshU8 => Kind::ShrU(Width::W8),
            OpCode::IRshU16 => Kind::ShrU(Width::W16),
            OpCode::IRshU32 => Kind::ShrU(Width::W32),
            OpCode::IRshU64 => Kind::ShrU(Width::W64),
            OpCode::IRshI8 => Kind::ShrS(Width::W8),
            OpCode::IRshI16 => Kind::ShrS(Width::W16),
            OpCode::IRshI32 => Kind::ShrS(Width::W32),
            OpCode::IRshI64 => Kind::ShrS(Width::W64),
            OpCode::ILrot8 => Kind::Rotl(Width::W8),
            OpCode::ILrot16 => Kind::Rotl(Width::W16),
            OpCode::ILrot32 => Kind::Rotl(Width::W32),
            OpCode::ILrot64 => Kind::Rotl(Width::W64),
            OpCode::IRrot8 => Kind::Rotr(Width::W8),
            OpCode::IRrot16 => Kind::Rotr(Width::W16),
            OpCode::IRrot32 => Kind::Rotr(Width::W32),
            OpCode::IRrot64 => Kind::Rotr(Width::W64),
            OpCode::RegAddr => Kind::RegAddr,
        }
    }
}

/// Tags and opcodes are in one-to-one correspondence.
pub proof fn lemma_tag_round_trip(op: OpCode)
    ensures
        opcode_of(tag_of(op)) == Some(op),
{
}

} // verus!
