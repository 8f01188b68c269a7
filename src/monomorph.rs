use vstd::prelude::*;
use vstd::arithmetic::div_mod::{
    lemma_add_mod_noop, lemma_mod_add_multiples_vanish, lemma_mod_mod, lemma_mod_multiples_vanish,
    lemma_mul_mod_noop, lemma_small_mod, lemma_sub_mod_noop,
};
use crate::catalog::{kind_of, tag_of, OpCode};
use crate::codec::{be16, be32, be64, Encoder};
use crate::semantics::{int_result, signed_cell, trunc_div, trunc_rem, Trap};
use crate::var_helper::{lemma_lookup_push, RegIdRepr, VarHelper};

verus! {

/// A concrete scalar type that an abstract operation is resolved against.
#[derive(Clone, Copy, Debug, PartialEq, Eq, Structural)]
pub enum ScalarType {
    U8,
    U16,
    U32,
    U64,
    I8,
    I16,
    I32,
    I64,
    F32,
    F64,
}

/// An abstract, type-parametric operation. It exists only while code is
/// generated and is never encoded.
#[derive(Clone, Copy, Debug, PartialEq, Eq, Structural)]
pub enum GenericOp {
    Const,
    ToF32,
    ToF64,
    ToI8,
    ToI16,
    ToI32,
    ToI64,
    ToU8,
    ToU16,
    ToU32,
    ToU64,
    Add,
    Sub,
    Mul,
    Div,
    Mod,
    And,
    Or,
    Xor,
    Not,
    Lsh,
    Rsh,
    Lrot,
    Rrot,
}

/// How an operation on a type is lowered.
#[derive(Clone, Copy, Debug, PartialEq, Eq, Structural)]
pub enum Plan {
    /// No instruction: the destination name is bound to the source register.
    Alias,
    /// Exactly this one instruction.
    Emit(OpCode),
    /// No lowering exists; rejected while generating code.
    Undefined,
}

pub open spec fn byte_size(t: ScalarType) -> nat {
    match t {
        ScalarType::U8 | ScalarType::I8 => 1,
        ScalarType::U16 | ScalarType::I16 => 2,
        ScalarType::U32 | ScalarType::I32 | ScalarType::F32 => 4,
        _ => 8,
    }
}

pub open spec fn is_float(t: ScalarType) -> bool {
    t == ScalarType::F32 || t == ScalarType::F64
}

pub open spec fn is_signed(t: ScalarType) -> bool {
    match t {
        ScalarType::I8 | ScalarType::I16 | ScalarType::I32 | ScalarType::I64 => true,
        _ => false,
    }
}

/// The one of four opcodes that matches a size of 1, 2, 4 or 8 bytes.
pub open spec fn by_size(n: nat, a: OpCode, b: OpCode, c: OpCode, d: OpCode) -> OpCode {
    if n == 1 {
        a
    } else if n == 2 {
        b
    } else if n == 4 {
        c
    } else {
        d
    }
}

/// The type that a conversion operation converts to.
pub open spec fn target(op: GenericOp) -> ScalarType {
    match op {
        GenericOp::ToF32 => ScalarType::F32,
        GenericOp::ToF64 => ScalarType::F64,
        GenericOp::ToI8 => ScalarType::I8,
        GenericOp::ToI16 => ScalarType::I16,
        GenericOp::ToI32 => ScalarType::I32,
        GenericOp::ToI64 => ScalarType::I64,
        GenericOp::ToU8 => ScalarType::U8,
        GenericOp::ToU16 => ScalarType::U16,
        GenericOp::ToU32 => ScalarType::U32,
        _ => ScalarType::U64,
    }
}

pub open spec fn is_conversion(op: GenericOp) -> bool {
    match op {
        GenericOp::ToF32 | GenericOp::ToF64 | GenericOp::ToI8 | GenericOp::ToI16
        | GenericOp::ToI32 | GenericOp::ToI64 | GenericOp::ToU8 | GenericOp::ToU16
        | GenericOp::ToU32 | GenericOp::ToU64 => true,
        _ => false,
    }
}

/// The truncation to the size of an integer type narrower than 64 bits: it
/// keeps the low bits of the cell, zero-extended, for signed and unsigned
/// targets alike.
pub open spec fn truncation_op(d: ScalarType) -> OpCode {
    let n = byte_size(d);
    if n == 1 {
        OpCode::Truncat8
    } else if n == 2 {
        OpCode::Truncat16
    } else {
        OpCode::Truncat32
    }
}

/// The extension from the size of an integer type narrower than 64 bits to the
/// whole cell: it reads the low bits as that type and sign-extends them for a
/// signed type, zero-extends them for an unsigned one.
pub open spec fn extension_op(s: ScalarType) -> OpCode {
    let n = byte_size(s);
    if is_signed(s) {
        if n == 1 {
            OpCode::SignExt16
        } else if n == 2 {
            OpCode::SignExt32
        } else {
            OpCode::SignExt64
        }
    } else if n == 1 {
        OpCode::ZeroExt16
    } else if n == 2 {
        OpCode::ZeroExt32
    } else {
        OpCode::ZeroExt64
    }
}

/// Lowering of a conversion from `s` to `d`. Between integer types it aliases
/// types of one size (the bits stay as they are), truncates to a smaller size,
/// and extends to a larger one from the source's own size, sign-extending a
/// signed source and zero-extending an unsigned one. Every integer conversion
/// thus reads only the low bits that hold the source value, whatever the rest
/// of its cell holds.
/// Integer to float reads the source as a 32-bit integer for `f32` and as a
/// 64-bit one for `f64`, since the catalog has no conversion from a narrower
/// type; for a source narrower than that read (8 or 16 bits to `f32`, up to 32
/// bits to `f64`) it is exact only where the bits above the source's size are
/// its extension: a negative value loaded by a constant, which is
/// zero-extended, is read as a large positive one. The catalog offers no
/// single instruction that would avoid this.
/// Conversions for which the catalog has no single instruction are undefined:
/// float to or from a type of another size, except int to `f64` and `f32` to `f64`.
pub open spec fn conversion(s: ScalarType, d: ScalarType) -> Plan {
    if s == d {
        Plan::Alias
    } else if is_float(s) && is_float(d) {
        Plan::Emit(
            if d == ScalarType::F64 {
                OpCode::FProm
            } else {
                OpCode::FDemo
            },
        )
    } else if is_float(d) {
        if byte_size(d) == 4 {
            if byte_size(s) == 8 {
                Plan::Undefined
            } else if is_signed(s) {
                Plan::Emit(OpCode::I32ToF32)
            } else {
                Plan::Emit(OpCode::U32ToF32)
            }
        } else if is_signed(s) {
            Plan::Emit(OpCode::I64ToF64)
        } else {
            Plan::Emit(OpCode::U64ToF64)
        }
    } else if is_float(s) {
        if byte_size(d) != byte_size(s) {
            Plan::Undefined
        } else if s == ScalarType::F32 {
            Plan::Emit(
                if is_signed(d) {
                    OpCode::F32ToI32
                } else {
                    OpCode::F32ToU32
                },
            )
        } else {
            Plan::Emit(
                if is_signed(d) {
                    OpCode::F64ToI64
                } else {
                    OpCode::F64ToU64
                },
            )
        }
    } else if byte_size(d) == byte_size(s) {
        Plan::Alias
    } else if byte_size(d) < byte_size(s) {
        Plan::Emit(truncation_op(d))
    } else {
        Plan::Emit(extension_op(s))
    }
}

/// The monomorphization table: how `op` on values of type `t` is lowered.
/// Constants load by the type's size; add, subtract, multiply and the bitwise
/// family promote types under 64 bits to 32; division, remainder, shifts and
/// rotates match width and signedness; floats have no bitwise, shift or rotate.
pub open spec fn plan(op: GenericOp, t: ScalarType) -> Plan {
    let n = byte_size(t);
    let wide = n == 8;
    match op {
        GenericOp::Const => Plan::Emit(
            by_size(n, OpCode::Const8, OpCode::Const16, OpCode::Const32, OpCode::Const64),
        ),
        GenericOp::Add => Plan::Emit(
            if is_float(t) {
                by_size(n, OpCode::FAdd32, OpCode::FAdd32, OpCode::FAdd32, OpCode::FAdd64)
            } else if wide {
                OpCode::IAdd64
            } else {
                OpCode::IAdd32
            },
        ),
        GenericOp::Sub => Plan::Emit(
            if is_float(t) {
                by_size(n, OpCode::FSub32, OpCode::FSub32, OpCode::FSub32, OpCode::FSub64)
            } else if wide {
                OpCode::ISub64
            } else {
                OpCode::ISub32
            },
        ),
        GenericOp::Mul => Plan::Emit(
            if is_float(t) {
                by_size(n, OpCode::FMul32, OpCode::FMul32, OpCode::FMul32, OpCode::FMul64)
            } else if wide {
                OpCode::IMul64
            } else {
                OpCode::IMul32
            },
        ),
        GenericOp::Div => Plan::Emit(
            if is_float(t) {
                by_size(n, OpCode::FDiv32, OpCode::FDiv32, OpCode::FDiv32, OpCode::FDiv64)
            } else if is_signed(t) {
                by_size(n, OpCode::IDivI8, OpCode::IDivI16, OpCode::IDivI32, OpCode::IDivI64)
            } else {
                by_size(n, OpCode::IDivU8, OpCode::IDivU16, OpCode::IDivU32, OpCode::IDivU64)
            },
        ),
        GenericOp::Mod => Plan::Emit(
            if is_float(t) {
                by_size(n, OpCode::FMod32, OpCode::FMod32, OpCode::FMod32, OpCode::FMod64)
            } else if is_signed(t) {
                by_size(n, OpCode::IModI8, OpCode::IModI16, OpCode::IModI32, OpCode::IModI64)
            } else {
                by_size(n, OpCode::IModU8, OpCode::IModU16, OpCode::IModU32, OpCode::IModU64)
            },
        ),
        GenericOp::And => if is_float(t) {
            Plan::Undefined
        } else {
            Plan::Emit(
                if wide {
                    OpCode::IAnd64
                } else {
                    OpCode::IAnd32
                },
            )
        },
        GenericOp::Or => if is_float(t) {
            Plan::Undefined
        } else {
            Plan::Emit(
                if wide {
                    OpCode::IOr64
                } else {
                    OpCode::IOr32
                },
            )
        },
        GenericOp::Xor => if is_float(t) {
            Plan::Undefined
        } else {
            Plan::Emit(
                if wide {
                    OpCode::IXor64
                } else {
                    OpCode::IXor32
                },
            )
        },
        GenericOp::Not => if is_float(t) {
            Plan::Undefined
        } else {
            Plan::Emit(
                if wide {
                    OpCode::INot64
                } else {
                    OpCode::INot32
                },
            )
        },
        GenericOp::Lsh => if is_float(t) {
            Plan::Undefined
        } else {
            Plan::Emit(by_size(n, OpCode::ILsh8, OpCode::ILsh16, OpCode::ILsh32, OpCode::ILsh64))
        },
        GenericOp::Rsh => if is_float(t) {
            Plan::Undefined
        } else if is_signed(t) {
            Plan::Emit(
                by_size(n, OpCode::IRshI8, OpCode::IRshI16, OpCode::IRshI32, OpCode::IRshI64),
            )
        } else {
            Plan::Emit(
                by_size(n, OpCode::IRshU8, OpCode::IRshU16, OpCode::IRshU32, OpCode::IRshU64),
            )
        },
        GenericOp::Lrot => if is_float(t) {
            Plan::Undefined
        } else {
            Plan::Emit(
                by_size(n, OpCode::ILrot8, OpCode::ILrot16, OpCode::ILrot32, OpCode::ILrot64),
            )
        },
        GenericOp::Rrot => if is_float(t) {
            Plan::Undefined
        } else {
            Plan::Emit(
                by_size(n, OpCode::IRrot8, OpCode::IRrot16, OpCode::IRrot32, OpCode::IRrot64),
            )
        },
        _ => conversion(t, target(op)),
    }
}


fn byte_size_of(t: ScalarType) -> (r: u8)
    ensures
        r == byte_size(t),
{
    match t {
        ScalarType::U8 | ScalarType::I8 => 1,
        ScalarType::U16 | ScalarType::I16 => 2,
        ScalarType::U32 | ScalarType::I32 | ScalarType::F32 => 4,
        _ => 8,
    }
}

fn is_float_of(t: ScalarType) -> (r: bool)
    ensures
        r == is_float(t),
{
    match t {
        ScalarType::F32 | ScalarType::F64 => true,
        _ => false,
    }
}

fn is_signed_of(t: ScalarType) -> (r: bool)
    ensures
        r == is_signed(t),
{
    match t {
        ScalarType::I8 | ScalarType::I16 | ScalarType::I32 | ScalarType::I64 => true,
        _ => false,
    }
}

fn by_size_of(n: u8, a: OpCode, b: OpCode, c: OpCode, d: OpCode) -> (r: OpCode)
    ensures
        r == by_size(n as nat, a, b, c, d),
{
    if n == 1 {
        a
    } else if n == 2 {
        b
    } else if n == 4 {
        c
    } else {
        d
    }
}

fn target_of(op: GenericOp) -> (r: ScalarType)
    ensures
        r == target(op),
{
    match op {
        GenericOp::ToF32 => ScalarType::F32,
        GenericOp::ToF64 => ScalarType::F64,
        GenericOp::ToI8 => ScalarType::I8,
        GenericOp::ToI16 => ScalarType::I16,
        GenericOp::ToI32 => ScalarType::I32,
        GenericOp::ToI64 => ScalarType::I64,
        GenericOp::ToU8 => ScalarType::U8,
        GenericOp::ToU16 => ScalarType::U16,
        GenericOp::ToU32 => ScalarType::U32,
        _ => ScalarType::U64,
    }
}

fn extension_op_of(s: ScalarType) -> (r: OpCode)
    ensures
        r == extension_op(s),
{
    let n = byte_size_of(s);
    if is_signed_of(s) {
        if n == 1 {
            OpCode::SignExt16
        } else if n == 2 {
            OpCode::SignExt32
        } else {
            OpCode::SignExt64
        }
    } else if n == 1 {
        OpCode::ZeroExt16
    } else if n == 2 {
        OpCode::ZeroExt32
    } else {
        OpCode::ZeroExt64
    }
}

fn truncation_op_of(d: ScalarType) -> (r: OpCode)
    ensures
        r == truncation_op(d),
{
    let n = byte_size_of(d);
    if n == 1 {
        OpCode::Truncat8
    } else if n == 2 {
        OpCode::Truncat16
    } else {
        OpCode::Truncat32
    }
}

/// Computes `conversion(s, d)`.
pub fn conversion_of(s: ScalarType, d: ScalarType) -> (r: Plan)
    ensures
        r == conversion(s, d),
{
    if s == d {
        Plan::Alias
    } else if is_float_of(s) && is_float_of(d) {
        Plan::Emit(
            if d == ScalarType::F64 {
                OpCode::FProm
            } else {
                OpCode::FDemo
            },
        )
    } else if is_float_of(d) {
        if byte_size_of(d) == 4 {
            if byte_size_of(s) == 8 {
                Plan::Undefined
            } else if is_signed_of(s) {
                Plan::Emit(OpCode::I32ToF32)
            } else {
                Plan::Emit(OpCode::U32ToF32)
            }
        } else if is_signed_of(s) {
            Plan::Emit(OpCode::I64ToF64)
        } else {
            Plan::Emit(OpCode::U64ToF64)
        }
    } else if is_float_of(s) {
        if byte_size_of(d) != byte_size_of(s) {
            Plan::Undefined
        } else if s == ScalarType::F32 {
            Plan::Emit(
                if is_signed_of(d) {
                    OpCode::F32ToI32
                } else {
                    OpCode::F32ToU32
                },
            )
        } else {
            Plan::Emit(
                if is_signed_of(d) {
                    OpCode::F64ToI64
                } else {
                    OpCode::F64ToU64
                },
            )
        }
    } else if byte_size_of(d) == byte_size_of(s) {
        Plan::Alias
    } else if byte_size_of(d) < byte_size_of(s) {
        Plan::Emit(truncation_op_of(d))
    } else {
        Plan::Emit(extension_op_of(s))
    }
}

/// Computes `plan(op, t)`.
pub fn plan_of(op: GenericOp, t: ScalarType) -> (r: Plan)
    ensures
        r == plan(op, t),
{
    let n = byte_size_of(t);
    let wide = n == 8;
    match op {
        GenericOp::Const => Plan::Emit(
            by_size_of(n, OpCode::Const8, OpCode::Const16, OpCode::Const32, OpCode::Const64),
        ),
        GenericOp::Add => Plan::Emit(
            if is_float_of(t) {
                by_size_of(n, OpCode::FAdd32, OpCode::FAdd32, OpCode::FAdd32, OpCode::FAdd64)
            } else if wide {
                OpCode::IAdd64
            } else {
                OpCode::IAdd32
            },
        ),
        GenericOp::Sub => Plan::Emit(
            if is_float_of(t) {
                by_size_of(n, OpCode::FSub32, OpCode::FSub32, OpCode::FSub32, OpCode::FSub64)
            } else if wide {
                OpCode::ISub64
            } else {
                OpCode::ISub32
            },
        ),
        GenericOp::Mul => Plan::Emit(
            if is_float_of(t) {
                by_size_of(n, OpCode::FMul32, OpCode::FMul32, OpCode::FMul32, OpCode::FMul64)
            } else if wide {
                OpCode::IMul64
            } else {
                OpCode::IMul32
            },
        ),
        GenericOp::Div => Plan::Emit(
            if is_float_of(t) {
                by_size_of(n, OpCode::FDiv32, OpCode::FDiv32, OpCode::FDiv32, OpCode::FDiv64)
            } else if is_signed_of(t) {
                by_size_of(n, OpCode::IDivI8, OpCode::IDivI16, OpCode::IDivI32, OpCode::IDivI64)
            } else {
                by_size_of(n, OpCode::IDivU8, OpCode::IDivU16, OpCode::IDivU32, OpCode::IDivU64)
            },
        ),
        GenericOp::Mod => Plan::Emit(
            if is_float_of(t) {
                by_size_of(n, OpCode::FMod32, OpCode::FMod32, OpCode::FMod32, OpCode::FMod64)
            } else if is_signed_of(t) {
                by_size_of(n, OpCode::IModI8, OpCode::IModI16, OpCode::IModI32, OpCode::IModI64)
            } else {
                by_size_of(n, OpCode::IModU8, OpCode::IModU16, OpCode::IModU32, OpCode::IModU64)
            },
        ),
        GenericOp::And => if is_float_of(t) {
            Plan::Undefined
        } else {
            Plan::Emit(
                if wide {
                    OpCode::IAnd64
                } else {
                    OpCode::IAnd32
                },
            )
        },
        GenericOp::Or => if is_float_of(t) {
            Plan::Undefined
        } else {
            Plan::Emit(
                if wide {
                    OpCode::IOr64
                } else {
                    OpCode::IOr32
                },
            )
        },
        GenericOp::Xor => if is_float_of(t) {
            Plan::Undefined
        } else {
            Plan::Emit(
                if wide {
                    OpCode::IXor64
                } else {
                    OpCode::IXor32
                },
            )
        },
        GenericOp::Not => if is_float_of(t) {
            Plan::Undefined
        } else {
            Plan::Emit(
                if wide {
                    OpCode::INot64
                } else {
                    OpCode::INot32
                },
            )
        },
        GenericOp::Lsh => if is_float_of(t) {
            Plan::Undefined
        } else {
            Plan::Emit(by_size_of(n, OpCode::ILsh8, OpCode::ILsh16, OpCode::ILsh32, OpCode::ILsh64))
        },
        GenericOp::Rsh => if is_float_of(t) {
            Plan::Undefined
        } else if is_signed_of(t) {
            Plan::Emit(
                by_size_of(n, OpCode::IRshI8, OpCode::IRshI16, OpCode::IRshI32, OpCode::IRshI64),
            )
        } else {
            Plan::Emit(
                by_size_of(n, OpCode::IRshU8, OpCode::IRshU16, OpCode::IRshU32, OpCode::IRshU64),
            )
        },
        GenericOp::Lrot => if is_float_of(t) {
            Plan::Undefined
        } else {
            Plan::Emit(
                by_size_of(n, OpCode::ILrot8, OpCode::ILrot16, OpCode::ILrot32, OpCode::ILrot64),
            )
        },
        GenericOp::Rrot => if is_float_of(t) {
            Plan::Undefined
        } else {
            Plan::Emit(
                by_size_of(n, OpCode::IRrot8, OpCode::IRrot16, OpCode::IRrot32, OpCode::IRrot64),
            )
        },
        _ => conversion_of(t, target_of(op)),
    }
}


/// The operands of one abstract operation, by name.
pub enum OpArgs<T> {
    Const { val: T, dest: String },
    Unary { operand: String, dest: String },
    Binary { first: String, second: String, dest: String },
}

/// Why code for an operation could not be generated. Nothing is written then.
#[derive(Debug, PartialEq, Eq)]
pub enum EmitError {
    /// The operands do not have the shape the operation takes.
    ArgShape,
    /// The operation has no lowering for the type.
    NoLowering(GenericOp, ScalarType),
    /// An operand name that is not bound.
    UndefinedVariable(String),
    /// Every register id is taken.
    TooManyRegisters,
}

/// An `f32` constant, held as its IEEE bit pattern.
#[derive(Clone, Copy, Debug, PartialEq, Eq, Structural)]
pub struct Float32 {
    pub bits: u32,
}

/// An `f64` constant, held as its IEEE bit pattern.
#[derive(Clone, Copy, Debug, PartialEq, Eq, Structural)]
pub struct Float64 {
    pub bits: u64,
}

/// A scalar type that operations can be resolved against.
pub trait Monomorphize: Sized {
    spec fn scalar() -> ScalarType;

    /// The bits of a constant of this type, zero-extended from its size.
    spec fn const_bits(&self) -> u64;

    fn scalar_type() -> (r: ScalarType)
        ensures
            r == Self::scalar(),
    ;

    fn bits(&self) -> (r: u64)
        ensures
            r == self.const_bits(),
    ;
}

/// Whether the operand shape fits the operation: a constant takes a value,
/// a conversion or `Not` one operand, the rest two.
pub open spec fn shape_fits<T>(op: GenericOp, args: OpArgs<T>) -> bool {
    match args {
        OpArgs::Const { .. } => op == GenericOp::Const,
        OpArgs::Unary { .. } => is_conversion(op) || op == GenericOp::Not,
        OpArgs::Binary { .. } => op != GenericOp::Const && !is_conversion(op) && op
            != GenericOp::Not,
    }
}

pub open spec fn dest_name<T>(args: OpArgs<T>) -> Seq<char> {
    match args {
        OpArgs::Const { dest, .. } => dest@,
        OpArgs::Unary { dest, .. } => dest@,
        OpArgs::Binary { dest, .. } => dest@,
    }
}

/// The register ids that the operand names resolve to, in order; `Err` holds
/// the first name that is not bound.
pub open spec fn resolved<T>(vars: VarHelper, args: OpArgs<T>) -> Result<Seq<RegIdRepr>, String> {
    match args {
        OpArgs::Const { .. } => Ok(Seq::empty()),
        OpArgs::Unary { operand, .. } => match vars.resolve(operand@) {
            Some(x) => Ok(seq![x]),
            None => Err(operand),
        },
        OpArgs::Binary { first, second, .. } => match vars.resolve(first@) {
            None => Err(first),
            Some(x) => match vars.resolve(second@) {
                Some(y) => Ok(seq![x, y]),
                None => Err(second),
            },
        },
    }
}

/// An immediate of `n` bytes, big-endian.
pub open spec fn imm_bytes(n: nat, bits: u64) -> Seq<u8> {
    if n == 1 {
        seq![bits as u8]
    } else if n == 2 {
        be16(bits as u16)
    } else if n == 4 {
        be32(bits as u32)
    } else {
        be64(bits)
    }
}

/// The bytes after the destination id: the immediate of a constant, else the
/// ids of the source registers.
pub open spec fn operand_bytes<T: Monomorphize>(args: OpArgs<T>, ids: Seq<RegIdRepr>) -> Seq<u8> {
    match args {
        OpArgs::Const { val, .. } => imm_bytes(byte_size(T::scalar()), val.const_bits()),
        OpArgs::Unary { .. } => be16(ids[0]),
        OpArgs::Binary { .. } => be16(ids[0]) + be16(ids[1]),
    }
}

/// What generating code for `op` on `args` does to an encoder, with result `r`.
/// Checks come in this order: operand shape, lowering, operand names, a free
/// register id. An alias binds the destination name to the source register
/// and writes nothing; an instruction binds it to a fresh register and writes
/// `[opcode][dest][operands]`.
pub open spec fn emitted<T: Monomorphize>(
    before: Encoder,
    after: Encoder,
    op: GenericOp,
    args: OpArgs<T>,
    r: Result<(), EmitError>,
) -> bool {
    let vars = before.symbols();
    let p = plan(op, T::scalar());
    if !shape_fits(op, args) {
        r == Err::<(), EmitError>(EmitError::ArgShape) && after == before
    } else if p == Plan::Undefined {
        r == Err::<(), EmitError>(EmitError::NoLowering(op, T::scalar())) && after == before
    } else {
        match resolved(vars, args) {
            Err(name) => r == Err::<(), EmitError>(EmitError::UndefinedVariable(name)) && after
                == before,
            Ok(ids) => match p {
                Plan::Emit(opc) => if vars.next_id() == u16::MAX {
                    r == Err::<(), EmitError>(EmitError::TooManyRegisters) && after == before
                } else {
                    &&& r == Ok::<(), EmitError>(())
                    &&& after.output() == before.output() + seq![tag_of(opc)] + be16(
                        vars.next_id(),
                    ) + operand_bytes(args, ids)
                    &&& after.symbols().bindings() == vars.bindings().push(
                        (dest_name(args), vars.next_id()),
                    )
                    &&& after.symbols().next_id() == vars.next_id() + 1
                    &&& after.is_x64() == before.is_x64()
                    &&& after.wf()
                },
                _ => {
                    &&& r == Ok::<(), EmitError>(())
                    &&& after.output() == before.output()
                    &&& after.symbols().bindings() == vars.bindings().push((dest_name(args), ids[0]))
                    &&& after.symbols().next_id() == vars.next_id()
                    &&& after.is_x64() == before.is_x64()
                    &&& after.wf()
                },
            },
        }
    }
}

fn shape_fits_of<T>(op: GenericOp, args: &OpArgs<T>) -> (r: bool)
    ensures
        r == shape_fits(op, *args),
{
    let conv = match op {
        GenericOp::ToF32 | GenericOp::ToF64 | GenericOp::ToI8 | GenericOp::ToI16
        | GenericOp::ToI32 | GenericOp::ToI64 | GenericOp::ToU8 | GenericOp::ToU16
        | GenericOp::ToU32 | GenericOp::ToU64 => true,
        _ => false,
    };
    match args {
        OpArgs::Const { .. } => op == GenericOp::Const,
        OpArgs::Unary { .. } => conv || op == GenericOp::Not,
        OpArgs::Binary { .. } => op != GenericOp::Const && !conv && op != GenericOp::Not,
    }
}

fn write_instr(encoder: &mut Encoder, opc: OpCode, dest: RegIdRepr)
    requires
        old(encoder).wf(),
    ensures
        final(encoder).output() == old(encoder).output() + seq![tag_of(opc)] + be16(dest),
        final(encoder).symbols() == old(encoder).symbols(),
        final(encoder).is_x64() == old(encoder).is_x64(),
        final(encoder).wf(),
{
    let ghost before = encoder.output();
    encoder.write(opc);
    encoder.write(dest);
    assert(encoder.output() =~= before + seq![tag_of(opc)] + be16(dest));
}

fn emit_const(encoder: &mut Encoder, opc: OpCode, dest: &str, n: u8, bits: u64) -> (r: Result<
    (),
    EmitError,
>)
    requires
        old(encoder).wf(),
    ensures
        old(encoder).symbols().next_id() == u16::MAX ==> r == Err::<(), EmitError>(
            EmitError::TooManyRegisters,
        ) && *final(encoder) == *old(encoder),
        old(encoder).symbols().next_id() < u16::MAX ==> {
            &&& r == Ok::<(), EmitError>(())
            &&& final(encoder).output() == old(encoder).output() + seq![tag_of(opc)] + be16(
                old(encoder).symbols().next_id(),
            ) + imm_bytes(n as nat, bits)
            &&& final(encoder).symbols().bindings() == old(encoder).symbols().bindings().push(
                (dest@, old(encoder).symbols().next_id()),
            )
            &&& final(encoder).symbols().next_id() == old(encoder).symbols().next_id() + 1
            &&& final(encoder).is_x64() == old(encoder).is_x64()
            &&& final(encoder).wf()
        },
{
    if encoder.vars().next_free() == u16::MAX {
        return Err(EmitError::TooManyRegisters);
    }
    let id = encoder.vars_mut().add_or_shadow(dest);
    write_instr(encoder, opc, id);
    let ghost mid = encoder.output();
    if n == 1 {
        encoder.write(#[verifier::truncate] (bits as u8));
    } else if n == 2 {
        encoder.write(#[verifier::truncate] (bits as u16));
    } else if n == 4 {
        encoder.write(#[verifier::truncate] (bits as u32));
    } else {
        encoder.write(bits);
    }
    assert(encoder.output() =~= mid + imm_bytes(n as nat, bits));
    Ok(())
}

/// The ids that operand names resolve to all lie below the next fresh id.
proof fn lemma_resolved_below_next<T>(vars: VarHelper, args: OpArgs<T>)
    requires
        vars.wf(),
    ensures
        resolved(vars, args) matches Ok(ids) ==> forall|i: int|
            0 <= i < ids.len() ==> #[trigger] ids[i] < vars.next_id(),
{
    match args {
        OpArgs::Unary { operand, .. } => vars.lemma_resolve_below_next(operand@),
        OpArgs::Binary { first, second, .. } => {
            vars.lemma_resolve_below_next(first@);
            vars.lemma_resolve_below_next(second@);
        },
        _ => {},
    }
}

/// Generates the code for `op` on operands `args` of type `T`: the
/// monomorphization table applied to one operation.
pub fn resolve<T: Monomorphize>(encoder: &mut Encoder, op: GenericOp, args: OpArgs<T>) -> (r: Result<
    (),
    EmitError,
>)
    requires
        old(encoder).wf(),
    ensures
        emitted(*old(encoder), *final(encoder), op, args, r),
        resolved(old(encoder).symbols(), args) matches Ok(ids) ==> forall|i: int|
            0 <= i < ids.len() ==> #[trigger] ids[i] < old(encoder).symbols().next_id(),
{
    proof {
        lemma_resolved_below_next(encoder.symbols(), args);
    }
    let t = T::scalar_type();
    if !shape_fits_of(op, &args) {
        return Err(EmitError::ArgShape);
    }
    let p = plan_of(op, t);
    let opc = match p {
        Plan::Undefined => {
            return Err(EmitError::NoLowering(op, t));
        },
        Plan::Emit(opc) => Some(opc),
        Plan::Alias => None,
    };
    match &args {
        OpArgs::Const { val, dest } => {
            let opc = match opc {
                Some(opc) => opc,
                None => unreached(),
            };
            let bits = val.bits();
            emit_const(encoder, opc, dest.as_str(), byte_size_of(t), bits)
        },
        OpArgs::Unary { operand, dest } => {
            let x = match encoder.vars().get(operand.as_str()) {
                Some(x) => x,
                None => {
                    return Err(EmitError::UndefinedVariable(operand.clone()));
                },
            };
            match opc {
                None => {
                    encoder.vars_mut().alias(operand.as_str(), dest.clone());
                    Ok(())
                },
                Some(opc) => {
                    if encoder.vars().next_free() == u16::MAX {
                        return Err(EmitError::TooManyRegisters);
                    }
                    let id = encoder.vars_mut().add_or_shadow(dest.as_str());
                    write_instr(encoder, opc, id);
                    encoder.write(x);
                    Ok(())
                },
            }
        },
        OpArgs::Binary { first, second, dest } => {
            let x = match encoder.vars().get(first.as_str()) {
                Some(x) => x,
                None => {
                    return Err(EmitError::UndefinedVariable(first.clone()));
                },
            };
            let y = match encoder.vars().get(second.as_str()) {
                Some(y) => y,
                None => {
                    return Err(EmitError::UndefinedVariable(second.clone()));
                },
            };
            let opc = match opc {
                Some(opc) => opc,
                None => unreached(),
            };
            if encoder.vars().next_free() == u16::MAX {
                return Err(EmitError::TooManyRegisters);
            }
            let id = encoder.vars_mut().add_or_shadow(dest.as_str());
            write_instr(encoder, opc, id);
            let ghost mid = encoder.output();
            encoder.write(x);
            encoder.write(y);
            assert(encoder.output() =~= mid + (be16(x) + be16(y)));
            Ok(())
        },
    }
}


impl Monomorphize for u8 {
    open spec fn scalar() -> ScalarType {
        ScalarType::U8
    }

    open spec fn const_bits(&self) -> u64 {
        *self as u64
    }

    fn scalar_type() -> (r: ScalarType) {
        ScalarType::U8
    }

    fn bits(&self) -> (r: u64) {
        *self as u64
    }
}

impl Monomorphize for u16 {
    open spec fn scalar() -> ScalarType {
        ScalarType::U16
    }

    open spec fn const_bits(&self) -> u64 {
        *self as u64
    }

    fn scalar_type() -> (r: ScalarType) {
        ScalarType::U16
    }

    fn bits(&self) -> (r: u64) {
        *self as u64
    }
}

impl Monomorphize for u32 {
    open spec fn scalar() -> ScalarType {
        ScalarType::U32
    }

    open spec fn const_bits(&self) -> u64 {
        *self as u64
    }

    fn scalar_type() -> (r: ScalarType) {
        ScalarType::U32
    }

    fn bits(&self) -> (r: u64) {
        *self as u64
    }
}

impl Monomorphize for u64 {
    open spec fn scalar() -> ScalarType {
        ScalarType::U64
    }

    open spec fn const_bits(&self) -> u64 {
        *self
    }

    fn scalar_type() -> (r: ScalarType) {
        ScalarType::U64
    }

    fn bits(&self) -> (r: u64) {
        *self
    }
}

impl Monomorphize for i8 {
    open spec fn scalar() -> ScalarType {
        ScalarType::I8
    }

    open spec fn const_bits(&self) -> u64 {
        (*self as u8) as u64
    }

    fn scalar_type() -> (r: ScalarType) {
        ScalarType::I8
    }

    fn bits(&self) -> (r: u64) {
        (*self as u8) as u64
    }
}

impl Monomorphize for i16 {
    open spec fn scalar() -> ScalarType {
        ScalarType::I16
    }

    open spec fn const_bits(&self) -> u64 {
        (*self as u16) as u64
    }

    fn scalar_type() -> (r: ScalarType) {
        ScalarType::I16
    }

    fn bits(&self) -> (r: u64) {
        (*self as u16) as u64
    }
}

impl Monomorphize for i32 {
    open spec fn scalar() -> ScalarType {
        ScalarType::I32
    }

    open spec fn const_bits(&self) -> u64 {
        (*self as u32) as u64
    }

    fn scalar_type() -> (r: ScalarType) {
        ScalarType::I32
    }

    fn bits(&self) -> (r: u64) {
        (*self as u32) as u64
    }
}

impl Monomorphize for i64 {
    open spec fn scalar() -> ScalarType {
        ScalarType::I64
    }

    open spec fn const_bits(&self) -> u64 {
        *self as u64
    }

    fn scalar_type() -> (r: ScalarType) {
        ScalarType::I64
    }

    fn bits(&self) -> (r: u64) {
        *self as u64
    }
}

impl Monomorphize for Float32 {
    open spec fn scalar() -> ScalarType {
        ScalarType::F32
    }

    open spec fn const_bits(&self) -> u64 {
        self.bits as u64
    }

    fn scalar_type() -> (r: ScalarType) {
        ScalarType::F32
    }

    fn bits(&self) -> (r: u64) {
        self.bits as u64
    }
}

impl Monomorphize for Float64 {
    open spec fn scalar() -> ScalarType {
        ScalarType::F64
    }

    open spec fn const_bits(&self) -> u64 {
        self.bits
    }

    fn scalar_type() -> (r: ScalarType) {
        ScalarType::F64
    }

    fn bits(&self) -> (r: u64) {
        self.bits
    }
}

/// One abstract operation with named operands, on values of type `T`.
pub enum OpExpr<T> {
    Const { val: T, dest: String },
    ToF32 { operand: String, dest: String },
    ToF64 { operand: String, dest: String },
    ToI8 { operand: String, dest: String },
    ToI16 { operand: String, dest: String },
    ToI32 { operand: String, dest: String },
    ToI64 { operand: String, dest: String },
    ToU8 { operand: String, dest: String },
    ToU16 { operand: String, dest: String },
    ToU32 { operand: String, dest: String },
    ToU64 { operand: String, dest: String },
    Add { first: String, second: String, dest: String },
    Sub { first: String, second: String, dest: String },
    Mul { first: String, second: String, dest: String },
    Div { first: String, second: String, dest: String },
    Mod { first: String, second: String, dest: String },
    And { first: String, second: String, dest: String },
    Or { first: String, second: String, dest: String },
    Xor { first: String, second: String, dest: String },
    Not { operand: String, dest: String },
    Lsh { first: String, second: String, dest: String },
    Rsh { first: String, second: String, dest: String },
    Lrot { first: String, second: String, dest: String },
    Rrot { first: String, second: String, dest: String },
}

/// The operation an expression applies.
pub open spec fn generic_of<T>(e: OpExpr<T>) -> GenericOp {
    match e {
        OpExpr::Const { .. } => GenericOp::Const,
        OpExpr::ToF32 { .. } => GenericOp::ToF32,
        OpExpr::ToF64 { .. } => GenericOp::ToF64,
        OpExpr::ToI8 { .. } => GenericOp::ToI8,
        OpExpr::ToI16 { .. } => GenericOp::ToI16,
        OpExpr::ToI32 { .. } => GenericOp::ToI32,
        OpExpr::ToI64 { .. } => GenericOp::ToI64,
        OpExpr::ToU8 { .. } => GenericOp::ToU8,
        OpExpr::ToU16 { .. } => GenericOp::ToU16,
        OpExpr::ToU32 { .. } => GenericOp::ToU32,
        OpExpr::ToU64 { .. } => GenericOp::ToU64,
        OpExpr::Add { .. } => GenericOp::Add,
        OpExpr::Sub { .. } => GenericOp::Sub,
        OpExpr::Mul { .. } => GenericOp::Mul,
        OpExpr::Div { .. } => GenericOp::Div,
        OpExpr::Mod { .. } => GenericOp::Mod,
        OpExpr::And { .. } => GenericOp::And,
        OpExpr::Or { .. } => GenericOp::Or,
        OpExpr::Xor { .. } => GenericOp::Xor,
        OpExpr::Not { .. } => GenericOp::Not,
        OpExpr::Lsh { .. } => GenericOp::Lsh,
        OpExpr::Rsh { .. } => GenericOp::Rsh,
        OpExpr::Lrot { .. } => GenericOp::Lrot,
        OpExpr::Rrot { .. } => GenericOp::Rrot,
    }
}

/// The operands of an expression.
pub open spec fn args_of<T>(e: OpExpr<T>) -> OpArgs<T> {
    match e {
        OpExpr::Const { val, dest } => OpArgs::Const { val, dest },
        OpExpr::ToF32 { operand, dest } => OpArgs::Unary { operand, dest },
        OpExpr::ToF64 { operand, dest } => OpArgs::Unary { operand, dest },
        OpExpr::ToI8 { operand, dest } => OpArgs::Unary { operand, dest },
        OpExpr::ToI16 { operand, dest } => OpArgs::Unary { operand, dest },
        OpExpr::ToI32 { operand, dest } => OpArgs::Unary { operand, dest },
        OpExpr::ToI64 { operand, dest } => OpArgs::Unary { operand, dest },
        OpExpr::ToU8 { operand, dest } => OpArgs::Unary { operand, dest },
        OpExpr::ToU16 { operand, dest } => OpArgs::Unary { operand, dest },
        OpExpr::ToU32 { operand, dest } => OpArgs::Unary { operand, dest },
        OpExpr::ToU64 { operand, dest } => OpArgs::Unary { operand, dest },
        OpExpr::Add { first, second, dest } => OpArgs::Binary { first, second, dest },
        OpExpr::Sub { first, second, dest } => OpArgs::Binary { first, second, dest },
        OpExpr::Mul { first, second, dest } => OpArgs::Binary { first, second, dest },
        OpExpr::Div { first, second, dest } => OpArgs::Binary { first, second, dest },
        OpExpr::Mod { first, second, dest } => OpArgs::Binary { first, second, dest },
        OpExpr::And { first, second, dest } => OpArgs::Binary { first, second, dest },
        OpExpr::Or { first, second, dest } => OpArgs::Binary { first, second, dest },
        OpExpr::Xor { first, second, dest } => OpArgs::Binary { first, second, dest },
        OpExpr::Not { operand, dest } => OpArgs::Unary { operand, dest },
        OpExpr::Lsh { first, second, dest } => OpArgs::Binary { first, second, dest },
        OpExpr::Rsh { first, second, dest } => OpArgs::Binary { first, second, dest },
        OpExpr::Lrot { first, second, dest } => OpArgs::Binary { first, second, dest },
        OpExpr::Rrot { first, second, dest } => OpArgs::Binary { first, second, dest },
    }
}

impl<T: Monomorphize> OpExpr<T> {
    pub fn generic(&self) -> (r: GenericOp)
        ensures
            r == generic_of(*self),
    {
        match self {
            OpExpr::Const { .. } => GenericOp::Const,
            OpExpr::ToF32 { .. } => GenericOp::ToF32,
            OpExpr::ToF64 { .. } => GenericOp::ToF64,
            OpExpr::ToI8 { .. } => GenericOp::ToI8,
            OpExpr::ToI16 { .. } => GenericOp::ToI16,
            OpExpr::ToI32 { .. } => GenericOp::ToI32,
            OpExpr::ToI64 { .. } => GenericOp::ToI64,
            OpExpr::ToU8 { .. } => GenericOp::ToU8,
            OpExpr::ToU16 { .. } => GenericOp::ToU16,
            OpExpr::ToU32 { .. } => GenericOp::ToU32,
            OpExpr::ToU64 { .. } => GenericOp::ToU64,
            OpExpr::Add { .. } => GenericOp::Add,
            OpExpr::Sub { .. } => GenericOp::Sub,
            OpExpr::Mul { .. } => GenericOp::Mul,
            OpExpr::Div { .. } => GenericOp::Div,
            OpExpr::Mod { .. } => GenericOp::Mod,
            OpExpr::And { .. } => GenericOp::And,
            OpExpr::Or { .. } => GenericOp::Or,
            OpExpr::Xor { .. } => GenericOp::Xor,
            OpExpr::Not { .. } => GenericOp::Not,
            OpExpr::Lsh { .. } => GenericOp::Lsh,
            OpExpr::Rsh { .. } => GenericOp::Rsh,
            OpExpr::Lrot { .. } => GenericOp::Lrot,
            OpExpr::Rrot { .. } => GenericOp::Rrot,
        }
    }

    pub fn args(self) -> (r: OpArgs<T>)
        ensures
            r == args_of(self),
    {
        match self {
            OpExpr::Const { val, dest } => OpArgs::Const { val, dest },
            OpExpr::ToF32 { operand, dest } => OpArgs::Unary { operand, dest },
            OpExpr::ToF64 { operand, dest } => OpArgs::Unary { operand, dest },
            OpExpr::ToI8 { operand, dest } => OpArgs::Unary { operand, dest },
            OpExpr::ToI16 { operand, dest } => OpArgs::Unary { operand, dest },
            OpExpr::ToI32 { operand, dest } => OpArgs::Unary { operand, dest },
            OpExpr::ToI64 { operand, dest } => OpArgs::Unary { operand, dest },
            OpExpr::ToU8 { operand, dest } => OpArgs::Unary { operand, dest },
            OpExpr::ToU16 { operand, dest } => OpArgs::Unary { operand, dest },
            OpExpr::ToU32 { operand, dest } => OpArgs::Unary { operand, dest },
            OpExpr::ToU64 { operand, dest } => OpArgs::Unary { operand, dest },
            OpExpr::Add { first, second, dest } => OpArgs::Binary { first, second, dest },
            OpExpr::Sub { first, second, dest } => OpArgs::Binary { first, second, dest },
            OpExpr::Mul { first, second, dest } => OpArgs::Binary { first, second, dest },
            OpExpr::Div { first, second, dest } => OpArgs::Binary { first, second, dest },
            OpExpr::Mod { first, second, dest } => OpArgs::Binary { first, second, dest },
            OpExpr::And { first, second, dest } => OpArgs::Binary { first, second, dest },
            OpExpr::Or { first, second, dest } => OpArgs::Binary { first, second, dest },
            OpExpr::Xor { first, second, dest } => OpArgs::Binary { first, second, dest },
            OpExpr::Not { operand, dest } => OpArgs::Unary { operand, dest },
            OpExpr::Lsh { first, second, dest } => OpArgs::Binary { first, second, dest },
            OpExpr::Rsh { first, second, dest } => OpArgs::Binary { first, second, dest },
            OpExpr::Lrot { first, second, dest } => OpArgs::Binary { first, second, dest },
            OpExpr::Rrot { first, second, dest } => OpArgs::Binary { first, second, dest },
        }
    }

    /// Generates the code for this expression.
    pub fn write(self, encoder: &mut Encoder) -> (r: Result<(), EmitError>)
        requires
            old(encoder).wf(),
        ensures
            emitted(*old(encoder), *final(encoder), generic_of(self), args_of(self), r),
    {
        let generic = self.generic();
        resolve(encoder, generic, self.args())
    }
}

/// Converting a value to its own type emits no instruction: the destination
/// name resolves to the source's register, and no byte is written.
pub proof fn lemma_identity_conversion_aliases<T: Monomorphize>(
    before: Encoder,
    after: Encoder,
    op: GenericOp,
    operand: String,
    dest: String,
    r: Result<(), EmitError>,
)
    requires
        is_conversion(op),
        target(op) == T::scalar(),
        before.symbols().resolve(operand@) is Some,
        emitted(before, after, op, OpArgs::<T>::Unary { operand, dest }, r),
    ensures
        r is Ok,
        after.output() == before.output(),
        after.symbols().next_id() == before.symbols().next_id(),
        after.symbols().resolve(dest@) == before.symbols().resolve(operand@),
{
    let id = before.symbols().resolve(operand@)->Some_0;
    lemma_lookup_push(before.symbols().bindings(), dest@, id, dest@);
}

/// Number of values of an integer type.
pub open spec fn range_size(t: ScalarType) -> int {
    let n = byte_size(t);
    if n == 1 {
        0x100
    } else if n == 2 {
        0x1_0000
    } else if n == 4 {
        0x1_0000_0000
    } else {
        0x1_0000_0000_0000_0000
    }
}

/// Whether `v` is a value of integer type `t`.
pub open spec fn in_range(t: ScalarType, v: int) -> bool {
    if is_signed(t) {
        -(range_size(t) / 2) <= v < range_size(t) / 2
    } else {
        0 <= v < range_size(t)
    }
}

/// `v` converted to integer type `t` as `as` converts: reduced into its range
/// modulo the number of its values.
pub open spec fn wrap(t: ScalarType, v: int) -> int {
    let u = v % range_size(t);
    if is_signed(t) && u >= range_size(t) / 2 {
        u - range_size(t)
    } else {
        u
    }
}

/// The canonical cell of value `v` of integer type `t`: zero-extended for an
/// unsigned type, sign-extended for a signed one.
pub open spec fn canonical_cell(t: ScalarType, v: int) -> u64 {
    if is_signed(t) {
        signed_cell(v)
    } else {
        v as u64
    }
}

proof fn lemma_wrap_in_range(t: ScalarType, v: int)
    requires
        !is_float(t),
        in_range(t, v),
    ensures
        wrap(t, v) == v,
{
    let m = range_size(t);
    if v < 0 {
        lemma_mod_add_multiples_vanish(v, m);
        lemma_small_mod((v + m) as nat, m as nat);
    } else {
        lemma_small_mod(v as nat, m as nat);
    }
}

/// How a cell reads as integer type `t` depends only on its value modulo the
/// number of values of `t`.
proof fn lemma_wrap_mod(t: ScalarType, x: int, y: int)
    requires
        !is_float(t),
        x % range_size(t) == y % range_size(t),
    ensures
        wrap(t, x) == wrap(t, y),
{
}

/// Reading a value as `s` keeps it modulo the size of every type `d` no larger.
proof fn lemma_wrap_congruent(s: ScalarType, d: ScalarType, x: int)
    requires
        !is_float(s),
        !is_float(d),
        byte_size(d) <= byte_size(s),
    ensures
        wrap(s, x) % range_size(d) == x % range_size(d),
{
    let m = range_size(d);
    let ms = range_size(s);
    let (bd, bs) = (byte_size(d), byte_size(s));
    let k: int = if bd == bs {
        1
    } else if bd == 1 && bs == 2 {
        0x100
    } else if bd == 1 && bs == 4 {
        0x100_0000
    } else if bd == 1 {
        0x100_0000_0000_0000
    } else if bd == 2 && bs == 4 {
        0x1_0000
    } else if bd == 2 {
        0x1_0000_0000_0000
    } else {
        0x1_0000_0000
    };
    assert(ms == m * k);
    lemma_mod_mod(x, m, k);
    lemma_mod_multiples_vanish(-k, x % ms, m);
}

/// The cell that a conversion leaves in its destination register: the source
/// cell itself for an alias, else what the emitted instruction stores.
pub open spec fn converted_cell(s: ScalarType, d: ScalarType, c: u64) -> u64 {
    match conversion(s, d) {
        Plan::Emit(op) => int_result(kind_of(op), c, 0)->Ok_0,
        _ => c,
    }
}

/// Every integer conversion agrees with the engine, whatever the source cell
/// holds beyond the bits of its type: the destination reads back, as the
/// target type, the source's value wrapped into the target.
#[verifier::rlimit(50)]
pub proof fn lemma_integer_conversion_agrees(s: ScalarType, d: ScalarType, c: u64)
    requires
        !is_float(s),
        !is_float(d),
    ensures
        conversion(s, d) != Plan::Undefined,
        conversion(s, d) matches Plan::Emit(op) ==> int_result(kind_of(op), c, 0) is Ok,
        wrap(d, converted_cell(s, d, c) as int) == wrap(d, wrap(s, c as int)),
{
    reveal(int_result);
    let r = converted_cell(s, d, c);
    let m = range_size(d);
    if byte_size(d) <= byte_size(s) {
        if conversion(s, d) != Plan::Alias {
            assert(conversion(s, d) == Plan::Emit(truncation_op(d)));
            assert(r as int == c as int % m);
            lemma_mod_mod(c as int, m, 1);
        }
        assert(r as int % m == c as int % m);
        lemma_wrap_congruent(s, d, c as int);
        lemma_wrap_mod(d, r as int, wrap(s, c as int));
    } else {
        assert(conversion(s, d) == Plan::Emit(extension_op(s)));
        let x = wrap(s, c as int);
        if is_signed(s) {
            assert(r == signed_cell(x));
            if x < 0 {
                assert(r as int == x + 0x1_0000_0000_0000_0000);
                lemma_wrap_congruent(ScalarType::I64, d, r as int);
                lemma_wrap_in_range(ScalarType::I64, x);
                lemma_wrap_mod(ScalarType::I64, r as int, x);
            }
            assert(r as int % m == x % m);
        } else {
            assert(r as int == x);
        }
        lemma_wrap_mod(d, r as int, x);
    }
}

/// The mathematical result of add, subtract or multiply.
pub open spec fn arith(op: GenericOp, a: int, b: int) -> int {
    if op == GenericOp::Add {
        a + b
    } else if op == GenericOp::Sub {
        a - b
    } else {
        a * b
    }
}

proof fn lemma_low_part(x: int, m: int, k: int)
    requires
        0 < m,
        0 < k,
    ensures
        (x % (m * k)) % m == x % m,
{
    lemma_mod_mod(x, m, k);
}

/// `arith` commutes with reduction modulo `m`.
proof fn lemma_arith_mod(op: GenericOp, x: int, y: int, u: int, v: int, m: int)
    requires
        0 < m,
        x % m == u % m,
        y % m == v % m,
    ensures
        arith(op, x, y) % m == arith(op, u, v) % m,
{
    lemma_add_mod_noop(x, y, m);
    lemma_add_mod_noop(u, v, m);
    lemma_sub_mod_noop(x, y, m);
    lemma_sub_mod_noop(u, v, m);
    lemma_mul_mod_noop(x, y, m);
    lemma_mul_mod_noop(u, v, m);
}

/// Add, subtract and multiply agree with the engine, promoted widths included:
/// whatever the source cells hold beyond the bits of the operation's type, the
/// emitted instruction stores a cell that reads, as that type, the wrapped
/// mathematical result of the values the sources read as.
#[verifier::rlimit(50)]
pub proof fn lemma_integer_arithmetic_agrees(op: GenericOp, t: ScalarType, ca: u64, cb: u64)
    requires
        op == GenericOp::Add || op == GenericOp::Sub || op == GenericOp::Mul,
        !is_float(t),
    ensures
        plan(op, t) is Emit,
        int_result(kind_of(plan(op, t)->Emit_0), ca, cb) is Ok,
        wrap(t, int_result(kind_of(plan(op, t)->Emit_0), ca, cb)->Ok_0 as int) == wrap(
            t,
            arith(op, wrap(t, ca as int), wrap(t, cb as int)),
        ),
{
    reveal(int_result);
    let a = wrap(t, ca as int);
    let b = wrap(t, cb as int);
    lemma_wrap_congruent(t, t, ca as int);
    lemma_wrap_congruent(t, t, cb as int);
    let m = range_size(t);
    let w: int = if byte_size(t) == 8 {
        0x1_0000_0000_0000_0000
    } else {
        0x1_0000_0000
    };
    let k = w / m;
    assert(w == m * k);
    let x = ca as int % w;
    let y = cb as int % w;
    lemma_low_part(ca as int, m, k);
    lemma_low_part(cb as int, m, k);
    lemma_low_part(arith(op, x, y), m, k);
    lemma_arith_mod(op, x, y, ca as int, cb as int, m);
    lemma_arith_mod(op, ca as int, cb as int, a, b, m);
    assert(arith(op, x, y) % w % m == arith(op, a, b) % m);
    lemma_wrap_mod(t, arith(op, x, y) % w, arith(op, a, b));
}

/// Division and remainder agree with the engine: whatever the source cells
/// hold beyond the bits of the operation's type, and for a divisor that does
/// not trap, the emitted instruction stores the quotient (or remainder),
/// rounded toward zero, of the values the sources read as, extended to the
/// whole cell.
#[verifier::rlimit(50)]
pub proof fn lemma_integer_division_agrees(op: GenericOp, t: ScalarType, ca: u64, cb: u64)
    requires
        op == GenericOp::Div || op == GenericOp::Mod,
        !is_float(t),
        wrap(t, cb as int) != 0,
        !(is_signed(t) && wrap(t, ca as int) == -(range_size(t) / 2) && wrap(t, cb as int) == -1),
    ensures
        plan(op, t) is Emit,
        int_result(kind_of(plan(op, t)->Emit_0), ca, cb) == Ok::<u64, Trap>(
            canonical_cell(
                t,
                if op == GenericOp::Div {
                    trunc_div(wrap(t, ca as int), wrap(t, cb as int))
                } else {
                    trunc_rem(wrap(t, ca as int), wrap(t, cb as int))
                },
            ),
        ),
{
    reveal(int_result);
}

} // verus!
