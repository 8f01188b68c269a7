use eva::catalog::{OpCode, OPCODE_COUNT};
use eva::engine::{Executed, Fault, FloatInstr, Stop, VmCtx};
use eva::registers::Stack;
use eva::semantics::Trap;

fn op(o: OpCode) -> u8 {
    o.tag()
}

fn id(x: u16) -> [u8; 2] {
    x.to_be_bytes()
}

/// Program bytes: header, then for each instruction its bytes.
fn program(parts: &[&[u8]]) -> Vec<u8> {
    let mut v = vec![0x00u8];
    for p in parts {
        v.extend_from_slice(p);
    }
    v
}

fn const64(dest: u16, value: u64) -> Vec<u8> {
    let mut v = vec![op(OpCode::Const64)];
    v.extend_from_slice(&id(dest));
    v.extend_from_slice(&value.to_be_bytes());
    v
}

fn binary(o: OpCode, dest: u16, a: u16, b: u16) -> Vec<u8> {
    let mut v = vec![op(o)];
    v.extend_from_slice(&id(dest));
    v.extend_from_slice(&id(a));
    v.extend_from_slice(&id(b));
    v
}

fn unary(o: OpCode, dest: u16, a: u16) -> Vec<u8> {
    let mut v = vec![op(o)];
    v.extend_from_slice(&id(dest));
    v.extend_from_slice(&id(a));
    v
}

/// Loads `a` and `b` into registers 0 and 1, applies `o`, and returns the run's
/// result with register 2.
fn apply(o: OpCode, a: u64, b: u64) -> Result<u64, Fault> {
    let bytes = program(&[&const64(0, a), &const64(1, b), &binary(o, 2, 0, 1)]);
    let mut ctx = VmCtx::new(&bytes, Stack::new(4), 0).unwrap();
    match ctx.run() {
        Ok(Stop::Finished) => Ok(ctx.get_reg(2).unwrap().value),
        Ok(Stop::Float(_)) => panic!("unexpected float instruction"),
        Err(f) => Err(f),
    }
}

fn apply1(o: OpCode, a: u64) -> Result<u64, Fault> {
    let bytes = program(&[&const64(0, a), &unary(o, 2, 0)]);
    let mut ctx = VmCtx::new(&bytes, Stack::new(4), 0).unwrap();
    match ctx.run() {
        Ok(Stop::Finished) => Ok(ctx.get_reg(2).unwrap().value),
        Ok(Stop::Float(_)) => panic!("unexpected float instruction"),
        Err(f) => Err(f),
    }
}

#[test]
fn const_const_add_leaves_eight() {
    let bytes = vec![
        0x00, 3, 0, 0, 0, 0, 0, 5, 3, 0, 1, 0, 0, 0, 3, 24, 0, 2, 0, 0, 0, 1,
    ];
    let mut ctx = VmCtx::new(&bytes, Stack::new(3), 0).unwrap();
    assert_eq!(ctx.run(), Ok(Stop::Finished));
    assert_eq!(ctx.get_reg(2).unwrap().value, 8);
    assert_eq!(ctx.offset(), bytes.len());
}

#[test]
fn add32_wraps() {
    assert_eq!(apply(OpCode::IAdd32, 0xFFFF_FFFF, 1), Ok(0));
    assert_eq!(apply(OpCode::IAdd64, u64::MAX, 2), Ok(1));
}

#[test]
fn sub_and_mul_wrap() {
    assert_eq!(apply(OpCode::ISub32, 0, 1), Ok(0xFFFF_FFFF));
    assert_eq!(apply(OpCode::ISub64, 3, 5), Ok(u64::MAX - 1));
    assert_eq!(apply(OpCode::IMul32, 0x1_0000, 0x1_0000), Ok(0));
    assert_eq!(apply(OpCode::IMul64, 1 << 63, 2), Ok(0));
    assert_eq!(apply(OpCode::IMul32, 7, 6), Ok(42));
}

#[test]
fn division_by_zero_traps() {
    for a in [0u64, 1, 0xFFFF_FFFF, 0x8000_0000, 12345] {
        assert_eq!(apply(OpCode::IDivI32, a, 0), Err(Fault::Arithmetic(Trap::DivideByZero)));
    }
    // only the low 32 bits of the divisor count
    assert_eq!(apply(OpCode::IDivI32, 7, 0x1_0000_0000), Err(Fault::Arithmetic(Trap::DivideByZero)));
    assert_eq!(apply(OpCode::IModU8, 7, 0x100), Err(Fault::Arithmetic(Trap::DivideByZero)));
    assert_eq!(apply(OpCode::IDivU64, 7, 0), Err(Fault::Arithmetic(Trap::DivideByZero)));
}

#[test]
fn signed_min_by_minus_one_traps() {
    assert_eq!(
        apply(OpCode::IDivI32, 0x8000_0000, 0xFFFF_FFFF),
        Err(Fault::Arithmetic(Trap::DivideOverflow))
    );
    assert_eq!(apply(OpCode::IModI8, 0x80, 0xFF), Err(Fault::Arithmetic(Trap::DivideOverflow)));
    assert_eq!(
        apply(OpCode::IDivI64, 1 << 63, u64::MAX),
        Err(Fault::Arithmetic(Trap::DivideOverflow))
    );
}

#[test]
fn signed_division_truncates_toward_zero() {
    let m7 = (-7i32) as u32 as u64;
    assert_eq!(apply(OpCode::IDivI32, m7, 2), Ok((-3i32) as u64));
    assert_eq!(apply(OpCode::IModI32, m7, 2), Ok((-1i32) as u64));
    assert_eq!(apply(OpCode::IDivI8, 0xF9, 0xFE), Ok(3));
    assert_eq!(apply(OpCode::IModI8, 7, 0xFE), Ok(1));
    assert_eq!(apply(OpCode::IDivU8, 0xF9, 0xFE), Ok(0));
    assert_eq!(apply(OpCode::IModU16, 100, 7), Ok(2));
}

#[test]
fn rotate_count_is_reduced_by_width() {
    assert_eq!(apply(OpCode::ILrot8, 0b1000_0000, 9), Ok(0b0000_0001));
    assert_eq!(apply(OpCode::ILrot8, 0b1000_0000, 1), Ok(0b0000_0001));
    assert_eq!(apply(OpCode::IRrot8, 0b0000_0001, 9), Ok(0b1000_0000));
    assert_eq!(apply(OpCode::ILrot32, 0x8000_0001, 36), Ok(0x0000_0018));
    assert_eq!(apply(OpCode::IRrot64, 1, 64), Ok(1));
    assert_eq!(apply(OpCode::ILrot16, 0x1234, 4), Ok(0x2341));
}

#[test]
fn shifts_reduce_the_count_and_keep_width() {
    assert_eq!(apply(OpCode::ILsh8, 0xFF, 4), Ok(0xF0));
    assert_eq!(apply(OpCode::ILsh8, 1, 9), Ok(2));
    assert_eq!(apply(OpCode::ILsh64, 1, 63), Ok(1 << 63));
    assert_eq!(apply(OpCode::IRshU16, 0x8000, 15), Ok(1));
    assert_eq!(apply(OpCode::IRshI8, 0x80, 1), Ok((-64i64) as u64));
    assert_eq!(apply(OpCode::IRshI32, 0xFFFF_FFF8, 1), Ok((-4i64) as u64));
    assert_eq!(apply(OpCode::IRshI64, u64::MAX, 63), Ok(u64::MAX));
    // the count is read as u32: high bits of the count register are ignored
    assert_eq!(apply(OpCode::ILsh32, 1, 0x1_0000_0001), Ok(2));
}

#[test]
fn bitwise_ops_keep_width() {
    assert_eq!(apply(OpCode::IAnd8, 0x1FF, 0x1F0), Ok(0xF0));
    assert_eq!(apply(OpCode::IOr16, 0x1_0001, 0x0100), Ok(0x0101));
    assert_eq!(apply(OpCode::IXor32, 0xFFFF_FFFF_0000_FFFF, 0xFF), Ok(0xFF00));
    assert_eq!(apply(OpCode::IXor64, u64::MAX, 1), Ok(u64::MAX - 1));
    assert_eq!(apply1(OpCode::INot8, 0x0F), Ok(0xF0));
    assert_eq!(apply1(OpCode::INot64, 0), Ok(u64::MAX));
}

#[test]
fn widening_and_narrowing() {
    assert_eq!(apply1(OpCode::SignExt16, 0x80), Ok(0xFFFF_FFFF_FFFF_FF80));
    assert_eq!(apply1(OpCode::SignExt32, 0x7FFF), Ok(0x7FFF));
    assert_eq!(apply1(OpCode::SignExt64, 0xFFFF_FFFF), Ok(u64::MAX));
    assert_eq!(apply1(OpCode::ZeroExt16, 0xFF80), Ok(0x80));
    assert_eq!(apply1(OpCode::ZeroExt64, u64::MAX), Ok(0xFFFF_FFFF));
    assert_eq!(apply1(OpCode::Truncat8, 0x1234), Ok(0x34));
    assert_eq!(apply1(OpCode::Truncat16, 0x12345678), Ok(0x5678));
    assert_eq!(apply1(OpCode::Truncat32, 0x1_2345_6789), Ok(0x2345_6789));
}

#[test]
fn constants_are_zero_extended() {
    let bytes = program(&[&[op(OpCode::Const8), 0, 0, 0xFF], &[op(OpCode::Const16), 0, 1, 0x80, 0x00]]);
    let mut stack = Stack::new(2);
    assert!(stack.write_as(0, u64::MAX));
    let mut ctx = VmCtx::new(&bytes, stack, 0).unwrap();
    assert_eq!(ctx.run(), Ok(Stop::Finished));
    assert_eq!(ctx.get_reg(0).unwrap().value, 0xFF);
    assert_eq!(ctx.get_reg(1).unwrap().value, 0x8000);
}

#[test]
fn one_past_last_opcode_is_a_decode_failure() {
    let bytes = program(&[&const64(0, 1), &[OPCODE_COUNT], &const64(1, 2)]);
    let mut ctx = VmCtx::new(&bytes, Stack::new(2), 0).unwrap();
    assert_eq!(ctx.run(), Err(Fault::UnknownOpcode(OPCODE_COUNT)));
    assert_eq!(ctx.get_reg(1).unwrap().value, 0);
}

#[test]
fn bad_register_and_truncation_are_faults() {
    let bytes = program(&[&const64(7, 1)]);
    let mut ctx = VmCtx::new(&bytes, Stack::new(2), 0).unwrap();
    assert_eq!(ctx.run(), Err(Fault::BadRegister(7)));

    let bytes = program(&[&binary(OpCode::IAdd32, 0, 1, 9)]);
    let mut ctx = VmCtx::new(&bytes, Stack::new(2), 0).unwrap();
    assert_eq!(ctx.run(), Err(Fault::BadRegister(9)));

    let bytes = program(&[&[op(OpCode::Const32), 0, 0, 1, 2]]);
    let mut ctx = VmCtx::new(&bytes, Stack::new(2), 0).unwrap();
    assert_eq!(ctx.run(), Err(Fault::Truncated));

    assert_eq!(VmCtx::new(&[], Stack::new(2), 0).err(), Some(Fault::MissingHeader));
}

#[test]
fn nop_and_empty_programs_finish() {
    let bytes = program(&[&[op(OpCode::Nop)], &[op(OpCode::Nop)]]);
    let mut ctx = VmCtx::new(&bytes, Stack::new(0), 0).unwrap();
    assert_eq!(ctx.step(), Executed::Continued);
    assert_eq!(ctx.run(), Ok(Stop::Finished));
    let bytes = program(&[]);
    let mut ctx = VmCtx::new(&bytes, Stack::new(0), 0).unwrap();
    assert_eq!(ctx.step(), Executed::Halted);
}

#[test]
fn reg_addr_is_slot_address() {
    let bytes = program(&[&[op(OpCode::RegAddr), 0, 1, 0, 3]]);
    let mut ctx = VmCtx::new(&bytes, Stack::new(2), 0x1000).unwrap();
    assert_eq!(ctx.run(), Ok(Stop::Finished));
    assert_eq!(ctx.get_reg(1).unwrap().value, 0x1018);
}

#[test]
fn float_instruction_pauses_the_run() {
    let a = 1.5f32.to_bits() as u64;
    let b = 2.0f32.to_bits() as u64;
    let bytes = program(&[
        &const64(0, a),
        &const64(1, b),
        &binary(OpCode::FAdd32, 2, 0, 1),
        &const64(3, 9),
    ]);
    let mut ctx = VmCtx::new(&bytes, Stack::new(4), 0).unwrap();
    let fi = match ctx.run() {
        Ok(Stop::Float(fi)) => fi,
        other => panic!("{:?}", other),
    };
    assert_eq!(fi, FloatInstr { op: OpCode::FAdd32, dest: 2, a, b });
    let sum = f32::from_bits(fi.a as u32) + f32::from_bits(fi.b as u32);
    assert!(ctx.set_reg(fi.dest, sum.to_bits() as u64));
    assert_eq!(ctx.run(), Ok(Stop::Finished));
    assert_eq!(f32::from_bits(ctx.get_reg(2).unwrap().value as u32), 3.5);
    assert_eq!(ctx.get_reg(3).unwrap().value, 9);
}

#[test]
fn x64_header_reads_on_a_64_bit_host() {
    let bytes = vec![0x01u8, op(OpCode::Nop)];
    let ctx = VmCtx::new(&bytes, Stack::new(1), 0);
    if usize::BITS == 64 {
        assert!(ctx.is_ok());
    } else {
        assert_eq!(ctx.err(), Some(Fault::PointerWidth));
    }
}

#[test]
fn faults_leave_the_registers_unchanged() {
    let bytes = program(&[&const64(0, 7), &const64(1, 0), &const64(2, 99), &binary(OpCode::IDivI32, 2, 0, 1)]);
    let mut ctx = VmCtx::new(&bytes, Stack::new(3), 0).unwrap();
    assert_eq!(ctx.run(), Err(Fault::Arithmetic(Trap::DivideByZero)));
    assert_eq!(ctx.get_reg(2).unwrap().value, 99);

    let bytes = program(&[
        &const64(0, 0x8000_0000),
        &const64(1, 0xFFFF_FFFF),
        &const64(2, 5),
        &binary(OpCode::IModI32, 2, 0, 1),
    ]);
    let mut ctx = VmCtx::new(&bytes, Stack::new(3), 0).unwrap();
    assert_eq!(ctx.run(), Err(Fault::Arithmetic(Trap::DivideOverflow)));
    assert_eq!(ctx.get_reg(2).unwrap().value, 5);
}
