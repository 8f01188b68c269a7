use eva::catalog::OpCode;
use eva::codec::Encoder;
use eva::engine::{Stop, VmCtx};
use eva::monomorph::{
    conversion_of, plan_of, resolve, EmitError, Float32, GenericOp, OpArgs, OpExpr, Plan,
    ScalarType,
};
use eva::registers::Stack;
use eva::var_helper::VarHelper;

fn s(x: &str) -> String {
    x.to_string()
}

fn konst<T>(val: T, dest: &str) -> OpExpr<T> {
    OpExpr::Const { val, dest: s(dest) }
}

#[test]
fn same_type_conversion_aliases() {
    let mut e = Encoder::new(false);
    konst(5u32, "x").write(&mut e).unwrap();
    let before = e.bytes().clone();
    let r = OpExpr::<u32>::ToU32 { operand: s("x"), dest: s("y") }.write(&mut e);
    assert_eq!(r, Ok(()));
    assert_eq!(e.bytes(), &before);
    assert_eq!(e.vars().get("y"), e.vars().get("x"));
    assert_eq!(e.vars().get("y"), Some(0));
}

#[test]
fn constant_encodes_opcode_dest_and_value() {
    let mut e = Encoder::new(false);
    konst(0x01020304u32, "a").write(&mut e).unwrap();
    konst(-1i8, "b").write(&mut e).unwrap();
    konst(0x0102u16, "c").write(&mut e).unwrap();
    konst(Float32 { bits: 1.0f32.to_bits() }, "d").write(&mut e).unwrap();
    konst(7i64, "e").write(&mut e).unwrap();
    assert_eq!(
        e.bytes(),
        &vec![
            OpCode::Const32.tag(), 0, 0, 1, 2, 3, 4,
            OpCode::Const8.tag(), 0, 1, 0xFF,
            OpCode::Const16.tag(), 0, 2, 1, 2,
            OpCode::Const32.tag(), 0, 3, 0x3F, 0x80, 0, 0,
            OpCode::Const64.tag(), 0, 4, 0, 0, 0, 0, 0, 0, 0, 7,
        ]
    );
}

#[test]
fn binary_operation_encodes_operands_in_order() {
    let mut e = Encoder::new(false);
    konst(5u32, "a").write(&mut e).unwrap();
    konst(3u32, "b").write(&mut e).unwrap();
    e = Encoder::new(false);
    let mut e2 = Encoder::new(false);
    konst(5u32, "a").write(&mut e2).unwrap();
    konst(3u32, "b").write(&mut e2).unwrap();
    let n = e2.bytes().len();
    OpExpr::<u32>::Sub { first: s("b"), second: s("a"), dest: s("c") }.write(&mut e2).unwrap();
    assert_eq!(&e2.bytes()[n..], &[OpCode::ISub32.tag(), 0, 2, 0, 1, 0, 0]);
    assert_eq!(e2.vars().get("c"), Some(2));
    assert!(e.bytes().is_empty());
}

#[test]
fn small_arithmetic_is_promoted_and_div_matches_width() {
    assert_eq!(plan_of(GenericOp::Add, ScalarType::U8), Plan::Emit(OpCode::IAdd32));
    assert_eq!(plan_of(GenericOp::Mul, ScalarType::I16), Plan::Emit(OpCode::IMul32));
    assert_eq!(plan_of(GenericOp::Xor, ScalarType::U16), Plan::Emit(OpCode::IXor32));
    assert_eq!(plan_of(GenericOp::Sub, ScalarType::I64), Plan::Emit(OpCode::ISub64));
    assert_eq!(plan_of(GenericOp::Div, ScalarType::I8), Plan::Emit(OpCode::IDivI8));
    assert_eq!(plan_of(GenericOp::Mod, ScalarType::U16), Plan::Emit(OpCode::IModU16));
    assert_eq!(plan_of(GenericOp::Rsh, ScalarType::I32), Plan::Emit(OpCode::IRshI32));
    assert_eq!(plan_of(GenericOp::Rsh, ScalarType::U32), Plan::Emit(OpCode::IRshU32));
    assert_eq!(plan_of(GenericOp::Lrot, ScalarType::U8), Plan::Emit(OpCode::ILrot8));
    assert_eq!(plan_of(GenericOp::Const, ScalarType::F64), Plan::Emit(OpCode::Const64));
    assert_eq!(plan_of(GenericOp::Div, ScalarType::F32), Plan::Emit(OpCode::FDiv32));
}

#[test]
fn conversions() {
    assert_eq!(conversion_of(ScalarType::I32, ScalarType::I64), Plan::Emit(OpCode::SignExt64));
    assert_eq!(conversion_of(ScalarType::U64, ScalarType::I64), Plan::Alias);
    assert_eq!(conversion_of(ScalarType::I32, ScalarType::U32), Plan::Alias);
    assert_eq!(conversion_of(ScalarType::U8, ScalarType::U32), Plan::Emit(OpCode::ZeroExt16));
    assert_eq!(conversion_of(ScalarType::U8, ScalarType::I16), Plan::Emit(OpCode::ZeroExt16));
    assert_eq!(conversion_of(ScalarType::U32, ScalarType::U64), Plan::Emit(OpCode::ZeroExt64));
    assert_eq!(conversion_of(ScalarType::I8, ScalarType::I64), Plan::Emit(OpCode::SignExt16));
    assert_eq!(conversion_of(ScalarType::I16, ScalarType::U32), Plan::Emit(OpCode::SignExt32));
    assert_eq!(conversion_of(ScalarType::I8, ScalarType::U16), Plan::Emit(OpCode::SignExt16));
    assert_eq!(conversion_of(ScalarType::U8, ScalarType::I8), Plan::Alias);
    assert_eq!(conversion_of(ScalarType::U64, ScalarType::U32), Plan::Emit(OpCode::Truncat32));
    assert_eq!(conversion_of(ScalarType::I64, ScalarType::I32), Plan::Emit(OpCode::Truncat32));
    assert_eq!(conversion_of(ScalarType::U64, ScalarType::I32), Plan::Emit(OpCode::Truncat32));
    assert_eq!(conversion_of(ScalarType::I32, ScalarType::I16), Plan::Emit(OpCode::Truncat16));
    assert_eq!(conversion_of(ScalarType::U32, ScalarType::F32), Plan::Emit(OpCode::U32ToF32));
    assert_eq!(conversion_of(ScalarType::I16, ScalarType::F64), Plan::Emit(OpCode::I64ToF64));
    assert_eq!(conversion_of(ScalarType::F32, ScalarType::F64), Plan::Emit(OpCode::FProm));
    assert_eq!(conversion_of(ScalarType::F64, ScalarType::I64), Plan::Emit(OpCode::F64ToI64));
    assert_eq!(conversion_of(ScalarType::F32, ScalarType::U8), Plan::Undefined);
    assert_eq!(conversion_of(ScalarType::F64, ScalarType::I16), Plan::Undefined);
    assert_eq!(conversion_of(ScalarType::F32, ScalarType::F32), Plan::Alias);
}

#[test]
fn float_bitwise_is_rejected_and_writes_nothing() {
    let mut e = Encoder::new(false);
    konst(Float32 { bits: 0 }, "a").write(&mut e).unwrap();
    let n = e.bytes().len();
    for g in [GenericOp::And, GenericOp::Or, GenericOp::Xor, GenericOp::Lsh, GenericOp::Rrot] {
        let r = resolve(
            &mut e,
            g,
            OpArgs::<Float32>::Binary { first: s("a"), second: s("a"), dest: s("b") },
        );
        assert_eq!(r, Err(EmitError::NoLowering(g, ScalarType::F32)));
    }
    let r = OpExpr::<Float32>::ToI8 { operand: s("a"), dest: s("b") }.write(&mut e);
    assert_eq!(r, Err(EmitError::NoLowering(GenericOp::ToI8, ScalarType::F32)));
    assert_eq!(e.bytes().len(), n);
    assert_eq!(e.vars().get("b"), None);
}

#[test]
fn undefined_variable_is_reported_by_name() {
    let mut e = Encoder::new(false);
    konst(1u64, "a").write(&mut e).unwrap();
    let r = OpExpr::<u64>::Add { first: s("a"), second: s("zz"), dest: s("c") }.write(&mut e);
    assert_eq!(r, Err(EmitError::UndefinedVariable(s("zz"))));
    let r = OpExpr::<u64>::ToU8 { operand: s("q"), dest: s("c") }.write(&mut e);
    assert_eq!(r, Err(EmitError::UndefinedVariable(s("q"))));
    assert_eq!(e.vars().get("c"), None);
}

#[test]
fn wrong_operand_shape_is_rejected() {
    let mut e = Encoder::new(false);
    let r = resolve(&mut e, GenericOp::Add, OpArgs::<u8>::Const { val: 1, dest: s("x") });
    assert_eq!(r, Err(EmitError::ArgShape));
    let r = resolve(&mut e, GenericOp::Not, OpArgs::<u8>::Binary { first: s("a"), second: s("b"), dest: s("x") });
    assert_eq!(r, Err(EmitError::ArgShape));
    assert!(e.bytes().is_empty());
}

#[test]
fn operand_is_resolved_before_destination_is_shadowed() {
    let mut e = Encoder::new(false);
    konst(1u32, "x").write(&mut e).unwrap();
    konst(2u32, "y").write(&mut e).unwrap();
    OpExpr::<u32>::Add { first: s("x"), second: s("y"), dest: s("x") }.write(&mut e).unwrap();
    let tail = &e.bytes()[e.bytes().len() - 7..];
    assert_eq!(tail, &[OpCode::IAdd32.tag(), 0, 2, 0, 0, 0, 1]);
    assert_eq!(e.vars().get("x"), Some(2));
}

#[test]
fn generated_program_runs() {
    let mut e = Encoder::new(false);
    konst(200u8, "a").write(&mut e).unwrap();
    konst(100u8, "b").write(&mut e).unwrap();
    OpExpr::<u8>::Div { first: s("a"), second: s("b"), dest: s("q") }.write(&mut e).unwrap();
    konst(-7i16, "m").write(&mut e).unwrap();
    OpExpr::<i16>::ToI64 { operand: s("m"), dest: s("w") }.write(&mut e).unwrap();
    let q = e.vars().get("q").unwrap();
    let w = e.vars().get("w").unwrap();
    let mut bytes = vec![0u8];
    bytes.extend_from_slice(e.bytes());
    let mut ctx = VmCtx::new(&bytes, Stack::new(8), 0).unwrap();
    assert_eq!(ctx.run(), Ok(Stop::Finished));
    assert_eq!(ctx.get_reg(q).unwrap().value, 2);
    assert_eq!(ctx.get_reg(w).unwrap().value, (-7i64) as u64);
}

#[test]
fn symbol_table_shadows_and_names_temporaries() {
    let mut v = VarHelper::new();
    assert_eq!(v.add_or_shadow("x"), 0);
    assert_eq!(v.add_or_shadow_128("wide"), 1);
    assert_eq!(v.add_or_shadow("x"), 3);
    assert_eq!(v.get("x"), Some(3));
    assert_eq!(v.get("wide"), Some(1));
    assert_eq!(v.alias("x", s("y")), Some(3));
    assert_eq!(v.alias("nope", s("z")), None);
    assert_eq!(v.get("z"), None);
    assert_eq!(v.create_temp(), 4);
    assert_eq!(v.get("__var4"), Some(4));
    for _ in 0..8 {
        v.create_temp();
    }
    assert_eq!(v.get("__var12"), Some(12));
    assert_eq!(v.next_free(), 13);
}

#[test]
fn narrowing_to_i32_emits_truncat32() {
    let mut e = Encoder::new(false);
    konst(0x1_2345_6789u64, "w").write(&mut e).unwrap();
    let n = e.bytes().len();
    OpExpr::<u64>::ToI32 { operand: s("w"), dest: s("n") }.write(&mut e).unwrap();
    assert_eq!(&e.bytes()[n..], &[OpCode::Truncat32.tag(), 0, 1, 0, 0]);
    assert_eq!(e.vars().get("n"), Some(1));
}

#[test]
fn emitted_conversions_read_back_as_the_target_type() {
    let mut e = Encoder::new(false);
    konst(200u8, "a").write(&mut e).unwrap();
    OpExpr::<u8>::ToI8 { operand: s("a"), dest: s("b") }.write(&mut e).unwrap();
    konst((-56i64) as u64, "m").write(&mut e).unwrap();
    OpExpr::<u64>::ToU16 { operand: s("m"), dest: s("c") }.write(&mut e).unwrap();
    konst(-56i64, "k").write(&mut e).unwrap();
    OpExpr::<i64>::ToI16 { operand: s("k"), dest: s("d") }.write(&mut e).unwrap();
    konst(0x1_2345_6789u64, "w").write(&mut e).unwrap();
    OpExpr::<u64>::ToI32 { operand: s("w"), dest: s("n") }.write(&mut e).unwrap();
    let regs: Vec<u16> = ["b", "c", "d", "n"].iter().map(|n| e.vars().get(n).unwrap()).collect();
    let mut bytes = vec![0u8];
    bytes.extend_from_slice(e.bytes());
    let mut ctx = VmCtx::new(&bytes, Stack::new(12), 0).unwrap();
    assert_eq!(ctx.run(), Ok(Stop::Finished));
    let cell = |i: usize| ctx.get_reg(regs[i]).unwrap().value;
    assert_eq!(cell(0), 0xC8);
    assert_eq!(cell(0) as u8 as i8, -56);
    assert_eq!(cell(1), 0xFFC8);
    assert_eq!(cell(2) as u16 as i16, -56);
    assert_eq!(cell(3), 0x2345_6789);
}

#[test]
fn signed_widening_sign_extends_zero_extended_constants() {
    let mut e = Encoder::new(false);
    konst(-1i32, "a").write(&mut e).unwrap();
    let n = e.bytes().len();
    OpExpr::<i32>::ToI64 { operand: s("a"), dest: s("b") }.write(&mut e).unwrap();
    assert_eq!(&e.bytes()[n..], &[OpCode::SignExt64.tag(), 0, 1, 0, 0]);
    konst(200u8, "c").write(&mut e).unwrap();
    konst(100u8, "d").write(&mut e).unwrap();
    OpExpr::<u8>::Add { first: s("c"), second: s("d"), dest: s("sum") }.write(&mut e).unwrap();
    OpExpr::<u8>::ToU32 { operand: s("sum"), dest: s("wide") }.write(&mut e).unwrap();
    let b = e.vars().get("b").unwrap();
    let wide = e.vars().get("wide").unwrap();
    let mut bytes = vec![0u8];
    bytes.extend_from_slice(e.bytes());
    let mut ctx = VmCtx::new(&bytes, Stack::new(8), 0).unwrap();
    assert_eq!(ctx.run(), Ok(Stop::Finished));
    assert_eq!(ctx.get_reg(b).unwrap().value as i64, -1);
    // the promoted add leaves 300 in the cell; widening reads the low byte only
    assert_eq!(ctx.get_reg(wide).unwrap().value, 44);
}
