use vstd::prelude::*;
use crate::catalog::{kind_of, opcode_of, tag_of, Kind, OpCode, Width, OPCODE_COUNT};
use crate::codec::{from_be16, from_be32, from_be64, rest_of, Decoder};
use crate::header::BytecodeHeader;
use crate::registers::{Register, Registrant, Stack};
use crate::semantics::{bits, int_result, integer_result, sval, uval, Trap};

verus! {

/// A condition that ends a run.
#[derive(Clone, Copy, Debug, PartialEq, Eq, Structural)]
pub enum Fault {
    /// The program has no header byte.
    MissingHeader,
    /// The program declares 64-bit pointers and the host's are narrower.
    PointerWidth,
    /// The tag names no opcode.
    UnknownOpcode(u8),
    /// The buffer ends inside an instruction.
    Truncated,
    /// A register id at or past the register file's capacity.
    BadRegister(u16),
    Arithmetic(Trap),
}

/// A floating-point instruction, handed out with the cells of its sources.
/// Its result cell is to be stored in `dest`. A unary one has `b` zero.
#[derive(Clone, Copy, Debug, PartialEq, Eq, Structural)]
pub struct FloatInstr {
    pub op: OpCode,
    pub dest: u16,
    pub a: u64,
    pub b: u64,
}

/// Bytes of operands that follow an opcode of kind `k`.
pub open spec fn operand_len(k: Kind) -> nat {
    match k {
        Kind::Nop => 0,
        Kind::Const(w) => 2 + bits(w) / 8,
        Kind::RegAddr => 4,
        _ => if is_unary(k) {
            4
        } else {
            6
        },
    }
}

/// Kinds that read one source register.
pub open spec fn is_unary(k: Kind) -> bool {
    match k {
        Kind::SignExtend(_) | Kind::ZeroExtend(_) | Kind::Truncate(_) | Kind::Not(_)
        | Kind::FloatUnary => true,
        _ => false,
    }
}

/// The 16-bit operand at offset `i`.
pub open spec fn arg16(prog: Seq<u8>, i: int) -> u16 {
    from_be16(rest_of(prog, i))
}

/// The immediate of width `w` at offset `i`, zero-extended to a cell.
pub open spec fn immediate(prog: Seq<u8>, i: int, w: Width) -> u64 {
    let s = rest_of(prog, i);
    match w {
        Width::W8 => s[0] as u64,
        Width::W16 => from_be16(s) as u64,
        Width::W32 => from_be32(s) as u64,
        Width::W64 => from_be64(s),
    }
}

/// The address of register slot `id` in a file of 8-byte cells at `base`.
pub open spec fn reg_addr(base: u64, id: u16) -> u64 {
    ((base as int + 8 * id as int) % 0x1_0000_0000_0000_0000) as u64
}

/// What one instruction does.
pub enum Step {
    /// The stream ended on an instruction boundary.
    Halt,
    Fault(Fault),
    /// Go on at the offset, with the registers.
    Next(int, Seq<u64>),
    /// A floating-point instruction, to be completed outside; then go on at the offset.
    Float(int, FloatInstr),
}

/// The effect of the instruction at offset `pc` of `prog` on the register file
/// `regs` whose slot 0 lies at address `base`.
pub open spec fn step(prog: Seq<u8>, pc: int, regs: Seq<u64>, base: u64) -> Step {
    if pc >= prog.len() {
        Step::Halt
    } else {
        match opcode_of(prog[pc]) {
            None => Step::Fault(Fault::UnknownOpcode(prog[pc])),
            Some(op) => {
                let k = kind_of(op);
                let at = pc + 1;
                let next = at + operand_len(k);
                if next > prog.len() {
                    Step::Fault(Fault::Truncated)
                } else if k == Kind::Nop {
                    Step::Next(next, regs)
                } else {
                    let d = arg16(prog, at);
                    if d >= regs.len() {
                        Step::Fault(Fault::BadRegister(d))
                    } else if let Kind::Const(w) = k {
                        Step::Next(next, regs.update(d as int, immediate(prog, at + 2, w)))
                    } else if k == Kind::RegAddr {
                        Step::Next(next, regs.update(d as int, reg_addr(base, arg16(prog, at + 2))))
                    } else {
                        let x = arg16(prog, at + 2);
                        let y = arg16(prog, at + 4);
                        if x >= regs.len() {
                            Step::Fault(Fault::BadRegister(x))
                        } else if !is_unary(k) && y >= regs.len() {
                            Step::Fault(Fault::BadRegister(y))
                        } else {
                            let b = if is_unary(k) {
                                0u64
                            } else {
                                regs[y as int]
                            };
                            if k == Kind::FloatUnary || k == Kind::FloatBinary {
                                Step::Float(next, FloatInstr { op, dest: d, a: regs[x as int], b })
                            } else {
                                match int_result(k, regs[x as int], b) {
                                    Ok(c) => Step::Next(next, regs.update(d as int, c)),
                                    Err(t) => Step::Fault(Fault::Arithmetic(t)),
                                }
                            }
                        }
                    }
                }
            },
        }
    }
}

/// How a run ends.
pub enum Outcome {
    /// The stream ended; the final registers.
    Finished(Seq<u64>),
    /// The fault, and the registers as the faulting instruction found them.
    Faulted(Fault, Seq<u64>),
    /// Stopped before completing a floating-point instruction; the offset to
    /// go on at, the instruction, and the registers.
    Paused(int, FloatInstr, Seq<u64>),
}

/// Executing instructions from offset `pc` until the stream ends, a fault, or a
/// floating-point instruction.
pub open spec fn run(prog: Seq<u8>, pc: int, regs: Seq<u64>, base: u64) -> Outcome
    decreases prog.len() - pc,
{
    match step(prog, pc, regs, base) {
        Step::Halt => Outcome::Finished(regs),
        Step::Fault(f) => Outcome::Faulted(f, regs),
        Step::Float(n, fi) => Outcome::Paused(n, fi, regs),
        // `step` always moves forward within the program (`lemma_step_advances`);
        // the test only makes that visible to the termination measure.
        Step::Next(n, r) => if pc < n <= prog.len() {
            run(prog, n, r, base)
        } else {
            Outcome::Finished(r)
        },
    }
}

/// Every instruction that completes moves forward, and stays within the program.
pub proof fn lemma_step_advances(prog: Seq<u8>, pc: int, regs: Seq<u64>, base: u64)
    ensures
        step(prog, pc, regs, base) matches Step::Next(n, r) ==> pc < n <= prog.len() && r.len()
            == regs.len(),
        step(prog, pc, regs, base) matches Step::Float(n, fi) ==> pc < n <= prog.len() && fi.dest
            < regs.len(),
{
}

/// An `IDivI32` whose divisor register holds zero in its low 32 bits ends the
/// run with a divide-by-zero trap, whatever the dividend; no register changes.
pub proof fn lemma_divide_by_zero_traps(prog: Seq<u8>, pc: int, regs: Seq<u64>, base: u64)
    requires
        0 <= pc,
        pc + 7 <= prog.len(),
        prog[pc] == tag_of(OpCode::IDivI32),
        arg16(prog, pc + 1) < regs.len(),
        arg16(prog, pc + 3) < regs.len(),
        arg16(prog, pc + 5) < regs.len(),
        uval(Width::W32, regs[arg16(prog, pc + 5) as int]) == 0,
    ensures
        step(prog, pc, regs, base) == Step::Fault(Fault::Arithmetic(Trap::DivideByZero)),
        run(prog, pc, regs, base) == Outcome::Faulted(Fault::Arithmetic(Trap::DivideByZero), regs),
{
    reveal(int_result);
}

/// `IDivI32` or `IModI32` of the minimum `i32` by minus one ends the run with
/// an overflow trap; no register changes and no wrapped result is stored.
pub proof fn lemma_divide_overflow_traps(prog: Seq<u8>, pc: int, regs: Seq<u64>, base: u64)
    requires
        0 <= pc,
        pc + 7 <= prog.len(),
        prog[pc] == tag_of(OpCode::IDivI32) || prog[pc] == tag_of(OpCode::IModI32),
        arg16(prog, pc + 1) < regs.len(),
        arg16(prog, pc + 3) < regs.len(),
        arg16(prog, pc + 5) < regs.len(),
        sval(Width::W32, regs[arg16(prog, pc + 3) as int]) == -0x8000_0000,
        sval(Width::W32, regs[arg16(prog, pc + 5) as int]) == -1,
    ensures
        step(prog, pc, regs, base) == Step::Fault(Fault::Arithmetic(Trap::DivideOverflow)),
        run(prog, pc, regs, base) == Outcome::Faulted(Fault::Arithmetic(Trap::DivideOverflow), regs),
{
    reveal(int_result);
}

/// An `ILrot8` reads its count modulo 8: run on two register files whose
/// value registers agree in their low byte and whose count registers agree
/// modulo 8 (in their low 32 bits), it completes on both and stores the same
/// destination cell; it never traps.
pub proof fn lemma_rotate8_count_modulo(
    prog: Seq<u8>,
    pc: int,
    regs1: Seq<u64>,
    regs2: Seq<u64>,
    base: u64,
)
    requires
        0 <= pc,
        pc + 7 <= prog.len(),
        prog[pc] == tag_of(OpCode::ILrot8),
        regs1.len() == regs2.len(),
        arg16(prog, pc + 1) < regs1.len(),
        arg16(prog, pc + 3) < regs1.len(),
        arg16(prog, pc + 5) < regs1.len(),
        uval(Width::W8, regs1[arg16(prog, pc + 3) as int]) == uval(
            Width::W8,
            regs2[arg16(prog, pc + 3) as int],
        ),
        uval(Width::W32, regs1[arg16(prog, pc + 5) as int]) % 8 == uval(
            Width::W32,
            regs2[arg16(prog, pc + 5) as int],
        ) % 8,
    ensures
        ({
            let d = arg16(prog, pc + 1) as int;
            &&& step(prog, pc, regs1, base) matches Step::Next(n1, r1)
            &&& step(prog, pc, regs2, base) matches Step::Next(n2, r2)
            &&& n1 == n2 == pc + 7
            &&& r1[d] == r2[d]
        }),
{
    reveal(int_result);
}

/// A tag at or past the end of the catalog is a decode failure: the run stops
/// there with `UnknownOpcode`, and nothing is executed.
pub proof fn lemma_unknown_opcode_faults(prog: Seq<u8>, pc: int, regs: Seq<u64>, base: u64)
    requires
        0 <= pc < prog.len(),
        prog[pc] >= OPCODE_COUNT,
    ensures
        step(prog, pc, regs, base) == Step::Fault(Fault::UnknownOpcode(prog[pc])),
        run(prog, pc, regs, base) == Outcome::Faulted(Fault::UnknownOpcode(prog[pc]), regs),
{
}

/// What executing one instruction did.
#[derive(Clone, Copy, Debug, PartialEq, Eq, Structural)]
pub enum Executed {
    Halted,
    Continued,
    Float(FloatInstr),
    Faulted(Fault),
}

/// Why a run stopped without a fault.
#[derive(Clone, Copy, Debug, PartialEq, Eq, Structural)]
pub enum Stop {
    /// The instruction stream ended.
    Finished,
    /// A floating-point instruction waits for its result; store it with
    /// `set_reg` and run again.
    Float(FloatInstr),
}

fn operand_len_of(k: Kind) -> (r: usize)
    ensures
        r == operand_len(k),
{
    match k {
        Kind::Nop => 0,
        Kind::Const(Width::W8) => 3,
        Kind::Const(Width::W16) => 4,
        Kind::Const(Width::W32) => 6,
        Kind::Const(Width::W64) => 10,
        Kind::RegAddr => 4,
        Kind::SignExtend(_) | Kind::ZeroExtend(_) | Kind::Truncate(_) | Kind::Not(_)
        | Kind::FloatUnary => 4,
        _ => 6,
    }
}

fn is_unary_of(k: Kind) -> (r: bool)
    ensures
        r == is_unary(k),
{
    match k {
        Kind::SignExtend(_) | Kind::ZeroExtend(_) | Kind::Truncate(_) | Kind::Not(_)
        | Kind::FloatUnary => true,
        _ => false,
    }
}

/// The execution engine: a program buffer with its cursor, and the register file.
pub struct VmCtx<'a> {
    decoder: Decoder<'a>,
    regs: Stack,
    base: u64,
}

impl<'a> VmCtx<'a> {
    pub closed spec fn program(&self) -> Seq<u8> {
        self.decoder.data()
    }

    /// Offset of the next instruction.
    pub closed spec fn pc(&self) -> int {
        self.decoder.pos()
    }

    pub closed spec fn registers(&self) -> Seq<u64> {
        self.regs@
    }

    /// Address of register slot 0.
    pub closed spec fn base(&self) -> u64 {
        self.base
    }

    pub closed spec fn is_x64(&self) -> bool {
        self.decoder.is_x64()
    }

    pub open spec fn wf(&self) -> bool {
        0 <= self.pc() <= self.program().len()
    }

    pub open spec fn same_frame(&self, other: &VmCtx<'a>) -> bool {
        &&& self.program() == other.program()
        &&& self.base() == other.base()
        &&& self.is_x64() == other.is_x64()
    }

    /// Reads the header of `program` and places the cursor on the first
    /// instruction. `regs` is the register file; `base` the address of its slot 0.
    pub fn new(program: &'a [u8], regs: Stack, base: u64) -> (r: Result<VmCtx<'a>, Fault>)
        ensures
            program@.len() == 0 ==> r == Err::<VmCtx<'a>, Fault>(Fault::MissingHeader),
            program@.len() > 0 ==> {
                let h = BytecodeHeader { format: program@[0] };
                if h.spec_x64() && usize::BITS < 64 {
                    r == Err::<VmCtx<'a>, Fault>(Fault::PointerWidth)
                } else {
                    &&& r is Ok
                    &&& r->Ok_0.program() == program@
                    &&& r->Ok_0.pc() == 1
                    &&& r->Ok_0.registers() == regs@
                    &&& r->Ok_0.base() == base
                    &&& r->Ok_0.is_x64() == h.spec_x64()
                }
            },
    {
        let mut decoder = Decoder::new(program, false);
        match decoder.read::<BytecodeHeader>() {
            None => Err(Fault::MissingHeader),
            Some(h) => {
                let x64 = h.is_x64();
                if x64 && usize::BITS < 64 {
                    Err(Fault::PointerWidth)
                } else {
                    decoder.set_x64(x64);
                    Ok(VmCtx { decoder, regs, base })
                }
            },
        }
    }

    pub fn offset(&self) -> (r: usize)
        ensures
            r == self.pc(),
    {
        self.decoder.offset()
    }

    pub fn stack(&self) -> (r: &Stack)
        ensures
            r@ == self.registers(),
    {
        &self.regs
    }

    /// The register with id `idx`, if the file has it.
    pub fn get_reg(&self, idx: u16) -> (r: Option<Register>)
        ensures
            r.is_some() <==> (idx as int) < self.registers().len(),
            r matches Some(reg) ==> reg.value == self.registers()[idx as int],
    {
        self.regs.get_reg(idx)
    }

    /// Stores `value` in register `idx`; `false`, and nothing changed, where there is none.
    pub fn set_reg(&mut self, idx: u16, value: u64) -> (r: bool)
        ensures
            final(self).same_frame(old(self)),
            final(self).pc() == old(self).pc(),
            r <==> (idx as int) < old(self).registers().len(),
            r ==> final(self).registers() == old(self).registers().update(idx as int, value),
            !r ==> final(self).registers() == old(self).registers(),
    {
        self.regs.write_as(idx, value)
    }

    /// Reads a register id from the stream and checks it against the register file.
    pub fn read_regid(&mut self) -> (r: Result<u16, Fault>)
        requires
            old(self).wf(),
        ensures
            final(self).wf(),
            final(self).same_frame(old(self)),
            final(self).registers() == old(self).registers(),
            old(self).program().len() - old(self).pc() < 2 ==> r == Err::<u16, Fault>(
                Fault::Truncated,
            ) && final(self).pc() == old(self).pc(),
            old(self).program().len() - old(self).pc() >= 2 ==> {
                let id = arg16(old(self).program(), old(self).pc());
                &&& final(self).pc() == old(self).pc() + 2
                &&& r == if (id as int) < old(self).registers().len() {
                    Ok::<u16, Fault>(id)
                } else {
                    Err(Fault::BadRegister(id))
                }
            },
    {
        match self.decoder.read::<u16>() {
            None => Err(Fault::Truncated),
            Some(id) => if (id as usize) < self.regs.capacity() {
                Ok(id)
            } else {
                Err(Fault::BadRegister(id))
            },
        }
    }

    /// Reads a register id from the stream and returns that register.
    pub fn read_reg(&mut self) -> (r: Result<Register, Fault>)
        requires
            old(self).wf(),
        ensures
            final(self).wf(),
            final(self).same_frame(old(self)),
            final(self).registers() == old(self).registers(),
            old(self).program().len() - old(self).pc() < 2 ==> r == Err::<Register, Fault>(
                Fault::Truncated,
            ) && final(self).pc() == old(self).pc(),
            old(self).program().len() - old(self).pc() >= 2 ==> {
                let id = arg16(old(self).program(), old(self).pc());
                &&& final(self).pc() == old(self).pc() + 2
                &&& r == if (id as int) < old(self).registers().len() {
                    Ok::<Register, Fault>(Register { value: old(self).registers()[id as int] })
                } else {
                    Err(Fault::BadRegister(id))
                }
            },
    {
        match self.read_regid() {
            Ok(id) => match self.regs.get_reg(id) {
                Some(reg) => Ok(reg),
                None => Err(Fault::BadRegister(id)),
            },
            Err(f) => Err(f),
        }
    }

    /// Reads a register id from the stream and returns that register read as a `T`.
    pub fn reg_as<T: Registrant>(&mut self) -> (r: Result<T, Fault>)
        requires
            old(self).wf(),
        ensures
            final(self).wf(),
            final(self).same_frame(old(self)),
            final(self).registers() == old(self).registers(),
            old(self).program().len() - old(self).pc() < 2 ==> r == Err::<T, Fault>(
                Fault::Truncated,
            ) && final(self).pc() == old(self).pc(),
            old(self).program().len() - old(self).pc() >= 2 ==> {
                let id = arg16(old(self).program(), old(self).pc());
                &&& final(self).pc() == old(self).pc() + 2
                &&& r == if (id as int) < old(self).registers().len() {
                    Ok::<T, Fault>(T::from_cell(old(self).registers()[id as int]))
                } else {
                    Err(Fault::BadRegister(id))
                }
            },
    {
        match self.read_reg() {
            Ok(reg) => Ok(reg.get::<T>()),
            Err(f) => Err(f),
        }
    }

    fn read_immediate(&mut self, w: Width) -> (r: u64)
        requires
            old(self).wf(),
            old(self).program().len() - old(self).pc() >= bits(w) / 8,
        ensures
            final(self).wf(),
            final(self).same_frame(old(self)),
            final(self).registers() == old(self).registers(),
            final(self).pc() == old(self).pc() + bits(w) / 8,
            r == immediate(old(self).program(), old(self).pc(), w),
    {
        match w {
            Width::W8 => match self.decoder.read::<u8>() {
                Some(v) => v as u64,
                None => unreached(),
            },
            Width::W16 => match self.decoder.read::<u16>() {
                Some(v) => v as u64,
                None => unreached(),
            },
            Width::W32 => match self.decoder.read::<u32>() {
                Some(v) => v as u64,
                None => unreached(),
            },
            Width::W64 => match self.decoder.read::<u64>() {
                Some(v) => v,
                None => unreached(),
            },
        }
    }

    /// Executes the instruction at the cursor.
    pub fn step(&mut self) -> (r: Executed)
        requires
            old(self).wf(),
        ensures
            final(self).wf(),
            final(self).same_frame(old(self)),
            match step(old(self).program(), old(self).pc(), old(self).registers(), old(self).base()) {
                Step::Halt => r == Executed::Halted && final(self).pc() == old(self).pc()
                    && final(self).registers() == old(self).registers(),
                Step::Fault(f) => r == Executed::Faulted(f) && final(self).registers() == old(
                    self,
                ).registers(),
                Step::Next(n, regs) => r == Executed::Continued && final(self).pc() == n && final(self).registers() == regs,
                Step::Float(n, fi) => r == Executed::Float(fi) && final(self).pc() == n && final(self).registers() == old(self).registers(),
            },
    {
        let op = match self.decoder.read_opcode() {
            Ok(None) => {
                return Executed::Halted;
            },
            Err(b) => {
                return Executed::Faulted(Fault::UnknownOpcode(b));
            },
            Ok(Some(op)) => op,
        };
        let k = op.kind();
        if self.decoder.remaining() < operand_len_of(k) {
            return Executed::Faulted(Fault::Truncated);
        }
        if let Kind::Nop = k {
            return Executed::Continued;
        }
        let d = match self.read_regid() {
            Ok(d) => d,
            Err(f) => {
                return Executed::Faulted(f);
            },
        };
        if let Kind::Const(w) = k {
            let v = self.read_immediate(w);
            self.regs.set_cell(d, v);
            return Executed::Continued;
        }
        if let Kind::RegAddr = k {
            let id = match self.decoder.read::<u16>() {
                Some(id) => id,
                None => unreached(),
            };
            let addr = self.base.wrapping_add(8 * (id as u64));
            self.regs.set_cell(d, addr);
            return Executed::Continued;
        }
        let a = match self.reg_as::<u64>() {
            Ok(v) => v,
            Err(f) => {
                return Executed::Faulted(f);
            },
        };
        let b: u64 = if is_unary_of(k) {
            0
        } else {
            match self.reg_as::<u64>() {
                Ok(v) => v,
                Err(f) => {
                    return Executed::Faulted(f);
                },
            }
        };
        match k {
            Kind::FloatUnary | Kind::FloatBinary => Executed::Float(
                FloatInstr { op, dest: d, a, b },
            ),
            _ => match integer_result(k, a, b) {
                Ok(c) => {
                    self.regs.set_cell(d, c);
                    Executed::Continued
                },
                Err(t) => Executed::Faulted(Fault::Arithmetic(t)),
            },
        }
    }

    /// Executes instructions until the stream ends, a fault, or a floating-point
    /// instruction.
    pub fn run(&mut self) -> (r: Result<Stop, Fault>)
        requires
            old(self).wf(),
        ensures
            final(self).wf(),
            final(self).same_frame(old(self)),
            match run(old(self).program(), old(self).pc(), old(self).registers(), old(self).base()) {
                Outcome::Finished(regs) => r == Ok::<Stop, Fault>(Stop::Finished) && final(self).registers() == regs,
                Outcome::Faulted(f, regs) => r == Err::<Stop, Fault>(f) && final(self).registers()
                    == regs,
                Outcome::Paused(n, fi, regs) => r == Ok::<Stop, Fault>(Stop::Float(fi)) && final(self).pc() == n && final(self).registers() == regs,
            },
    {
        loop
            invariant
                self.wf(),
                self.same_frame(old(self)),
                run(self.program(), self.pc(), self.registers(), self.base()) == run(
                    old(self).program(),
                    old(self).pc(),
                    old(self).registers(),
                    old(self).base(),
                ),
            decreases self.program().len() - self.pc(),
        {
            proof {
                lemma_step_advances(self.program(), self.pc(), self.registers(), self.base());
            }
            match self.step() {
                Executed::Halted => {
                    return Ok(Stop::Finished);
                },
                Executed::Faulted(f) => {
                    return Err(f);
                },
                Executed::Float(fi) => {
                    return Ok(Stop::Float(fi));
                },
                Executed::Continued => {},
            }
        }
    }
}

} // verus!
