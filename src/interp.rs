use vstd::prelude::*;

use crate::checker::inst_violation;
use crate::inst::{Class, Inst, Mode, OpJmp, Size, Src};
use crate::program::Program;

verus! {

/// A region of memory from which sized values may be loaded.
///
/// Every access is checked: a load that finds no value returns `None`, and
/// the `Invoke` that made it stops with an error.
pub trait DataArea {
    /// What the region holds as a 64-bit value at `offs`, if anything.
    spec fn spec_load_u64(&self, offs: usize) -> Option<u64>;

    /// What the region holds as a 32-bit value at `offs`, if anything.
    spec fn spec_load_u32(&self, offs: usize) -> Option<u32>;

    /// What the region holds as a 16-bit value at `offs`, if anything.
    spec fn spec_load_u16(&self, offs: usize) -> Option<u16>;

    /// What the region holds as a byte at `offs`, if anything.
    spec fn spec_load_u8(&self, offs: usize) -> Option<u8>;

    fn load_u64(&self, offs: usize) -> (r: Option<u64>)
        ensures
            r == self.spec_load_u64(offs),
    ;

    fn load_u32(&self, offs: usize) -> (r: Option<u32>)
        ensures
            r == self.spec_load_u32(offs),
    ;

    fn load_u16(&self, offs: usize) -> (r: Option<u16>)
        ensures
            r == self.spec_load_u16(offs),
    ;

    fn load_u8(&self, offs: usize) -> (r: Option<u8>)
        ensures
            r == self.spec_load_u8(offs),
    ;
}

/// A `DataArea` in which every access fails.
#[derive(Debug, Clone, Copy, PartialEq, Eq, Structural)]
pub struct EmptyDataArea;

impl DataArea for EmptyDataArea {
    open spec fn spec_load_u64(&self, offs: usize) -> Option<u64> {
        None
    }

    open spec fn spec_load_u32(&self, offs: usize) -> Option<u32> {
        None
    }

    open spec fn spec_load_u16(&self, offs: usize) -> Option<u16> {
        None
    }

    open spec fn spec_load_u8(&self, offs: usize) -> Option<u8> {
        None
    }

    fn load_u64(&self, _offs: usize) -> (r: Option<u64>) {
        None
    }

    fn load_u32(&self, _offs: usize) -> (r: Option<u32>) {
        None
    }

    fn load_u16(&self, _offs: usize) -> (r: Option<u16>) {
        None
    }

    fn load_u8(&self, _offs: usize) -> (r: Option<u8>) {
        None
    }
}

/// Why a run stopped without a result.
#[derive(Debug, Clone, Copy, PartialEq, Eq, Structural)]
pub enum RuntimeError {
    /// A load found no value in the data area
    DataAreaMiss,
    /// The instruction is known but not implemented: `ld.imm.dw` or `call`
    NotImplemented,
    /// The instruction is outside what the interpreter executes
    UnsupportedInst,
    /// The program counter left the program
    InvalidInstIdx,
    /// The run took more steps than it was allowed
    StepLimitExceeded,
}

/// Where execution goes after one instruction.
#[derive(Debug, Clone, Copy, PartialEq, Eq, Structural)]
pub enum Flow {
    /// On to the instruction at this index
    Next(usize),
    /// The program exits with this value
    Exit(u64),
}

/// The second operand of a jump: the immediate or the source register.
pub open spec fn operand_b(i: Inst, regs: Seq<u64>) -> u64 {
    match i.spec_src_flag() {
        Src::K => i.imm as u64,
        Src::X => regs[i.spec_src() as int],
    }
}

/// Whether the jump `op` is taken on the operands `a` and `b`.
pub open spec fn jump_taken(op: OpJmp, a: u64, b: u64) -> bool {
    match op {
        OpJmp::Ja => true,
        OpJmp::Jeq => a == b,
        OpJmp::Jgt => a > b,
        OpJmp::Jge => a >= b,
        OpJmp::Jset => a & b != 0,
        OpJmp::Jne => a != b,
        OpJmp::Jsgt => (a as i64) > (b as i64),
        OpJmp::Jsge => (a as i64) >= (b as i64),
        OpJmp::Jlt => a < b,
        OpJmp::Jle => a <= b,
        OpJmp::Jslt => (a as i64) < (b as i64),
        OpJmp::Jsle => (a as i64) <= (b as i64),
        OpJmp::Call => false,
        OpJmp::Exit => false,
    }
}

/// Going on at index `t` of a program of `len` instructions.
pub open spec fn goto(t: int, len: int) -> Result<Flow, RuntimeError> {
    if 0 <= t < len {
        Ok(Flow::Next(t as usize))
    } else {
        Err(RuntimeError::InvalidInstIdx)
    }
}

/// Whether `i` loads from the data area.
pub open spec fn reads_data_area(i: Inst) -> bool {
    &&& i.spec_class() == Some(Class::Ld)
    &&& i.spec_mode() == Some(Mode::Abs) || i.spec_mode() == Some(Mode::Ind)
}

/// The offset at which a data-area load reads: the immediate, plus the
/// source register for `ld.ind`; none where that sum is beyond any address.
pub open spec fn load_offset(i: Inst, regs: Seq<u64>) -> Option<usize> {
    if i.spec_mode() == Some(Mode::Abs) {
        Some(i.imm as usize)
    } else {
        let o = i.imm as int + regs[i.spec_src() as int] as int;
        if o <= usize::MAX {
            Some(o as usize)
        } else {
            None
        }
    }
}

/// Where one instruction `i`, at index `pc` of a program of `len`
/// instructions, takes execution; `loaded` is what the data area gave for a
/// load, and is not read by other instructions.
pub open spec fn step_result(i: Inst, regs: Seq<u64>, pc: int, len: int, loaded: Option<u64>) -> Result<
    Flow,
    RuntimeError,
> {
    match i.spec_class() {
        Some(Class::Ld) => match i.spec_mode() {
            Some(Mode::Imm) => if i.spec_size() == Size::DW {
                Err(RuntimeError::NotImplemented)
            } else {
                goto(pc + 1, len)
            },
            Some(Mode::Abs) | Some(Mode::Ind) => if loaded is Some {
                goto(pc + 1, len)
            } else {
                Err(RuntimeError::DataAreaMiss)
            },
            _ => Err(RuntimeError::UnsupportedInst),
        },
        Some(Class::Jmp) => match i.spec_jmp() {
            Some(OpJmp::Call) => Err(RuntimeError::NotImplemented),
            Some(OpJmp::Exit) => if i.off == 0 && i.imm == 0 {
                Ok(Flow::Exit(regs[0]))
            } else {
                Err(RuntimeError::UnsupportedInst)
            },
            Some(op) => if jump_taken(op, regs[i.spec_dst() as int], operand_b(i, regs)) {
                goto(pc + 1 + i.spec_off16(), len)
            } else {
                goto(pc + 1, len)
            },
            None => Err(RuntimeError::UnsupportedInst),
        },
        _ => Err(RuntimeError::UnsupportedInst),
    }
}

/// The registers after the instruction `i`. An immediate load writes the
/// 32-bit immediate, zero-extended, whatever its width; a data-area load
/// writes the value loaded.
pub open spec fn step_regs(i: Inst, regs: Seq<u64>, loaded: Option<u64>) -> Seq<u64> {
    if i.spec_class() == Some(Class::Ld) {
        match i.spec_mode() {
            Some(Mode::Imm) => if i.spec_size() == Size::DW {
                regs
            } else {
                regs.update(i.spec_dst() as int, i.imm as u64)
            },
            Some(Mode::Abs) | Some(Mode::Ind) => match loaded {
                Some(v) => regs.update(i.spec_dst() as int, v),
                None => regs,
            },
            _ => regs,
        }
    } else {
        regs
    }
}

/// The value that a load of width `sz` at `offs` takes from the data area
/// `d`: the one load of that width, zero-extended.
pub open spec fn data_answer<D: DataArea>(d: D, offs: usize, sz: Size) -> Option<u64> {
    match sz {
        Size::W => match d.spec_load_u32(offs) {
            Some(x) => Some(x as u64),
            None => None,
        },
        Size::H => match d.spec_load_u16(offs) {
            Some(x) => Some(x as u64),
            None => None,
        },
        Size::B => match d.spec_load_u8(offs) {
            Some(x) => Some(x as u64),
            None => None,
        },
        Size::DW => d.spec_load_u64(offs),
    }
}

/// What the instruction `i` takes from the data area `d`: the answer to its
/// load where it asks for one, and nothing otherwise.
pub open spec fn loaded_value<D: DataArea>(i: Inst, regs: Seq<u64>, d: D) -> Option<u64> {
    if reads_data_area(i) {
        match load_offset(i, regs) {
            Some(offs) => data_answer(d, offs, i.spec_size()),
            None => None,
        }
    } else {
        None
    }
}

/// The outcome of running `words` from index `pc` on the registers `regs`,
/// for at most `fuel` instructions, loading from the data area `d`.
pub open spec fn exec_from<D: DataArea>(
    words: Seq<u64>,
    regs: Seq<u64>,
    pc: int,
    fuel: nat,
    d: D,
) -> Result<u64, RuntimeError>
    decreases fuel,
{
    if fuel == 0 {
        Err(RuntimeError::StepLimitExceeded)
    } else if !(0 <= pc < words.len()) {
        Err(RuntimeError::InvalidInstIdx)
    } else {
        let i = Inst::spec_from_u64(words[pc]);
        let loaded = loaded_value(i, regs, d);
        match step_result(i, regs, pc, words.len() as int, loaded) {
            Ok(Flow::Next(t)) => exec_from(words, step_regs(i, regs, loaded), t as int, (fuel - 1) as nat, d),
            Ok(Flow::Exit(v)) => Ok(v),
            Err(e) => Err(e),
        }
    }
}

/// An instruction that the checker accepts, other than a memory load of the
/// `ldx` class, is one that the interpreter executes: it never stops there
/// as unsupported or unimplemented.
pub proof fn lemma_accepted_inst_executes(
    i: Inst,
    regs: Seq<u64>,
    pc: int,
    len: int,
    loaded: Option<u64>,
)
    requires
        inst_violation(i) is None,
        i.spec_class() != Some(Class::Ldx),
    ensures
        step_result(i, regs, pc, len, loaded) != Err::<Flow, RuntimeError>(
            RuntimeError::UnsupportedInst,
        ),
        step_result(i, regs, pc, len, loaded) != Err::<Flow, RuntimeError>(
            RuntimeError::NotImplemented,
        ),
{
}

fn jump_is_taken(op: OpJmp, a: u64, b: u64) -> (r: bool)
    ensures
        r == jump_taken(op, a, b),
{
    match op {
        OpJmp::Ja => true,
        OpJmp::Jeq => a == b,
        OpJmp::Jgt => a > b,
        OpJmp::Jge => a >= b,
        OpJmp::Jset => (a & b) != 0,
        OpJmp::Jne => a != b,
        OpJmp::Jsgt => (a as i64) > (b as i64),
        OpJmp::Jsge => (a as i64) >= (b as i64),
        OpJmp::Jlt => a < b,
        OpJmp::Jle => a <= b,
        OpJmp::Jslt => (a as i64) < (b as i64),
        OpJmp::Jsle => (a as i64) <= (b as i64),
        OpJmp::Call => false,
        OpJmp::Exit => false,
    }
}

/// Goes on `off` instructions past the one after `pc`.
fn goto_relative(pc: usize, off: i16, len: usize) -> (r: Result<Flow, RuntimeError>)
    requires
        pc < len,
    ensures
        r == goto(pc + 1 + off, len as int),
{
    let next = pc + 1;
    if off >= 0 {
        let d = off as usize;
        if d < len - next {
            Ok(Flow::Next(next + d))
        } else {
            Err(RuntimeError::InvalidInstIdx)
        }
    } else {
        let back = (-(off as i32)) as usize;
        if back <= next {
            Ok(Flow::Next(next - back))
        } else {
            Err(RuntimeError::InvalidInstIdx)
        }
    }
}

/// Executes the instruction at `pc` of `words` on `regs`. `loaded` is the
/// value that the data area gave for a load, and is not read by other
/// instructions.
pub fn step(words: &[u64], regs: &mut [u64; 16], pc: usize, loaded: Option<u64>) -> (r: Result<
    Flow,
    RuntimeError,
>)
    requires
        pc < words@.len(),
    ensures
        r == step_result(
            Inst::spec_from_u64(words@[pc as int]),
            old(regs)@,
            pc as int,
            words@.len() as int,
            loaded,
        ),
        final(regs)@ == step_regs(Inst::spec_from_u64(words@[pc as int]), old(regs)@, loaded),
{
    let len = words.len();
    let i = Inst::from_u64(words[pc]);
    match i.op_class() {
        Some(Class::Ld) => match i.ld_mode() {
            Some(Mode::Imm) => match i.ld_size() {
                Size::DW => Err(RuntimeError::NotImplemented),
                // widths H and B load the whole immediate, as W does
                _ => {
                    regs[i.dst() as usize] = i.imm32() as u64;
                    goto_relative(pc, 0, len)
                },
            },
            Some(Mode::Abs) | Some(Mode::Ind) => match loaded {
                Some(v) => {
                    regs[i.dst() as usize] = v;
                    goto_relative(pc, 0, len)
                },
                None => Err(RuntimeError::DataAreaMiss),
            },
            _ => Err(RuntimeError::UnsupportedInst),
        },
        Some(Class::Jmp) => {
            let a = regs[i.dst() as usize];
            let b = match i.op_src() {
                Src::K => i.imm32() as u64,
                Src::X => regs[i.src() as usize],
            };
            match i.op_jmp() {
                Some(OpJmp::Call) => Err(RuntimeError::NotImplemented),
                Some(OpJmp::Exit) => {
                    if i.off16() == 0 && i.imm32() == 0 {
                        Ok(Flow::Exit(regs[0]))
                    } else {
                        Err(RuntimeError::UnsupportedInst)
                    }
                },
                Some(op) => {
                    if jump_is_taken(op, a, b) {
                        goto_relative(pc, i.off16(), len)
                    } else {
                        goto_relative(pc, 0, len)
                    }
                },
                None => Err(RuntimeError::UnsupportedInst),
            }
        },
        _ => Err(RuntimeError::UnsupportedInst),
    }
}

/// One run of a program: its registers and the data area it loads from.
///
/// Register 0 holds the return value, registers 1 to 5 the arguments,
/// 6 to 9 are callee-saved and 10 is the frame pointer.
#[derive(Clone, PartialEq, Eq, Debug)]
pub struct Invoke<'a, D: DataArea> {
    prgm: Program<'a>,
    regs: [u64; 16],
    data_area: D,
}

impl<'a> Invoke<'a, EmptyDataArea> {
    /// A run of `prgm` with no data area: every load from it fails.
    pub fn new(prgm: Program<'a>) -> (r: Invoke<'a, EmptyDataArea>)
        ensures
            r.program() == prgm@,
            r.registers() == Seq::new(16, |_j: int| 0u64),
            r.registers().len() == 16,
    {
        Self::with_data_area(prgm, EmptyDataArea)
    }
}

impl<'a, D: DataArea> Invoke<'a, D> {
    /// The instruction words that the run executes.
    pub closed spec fn program(self) -> Seq<u64> {
        self.prgm@
    }

    /// The sixteen registers, before the run.
    pub closed spec fn registers(self) -> Seq<u64> {
        self.regs@
    }

    pub closed spec fn data_area(self) -> D {
        self.data_area
    }

    /// A run of `prgm` that loads from `data_area`, with every register 0.
    pub fn with_data_area(prgm: Program<'a>, data_area: D) -> (r: Self)
        ensures
            r.program() == prgm@,
            r.registers() == Seq::new(16, |_j: int| 0u64),
            r.registers().len() == 16,
            r.data_area() == data_area,
    {
        let r = Invoke { prgm, regs: [0u64; 16], data_area };
        assert(r.regs@ =~= Seq::new(16, |_j: int| 0u64));
        r
    }

    /// Sets register `reg` to `val` before the run.
    pub fn arg_raw(&mut self, reg: usize, val: u64)
        requires
            reg < 16,
        ensures
            final(self).registers() == old(self).registers().update(reg as int, val),
            final(self).registers().len() == 16,
            final(self).program() == old(self).program(),
            final(self).data_area() == old(self).data_area(),
    {
        self.regs[reg] = val;
    }

    /// Loads a value of width `sz` at `offs`, zero-extended.
    fn data_area_load(&self, offs: usize, sz: Size) -> (r: Option<u64>)
        ensures
            r == data_answer(self.data_area, offs, sz),
    {
        match sz {
            Size::W => match self.data_area.load_u32(offs) {
                Some(x) => Some(x as u64),
                None => None,
            },
            Size::H => match self.data_area.load_u16(offs) {
                Some(x) => Some(x as u64),
                None => None,
            },
            Size::B => match self.data_area.load_u8(offs) {
                Some(x) => Some(x as u64),
                None => None,
            },
            Size::DW => self.data_area.load_u64(offs),
        }
    }

    /// The offset that the data-area load `i` reads at, if it is an address.
    fn load_offset(i: &Inst, regs: &[u64; 16]) -> (r: Option<usize>)
        requires
            reads_data_area(*i),
        ensures
            r == load_offset(*i, regs@),
    {
        if let Some(Mode::Abs) = i.ld_mode() {
            Some(i.imm32() as usize)
        } else {
            let base = regs[i.src() as usize];
            match base.checked_add(i.imm32() as u64) {
                Some(o) => {
                    if o <= usize::MAX as u64 {
                        Some(o as usize)
                    } else {
                        None
                    }
                },
                None => None,
            }
        }
    }

    /// Runs the program from its first instruction until it exits or fails.
    ///
    /// The run is cut off after `u64::MAX` instructions.
    pub fn run(self) -> (r: Result<u64, RuntimeError>)
        ensures
            r == exec_from(self.program(), self.registers(), 0, u64::MAX as nat, self.data_area()),
    {
        self.run_with_step_limit(u64::MAX)
    }

    /// Runs the program as `run` does, but for at most `max_steps`
    /// instructions.
    pub fn run_with_step_limit(self, max_steps: u64) -> (r: Result<u64, RuntimeError>)
        ensures
            r == exec_from(self.program(), self.registers(), 0, max_steps as nat, self.data_area()),
    {
        let words = self.prgm.words();
        let mut regs = self.regs;
        let mut pc: usize = 0;
        let mut fuel: u64 = max_steps;
        loop
            invariant
                words@ == self.program(),
                regs@.len() == 16,
                exec_from(words@, self.registers(), 0, max_steps as nat, self.data_area())
                    == exec_from(words@, regs@, pc as int, fuel as nat, self.data_area()),
            decreases fuel,
        {
            if fuel == 0 {
                return Err(RuntimeError::StepLimitExceeded);
            }
            if pc >= words.len() {
                return Err(RuntimeError::InvalidInstIdx);
            }
            let i = Inst::from_u64(words[pc]);
            let mut loaded: Option<u64> = None;
            if let Some(Class::Ld) = i.op_class() {
                match i.ld_mode() {
                    Some(Mode::Abs) | Some(Mode::Ind) => {
                        if let Some(offs) = Self::load_offset(&i, &regs) {
                            loaded = self.data_area_load(offs, i.ld_size());
                        }
                    },
                    _ => {},
                }
            }
            assert(loaded == loaded_value(i, regs@, self.data_area()));
            match step(words, &mut regs, pc, loaded) {
                Ok(Flow::Next(t)) => {
                    pc = t;
                    fuel = fuel - 1;
                },
                Ok(Flow::Exit(v)) => {
                    return Ok(v);
                },
                Err(e) => {
                    return Err(e);
                },
            }
        }
    }
}

} // verus!
