use vstd::prelude::*;

use crate::inst::{Class, Inst, Mode, OpJmp, Size};
use crate::program::Program;

verus! {

/// Why an instruction is not accepted.
#[derive(Debug, Clone, Copy, PartialEq, Eq)]
pub enum InstDecodeError {
    /// The fields hold values that the instruction forbids
    InvalidEncoding(&'static str),
    /// The instruction is outside what the interpreter executes
    ForbiddenInst(&'static str),
    Other(&'static str),
}

#[derive(Debug, Clone, Copy, PartialEq, Eq)]
pub enum PrgmVerifyErrorKind {
    /// Instruction was not accepted
    InstDecode(InstDecodeError),
    /// Attempted to verify a location outside the program
    InvalidInstIdx,
    /// The program exceeds the instruction limit
    InstLimitExceeded,
    Other(&'static str),
}

/// A verification failure and the index of the instruction it concerns.
#[derive(Debug, Clone, Copy, PartialEq, Eq)]
pub struct PrgmVerifyError {
    pub inst_idx: usize,
    pub kind: PrgmVerifyErrorKind,
}

impl From<InstDecodeError> for PrgmVerifyErrorKind {
    fn from(v: InstDecodeError) -> (r: PrgmVerifyErrorKind)
        ensures
            r == PrgmVerifyErrorKind::InstDecode(v),
    {
        PrgmVerifyErrorKind::InstDecode(v)
    }
}

impl vstd::std_specs::convert::FromSpecImpl<InstDecodeError> for PrgmVerifyErrorKind {
    open spec fn obeys_from_spec() -> bool {
        true
    }

    open spec fn from_spec(v: InstDecodeError) -> PrgmVerifyErrorKind {
        PrgmVerifyErrorKind::InstDecode(v)
    }
}

/// The error at an instruction index for the rule that instruction breaks.
impl From<(usize, InstDecodeError)> for PrgmVerifyError {
    fn from(v: (usize, InstDecodeError)) -> (r: PrgmVerifyError)
        ensures
            r == (PrgmVerifyError { inst_idx: v.0, kind: PrgmVerifyErrorKind::InstDecode(v.1) }),
    {
        PrgmVerifyError { inst_idx: v.0, kind: PrgmVerifyErrorKind::from(v.1) }
    }
}

impl vstd::std_specs::convert::FromSpecImpl<(usize, InstDecodeError)> for PrgmVerifyError {
    open spec fn obeys_from_spec() -> bool {
        true
    }

    open spec fn from_spec(v: (usize, InstDecodeError)) -> PrgmVerifyError {
        PrgmVerifyError { inst_idx: v.0, kind: PrgmVerifyErrorKind::InstDecode(v.1) }
    }
}

/// A basic block: the instructions from `start` up to `end`.
pub struct Block {
    pub start: usize,
    pub end: usize,
}

/// The rule that `i` breaks, if it breaks one.
///
/// Accepted are: `ld.imm` of width W, H or B with a zero offset; `ld.abs`
/// with zero offset and source register; `ld.ind` with a zero offset;
/// `ldx.mem`; and `exit` with zero offset and immediate.
pub open spec fn inst_violation(i: Inst) -> Option<InstDecodeError> {
    match i.spec_class() {
        Some(Class::Ld) => match i.spec_mode() {
            Some(Mode::Imm) => if i.off != 0 {
                Some(InstDecodeError::InvalidEncoding("ld.imm has offs != 0"))
            } else if i.spec_size() == Size::DW {
                Some(InstDecodeError::ForbiddenInst("ld.imm.dw(64) not implemented"))
            } else {
                None
            },
            Some(Mode::Abs) => if i.off != 0 {
                Some(InstDecodeError::InvalidEncoding("ld.abs has offs != 0"))
            } else if i.spec_src() != 0 {
                Some(InstDecodeError::InvalidEncoding("ld.abs has src_reg != 0"))
            } else {
                None
            },
            Some(Mode::Ind) => if i.off != 0 {
                Some(InstDecodeError::InvalidEncoding("ld.ind has offs != 0"))
            } else {
                None
            },
            _ => Some(InstDecodeError::ForbiddenInst("invalid Ld mode")),
        },
        Some(Class::Ldx) => match i.spec_mode() {
            Some(Mode::Mem) => None,
            _ => Some(InstDecodeError::ForbiddenInst("invalid Ldx mode")),
        },
        Some(Class::Jmp) => match i.spec_jmp() {
            Some(OpJmp::Exit) => if i.off != 0 || i.imm != 0 {
                Some(InstDecodeError::ForbiddenInst("Exit has non-zero imm or off"))
            } else {
                None
            },
            _ => Some(InstDecodeError::ForbiddenInst("not Exit")),
        },
        _ => Some(InstDecodeError::ForbiddenInst("not Ld, Ldx or Jmp")),
    }
}

/// The pass over `words` from index `idx` on: the first instruction that
/// breaks a rule, or success.
pub open spec fn scan_from(words: Seq<u64>, idx: int) -> Result<(), PrgmVerifyError>
    decreases words.len() - idx,
{
    if idx < 0 || idx >= words.len() {
        Ok(())
    } else {
        match inst_violation(Inst::spec_from_u64(words[idx])) {
            Some(e) => Err(PrgmVerifyError { inst_idx: idx as usize, kind: PrgmVerifyErrorKind::InstDecode(e) }),
            None => scan_from(words, idx + 1),
        }
    }
}

/// The outcome of verifying `words` under the instruction limit `limit`.
pub open spec fn verdict(limit: Option<usize>, words: Seq<u64>) -> Result<(), PrgmVerifyError> {
    match limit {
        Some(l) if words.len() > l => Err(
            PrgmVerifyError { inst_idx: l, kind: PrgmVerifyErrorKind::InstLimitExceeded },
        ),
        _ => scan_from(words, 0),
    }
}

/// Checks one instruction against the rules of `inst_violation`.
pub fn check_inst(i: &Inst) -> (r: Result<(), InstDecodeError>)
    ensures
        r == match inst_violation(*i) {
            Some(e) => Err(e),
            None => Ok(()),
        },
{
    match i.op_class() {
        Some(Class::Ld) => match i.ld_mode() {
            Some(Mode::Imm) => {
                if i.off16() != 0 {
                    return Err(InstDecodeError::InvalidEncoding("ld.imm has offs != 0"));
                }
                if let Size::DW = i.ld_size() {
                    return Err(InstDecodeError::ForbiddenInst("ld.imm.dw(64) not implemented"));
                }
                Ok(())
            },
            Some(Mode::Abs) => {
                if i.off16() != 0 {
                    return Err(InstDecodeError::InvalidEncoding("ld.abs has offs != 0"));
                }
                if i.src() != 0 {
                    return Err(InstDecodeError::InvalidEncoding("ld.abs has src_reg != 0"));
                }
                Ok(())
            },
            Some(Mode::Ind) => {
                if i.off16() != 0 {
                    return Err(InstDecodeError::InvalidEncoding("ld.ind has offs != 0"));
                }
                Ok(())
            },
            _ => Err(InstDecodeError::ForbiddenInst("invalid Ld mode")),
        },
        Some(Class::Ldx) => match i.ld_mode() {
            Some(Mode::Mem) => Ok(()),
            _ => Err(InstDecodeError::ForbiddenInst("invalid Ldx mode")),
        },
        Some(Class::Jmp) => match i.op_jmp() {
            Some(OpJmp::Exit) => {
                if i.off16() != 0 || i.imm32() != 0 {
                    return Err(InstDecodeError::ForbiddenInst("Exit has non-zero imm or off"));
                }
                Ok(())
            },
            _ => Err(InstDecodeError::ForbiddenInst("not Exit")),
        },
        _ => Err(InstDecodeError::ForbiddenInst("not Ld, Ldx or Jmp")),
    }
}

/// The environment a program is verified for: at present, an optional
/// limit on its number of instructions.
#[derive(Debug, PartialEq, Eq)]
pub struct Env {
    inst_limit: Option<usize>,
}

impl Default for Env {
    /// No instruction limit.
    fn default() -> (r: Env)
        ensures
            r.limit() is None,
    {
        Env { inst_limit: None }
    }
}

impl Env {
    /// The instruction limit, if there is one.
    pub closed spec fn limit(self) -> Option<usize> {
        self.inst_limit
    }

    pub fn with_inst_limit(inst_limit: usize) -> (r: Env)
        ensures
            r.limit() == Some(inst_limit),
    {
        Env { inst_limit: Some(inst_limit) }
    }

    /// Checks `data` in one pass from the first instruction on, stopping at
    /// the first one that breaks a rule; a program longer than the limit is
    /// refused before any instruction is looked at.
    pub fn verify<'a>(&mut self, data: &'a [u64]) -> (r: Result<Program<'a>, PrgmVerifyError>)
        ensures
            *final(self) == *old(self),
            match r {
                Ok(p) => verdict(old(self).limit(), data@) is Ok && p@ == data@,
                Err(e) => verdict(old(self).limit(), data@) == Err::<(), PrgmVerifyError>(e),
            },
    {
        let inst_ct = data.len();
        if let Some(limit) = self.inst_limit {
            if inst_ct > limit {
                return Err(
                    PrgmVerifyError { inst_idx: limit, kind: PrgmVerifyErrorKind::InstLimitExceeded },
                );
            }
        }
        let mut pc: usize = 0;
        while pc < inst_ct
            invariant
                inst_ct == data@.len(),
                pc <= inst_ct,
                *self == *old(self),
                verdict(self.limit(), data@) == scan_from(data@, 0),
                scan_from(data@, 0) == scan_from(data@, pc as int),
            decreases inst_ct - pc,
        {
            let i = Inst::from_u64(data[pc]);
            match check_inst(&i) {
                Err(e) => {
                    return Err(PrgmVerifyError::from((pc, e)));
                },
                Ok(()) => {},
            }
            pc = pc + 1;
        }
        Ok(Program::from_raw(data))
    }
}

/// The pass from `idx` on succeeds exactly when no instruction from `idx`
/// on breaks a rule.
proof fn lemma_scan_ok_iff_legal(words: Seq<u64>, idx: int)
    requires
        0 <= idx <= words.len(),
    ensures
        scan_from(words, idx) is Ok <==> forall|i: int|
            idx <= i < words.len() ==> (#[trigger] inst_violation(Inst::spec_from_u64(words[i])))
                is None,
    decreases words.len() - idx,
{
    if idx < words.len() {
        lemma_scan_ok_iff_legal(words, idx + 1);
    }
}

/// A program is accepted exactly when it is within the limit and every one
/// of its instructions keeps the rules.
pub proof fn lemma_accepted_iff_all_legal(limit: Option<usize>, words: Seq<u64>)
    ensures
        verdict(limit, words) is Ok <==> {
            &&& (limit matches Some(l) ==> words.len() <= l)
            &&& forall|i: int|
                0 <= i < words.len() ==> (#[trigger] inst_violation(Inst::spec_from_u64(words[i])))
                    is None
        },
{
    lemma_scan_ok_iff_legal(words, 0);
}

/// A program whose only instruction is of the 32-bit arithmetic class is
/// refused at index 0 as a forbidden instruction, whatever its opcode.
pub proof fn lemma_alu_refused(w: u64, limit: Option<usize>)
    requires
        Inst::spec_from_u64(w).spec_class() == Some(Class::Alu),
        limit matches Some(l) ==> l >= 1,
    ensures
        verdict(limit, seq![w]) matches Err(e) && e.inst_idx == 0 && e.kind matches
            PrgmVerifyErrorKind::InstDecode(InstDecodeError::ForbiddenInst(_)),
{
    assert(seq![w][0] == w);
    assert(scan_from(seq![w], 0) == Err::<(), PrgmVerifyError>(
        PrgmVerifyError {
            inst_idx: 0,
            kind: PrgmVerifyErrorKind::InstDecode(
                InstDecodeError::ForbiddenInst("not Ld, Ldx or Jmp"),
            ),
        },
    ));
}

/// A program longer than the limit is refused at the index of the limit.
pub proof fn lemma_over_limit_refused(words: Seq<u64>, l: usize)
    requires
        words.len() > l,
    ensures
        verdict(Some(l), words) == Err::<(), PrgmVerifyError>(
            PrgmVerifyError { inst_idx: l, kind: PrgmVerifyErrorKind::InstLimitExceeded },
        ),
{
}

} // verus!
