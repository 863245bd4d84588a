use vstd::prelude::*;

verus! {

/// Broad class of an instruction: the low three bits of its opcode byte.
#[derive(Debug, Clone, Copy, PartialEq, Eq, Structural)]
pub enum Class {
    Ld,
    /// Load, using a register as the destination
    Ldx,
    /// Store, using the immediate as the source
    St,
    /// Store, using a register as the source
    Stx,
    /// Arithmetic in 32 bits
    Alu,
    /// Conditional and unconditional jumps
    Jmp,
    /// Arithmetic in 64 bits
    Alu64,
}

/// Whether a jump or arithmetic operand is the immediate or a register:
/// bit 3 of the opcode byte.
#[derive(Debug, Clone, Copy, PartialEq, Eq, Structural)]
pub enum Src {
    /// Immediate
    K,
    /// Register
    X,
}

/// Operations of the jump class: the high four bits of the opcode byte.
#[derive(Debug, Clone, Copy, PartialEq, Eq, Structural)]
pub enum OpJmp {
    /// Jump always
    Ja,
    Jeq,
    Jgt,
    Jge,
    Jset,
    /// Jump if not equal
    Jne,
    /// Jump if signed greater than
    Jsgt,
    /// Jump if signed greater than or equal to
    Jsge,
    Call,
    Exit,
    Jlt,
    Jle,
    Jslt,
    Jsle,
}

/// Width of a load or store: bits 3 and 4 of the opcode byte.
#[derive(Debug, Clone, Copy, PartialEq, Eq, Structural)]
pub enum Size {
    /// u32, "word"
    W,
    /// u16, "half word"
    H,
    /// u8, "byte"
    B,
    /// u64, "double word"
    DW,
}

/// Addressing mode of a load or store: the high three bits of the opcode byte.
#[derive(Debug, Clone, Copy, PartialEq, Eq, Structural)]
pub enum Mode {
    /// Load the immediate into the register `dst`
    Imm,
    /// Load from the data area at `imm`
    Abs,
    /// Load from the data area at `imm` plus register `src`
    Ind,
    /// Ordinary memory access
    Mem,
    /// Classic BPF only
    Len,
    /// Classic BPF only
    Msh,
    /// Exclusive add
    Xadd,
}

impl Class {
    /// The class that the low three bits `bits` name, if any.
    pub open spec fn spec_from_bits(bits: u8) -> Option<Class> {
        if bits == 0x00 {
            Some(Class::Ld)
        } else if bits == 0x01 {
            Some(Class::Ldx)
        } else if bits == 0x02 {
            Some(Class::St)
        } else if bits == 0x03 {
            Some(Class::Stx)
        } else if bits == 0x04 {
            Some(Class::Alu)
        } else if bits == 0x05 {
            Some(Class::Jmp)
        } else if bits == 0x07 {
            Some(Class::Alu64)
        } else {
            None
        }
    }

    pub fn from_bits(bits: u8) -> (r: Option<Class>)
        ensures
            r == Class::spec_from_bits(bits),
    {
        match bits {
            0x00 => Some(Class::Ld),
            0x01 => Some(Class::Ldx),
            0x02 => Some(Class::St),
            0x03 => Some(Class::Stx),
            0x04 => Some(Class::Alu),
            0x05 => Some(Class::Jmp),
            0x07 => Some(Class::Alu64),
            _ => None,
        }
    }
}

impl Src {
    /// Bit 3 clear is the immediate; any other value is a register.
    pub open spec fn spec_from_bits(bits: u8) -> Src {
        if bits == 0 {
            Src::K
        } else {
            Src::X
        }
    }

    pub fn from_bits(bits: u8) -> (r: Src)
        ensures
            r == Src::spec_from_bits(bits),
    {
        if bits == 0 {
            Src::K
        } else {
            Src::X
        }
    }
}

impl OpJmp {
    /// The jump operation that the high four bits `bits` name, if any.
    pub open spec fn spec_from_bits(bits: u8) -> Option<OpJmp> {
        if bits == 0x00 {
            Some(OpJmp::Ja)
        } else if bits == 0x10 {
            Some(OpJmp::Jeq)
        } else if bits == 0x20 {
            Some(OpJmp::Jgt)
        } else if bits == 0x30 {
            Some(OpJmp::Jge)
        } else if bits == 0x40 {
            Some(OpJmp::Jset)
        } else if bits == 0x50 {
            Some(OpJmp::Jne)
        } else if bits == 0x60 {
            Some(OpJmp::Jsgt)
        } else if bits == 0x70 {
            Some(OpJmp::Jsge)
        } else if bits == 0x80 {
            Some(OpJmp::Call)
        } else if bits == 0x90 {
            Some(OpJmp::Exit)
        } else if bits == 0xa0 {
            Some(OpJmp::Jlt)
        } else if bits == 0xb0 {
            Some(OpJmp::Jle)
        } else if bits == 0xc0 {
            Some(OpJmp::Jslt)
        } else if bits == 0xd0 {
            Some(OpJmp::Jsle)
        } else {
            None
        }
    }

    pub fn from_bits(bits: u8) -> (r: Option<OpJmp>)
        ensures
            r == OpJmp::spec_from_bits(bits),
    {
        match bits {
            0x00 => Some(OpJmp::Ja),
            0x10 => Some(OpJmp::Jeq),
            0x20 => Some(OpJmp::Jgt),
            0x30 => Some(OpJmp::Jge),
            0x40 => Some(OpJmp::Jset),
            0x50 => Some(OpJmp::Jne),
            0x60 => Some(OpJmp::Jsgt),
            0x70 => Some(OpJmp::Jsge),
            0x80 => Some(OpJmp::Call),
            0x90 => Some(OpJmp::Exit),
            0xa0 => Some(OpJmp::Jlt),
            0xb0 => Some(OpJmp::Jle),
            0xc0 => Some(OpJmp::Jslt),
            0xd0 => Some(OpJmp::Jsle),
            _ => None,
        }
    }
}

impl Size {
    /// The width that bits 3 and 4 (`bits`, masked in place) name.
    pub open spec fn spec_from_bits(bits: u8) -> Size {
        if bits == 0x00 {
            Size::W
        } else if bits == 0x08 {
            Size::H
        } else if bits == 0x10 {
            Size::B
        } else {
            Size::DW
        }
    }

    pub fn from_bits(bits: u8) -> (r: Size)
        ensures
            r == Size::spec_from_bits(bits),
    {
        match bits {
            0x00 => Size::W,
            0x08 => Size::H,
            0x10 => Size::B,
            _ => Size::DW,
        }
    }
}

impl Mode {
    /// The mode that the high three bits `bits` name, if any.
    pub open spec fn spec_from_bits(bits: u8) -> Option<Mode> {
        if bits == 0x00 {
            Some(Mode::Imm)
        } else if bits == 0x20 {
            Some(Mode::Abs)
        } else if bits == 0x40 {
            Some(Mode::Ind)
        } else if bits == 0x60 {
            Some(Mode::Mem)
        } else if bits == 0x80 {
            Some(Mode::Len)
        } else if bits == 0xa0 {
            Some(Mode::Msh)
        } else if bits == 0xc0 {
            Some(Mode::Xadd)
        } else {
            None
        }
    }

    pub fn from_bits(bits: u8) -> (r: Option<Mode>)
        ensures
            r == Mode::spec_from_bits(bits),
    {
        match bits {
            0x00 => Some(Mode::Imm),
            0x20 => Some(Mode::Abs),
            0x40 => Some(Mode::Ind),
            0x60 => Some(Mode::Mem),
            0x80 => Some(Mode::Len),
            0xa0 => Some(Mode::Msh),
            0xc0 => Some(Mode::Xadd),
            _ => None,
        }
    }
}

/// An instruction split into its raw fields.
///
/// The word is laid out, from the most significant byte down, as
/// `op:8 | src:4 | dst:4 | off:16 | imm:32`. The opcode byte reads as
/// `mode:3 | size:2 | class:3` for loads and stores, and as
/// `code:4 | src:1 | class:3` for jumps and arithmetic.
#[derive(Debug, Clone, Copy, PartialEq, Eq, Structural)]
pub struct Inst {
    pub op: u8,
    pub src_dst: u8,
    pub off: u16,
    pub imm: u32,
}

impl Inst {
    pub open spec fn spec_from_u64(raw: u64) -> Inst {
        Inst {
            op: (raw >> 56u64) as u8,
            src_dst: (raw >> 48u64) as u8,
            off: (raw >> 32u64) as u16,
            imm: raw as u32,
        }
    }

    pub open spec fn spec_to_u64(self) -> u64 {
        ((self.op as u64) << 56u64) | ((self.src_dst as u64) << 48u64) | ((self.off as u64)
            << 32u64) | (self.imm as u64)
    }

    pub open spec fn spec_class(self) -> Option<Class> {
        Class::spec_from_bits(self.op & 0x07)
    }

    pub open spec fn spec_src_flag(self) -> Src {
        Src::spec_from_bits(self.op & 0x08)
    }

    pub open spec fn spec_jmp(self) -> Option<OpJmp> {
        OpJmp::spec_from_bits(self.op & 0xf0)
    }

    pub open spec fn spec_size(self) -> Size {
        Size::spec_from_bits(self.op & 0x18)
    }

    pub open spec fn spec_mode(self) -> Option<Mode> {
        Mode::spec_from_bits(self.op & 0xe0)
    }

    /// The source register: the high four bits of the register byte.
    pub open spec fn spec_src(self) -> u8 {
        self.src_dst >> 4u8
    }

    /// The destination register: the low four bits of the register byte.
    pub open spec fn spec_dst(self) -> u8 {
        self.src_dst & 0x0f
    }

    /// The offset, read as a signed number.
    pub open spec fn spec_off16(self) -> i16 {
        self.off as i16
    }

    pub fn op(&self) -> (r: u8)
        ensures
            r == self.op,
    {
        self.op
    }

    /// The class bits, examined for every instruction.
    pub fn raw_op_class(&self) -> (r: u8)
        ensures
            r == self.op & 0x07,
    {
        self.op() & 0b0000_0111
    }

    /// The operation bits of a jump or arithmetic instruction.
    pub fn raw_op_code(&self) -> (r: u8)
        ensures
            r == self.op & 0xf0,
    {
        self.op() & 0xf0
    }

    /// The operand-source bit of a jump or arithmetic instruction.
    pub fn raw_op_src(&self) -> (r: u8)
        ensures
            r == self.op & 0x08,
    {
        self.op() & 0b0000_1000
    }

    /// The mode bits of a load or store.
    pub fn raw_ld_mode(&self) -> (r: u8)
        ensures
            r == self.op & 0xe0,
    {
        self.op() & 0b1110_0000
    }

    /// The size bits of a load or store.
    pub fn raw_ld_size(&self) -> (r: u8)
        ensures
            r == self.op & 0x18,
    {
        self.op() & 0b0001_1000
    }

    pub fn op_src(&self) -> (r: Src)
        ensures
            r == self.spec_src_flag(),
    {
        Src::from_bits(self.raw_op_src())
    }

    pub fn op_class(&self) -> (r: Option<Class>)
        ensures
            r == self.spec_class(),
    {
        Class::from_bits(self.raw_op_class())
    }

    pub fn op_jmp(&self) -> (r: Option<OpJmp>)
        ensures
            r == self.spec_jmp(),
    {
        OpJmp::from_bits(self.raw_op_code())
    }

    pub fn ld_size(&self) -> (r: Size)
        ensures
            r == self.spec_size(),
    {
        Size::from_bits(self.raw_ld_size())
    }

    pub fn ld_mode(&self) -> (r: Option<Mode>)
        ensures
            r == self.spec_mode(),
    {
        Mode::from_bits(self.raw_ld_mode())
    }

    pub fn src(&self) -> (r: u8)
        ensures
            r == self.spec_src(),
            r < 16,
    {
        let sd = self.src_dst;
        assert((sd & 0xf0u8) >> 4u8 == sd >> 4u8 && sd >> 4u8 < 16) by (bit_vector);
        (self.src_dst & 0xf0) >> 4
    }

    pub fn dst(&self) -> (r: u8)
        ensures
            r == self.spec_dst(),
            r < 16,
    {
        let sd = self.src_dst;
        assert(sd & 0x0fu8 < 16) by (bit_vector);
        self.src_dst & 0x0f
    }

    pub fn off16(&self) -> (r: i16)
        ensures
            r == self.spec_off16(),
            (r == 0) == (self.off == 0),
    {
        let off = self.off;
        assert(((off as i16) == 0i16) == (off == 0u16)) by (bit_vector);
        self.off as i16
    }

    pub fn imm32(&self) -> (r: u32)
        ensures
            r == self.imm,
    {
        self.imm
    }

    pub fn from_raw_parts(op: u8, src_dst: u8, off: u16, imm: u32) -> (r: Inst)
        ensures
            r == (Inst { op, src_dst, off, imm }),
    {
        Inst { op, src_dst, off, imm }
    }

    /// Splits a word into its fields; every word splits.
    pub fn from_u64(raw: u64) -> (r: Inst)
        ensures
            r == Inst::spec_from_u64(raw),
    {
        let op = (raw >> 56) as u8;
        let src_dst = (raw >> 48) as u8;
        let off = (raw >> 32) as u16;
        let imm = raw as u32;
        Inst { op, src_dst, off, imm }
    }

    /// Packs the fields back into a word.
    pub fn to_u64(&self) -> (r: u64)
        ensures
            r == self.spec_to_u64(),
    {
        ((self.op as u64) << 56) | ((self.src_dst as u64) << 48) | ((self.off as u64) << 32) | (
        self.imm as u64)
    }
}

/// Packing the fields of a split word gives the word back.
pub proof fn lemma_word_round_trip(raw: u64)
    ensures
        Inst::spec_from_u64(raw).spec_to_u64() == raw,
{
    assert((((raw >> 56u64) as u8 as u64) << 56u64) | (((raw >> 48u64) as u8 as u64) << 48u64) | (((
    raw >> 32u64) as u16 as u64) << 32u64) | (raw as u32 as u64) == raw) by (bit_vector);
}

/// Splitting a packed instruction gives its fields back.
pub proof fn lemma_fields_round_trip(i: Inst)
    ensures
        Inst::spec_from_u64(i.spec_to_u64()) == i,
{
    let (op, sd, off, imm) = (i.op, i.src_dst, i.off, i.imm);
    let w = ((op as u64) << 56u64) | ((sd as u64) << 48u64) | ((off as u64) << 32u64) | (imm as u64);
    assert((w >> 56u64) as u8 == op) by (bit_vector)
        requires
            w == ((op as u64) << 56u64) | ((sd as u64) << 48u64) | ((off as u64) << 32u64) | (
            imm as u64),
    ;
    assert((w >> 48u64) as u8 == sd) by (bit_vector)
        requires
            w == ((op as u64) << 56u64) | ((sd as u64) << 48u64) | ((off as u64) << 32u64) | (
            imm as u64),
    ;
    assert((w >> 32u64) as u16 == off && w as u32 == imm) by (bit_vector)
        requires
            w == ((op as u64) << 56u64) | ((sd as u64) << 48u64) | ((off as u64) << 32u64) | (
            imm as u64),
    ;
}

} // verus!
