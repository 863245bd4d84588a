use cbpf::{DataArea, Flow, Invoke, Program, RuntimeError};

const EXIT: u64 = 0x95_00_0000_00000000;

/// Little-endian bytes.
struct Bytes(Vec<u8>);

impl Bytes {
    fn read(&self, offs: usize, n: usize) -> Option<u64> {
        let end = offs.checked_add(n)?;
        let b = self.0.get(offs..end)?;
        Some(b.iter().rev().fold(0u64, |acc, x| (acc << 8) | *x as u64))
    }
}

impl DataArea for Bytes {
    fn spec_load_u64(&self, offs: usize) -> Option<u64> {
        self.read(offs, 8)
    }
    fn spec_load_u32(&self, offs: usize) -> Option<u32> {
        self.read(offs, 4).map(|v| v as u32)
    }
    fn spec_load_u16(&self, offs: usize) -> Option<u16> {
        self.read(offs, 2).map(|v| v as u16)
    }
    fn spec_load_u8(&self, offs: usize) -> Option<u8> {
        self.read(offs, 1).map(|v| v as u8)
    }
    fn load_u64(&self, offs: usize) -> Option<u64> {
        self.spec_load_u64(offs)
    }
    fn load_u32(&self, offs: usize) -> Option<u32> {
        self.spec_load_u32(offs)
    }
    fn load_u16(&self, offs: usize) -> Option<u16> {
        self.spec_load_u16(offs)
    }
    fn load_u8(&self, offs: usize) -> Option<u8> {
        self.spec_load_u8(offs)
    }
}

fn run(words: &[u64]) -> Result<u64, RuntimeError> {
    Invoke::new(Program::from_raw(words)).run()
}

fn run_on(words: &[u64], data: Vec<u8>, r1: u64) -> Result<u64, RuntimeError> {
    let mut c = Invoke::with_data_area(Program::from_raw(words), Bytes(data));
    c.arg_raw(1, r1);
    c.run()
}

#[test]
fn empty_program_has_no_first_instruction() {
    assert_eq!(run(&[]), Err(RuntimeError::InvalidInstIdx));
}

#[test]
fn running_off_the_end_fails() {
    assert_eq!(run(&[0x00_00_0000_00000001]), Err(RuntimeError::InvalidInstIdx));
}

#[test]
fn ld_imm_dw_is_not_implemented() {
    assert_eq!(run(&[0x18_00_0000_00000001, EXIT]), Err(RuntimeError::NotImplemented));
}

#[test]
fn call_is_not_implemented() {
    assert_eq!(run(&[0x85_00_0000_00000001, EXIT]), Err(RuntimeError::NotImplemented));
}

#[test]
fn unsupported_instructions_fail() {
    // arithmetic, a store, a memory load, an unknown jump, exit with an immediate
    for w in [
        0x04_00_0000_00000001u64,
        0x62_00_0000_00000001,
        0x61_10_0000_00000000,
        0xe5_00_0000_00000000,
        0x95_00_0000_00000001,
    ] {
        assert_eq!(run(&[w, EXIT]), Err(RuntimeError::UnsupportedInst));
    }
}

#[test]
fn ld_imm_h_and_b_keep_the_whole_immediate() {
    assert_eq!(run(&[0x08_00_0000_12345678, EXIT]), Ok(0x12345678));
    assert_eq!(run(&[0x10_00_0000_12345678, EXIT]), Ok(0x12345678));
    assert_eq!(run(&[0x00_00_0000_ffffffff, EXIT]), Ok(0xffffffff));
}

#[test]
fn ld_imm_writes_its_destination() {
    // r3 = 9, r0 stays 0
    assert_eq!(run(&[0x00_03_0000_00000009, EXIT]), Ok(0));
}

#[test]
fn ld_abs_without_data_area_misses() {
    assert_eq!(run(&[0x20_00_0000_00000000, EXIT]), Err(RuntimeError::DataAreaMiss));
}

#[test]
fn ld_abs_of_each_width() {
    let data = vec![0x11, 0x22, 0x33, 0x44, 0x55, 0x66, 0x77, 0x88, 0x99];
    assert_eq!(run_on(&[0x20_00_0000_00000001, EXIT], data.clone(), 0), Ok(0x55443322));
    assert_eq!(run_on(&[0x28_00_0000_00000001, EXIT], data.clone(), 0), Ok(0x3322));
    assert_eq!(run_on(&[0x30_00_0000_00000008, EXIT], data.clone(), 0), Ok(0x99));
    assert_eq!(run_on(&[0x38_00_0000_00000000, EXIT], data.clone(), 0), Ok(0x8877665544332211));
    assert_eq!(run_on(&[0x38_00_0000_00000002, EXIT], data, 0), Err(RuntimeError::DataAreaMiss));
}

#[test]
fn ld_ind_adds_the_source_register() {
    let data = vec![0x11, 0x22, 0x33, 0x44];
    // r0 = byte at 1 + r1
    assert_eq!(run_on(&[0x50_10_0000_00000001, EXIT], data.clone(), 2), Ok(0x44));
    assert_eq!(run_on(&[0x50_10_0000_00000001, EXIT], data.clone(), 3), Err(RuntimeError::DataAreaMiss));
    // an offset past every address
    assert_eq!(run_on(&[0x50_10_0000_00000001, EXIT], data, u64::MAX), Err(RuntimeError::DataAreaMiss));
}

#[test]
fn jump_on_register_operand() {
    // r0 = 7; jeq r0, r1, +1; r0 = 2; exit
    let prog = [0x00_00_0000_00000007, 0x1d_10_0001_00000000, 0x00_00_0000_00000002, EXIT];
    let mut c = Invoke::new(Program::from_raw(&prog));
    c.arg_raw(1, 7);
    assert_eq!(c.run(), Ok(7));
    let mut c = Invoke::new(Program::from_raw(&prog));
    c.arg_raw(1, 8);
    assert_eq!(c.run(), Ok(2));
}

fn taken(op: u8, r2: u64, imm: u32) -> bool {
    // r0 = 1; j r2, #imm, +1; r0 = 2; exit
    let prog = [
        0x00_00_0000_00000001,
        ((op as u64) << 56) | (0x02 << 48) | (1 << 32) | imm as u64,
        0x00_00_0000_00000002,
        EXIT,
    ];
    let mut c = Invoke::new(Program::from_raw(&prog));
    c.arg_raw(2, r2);
    c.run() == Ok(1)
}

#[test]
fn comparisons_unsigned_and_signed() {
    let minus_one = u64::MAX;
    assert!(taken(0x25, minus_one, 0)); // jgt
    assert!(!taken(0x65, minus_one, 0)); // jsgt
    assert!(!taken(0x75, minus_one, 0)); // jsge
    assert!(taken(0xc5, minus_one, 0)); // jslt
    assert!(taken(0xd5, minus_one, 0)); // jsle
    assert!(!taken(0xa5, minus_one, 0)); // jlt
    assert!(taken(0xb5, 5, 5)); // jle
    assert!(!taken(0xa5, 5, 5)); // jlt
    assert!(taken(0x55, 5, 6)); // jne
    assert!(!taken(0x55, 5, 5)); // jne
    assert!(taken(0x45, 0x10, 0x30)); // jset
    assert!(!taken(0x45, 0x10, 0x20)); // jset
    assert!(taken(0x05, 0, 0)); // ja
}

#[test]
fn backward_loop_hits_the_step_limit() {
    let prog = [0x05_00_ffff_00000000];
    let c = Invoke::new(Program::from_raw(&prog));
    assert_eq!(c.run_with_step_limit(1000), Err(RuntimeError::StepLimitExceeded));
}

#[test]
fn jumps_out_of_the_program_fail() {
    assert_eq!(run(&[0x05_00_fffe_00000000]), Err(RuntimeError::InvalidInstIdx));
    assert_eq!(run(&[0x05_00_0005_00000000, EXIT]), Err(RuntimeError::InvalidInstIdx));
}

#[test]
fn step_limit_counts_instructions() {
    let prog = [0x00_00_0000_00000001, EXIT];
    assert_eq!(Invoke::new(Program::from_raw(&prog)).run_with_step_limit(2), Ok(1));
    assert_eq!(
        Invoke::new(Program::from_raw(&prog)).run_with_step_limit(1),
        Err(RuntimeError::StepLimitExceeded)
    );
}

#[test]
fn step_executes_one_instruction() {
    let prog = [0x00_03_0000_00000009, 0x30_04_0000_00000000, EXIT];
    let mut regs = [0u64; 16];
    assert_eq!(cbpf::interp::step(&prog, &mut regs, 0, None), Ok(Flow::Next(1)));
    assert_eq!(regs[3], 9);
    assert_eq!(cbpf::interp::step(&prog, &mut regs, 1, Some(0xab)), Ok(Flow::Next(2)));
    assert_eq!(regs[4], 0xab);
    assert_eq!(cbpf::interp::step(&prog, &mut regs, 1, None), Err(RuntimeError::DataAreaMiss));
    assert_eq!(cbpf::interp::step(&prog, &mut regs, 2, None), Ok(Flow::Exit(0)));
}
