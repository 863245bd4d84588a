use cbpf::checker::check_inst;
use cbpf::{Env, Inst, InstDecodeError, Invoke, PrgmVerifyError, PrgmVerifyErrorKind};

const EXIT: u64 = 0x95_00_0000_00000000;

fn refused_at(words: &[u64], idx: usize, e: InstDecodeError) {
    let mut env = Env::default();
    assert_eq!(
        env.verify(words).err(),
        Some(PrgmVerifyError { inst_idx: idx, kind: PrgmVerifyErrorKind::InstDecode(e) })
    );
}

#[test]
fn verified_ret_runs() {
    let r = [0x00_00_0000_00000001, EXIT];
    let mut env = Env::default();
    let p = env.verify(&r[..]).unwrap();
    assert_eq!(p.words(), &r[..]);
    assert_eq!(Invoke::new(p).run(), Ok(1));
}

#[test]
fn verified_ret2_runs() {
    let r = [0x00_00_0000_00000002, EXIT];
    let mut env = Env::with_inst_limit(2);
    let p = env.verify(&r[..]).unwrap();
    assert_eq!(Invoke::new(p).run(), Ok(2));
}

#[test]
fn empty_program_is_accepted() {
    let mut env = Env::default();
    assert!(env.verify(&[]).is_ok());
}

#[test]
fn alu_is_forbidden_whatever_the_opcode() {
    for op in [0x04u64, 0x0c, 0x14, 0xb4, 0xdc, 0xf4] {
        let mut env = Env::default();
        let e = env.verify(&[op << 56]).err().unwrap();
        assert_eq!(e.inst_idx, 0);
        assert!(matches!(
            e.kind,
            PrgmVerifyErrorKind::InstDecode(InstDecodeError::ForbiddenInst(_))
        ));
    }
}

#[test]
fn over_the_limit_is_refused_first() {
    let mut env = Env::with_inst_limit(1);
    // the first instruction is forbidden too, but the length is judged first
    let e = env.verify(&[0x04_00_0000_00000000, EXIT]).err().unwrap();
    assert_eq!(
        e,
        PrgmVerifyError { inst_idx: 1, kind: PrgmVerifyErrorKind::InstLimitExceeded }
    );
    let mut env = Env::with_inst_limit(0);
    assert_eq!(
        env.verify(&[EXIT]).err().unwrap().kind,
        PrgmVerifyErrorKind::InstLimitExceeded
    );
}

#[test]
fn at_the_limit_is_accepted() {
    let mut env = Env::with_inst_limit(2);
    assert!(env.verify(&[0x00_00_0000_00000001, EXIT]).is_ok());
}

#[test]
fn verify_leaves_the_env_alone() {
    let mut env = Env::with_inst_limit(3);
    let _ = env.verify(&[EXIT]);
    assert_eq!(env, Env::with_inst_limit(3));
}

#[test]
fn ld_imm_with_offset_is_refused() {
    refused_at(
        &[EXIT, 0x00_00_0001_00000005],
        1,
        InstDecodeError::InvalidEncoding("ld.imm has offs != 0"),
    );
}

#[test]
fn ld_imm_dw_is_refused() {
    refused_at(
        &[0x18_00_0000_00000005, EXIT],
        0,
        InstDecodeError::ForbiddenInst("ld.imm.dw(64) not implemented"),
    );
}

#[test]
fn ld_imm_h_and_b_are_accepted() {
    let mut env = Env::default();
    assert!(env.verify(&[0x08_00_0000_00000005, 0x10_00_0000_00000005, EXIT]).is_ok());
}

#[test]
fn ld_abs_with_offset_is_refused() {
    refused_at(&[0x20_00_0004_00000000], 0, InstDecodeError::InvalidEncoding("ld.abs has offs != 0"));
}

#[test]
fn ld_abs_with_source_register_is_refused() {
    refused_at(
        &[0x20_10_0000_00000000],
        0,
        InstDecodeError::InvalidEncoding("ld.abs has src_reg != 0"),
    );
}

#[test]
fn ld_ind_with_offset_is_refused() {
    refused_at(&[0x40_10_0001_00000000], 0, InstDecodeError::InvalidEncoding("ld.ind has offs != 0"));
}

#[test]
fn data_area_loads_are_accepted() {
    let mut env = Env::default();
    assert!(env.verify(&[0x20_00_0000_00000004, 0x50_13_0000_00000001, EXIT]).is_ok());
}

#[test]
fn ld_mem_mode_is_refused() {
    refused_at(&[0x60_00_0000_00000000], 0, InstDecodeError::ForbiddenInst("invalid Ld mode"));
}

#[test]
fn ldx_mem_is_accepted() {
    let mut env = Env::default();
    assert!(env.verify(&[0x61_12_0004_00000000, EXIT]).is_ok());
}

#[test]
fn ldx_other_mode_is_refused() {
    refused_at(&[0x01_00_0000_00000000], 0, InstDecodeError::ForbiddenInst("invalid Ldx mode"));
}

#[test]
fn exit_with_immediate_or_offset_is_refused() {
    let e = InstDecodeError::ForbiddenInst("Exit has non-zero imm or off");
    refused_at(&[0x95_00_0000_00000001], 0, e);
    refused_at(&[0x95_00_0001_00000000], 0, e);
}

#[test]
fn jumps_other_than_exit_are_refused() {
    refused_at(&[0x05_00_0001_00000000, EXIT], 0, InstDecodeError::ForbiddenInst("not Exit"));
    refused_at(&[0x15_00_0001_00000000, EXIT], 0, InstDecodeError::ForbiddenInst("not Exit"));
}

#[test]
fn other_classes_are_refused() {
    for op in [0x02u64, 0x03, 0x06, 0x07] {
        refused_at(&[op << 56], 0, InstDecodeError::ForbiddenInst("not Ld, Ldx or Jmp"));
    }
}

#[test]
fn first_failure_is_reported() {
    refused_at(
        &[EXIT, 0x04_00_0000_00000000, 0x18_00_0000_00000000],
        1,
        InstDecodeError::ForbiddenInst("not Ld, Ldx or Jmp"),
    );
}

#[test]
fn check_one_instruction() {
    assert_eq!(check_inst(&Inst::from_u64(EXIT)), Ok(()));
    assert_eq!(
        check_inst(&Inst::from_u64(0x85_00_0000_00000000)),
        Err(InstDecodeError::ForbiddenInst("not Exit"))
    );
}

#[test]
fn errors_convert_from_a_decode_error() {
    let e = InstDecodeError::ForbiddenInst("not Exit");
    assert_eq!(PrgmVerifyErrorKind::from(e), PrgmVerifyErrorKind::InstDecode(e));
    assert_eq!(
        PrgmVerifyError::from((3, e)),
        PrgmVerifyError { inst_idx: 3, kind: PrgmVerifyErrorKind::InstDecode(e) }
    );
}
