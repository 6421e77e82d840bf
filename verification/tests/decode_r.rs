#![allow(overflowing_literals)]
use riscv_emu::{Instruction, XRegister, FRegister, RoundingMode};

#[test]
    fn test_instruction_decoding_r_add() {
        let raw_instruction: u32 = 0b_0000000_10111_11010_000_01110_0110011;
        let instruction = Instruction::decode(raw_instruction).unwrap();
        assert_eq!(instruction, Instruction::add {
            rd: XRegister::x14,
            rs1: XRegister::x26,
            rs2: XRegister::x23,
        });
    }
#[test]
    fn test_instruction_decoding_r_sub() {
        let raw_instruction: u32 = 0b_0100000_10111_11010_000_01110_0110011;
        let instruction = Instruction::decode(raw_instruction).unwrap();
        assert_eq!(instruction, Instruction::sub {
            rd: XRegister::x14,
            rs1: XRegister::x26,
            rs2: XRegister::x23,
        });
    }
#[test]
    fn test_instruction_decoding_r_xor() {
        let raw_instruction: u32 = 0b_0000000_10111_11010_100_01110_0110011;
        let instruction = Instruction::decode(raw_instruction).unwrap();
        assert_eq!(instruction, Instruction::xor {
            rd: XRegister::x14,
            rs1: XRegister::x26,
            rs2: XRegister::x23,
        });
    }
#[test]
    fn test_instruction_decoding_r_or() {
        let raw_instruction: u32 = 0b_0000000_10111_11010_110_01110_0110011;
        let instruction = Instruction::decode(raw_instruction).unwrap();
        assert_eq!(instruction, Instruction::or {
            rd: XRegister::x14,
            rs1: XRegister::x26,
            rs2: XRegister::x23,
        });
    }
#[test]
    fn test_instruction_decoding_r_and() {
        let raw_instruction: u32 = 0b_0000000_10111_11010_111_01110_0110011;
        let instruction = Instruction::decode(raw_instruction).unwrap();
        assert_eq!(instruction, Instruction::and {
            rd: XRegister::x14,
            rs1: XRegister::x26,
            rs2: XRegister::x23,
        });
    }
#[test]
    fn test_instruction_decoding_r_sll() {
        let raw_instruction: u32 = 0b_0000000_10111_11010_001_01110_0110011;
        let instruction = Instruction::decode(raw_instruction).unwrap();
        assert_eq!(instruction, Instruction::sll {
            rd: XRegister::x14,
            rs1: XRegister::x26,
            rs2: XRegister::x23,
        });
    }
#[test]
    fn test_instruction_decoding_r_srl() {
        let raw_instruction: u32 = 0b_0000000_10111_11010_101_01110_0110011;
        let instruction = Instruction::decode(raw_instruction).unwrap();
        assert_eq!(instruction, Instruction::srl {
            rd: XRegister::x14,
            rs1: XRegister::x26,
            rs2: XRegister::x23,
        });
    }
#[test]
    fn test_instruction_decoding_r_sra() {
        let raw_instruction: u32 = 0b_0100000_10111_11010_101_01110_0110011;
        let instruction = Instruction::decode(raw_instruction).unwrap();
        assert_eq!(instruction, Instruction::sra {
            rd: XRegister::x14,
            rs1: XRegister::x26,
            rs2: XRegister::x23,
        });
    }
#[test]
    fn test_instruction_decoding_r_slt() {
        let raw_instruction: u32 = 0b_0000000_10111_11010_010_01110_0110011;
        let instruction = Instruction::decode(raw_instruction).unwrap();
        assert_eq!(instruction, Instruction::slt {
            rd: XRegister::x14,
            rs1: XRegister::x26,
            rs2: XRegister::x23,
        });
    }
#[test]
    fn test_instruction_decoding_r_sltu() {
        let raw_instruction: u32 = 0b_0000000_10111_11010_011_01110_0110011;
        let instruction = Instruction::decode(raw_instruction).unwrap();
        assert_eq!(instruction, Instruction::sltu {
            rd: XRegister::x14,
            rs1: XRegister::x26,
            rs2: XRegister::x23,
        });
    }
#[test]
    fn test_instruction_decoding_r_addw() {
        let raw_instruction: u32 = 0b_0000000_10111_11010_000_01110_0111011;
        let instruction = Instruction::decode(raw_instruction).unwrap();
        assert_eq!(instruction, Instruction::addw {
            rd: XRegister::x14,
            rs1: XRegister::x26,
            rs2: XRegister::x23,
        });
    }
#[test]
    fn test_instruction_decoding_r_subw() {
        let raw_instruction: u32 = 0b_0100000_10111_11010_000_01110_0111011;
        let instruction = Instruction::decode(raw_instruction).unwrap();
        assert_eq!(instruction, Instruction::subw {
            rd: XRegister::x14,
            rs1: XRegister::x26,
            rs2: XRegister::x23,
        });
    }
#[test]
    fn test_instruction_decoding_r_sllw() {
        let raw_instruction: u32 = 0b_0000000_10111_11010_001_01110_0111011;
        let instruction = Instruction::decode(raw_instruction).unwrap();
        assert_eq!(instruction, Instruction::sllw {
            rd: XRegister::x14,
            rs1: XRegister::x26,
            rs2: XRegister::x23,
        });
    }
#[test]
    fn test_instruction_decoding_r_srlw() {
        let raw_instruction: u32 = 0b_0000000_10111_11010_101_01110_0111011;
        let instruction = Instruction::decode(raw_instruction).unwrap();
        assert_eq!(instruction, Instruction::srlw {
            rd: XRegister::x14,
            rs1: XRegister::x26,
            rs2: XRegister::x23,
        });
    }
#[test]
    fn test_instruction_decoding_r_sraw() {
        let raw_instruction: u32 = 0b_0100000_10111_11010_101_01110_0111011;
        let instruction = Instruction::decode(raw_instruction).unwrap();
        assert_eq!(instruction, Instruction::sraw {
            rd: XRegister::x14,
            rs1: XRegister::x26,
            rs2: XRegister::x23,
        });
    }
#[test]
    fn test_instruction_decoding_r_slliw() {
        let raw_instruction: u32 = 0b_0000000_10111_11010_001_01110_0011011;
        let instruction = Instruction::decode(raw_instruction).unwrap();
        assert_eq!(instruction, Instruction::slliw {
            rd: XRegister::x14,
            rs1: XRegister::x26,
            shamt: 0b10111,
        });
    }
#[test]
    fn test_instruction_decoding_r_srliw() {
        let raw_instruction: u32 = 0b_0000000_10111_11010_101_01110_0011011;
        let instruction = Instruction::decode(raw_instruction).unwrap();
        assert_eq!(instruction, Instruction::srliw {
            rd: XRegister::x14,
            rs1: XRegister::x26,
            shamt: 0b10111,
        });
    }
#[test]
    fn test_instruction_decoding_r_sraiw() {
        let raw_instruction: u32 = 0b_0100000_10111_11010_101_01110_0011011;
        let instruction = Instruction::decode(raw_instruction).unwrap();
        assert_eq!(instruction, Instruction::sraiw {
            rd: XRegister::x14,
            rs1: XRegister::x26,
            shamt: 0b10111,
        });
    }
#[test]
    fn test_instruction_decoding_r_mul() {
        let raw_instruction: u32 = 0b_0000001_10111_11010_000_01110_0110011;
        let instruction = Instruction::decode(raw_instruction).unwrap();
        assert_eq!(instruction, Instruction::mul {
            rd: XRegister::x14,
            rs1: XRegister::x26,
            rs2: XRegister::x23,
        });
    }
#[test]
    fn test_instruction_decoding_r_mulh() {
        let raw_instruction: u32 = 0b_0000001_10111_11010_001_01110_0110011;
        let instruction = Instruction::decode(raw_instruction).unwrap();
        assert_eq!(instruction, Instruction::mulh {
            rd: XRegister::x14,
            rs1: XRegister::x26,
            rs2: XRegister::x23,
        });
    }
#[test]
    fn test_instruction_decoding_r_mulhsu() {
        let raw_instruction: u32 = 0b_0000001_10111_11010_010_01110_0110011;
        let instruction = Instruction::decode(raw_instruction).unwrap();
        assert_eq!(instruction, Instruction::mulhsu {
            rd: XRegister::x14,
            rs1: XRegister::x26,
            rs2: XRegister::x23,
        });
    }
#[test]
    fn test_instruction_decoding_r_mulhu() {
        let raw_instruction: u32 = 0b_0000001_10111_11010_011_01110_0110011;
        let instruction = Instruction::decode(raw_instruction).unwrap();
        assert_eq!(instruction, Instruction::mulhu {
            rd: XRegister::x14,
            rs1: XRegister::x26,
            rs2: XRegister::x23,
        });
    }
#[test]
    fn test_instruction_decoding_r_div() {
        let raw_instruction: u32 = 0b_0000001_10111_11010_100_01110_0110011;
        let instruction = Instruction::decode(raw_instruction).unwrap();
        assert_eq!(instruction, Instruction::div {
            rd: XRegister::x14,
            rs1: XRegister::x26,
            rs2: XRegister::x23,
        });
    }
#[test]
    fn test_instruction_decoding_r_divu() {
        let raw_instruction: u32 = 0b_0000001_10111_11010_101_01110_0110011;
        let instruction = Instruction::decode(raw_instruction).unwrap();
        assert_eq!(instruction, Instruction::divu {
            rd: XRegister::x14,
            rs1: XRegister::x26,
            rs2: XRegister::x23,
        });
    }
#[test]
    fn test_instruction_decoding_r_rem() {
        let raw_instruction: u32 = 0b_0000001_10111_11010_110_01110_0110011;
        let instruction = Instruction::decode(raw_instruction).unwrap();
        assert_eq!(instruction, Instruction::rem {
            rd: XRegister::x14,
            rs1: XRegister::x26,
            rs2: XRegister::x23,
        });
    }
#[test]
    fn test_instruction_decoding_r_remu() {
        let raw_instruction: u32 = 0b_0000001_10111_11010_111_01110_0110011;
        let instruction = Instruction::decode(raw_instruction).unwrap();
        assert_eq!(instruction, Instruction::remu {
            rd: XRegister::x14,
            rs1: XRegister::x26,
            rs2: XRegister::x23,
        });
    }
#[test]
    fn test_instruction_decoding_r_mulw() {
        let raw_instruction: u32 = 0b_0000001_10111_11010_000_01110_0111011;
        let instruction = Instruction::decode(raw_instruction).unwrap();
        assert_eq!(instruction, Instruction::mulw {
            rd: XRegister::x14,
            rs1: XRegister::x26,
            rs2: XRegister::x23,
        });
    }
#[test]
    fn test_instruction_decoding_r_divw() {
        let raw_instruction: u32 = 0b_0000001_10111_11010_100_01110_0111011;
        let instruction = Instruction::decode(raw_instruction).unwrap();
        assert_eq!(instruction, Instruction::divw {
            rd: XRegister::x14,
            rs1: XRegister::x26,
            rs2: XRegister::x23,
        });
    }
#[test]
    fn test_instruction_decoding_r_divuw() {
        let raw_instruction: u32 = 0b_0000001_10111_11010_101_01110_0111011;
        let instruction = Instruction::decode(raw_instruction).unwrap();
        assert_eq!(instruction, Instruction::divuw {
            rd: XRegister::x14,
            rs1: XRegister::x26,
            rs2: XRegister::x23,
        });
    }
#[test]
    fn test_instruction_decoding_r_remw() {
        let raw_instruction: u32 = 0b_0000001_10111_11010_110_01110_0111011;
        let instruction = Instruction::decode(raw_instruction).unwrap();
        assert_eq!(instruction, Instruction::remw {
            rd: XRegister::x14,
            rs1: XRegister::x26,
            rs2: XRegister::x23,
        });
    }
#[test]
    fn test_instruction_decoding_r_remuw() {
        let raw_instruction: u32 = 0b_0000001_10111_11010_111_01110_0111011;
        let instruction = Instruction::decode(raw_instruction).unwrap();
        assert_eq!(instruction, Instruction::remuw {
            rd: XRegister::x14,
            rs1: XRegister::x26,
            rs2: XRegister::x23,
        });
    }
#[test]
    fn test_instruction_decoding_r_lr_w() {
        let raw_instruction: u32 = 0b_00010_0_1_00000_11010_010_01110_0101111;
        let instruction = Instruction::decode(raw_instruction).unwrap();
        assert_eq!(instruction, Instruction::lr_w {
            rd: XRegister::x14,
            rs1: XRegister::x26,
            rl: true,
            aq: false,
        });
    }
#[test]
    fn test_instruction_decoding_r_lr_d() {
        let raw_instruction: u32 = 0b_00010_0_1_00000_11010_011_01110_0101111;
        let instruction = Instruction::decode(raw_instruction).unwrap();
        assert_eq!(instruction, Instruction::lr_d {
            rd: XRegister::x14,
            rs1: XRegister::x26,
            rl: true,
            aq: false,
        });
    }
#[test]
    fn test_instruction_decoding_r_sc_w() {
        let raw_instruction: u32 = 0b_00011_0_1_10111_11010_010_01110_0101111;
        let instruction = Instruction::decode(raw_instruction).unwrap();
        assert_eq!(instruction, Instruction::sc_w {
            rd: XRegister::x14,
            rs1: XRegister::x26,
            rs2: XRegister::x23,
            rl: true,
            aq: false,
        });
    }
#[test]
    fn test_instruction_decoding_r_amoswap_w() {
        let raw_instruction: u32 = 0b_00001_0_1_10111_11010_010_01110_0101111;
        let instruction = Instruction::decode(raw_instruction).unwrap();
        assert_eq!(instruction, Instruction::amoswap_w {
            rd: XRegister::x14,
            rs1: XRegister::x26,
            rs2: XRegister::x23,
            rl: true,
            aq: false,
        });
    }
#[test]
    fn test_instruction_decoding_r_amoadd_w() {
        let raw_instruction: u32 = 0b_00000_0_1_10111_11010_010_01110_0101111;
        let instruction = Instruction::decode(raw_instruction).unwrap();
        assert_eq!(instruction, Instruction::amoadd_w {
            rd: XRegister::x14,
            rs1: XRegister::x26,
            rs2: XRegister::x23,
            rl: true,
            aq: false,
        });
    }
#[test]
    fn test_instruction_decoding_r_amoxor_w() {
        let raw_instruction: u32 = 0b_00100_0_1_10111_11010_010_01110_0101111;
        let instruction = Instruction::decode(raw_instruction).unwrap();
        assert_eq!(instruction, Instruction::amoxor_w {
            rd: XRegister::x14,
            rs1: XRegister::x26,
            rs2: XRegister::x23,
            rl: true,
            aq: false,
        });
    }
#[test]
    fn test_instruction_decoding_r_amoand_w() {
        let raw_instruction: u32 = 0b_01100_0_1_10111_11010_010_01110_0101111;
        let instruction = Instruction::decode(raw_instruction).unwrap();
        assert_eq!(instruction, Instruction::amoand_w {
            rd: XRegister::x14,
            rs1: XRegister::x26,
            rs2: XRegister::x23,
            rl: true,
            aq: false,
        });
    }
#[test]
    fn test_instruction_decoding_r_amoor_w() {
        let raw_instruction: u32 = 0b_01000_0_1_10111_11010_010_01110_0101111;
        let instruction = Instruction::decode(raw_instruction).unwrap();
        assert_eq!(instruction, Instruction::amoor_w {
            rd: XRegister::x14,
            rs1: XRegister::x26,
            rs2: XRegister::x23,
            rl: true,
            aq: false,
        });
    }
#[test]
    fn test_instruction_decoding_r_amomin_w() {
        let raw_instruction: u32 = 0b_10000_0_1_10111_11010_010_01110_0101111;
        let instruction = Instruction::decode(raw_instruction).unwrap();
        assert_eq!(instruction, Instruction::amomin_w {
            rd: XRegister::x14,
            rs1: XRegister::x26,
            rs2: XRegister::x23,
            rl: true,
            aq: false,
        });
    }
#[test]
    fn test_instruction_decoding_r_amomax_w() {
        let raw_instruction: u32 = 0b_10100_0_1_10111_11010_010_01110_0101111;
        let instruction = Instruction::decode(raw_instruction).unwrap();
        assert_eq!(instruction, Instruction::amomax_w {
            rd: XRegister::x14,
            rs1: XRegister::x26,
            rs2: XRegister::x23,
            rl: true,
            aq: false,
        });
    }
#[test]
    fn test_instruction_decoding_r_amominu_w() {
        let raw_instruction: u32 = 0b_11000_0_1_10111_11010_010_01110_0101111;
        let instruction = Instruction::decode(raw_instruction).unwrap();
        assert_eq!(instruction, Instruction::amominu_w {
            rd: XRegister::x14,
            rs1: XRegister::x26,
            rs2: XRegister::x23,
            rl: true,
            aq: false,
        });
    }
#[test]
    fn test_instruction_decoding_r_amomaxu_w() {
        let raw_instruction: u32 = 0b_11100_0_1_10111_11010_010_01110_0101111;
        let instruction = Instruction::decode(raw_instruction).unwrap();
        assert_eq!(instruction, Instruction::amomaxu_w {
            rd: XRegister::x14,
            rs1: XRegister::x26,
            rs2: XRegister::x23,
            rl: true,
            aq: false,
        });
    }
#[test]
    fn test_instruction_decoding_r_sc_d() {
        let raw_instruction: u32 = 0b_00011_0_1_10111_11010_011_01110_0101111;
        let instruction = Instruction::decode(raw_instruction).unwrap();
        assert_eq!(instruction, Instruction::sc_d {
            rd: XRegister::x14,
            rs1: XRegister::x26,
            rs2: XRegister::x23,
            rl: true,
            aq: false,
        });
    }
#[test]
    fn test_instruction_decoding_r_amoswap_d() {
        let raw_instruction: u32 = 0b_00001_0_1_10111_11010_011_01110_0101111;
        let instruction = Instruction::decode(raw_instruction).unwrap();
        assert_eq!(instruction, Instruction::amoswap_d {
            rd: XRegister::x14,
            rs1: XRegister::x26,
            rs2: XRegister::x23,
            rl: true,
            aq: false,
        });
    }
#[test]
    fn test_instruction_decoding_r_amoadd_d() {
        let raw_instruction: u32 = 0b_00000_0_1_10111_11010_011_01110_0101111;
        let instruction = Instruction::decode(raw_instruction).unwrap();
        assert_eq!(instruction, Instruction::amoadd_d {
            rd: XRegister::x14,
            rs1: XRegister::x26,
            rs2: XRegister::x23,
            rl: true,
            aq: false,
        });
    }
#[test]
    fn test_instruction_decoding_r_amoxor_d() {
        let raw_instruction: u32 = 0b_00100_0_1_10111_11010_011_01110_0101111;
        let instruction = Instruction::decode(raw_instruction).unwrap();
        assert_eq!(instruction, Instruction::amoxor_d {
            rd: XRegister::x14,
            rs1: XRegister::x26,
            rs2: XRegister::x23,
            rl: true,
            aq: false,
        });
    }
#[test]
    fn test_instruction_decoding_r_amoand_d() {
        let raw_instruction: u32 = 0b_01100_0_1_10111_11010_011_01110_0101111;
        let instruction = Instruction::decode(raw_instruction).unwrap();
        assert_eq!(instruction, Instruction::amoand_d {
            rd: XRegister::x14,
            rs1: XRegister::x26,
            rs2: XRegister::x23,
            rl: true,
            aq: false,
        });
    }
#[test]
    fn test_instruction_decoding_r_amoor_d() {
        let raw_instruction: u32 = 0b_01000_0_1_10111_11010_011_01110_0101111;
        let instruction = Instruction::decode(raw_instruction).unwrap();
        assert_eq!(instruction, Instruction::amoor_d {
            rd: XRegister::x14,
            rs1: XRegister::x26,
            rs2: XRegister::x23,
            rl: true,
            aq: false,
        });
    }
#[test]
    fn test_instruction_decoding_r_amomin_d() {
        let raw_instruction: u32 = 0b_10000_0_1_10111_11010_011_01110_0101111;
        let instruction = Instruction::decode(raw_instruction).unwrap();
        assert_eq!(instruction, Instruction::amomin_d {
            rd: XRegister::x14,
            rs1: XRegister::x26,
            rs2: XRegister::x23,
            rl: true,
            aq: false,
        });
    }
#[test]
    fn test_instruction_decoding_r_amomax_d() {
        let raw_instruction: u32 = 0b_10100_0_1_10111_11010_011_01110_0101111;
        let instruction = Instruction::decode(raw_instruction).unwrap();
        assert_eq!(instruction, Instruction::amomax_d {
            rd: XRegister::x14,
            rs1: XRegister::x26,
            rs2: XRegister::x23,
            rl: true,
            aq: false,
        });
    }
#[test]
    fn test_instruction_decoding_r_amominu_d() {
        let raw_instruction: u32 = 0b_11000_0_1_10111_11010_011_01110_0101111;
        let instruction = Instruction::decode(raw_instruction).unwrap();
        assert_eq!(instruction, Instruction::amominu_d {
            rd: XRegister::x14,
            rs1: XRegister::x26,
            rs2: XRegister::x23,
            rl: true,
            aq: false,
        });
    }
#[test]
    fn test_instruction_decoding_r_amomaxu_d() {
        let raw_instruction: u32 = 0b_11100_0_1_10111_11010_011_01110_0101111;
        let instruction = Instruction::decode(raw_instruction).unwrap();
        assert_eq!(instruction, Instruction::amomaxu_d {
            rd: XRegister::x14,
            rs1: XRegister::x26,
            rs2: XRegister::x23,
            rl: true,
            aq: false,
        });
    }
#[test]
    fn test_instruction_decoding_r_fmadd_s() {
        let raw_instruction: u32 = 0b_11100_00_10111_11010_011_01110_1000011;
        let instruction = Instruction::decode(raw_instruction).unwrap();
        assert_eq!(instruction, Instruction::fmadd_s {
            rd: FRegister::F14,
            rm: RoundingMode::rup,
            rs1: FRegister::F26,
            rs2: FRegister::F23,
            rs3: FRegister::F28
        });
    }
#[test]
    fn test_instruction_decoding_r_fmsub_s() {
        let raw_instruction: u32 = 0b_11100_00_10111_11010_011_01110_1000111;
        let instruction = Instruction::decode(raw_instruction).unwrap();
        assert_eq!(instruction, Instruction::fmsub_s {
            rd: FRegister::F14,
            rm: RoundingMode::rup,
            rs1: FRegister::F26,
            rs2: FRegister::F23,
            rs3: FRegister::F28
        });
    }
#[test]
    fn test_instruction_decoding_r_fnmsub_s() {
        let raw_instruction: u32 = 0b_11100_00_10111_11010_011_01110_1001011;
        let instruction = Instruction::decode(raw_instruction).unwrap();
        assert_eq!(instruction, Instruction::fnmsub_s {
            rd: FRegister::F14,
            rm: RoundingMode::rup,
            rs1: FRegister::F26,
            rs2: FRegister::F23,
            rs3: FRegister::F28
        });
    }
#[test]
    fn test_instruction_decoding_r_fnmadd_s() {
        let raw_instruction: u32 = 0b_11100_00_10111_11010_011_01110_1001111;
        let instruction = Instruction::decode(raw_instruction).unwrap();
        assert_eq!(instruction, Instruction::fnmadd_s {
            rd: FRegister::F14,
            rm: RoundingMode::rup,
            rs1: FRegister::F26,
            rs2: FRegister::F23,
            rs3: FRegister::F28
        });
    }
#[test]
    fn test_instruction_decoding_r_fadd_s() {
        let raw_instruction: u32 = 0b_00000_00_10111_11010_011_01110_1010011;
        let instruction = Instruction::decode(raw_instruction).unwrap();
        assert_eq!(instruction, Instruction::fadd_s {
            rd: FRegister::F14,
            rm: RoundingMode::rup,
            rs1: FRegister::F26,
            rs2: FRegister::F23,
        });
    }
#[test]
    fn test_instruction_decoding_r_fsub_s() {
        let raw_instruction: u32 = 0b_00001_00_10111_11010_011_01110_1010011;
        let instruction = Instruction::decode(raw_instruction).unwrap();
        assert_eq!(instruction, Instruction::fsub_s {
            rd: FRegister::F14,
            rm: RoundingMode::rup,
            rs1: FRegister::F26,
            rs2: FRegister::F23,
        });
    }
#[test]
    fn test_instruction_decoding_r_fmul_s() {
        let raw_instruction: u32 = 0b_00010_00_10111_11010_011_01110_1010011;
        let instruction = Instruction::decode(raw_instruction).unwrap();
        assert_eq!(instruction, Instruction::fmul_s {
            rd: FRegister::F14,
            rm: RoundingMode::rup,
            rs1: FRegister::F26,
            rs2: FRegister::F23,
        });
    }
#[test]
    fn test_instruction_decoding_r_fdiv_s() {
        let raw_instruction: u32 = 0b_00011_00_10111_11010_011_01110_1010011;
        let instruction = Instruction::decode(raw_instruction).unwrap();
        assert_eq!(instruction, Instruction::fdiv_s {
            rd: FRegister::F14,
            rm: RoundingMode::rup,
            rs1: FRegister::F26,
            rs2: FRegister::F23,
        });
    }
#[test]
    fn test_instruction_decoding_r_fsqrt_s() {
        let raw_instruction: u32 = 0b_01011_00_00000_11010_011_01110_1010011;
        let instruction = Instruction::decode(raw_instruction).unwrap();
        assert_eq!(instruction, Instruction::fsqrt_s {
            rd: FRegister::F14,
            rm: RoundingMode::rup,
            rs1: FRegister::F26,
        });
    }
#[test]
    fn test_instruction_decoding_r_fsgnj_s() {
        let raw_instruction: u32 = 0b_00100_00_10111_11010_000_01110_1010011;
        let instruction = Instruction::decode(raw_instruction).unwrap();
        assert_eq!(instruction, Instruction::fsgnj_s {
            rd: FRegister::F14,
            rs1: FRegister::F26,
            rs2: FRegister::F23,
        });
    }
#[test]
    fn test_instruction_decoding_r_fsgnjn_s() {
        let raw_instruction: u32 = 0b_00100_00_10111_11010_001_01110_1010011;
        let instruction = Instruction::decode(raw_instruction).unwrap();
        assert_eq!(instruction, Instruction::fsgnjn_s {
            rd: FRegister::F14,
            rs1: FRegister::F26,
            rs2: FRegister::F23,
        });
    }
#[test]
    fn test_instruction_decoding_r_fsgnjx_s() {
        let raw_instruction: u32 = 0b_00100_00_10111_11010_010_01110_1010011;
        let instruction = Instruction::decode(raw_instruction).unwrap();
        assert_eq!(instruction, Instruction::fsgnjx_s {
            rd: FRegister::F14,
            rs1: FRegister::F26,
            rs2: FRegister::F23,
        });
    }
#[test]
    fn test_instruction_decoding_r_fmin_s() {
        let raw_instruction: u32 = 0b_00101_00_10111_11010_000_01110_1010011;
        let instruction = Instruction::decode(raw_instruction).unwrap();
        assert_eq!(instruction, Instruction::fmin_s {
            rd: FRegister::F14,
            rs1: FRegister::F26,
            rs2: FRegister::F23,
        });
    }
#[test]
    fn test_instruction_decoding_r_fmax_s() {
        let raw_instruction: u32 = 0b_00101_00_10111_11010_001_01110_1010011;
        let instruction = Instruction::decode(raw_instruction).unwrap();
        assert_eq!(instruction, Instruction::fmax_s {
            rd: FRegister::F14,
            rs1: FRegister::F26,
            rs2: FRegister::F23,
        });
    }
#[test]
    fn test_instruction_decoding_r_fcvt_w_s() {
        let raw_instruction: u32 = 0b_11000_00_00000_11010_011_01110_1010011;
        let instruction = Instruction::decode(raw_instruction).unwrap();
        assert_eq!(instruction, Instruction::fcvt_w_s {
            rd: FRegister::F14,
            rm: RoundingMode::rup,
            rs1: FRegister::F26,
        });
    }
#[test]
    fn test_instruction_decoding_r_fcvt_wu_s() {
        let raw_instruction: u32 = 0b_11000_00_00001_11010_011_01110_1010011;
        let instruction = Instruction::decode(raw_instruction).unwrap();
        assert_eq!(instruction, Instruction::fcvt_wu_s {
            rd: FRegister::F14,
            rm: RoundingMode::rup,
            rs1: FRegister::F26,
        });
    }
#[test]
    fn test_instruction_decoding_r_fmv_x_w() {
        let raw_instruction: u32 = 0b_11100_00_00000_11010_000_01110_1010011;
        let instruction = Instruction::decode(raw_instruction).unwrap();
        assert_eq!(instruction, Instruction::fmv_x_w {
            rd: FRegister::F14,
            rs1: FRegister::F26,
        });
    }
#[test]
    fn test_instruction_decoding_r_feq_s() {
        let raw_instruction: u32 = 0b_10100_00_10111_11010_010_01110_1010011;
        let instruction = Instruction::decode(raw_instruction).unwrap();
        assert_eq!(instruction, Instruction::feq_s {
            rd: FRegister::F14,
            rs1: FRegister::F26,
            rs2: FRegister::F23,
        });
    }
#[test]
    fn test_instruction_decoding_r_flt_s() {
        let raw_instruction: u32 = 0b_10100_00_10111_11010_001_01110_1010011;
        let instruction = Instruction::decode(raw_instruction).unwrap();
        assert_eq!(instruction, Instruction::flt_s {
            rd: FRegister::F14,
            rs1: FRegister::F26,
            rs2: FRegister::F23,
        });
    }
#[test]
    fn test_instruction_decoding_r_fle_s() {
        let raw_instruction: u32 = 0b_10100_00_10111_11010_000_01110_1010011;
        let instruction = Instruction::decode(raw_instruction).unwrap();
        assert_eq!(instruction, Instruction::fle_s {
            rd: FRegister::F14,
            rs1: FRegister::F26,
            rs2: FRegister::F23,
        });
    }
#[test]
    fn test_instruction_decoding_r_fclass_s() {
        let raw_instruction: u32 = 0b_11100_00_00000_11010_001_01110_1010011;
        let instruction = Instruction::decode(raw_instruction).unwrap();
        assert_eq!(instruction, Instruction::fclass_s {
            rd: FRegister::F14,
            rs1: FRegister::F26,
        });
    }
#[test]
    fn test_instruction_decoding_r_fcvt_s_w() {
        let raw_instruction: u32 = 0b_11010_00_00000_11010_011_01110_1010011;
        let instruction = Instruction::decode(raw_instruction).unwrap();
        assert_eq!(instruction, Instruction::fcvt_s_w {
            rd: FRegister::F14,
            rm: RoundingMode::rup,
            rs1: FRegister::F26,
        });
    }
#[test]
    fn test_instruction_decoding_r_fcvt_s_wu() {
        let raw_instruction: u32 = 0b_11010_00_00001_11010_011_01110_1010011;
        let instruction = Instruction::decode(raw_instruction).unwrap();
        assert_eq!(instruction, Instruction::fcvt_s_wu {
            rd: FRegister::F14,
            rm: RoundingMode::rup,
            rs1: FRegister::F26,
        });
    }
#[test]
    fn test_instruction_decoding_r_fmv_w_x() {
        let raw_instruction: u32 = 0b_11110_00_00000_11010_000_01110_1010011;
        let instruction = Instruction::decode(raw_instruction).unwrap();
        assert_eq!(instruction, Instruction::fmv_w_x {
            rd: FRegister::F14,
            rs1: FRegister::F26,
        });
    }
#[test]
    fn test_instruction_decoding_r_fcv_tl_s() {
        let raw_instruction: u32 = 0b_11000_00_00010_11010_011_01110_1010011;
        let instruction = Instruction::decode(raw_instruction).unwrap();
        assert_eq!(instruction, Instruction::fcv_tl_s {
            rd: FRegister::F14,
            rm: RoundingMode::rup,
            rs1: FRegister::F26,
        });
    }
#[test]
    fn test_instruction_decoding_r_fcv_tlu_s() {
        let raw_instruction: u32 = 0b_11000_00_00011_11010_011_01110_1010011;
        let instruction = Instruction::decode(raw_instruction).unwrap();
        assert_eq!(instruction, Instruction::fcv_tlu_s {
            rd: FRegister::F14,
            rm: RoundingMode::rup,
            rs1: FRegister::F26,
        });
    }
#[test]
    fn test_instruction_decoding_r_fcv_ts_l() {
        let raw_instruction: u32 = 0b_11010_00_00010_11010_011_01110_1010011;
        let instruction = Instruction::decode(raw_instruction).unwrap();
        assert_eq!(instruction, Instruction::fcv_ts_l {
            rd: FRegister::F14,
            rm: RoundingMode::rup,
            rs1: FRegister::F26,
        });
    }
#[test]
    fn test_instruction_decoding_r_fcv_ts_lu() {
        let raw_instruction: u32 = 0b_11010_00_00011_11010_011_01110_1010011;
        let instruction = Instruction::decode(raw_instruction).unwrap();
        assert_eq!(instruction, Instruction::fcv_ts_lu {
            rd: FRegister::F14,
            rm: RoundingMode::rup,
            rs1: FRegister::F26,
        });
    }
#[test]
    fn test_instruction_decoding_r_fsw() {
        let raw_instruction: u32 = 0b_01010_00_01011_11010_010_01110_0100111;
        let instruction = Instruction::decode(raw_instruction).unwrap();
        assert_eq!(instruction, Instruction::fsw {
            imm: 0b01010_00_01110,
            rs1: FRegister::F26,
            rs2: FRegister::F11,
        });
    }
#[test]
    #[allow(overflowing_literals)]
    fn test_instruction_decoding_r_fsw_sign_extend() {
        let raw_instruction: u32 = 0b_11010_00_01011_11010_010_01110_0100111;
        let instruction = Instruction::decode(raw_instruction).unwrap();
        assert_eq!(instruction, Instruction::fsw {
            imm: 0xFFFFFFFFFFFFFD0E,
            rs1: FRegister::F26,
            rs2: FRegister::F11,
        });
    }
#[test]
    fn fmadd_d() {
        let raw_instruction: u32 = 0b_01100_01_10111_11010_011_01110_1000011;
        let instruction = Instruction::decode(raw_instruction).unwrap();
        assert_eq!(instruction, Instruction::fmadd_d {
            rd: FRegister::F14,
            rm: RoundingMode::rup,
            rs1: FRegister::F26,
            rs2: FRegister::F23,
            rs3: FRegister::F12
        });
    }
#[test]
    fn fmsub_d() {
        let raw_instruction: u32 = 0b_01100_01_10111_11010_011_01110_1000111;
        let instruction = Instruction::decode(raw_instruction).unwrap();
        assert_eq!(instruction, Instruction::fmsub_d {
            rd: FRegister::F14,
            rm: RoundingMode::rup,
            rs1: FRegister::F26,
            rs2: FRegister::F23,
            rs3: FRegister::F12
        });
    }
#[test]
    fn fnmsub_d() {
        let raw_instruction: u32 = 0b_01100_01_10111_11010_011_01110_1001011;
        let instruction = Instruction::decode(raw_instruction).unwrap();
        assert_eq!(instruction, Instruction::fnmsub_d {
            rd: FRegister::F14,
            rm: RoundingMode::rup,
            rs1: FRegister::F26,
            rs2: FRegister::F23,
            rs3: FRegister::F12
        });
    }
#[test]
    fn fnmadd_d() {
        let raw_instruction: u32 = 0b_01100_01_10111_11010_011_01110_1001111;
        let instruction = Instruction::decode(raw_instruction).unwrap();
        assert_eq!(instruction, Instruction::fnmadd_d {
            rd: FRegister::F14,
            rm: RoundingMode::rup,
            rs1: FRegister::F26,
            rs2: FRegister::F23,
            rs3: FRegister::F12
        });
    }
#[test]
    fn fadd_d() {
        let raw_instruction: u32 = 0b_00000_01_10111_11010_011_01110_1010011;
        let instruction = Instruction::decode(raw_instruction).unwrap();
        assert_eq!(instruction, Instruction::fadd_d {
            rd: FRegister::F14,
            rm: RoundingMode::rup,
            rs1: FRegister::F26,
            rs2: FRegister::F23,
        });
    }
#[test]
    fn fsub_d() {
        let raw_instruction: u32 = 0b_00001_01_10111_11010_011_01110_1010011;
        let instruction = Instruction::decode(raw_instruction).unwrap();
        assert_eq!(instruction, Instruction::fsub_d {
            rd: FRegister::F14,
            rm: RoundingMode::rup,
            rs1: FRegister::F26,
            rs2: FRegister::F23,
        });
    }
#[test]
    fn fmul_d() {
        let raw_instruction: u32 = 0b_00010_01_10111_11010_011_01110_1010011;
        let instruction = Instruction::decode(raw_instruction).unwrap();
        assert_eq!(instruction, Instruction::fmul_d {
            rd: FRegister::F14,
            rm: RoundingMode::rup,
            rs1: FRegister::F26,
            rs2: FRegister::F23,
        });
    }
#[test]
    fn fdiv_d() {
        let raw_instruction: u32 = 0b_00011_01_10111_11010_011_01110_1010011;
        let instruction = Instruction::decode(raw_instruction).unwrap();
        assert_eq!(instruction, Instruction::fdiv_d {
            rd: FRegister::F14,
            rm: RoundingMode::rup,
            rs1: FRegister::F26,
            rs2: FRegister::F23,
        });
    }
#[test]
    fn fsqrt_d() {
        let raw_instruction: u32 = 0b_01011_01_00000_11010_011_01110_1010011;
        let instruction = Instruction::decode(raw_instruction).unwrap();
        assert_eq!(instruction, Instruction::fsqrt_d {
            rd: FRegister::F14,
            rm: RoundingMode::rup,
            rs1: FRegister::F26,
        });
    }
#[test]
    fn fsgnj_d() {
        let raw_instruction: u32 = 0b_00100_01_10111_11010_000_01110_1010011;
        let instruction = Instruction::decode(raw_instruction).unwrap();
        assert_eq!(instruction, Instruction::fsgnj_d {
            rd: FRegister::F14,
            rs1: FRegister::F26,
            rs2: FRegister::F23,
        });
    }
#[test]
    fn fsgnjn_d() {
        let raw_instruction: u32 = 0b_00100_01_10111_11010_001_01110_1010011;
        let instruction = Instruction::decode(raw_instruction).unwrap();
        assert_eq!(instruction, Instruction::fsgnjn_d {
            rd: FRegister::F14,
            rs1: FRegister::F26,
            rs2: FRegister::F23,
        });
    }
#[test]
    fn fsgnjx_d() {
        let raw_instruction: u32 = 0b_00100_01_10111_11010_010_01110_1010011;
        let instruction = Instruction::decode(raw_instruction).unwrap();
        assert_eq!(instruction, Instruction::fsgnjx_d {
            rd: FRegister::F14,
            rs1: FRegister::F26,
            rs2: FRegister::F23,
        });
    }
#[test]
    fn fmin_d() {
        let raw_instruction: u32 = 0b_00101_01_10111_11010_000_01110_1010011;
        let instruction = Instruction::decode(raw_instruction).unwrap();
        assert_eq!(instruction, Instruction::fmin_d {
            rd: FRegister::F14,
            rs1: FRegister::F26,
            rs2: FRegister::F23,
        });
    }
#[test]
    fn fmax_d() {
        let raw_instruction: u32 = 0b_00101_01_10111_11010_001_01110_1010011;
        let instruction = Instruction::decode(raw_instruction).unwrap();
        assert_eq!(instruction, Instruction::fmax_d {
            rd: FRegister::F14,
            rs1: FRegister::F26,
            rs2: FRegister::F23,
        });
    }
#[test]
    fn fcvt_s_d() {
        let raw_instruction: u32 = 0b_01000_01_00001_11010_011_01110_1010011;
        let instruction = Instruction::decode(raw_instruction).unwrap();
        assert_eq!(instruction, Instruction::fcvt_s_d {
            rd: FRegister::F14,
            rm: RoundingMode::rup,
            rs1: FRegister::F26,
        });
    }
#[test]
    fn fcvt_d_s() {
        let raw_instruction: u32 = 0b_01000_01_00000_11010_011_01110_1010011;
        let instruction = Instruction::decode(raw_instruction).unwrap();
        assert_eq!(instruction, Instruction::fcvt_d_s {
            rd: FRegister::F14,
            rm: RoundingMode::rup,
            rs1: FRegister::F26,
        });
    }
#[test]
    fn feq_d() {
        let raw_instruction: u32 = 0b_10100_01_10111_11010_010_01110_1010011;
        let instruction = Instruction::decode(raw_instruction).unwrap();
        assert_eq!(instruction, Instruction::feq_d {
            rd: FRegister::F14,
            rs1: FRegister::F26,
            rs2: FRegister::F23,
        });
    }
#[test]
    fn flt_d() {
        let raw_instruction: u32 = 0b_10100_01_10111_11010_001_01110_1010011;
        let instruction = Instruction::decode(raw_instruction).unwrap();
        assert_eq!(instruction, Instruction::flt_d {
            rd: FRegister::F14,
            rs1: FRegister::F26,
            rs2: FRegister::F23,
        });
    }
#[test]
    fn fle_d() {
        let raw_instruction: u32 = 0b_10100_01_10111_11010_000_01110_1010011;
        let instruction = Instruction::decode(raw_instruction).unwrap();
        assert_eq!(instruction, Instruction::fle_d {
            rd: FRegister::F14,
            rs1: FRegister::F26,
            rs2: FRegister::F23,
        });
    }
#[test]
    fn fclass_d() {
        let raw_instruction: u32 = 0b_11100_01_00000_11010_001_01110_1010011;
        let instruction = Instruction::decode(raw_instruction).unwrap();
        assert_eq!(instruction, Instruction::fclass_d {
            rd: FRegister::F14,
            rs1: FRegister::F26,
        });
    }
#[test]
    fn fcvt_w_d() {
        let raw_instruction: u32 = 0b_11000_01_00000_11010_011_01110_1010011;
        let instruction = Instruction::decode(raw_instruction).unwrap();
        assert_eq!(instruction, Instruction::fcvt_w_d {
            rd: FRegister::F14,
            rm: RoundingMode::rup,
            rs1: FRegister::F26,
        });
    }
#[test]
    fn fcvt_wu_d() {
        let raw_instruction: u32 = 0b_11000_01_00001_11010_011_01110_1010011;
        let instruction = Instruction::decode(raw_instruction).unwrap();
        assert_eq!(instruction, Instruction::fcvt_wu_d {
            rd: FRegister::F14,
            rm: RoundingMode::rup,
            rs1: FRegister::F26,
        });
    }
#[test]
    fn fcvt_d_w() {
        let raw_instruction: u32 = 0b_11010_01_00000_11010_011_01110_1010011;
        let instruction = Instruction::decode(raw_instruction).unwrap();
        assert_eq!(instruction, Instruction::fcvt_d_w {
            rd: FRegister::F14,
            rm: RoundingMode::rup,
            rs1: FRegister::F26,
        });
    }
#[test]
    fn fcvt_d_wu() {
        let raw_instruction: u32 = 0b_11010_01_00001_11010_011_01110_1010011;
        let instruction = Instruction::decode(raw_instruction).unwrap();
        assert_eq!(instruction, Instruction::fcvt_d_wu {
            rd: FRegister::F14,
            rm: RoundingMode::rup,
            rs1: FRegister::F26,
        });
    }
#[test]
    fn fcvt_l_d() {
        let raw_instruction: u32 = 0b_11000_01_00010_11010_011_01110_1010011;
        let instruction = Instruction::decode(raw_instruction).unwrap();
        assert_eq!(instruction, Instruction::fcvt_l_d {
            rd: FRegister::F14,
            rm: RoundingMode::rup,
            rs1: FRegister::F26,
        });
    }
#[test]
    fn fcvt_lu_d() {
        let raw_instruction: u32 = 0b_11000_01_00011_11010_011_01110_1010011;
        let instruction = Instruction::decode(raw_instruction).unwrap();
        assert_eq!(instruction, Instruction::fcvt_lu_d {
            rd: FRegister::F14,
            rm: RoundingMode::rup,
            rs1: FRegister::F26,
        });
    }
#[test]
    fn fmv_x_d() {
        let raw_instruction: u32 = 0b_11100_01_00000_11010_000_01110_1010011;
        let instruction = Instruction::decode(raw_instruction).unwrap();
        assert_eq!(instruction, Instruction::fmv_x_d {
            rd: FRegister::F14,
            rs1: FRegister::F26,
        });
    }
#[test]
    fn fcvt_d_l() {
        let raw_instruction: u32 = 0b_11010_01_00010_11010_011_01110_1010011;
        let instruction = Instruction::decode(raw_instruction).unwrap();
        assert_eq!(instruction, Instruction::fcvt_d_l {
            rd: FRegister::F14,
            rm: RoundingMode::rup,
            rs1: FRegister::F26,
        });
    }
#[test]
    fn fcvt_d_lu() {
        let raw_instruction: u32 = 0b_11010_01_00011_11010_011_01110_1010011;
        let instruction = Instruction::decode(raw_instruction).unwrap();
        assert_eq!(instruction, Instruction::fcvt_d_lu {
            rd: FRegister::F14,
            rm: RoundingMode::rup,
            rs1: FRegister::F26,
        });
    }
#[test]
    fn fmv_d_x() {
        let raw_instruction: u32 = 0b_11110_01_00000_11010_000_01110_1010011;
        let instruction = Instruction::decode(raw_instruction).unwrap();
        assert_eq!(instruction, Instruction::fmv_d_x {
            rd: FRegister::F14,
            rs1: FRegister::F26,
        });
    }
