use vstd::prelude::*;

use crate::instruction::{Instruction, RoundingMode, FloatFormat, InstructionFormat};
use crate::instruction::{spec_rounding_mode, spec_float_format};
use crate::register::{XRegister, FRegister, spec_x_register, spec_f_register};

verus! {

/// A bit pattern the decoder could not give a meaning. Each variant carries
/// the fields already extracted when the lookup failed.
#[derive(Debug, PartialEq, Copy, Clone)]
pub enum InstructionDecodeError {
    NoInstructionFormatForOpcode { opcode: usize, instruction: u32 },
    UnknownIInstruction { opcode: usize, rd: XRegister, rs1: XRegister, imm: i64 },
    UnknownUInstruction { opcode: usize, rd: XRegister, uimm: u64 },
    UnknownRInstruction {
        opcode: usize,
        rd: XRegister,
        rs1: XRegister,
        rs2: XRegister,
        funct3: u32,
        funct7: u32,
    },
    UnknownRFloatInstruction {
        opcode: usize,
        rd: FRegister,
        rs1: FRegister,
        rs2: FRegister,
        rm: RoundingMode,
        fmt: FloatFormat,
        func5: u32,
    },
    UnknownJInstruction { opcode: usize, imm: i64 },
    UnknownSInstruction { opcode: usize, rs1: XRegister, rs2: XRegister, funct3: u32, imm: i64 },
    UnknownBInstruction { opcode: usize, rs1: XRegister, rs2: XRegister, funct3: u32, imm: i64 },
}

/// The I-format immediate: bits 31:20, sign-extended from bit 31 to 64 bits.
pub open spec fn i_imm(w: u32) -> i64 {
    (if (w >> 31) & 1 == 1 {
        0xFFFF_FFFF_FFFF_F000u64 | (((w >> 20) & 0xFFF) as u64)
    } else {
        ((w >> 20) & 0xFFF) as u64
    }) as i64
}

/// The S-format immediate: bits 31:25 over bits 11:7, sign-extended.
pub open spec fn s_imm(w: u32) -> i64 {
    (if (w >> 31) & 1 == 1 {
        0xFFFF_FFFF_FFFF_F000u64 | (((((w >> 25) & 0x7F) << 5) | ((w >> 7) & 0x1F)) as u64)
    } else {
        (((((w >> 25) & 0x7F) << 5) | ((w >> 7) & 0x1F)) as u64)
    }) as i64
}

/// The B-format immediate: a 13-bit branch offset with bit 0 forced to 0,
/// scattered over the word, sign-extended from bit 31.
pub open spec fn b_imm(w: u32) -> i64 {
    (if (w >> 31) & 1 == 1 {
        0xFFFF_FFFF_FFFF_F000u64
            | (((((w >> 7) & 1) << 11) | (((w >> 25) & 0x3F) << 5) | (((w >> 8) & 0xF) << 1)) as u64)
    } else {
        ((((w >> 7) & 1) << 11) | (((w >> 25) & 0x3F) << 5) | (((w >> 8) & 0xF) << 1)) as u64
    }) as i64
}

/// The U-format immediate: bits 31:12 shifted left by 12, sign-extended
/// from bit 31 into the upper half of the 64-bit value.
pub open spec fn u_imm(w: u32) -> u64 {
    if (w >> 31) & 1 == 1 {
        0xFFFF_FFFF_0000_0000u64 | ((w as u64) & 0xFFFF_F000)
    } else {
        (w as u64) & 0xFFFF_F000
    }
}

/// The J-format immediate: a 21-bit jump offset with bit 0 forced to 0,
/// scattered over the word, sign-extended from bit 31.
pub open spec fn j_imm(w: u32) -> i64 {
    (if (w >> 31) & 1 == 1 {
        0xFFFF_FFFF_FFF0_0000u64
            | (((((w >> 12) & 0xFF) << 12) | (((w >> 20) & 1) << 11) | (((w >> 21) & 0x3FF) << 1)) as u64)
    } else {
        ((((w >> 12) & 0xFF) << 12) | (((w >> 20) & 1) << 11) | (((w >> 21) & 0x3FF) << 1)) as u64
    }) as i64
}

/// The encoding format assigned to each 7-bit opcode; `None` for the
/// unassigned slots.
pub open spec fn spec_format(opcode: u32) -> Option<InstructionFormat> {
    if opcode == 0b0000011 || opcode == 0b0000111 || opcode == 0b0001111 || opcode == 0b0010011
        || opcode == 0b0011011 || opcode == 0b1100111 || opcode == 0b1110011 {
        Some(InstructionFormat::I)
    } else if opcode == 0b0010111 || opcode == 0b0110111 {
        Some(InstructionFormat::U)
    } else if opcode == 0b0100011 {
        Some(InstructionFormat::S)
    } else if opcode == 0b0100111 || opcode == 0b0101111 || opcode == 0b0110011
        || opcode == 0b0111011 || opcode == 0b1000011 || opcode == 0b1000111
        || opcode == 0b1001011 || opcode == 0b1001111 || opcode == 0b1010011 {
        Some(InstructionFormat::R)
    } else if opcode == 0b1100011 {
        Some(InstructionFormat::B)
    } else if opcode == 0b1101111 {
        Some(InstructionFormat::J)
    } else {
        None
    }
}

/// Decoding of a word under the I format.
pub open spec fn spec_decode_i(w: u32) -> Result<Instruction, InstructionDecodeError> {
    let opcode = (w & 0x7F) as usize;
    let rd_u32 = (w >> 7) & 0x1F;
    let rd = spec_x_register(rd_u32);
    let func3 = (w >> 12) & 0x7;
    let uimm = ((w >> 15) & 0x1F) as u64;
    let rs1 = spec_x_register((w >> 15) & 0x1F);
    let imm = i_imm(w);
    if opcode == 0b0010011 {
        if func3 == 0b000 { Ok(Instruction::addi { rd, rs1, imm }) }
        else if func3 == 0b010 { Ok(Instruction::slti { rd, rs1, imm }) }
        else if func3 == 0b011 { Ok(Instruction::sltiu { rd, rs1, imm: imm as u64 }) }
        else if func3 == 0b100 { Ok(Instruction::xori { rd, rs1, imm: imm as u64 }) }
        else if func3 == 0b110 { Ok(Instruction::ori { rd, rs1, imm: imm as u64 }) }
        else if func3 == 0b111 { Ok(Instruction::andi { rd, rs1, imm: imm as u64 }) }
        else if func3 == 0b001 { Ok(Instruction::slli { rd, rs1, shamt: (((w >> 20) & 0x3F) as u64) as i64 }) }
        else {
            // func3 == 0b101: the high immediate bits select logical vs arithmetic
            let shamt = (((w >> 20) & 0x3F) as u64) as i64;
            let func6 = w >> 26;
            if func6 == 0x00 { Ok(Instruction::srli { rd, rs1, shamt }) }
            else if func6 == 0x10 { Ok(Instruction::srai { rd, rs1, shamt }) }
            else { Err(InstructionDecodeError::UnknownIInstruction { opcode, rd, rs1, imm }) }
        }
    } else if opcode == 0b0000011 {
        if func3 == 0b000 { Ok(Instruction::lb { rd, rs1, imm }) }
        else if func3 == 0b001 { Ok(Instruction::lh { rd, rs1, imm }) }
        else if func3 == 0b010 { Ok(Instruction::lw { rd, rs1, imm }) }
        else if func3 == 0b100 { Ok(Instruction::lbu { rd, rs1, imm }) }
        else if func3 == 0b101 { Ok(Instruction::lhu { rd, rs1, imm }) }
        else if func3 == 0b110 { Ok(Instruction::lwu { rd, rs1, imm }) }
        else if func3 == 0b011 { Ok(Instruction::ld { rd, rs1, imm }) }
        else { Err(InstructionDecodeError::UnknownIInstruction { opcode, rd, rs1, imm }) }
    } else if opcode == 0b1100111 {
        if func3 == 0b000 { Ok(Instruction::jalr { rd, rs1, imm }) }
        else { Err(InstructionDecodeError::UnknownIInstruction { opcode, rd, rs1, imm }) }
    } else if opcode == 0b1110011 {
        if func3 == 0b000 {
            if imm == 0 { Ok(Instruction::ecall) }
            else if imm == 1 { Ok(Instruction::ebreak) }
            else { Err(InstructionDecodeError::UnknownIInstruction { opcode, rd, rs1, imm }) }
        }
        else if func3 == 0b001 { Ok(Instruction::csrrw { rd, rs1, imm }) }
        else if func3 == 0b010 { Ok(Instruction::csrrs { rd, rs1, imm }) }
        else if func3 == 0b011 { Ok(Instruction::csrrc { rd, rs1, imm }) }
        else if func3 == 0b101 { Ok(Instruction::csrrwi { rd, uimm, imm }) }
        else if func3 == 0b110 { Ok(Instruction::csrrsi { rd, uimm, imm }) }
        else if func3 == 0b111 { Ok(Instruction::csrrci { rd, uimm, imm }) }
        else { Err(InstructionDecodeError::UnknownIInstruction { opcode, rd, rs1, imm }) }
    } else if opcode == 0b0011011 {
        if func3 == 0b000 { Ok(Instruction::addiw { rd, rs1, imm }) }
        else if func3 == 0b001 { Ok(Instruction::slliw { rd, rs1, shamt: (((w >> 20) & 0x1F) as u64) as i64 }) }
        else if func3 == 0b101 {
            let shamt = (((w >> 20) & 0x1F) as u64) as i64;
            let func7 = w >> 25;
            if func7 == 0x00 { Ok(Instruction::srliw { rd, rs1, shamt }) }
            else if func7 == 0x20 { Ok(Instruction::sraiw { rd, rs1, shamt }) }
            else { Err(InstructionDecodeError::UnknownIInstruction { opcode, rd, rs1, imm }) }
        }
        else { Err(InstructionDecodeError::UnknownIInstruction { opcode, rd, rs1, imm }) }
    } else if opcode == 0b0001111 {
        if func3 == 0b001 { Ok(Instruction::fence_i { rd, rs1, imm }) }
        else if func3 == 0b000 {
            let succ = (imm as u64) & 0xF;
            let pred = ((imm as u64) >> 4) & 0xF;
            let fm = ((imm as u64) >> 8) & 0xF;
            if fm == 0b1000 && pred == 0b0011 && succ == 0b0011 && rd_u32 == 0 && (w >> 15) & 0x1F == 0 {
                Ok(Instruction::fence_tso)
            } else if fm == 0b0000 && pred == 0b0001 && succ == 0b0000 && rd_u32 == 0 && (w >> 15) & 0x1F == 0 {
                Ok(Instruction::pause)
            } else {
                Ok(Instruction::fence { rd, rs1, succ, pred, fm })
            }
        }
        else { Err(InstructionDecodeError::UnknownIInstruction { opcode, rd, rs1, imm }) }
    } else if opcode == 0b0000111 {
        if func3 == 0b010 { Ok(Instruction::flw { rd: spec_f_register(rd_u32), rs1: spec_f_register((w >> 15) & 0x1F), imm }) }
        else if func3 == 0b011 { Ok(Instruction::fld { rd: spec_f_register(rd_u32), rs1: spec_f_register((w >> 15) & 0x1F), imm }) }
        else { Err(InstructionDecodeError::UnknownIInstruction { opcode, rd, rs1, imm }) }
    } else {
        Err(InstructionDecodeError::UnknownIInstruction { opcode, rd, rs1, imm })
    }
}

/// Decoding of a word under the U format.
pub open spec fn spec_decode_u(w: u32) -> Result<Instruction, InstructionDecodeError> {
    let opcode = (w & 0x7F) as usize;
    let rd = spec_x_register((w >> 7) & 0x1F);
    let uimm = u_imm(w);
    if opcode == 0b0110111 { Ok(Instruction::lui { rd, uimm }) }
    else if opcode == 0b0010111 { Ok(Instruction::auipc { rd, imm: uimm as i64 }) }
    else { Err(InstructionDecodeError::UnknownUInstruction { opcode, rd, uimm }) }
}

/// Decoding of a word under the S format.
pub open spec fn spec_decode_s(w: u32) -> Result<Instruction, InstructionDecodeError> {
    let opcode = (w & 0x7F) as usize;
    let funct3 = (w >> 12) & 0x7;
    let rs1 = spec_x_register((w >> 15) & 0x1F);
    let rs2 = spec_x_register((w >> 20) & 0x1F);
    let imm = s_imm(w);
    if opcode == 0b0100011 && funct3 == 0b000 { Ok(Instruction::sb { rs1, rs2, imm }) }
    else if opcode == 0b0100011 && funct3 == 0b001 { Ok(Instruction::sh { rs1, rs2, imm }) }
    else if opcode == 0b0100011 && funct3 == 0b010 { Ok(Instruction::sw { rs1, rs2, imm }) }
    else if opcode == 0b0100011 && funct3 == 0b011 { Ok(Instruction::sd { rs1, rs2, imm }) }
    else { Err(InstructionDecodeError::UnknownSInstruction { opcode, rs1, rs2, funct3, imm }) }
}

/// Decoding of a word under the B format.
pub open spec fn spec_decode_b(w: u32) -> Result<Instruction, InstructionDecodeError> {
    let opcode = (w & 0x7F) as usize;
    let funct3 = (w >> 12) & 0x7;
    let rs1 = spec_x_register((w >> 15) & 0x1F);
    let rs2 = spec_x_register((w >> 20) & 0x1F);
    let imm = b_imm(w);
    if opcode == 0b1100011 && funct3 == 0b000 { Ok(Instruction::beq { rs1, rs2, imm }) }
    else if opcode == 0b1100011 && funct3 == 0b001 { Ok(Instruction::bne { rs1, rs2, imm }) }
    else if opcode == 0b1100011 && funct3 == 0b100 { Ok(Instruction::blt { rs1, rs2, imm }) }
    else if opcode == 0b1100011 && funct3 == 0b101 { Ok(Instruction::bge { rs1, rs2, imm }) }
    else if opcode == 0b1100011 && funct3 == 0b110 { Ok(Instruction::bltu { rs1, rs2, imm }) }
    else if opcode == 0b1100011 && funct3 == 0b111 { Ok(Instruction::bgeu { rs1, rs2, imm }) }
    else { Err(InstructionDecodeError::UnknownBInstruction { opcode, rs1, rs2, funct3, imm }) }
}

/// Decoding of a word under the J format.
pub open spec fn spec_decode_j(w: u32) -> Result<Instruction, InstructionDecodeError> {
    let opcode = (w & 0x7F) as usize;
    let rd = spec_x_register((w >> 7) & 0x1F);
    let imm = j_imm(w);
    if opcode == 0b1101111 { Ok(Instruction::jal { rd, imm }) }
    else { Err(InstructionDecodeError::UnknownJInstruction { opcode, imm }) }
}

/// Decoding of a word under the R format: the integer, atomic, and
/// floating-point opcode families.
pub open spec fn spec_decode_r(w: u32) -> Result<Instruction, InstructionDecodeError> {
    let opcode = (w & 0x7F) as usize;
    let rd = spec_x_register((w >> 7) & 0x1F);
    let funct3 = (w >> 12) & 0x7;
    let rs1 = spec_x_register((w >> 15) & 0x1F);
    let rs2 = spec_x_register((w >> 20) & 0x1F);
    let funct7 = (w >> 25) & 0x7F;
    if opcode == 0b0110011 {
        spec_decode_r_base(w)
    } else if opcode == 0b0111011 {
        spec_decode_r_base(w)
    } else if opcode == 0b0101111 {
        spec_decode_r_atomic(w)
    } else if opcode == 0b0100111 || opcode == 0b1000011 || opcode == 0b1000111
        || opcode == 0b1001011 || opcode == 0b1001111 || opcode == 0b1010011 {
        spec_decode_r_float(w)
    } else {
        Err(InstructionDecodeError::UnknownRInstruction { opcode, rd, rs1, rs2, funct3, funct7 })
    }
}

/// Decoding of the two base integer R opcodes.
pub open spec fn spec_decode_r_base(w: u32) -> Result<Instruction, InstructionDecodeError> {
    let opcode = (w & 0x7F) as usize;
    let rd = spec_x_register((w >> 7) & 0x1F);
    let funct3 = (w >> 12) & 0x7;
    let rs1 = spec_x_register((w >> 15) & 0x1F);
    let rs2 = spec_x_register((w >> 20) & 0x1F);
    let funct7 = (w >> 25) & 0x7F;
    if opcode == 0b0110011 {
        if funct3 == 0 && funct7 == 0 {
            Ok(Instruction::add { rd, rs1, rs2 })
        } else if funct3 == 0 && funct7 == 32 {
            Ok(Instruction::sub { rd, rs1, rs2 })
        } else if funct3 == 4 && funct7 == 0 {
            Ok(Instruction::xor { rd, rs1, rs2 })
        } else if funct3 == 6 && funct7 == 0 {
            Ok(Instruction::or { rd, rs1, rs2 })
        } else if funct3 == 7 && funct7 == 0 {
            Ok(Instruction::and { rd, rs1, rs2 })
        } else if funct3 == 1 && funct7 == 0 {
            Ok(Instruction::sll { rd, rs1, rs2 })
        } else if funct3 == 5 && funct7 == 0 {
            Ok(Instruction::srl { rd, rs1, rs2 })
        } else if funct3 == 5 && funct7 == 32 {
            Ok(Instruction::sra { rd, rs1, rs2 })
        } else if funct3 == 2 && funct7 == 0 {
            Ok(Instruction::slt { rd, rs1, rs2 })
        } else if funct3 == 3 && funct7 == 0 {
            Ok(Instruction::sltu { rd, rs1, rs2 })
        } else if funct3 == 0 && funct7 == 1 {
            Ok(Instruction::mul { rd, rs1, rs2 })
        } else if funct3 == 1 && funct7 == 1 {
            Ok(Instruction::mulh { rd, rs1, rs2 })
        } else if funct3 == 2 && funct7 == 1 {
            Ok(Instruction::mulhsu { rd, rs1, rs2 })
        } else if funct3 == 3 && funct7 == 1 {
            Ok(Instruction::mulhu { rd, rs1, rs2 })
        } else if funct3 == 4 && funct7 == 1 {
            Ok(Instruction::div { rd, rs1, rs2 })
        } else if funct3 == 5 && funct7 == 1 {
            Ok(Instruction::divu { rd, rs1, rs2 })
        } else if funct3 == 6 && funct7 == 1 {
            Ok(Instruction::rem { rd, rs1, rs2 })
        } else if funct3 == 7 && funct7 == 1 {
            Ok(Instruction::remu { rd, rs1, rs2 })
        } else {
            Err(InstructionDecodeError::UnknownRInstruction { opcode, rd, rs1, rs2, funct3, funct7 })
        }
    } else {
        if funct3 == 0 && funct7 == 0 {
            Ok(Instruction::addw { rd, rs1, rs2 })
        } else if funct3 == 0 && funct7 == 32 {
            Ok(Instruction::subw { rd, rs1, rs2 })
        } else if funct3 == 1 && funct7 == 0 {
            Ok(Instruction::sllw { rd, rs1, rs2 })
        } else if funct3 == 5 && funct7 == 0 {
            Ok(Instruction::srlw { rd, rs1, rs2 })
        } else if funct3 == 5 && funct7 == 32 {
            Ok(Instruction::sraw { rd, rs1, rs2 })
        } else if funct3 == 0 && funct7 == 1 {
            Ok(Instruction::mulw { rd, rs1, rs2 })
        } else if funct3 == 4 && funct7 == 1 {
            Ok(Instruction::divw { rd, rs1, rs2 })
        } else if funct3 == 5 && funct7 == 1 {
            Ok(Instruction::divuw { rd, rs1, rs2 })
        } else if funct3 == 6 && funct7 == 1 {
            Ok(Instruction::remw { rd, rs1, rs2 })
        } else if funct3 == 7 && funct7 == 1 {
            Ok(Instruction::remuw { rd, rs1, rs2 })
        } else {
            Err(InstructionDecodeError::UnknownRInstruction { opcode, rd, rs1, rs2, funct3, funct7 })
        }
    }
}

/// Decoding of the atomic-extension R opcode.
pub open spec fn spec_decode_r_atomic(w: u32) -> Result<Instruction, InstructionDecodeError> {
    let opcode = (w & 0x7F) as usize;
    let rd = spec_x_register((w >> 7) & 0x1F);
    let funct3 = (w >> 12) & 0x7;
    let rs1 = spec_x_register((w >> 15) & 0x1F);
    let irs2 = (w >> 20) & 0x1F;
    let rs2 = spec_x_register(irs2);
    let funct7 = (w >> 25) & 0x7F;
    let rl = (funct7 & 1) != 0;
    let aq = ((funct7 >> 1) & 1) != 0;
    let func5 = funct7 >> 2;
    if funct3 == 2 && func5 == 2 && irs2 == 0 {
        Ok(Instruction::lr_w { rd, rs1, rl, aq })
    } else if funct3 == 2 && func5 == 3 {
        Ok(Instruction::sc_w { rd, rs1, rs2, rl, aq })
    } else if funct3 == 2 && func5 == 1 {
        Ok(Instruction::amoswap_w { rd, rs1, rs2, rl, aq })
    } else if funct3 == 2 && func5 == 0 {
        Ok(Instruction::amoadd_w { rd, rs1, rs2, rl, aq })
    } else if funct3 == 2 && func5 == 4 {
        Ok(Instruction::amoxor_w { rd, rs1, rs2, rl, aq })
    } else if funct3 == 2 && func5 == 12 {
        Ok(Instruction::amoand_w { rd, rs1, rs2, rl, aq })
    } else if funct3 == 2 && func5 == 8 {
        Ok(Instruction::amoor_w { rd, rs1, rs2, rl, aq })
    } else if funct3 == 2 && func5 == 16 {
        Ok(Instruction::amomin_w { rd, rs1, rs2, rl, aq })
    } else if funct3 == 2 && func5 == 20 {
        Ok(Instruction::amomax_w { rd, rs1, rs2, rl, aq })
    } else if funct3 == 2 && func5 == 24 {
        Ok(Instruction::amominu_w { rd, rs1, rs2, rl, aq })
    } else if funct3 == 2 && func5 == 28 {
        Ok(Instruction::amomaxu_w { rd, rs1, rs2, rl, aq })
    } else if funct3 == 3 && func5 == 2 && irs2 == 0 {
        Ok(Instruction::lr_d { rd, rs1, rl, aq })
    } else if funct3 == 3 && func5 == 3 {
        Ok(Instruction::sc_d { rd, rs1, rs2, rl, aq })
    } else if funct3 == 3 && func5 == 1 {
        Ok(Instruction::amoswap_d { rd, rs1, rs2, rl, aq })
    } else if funct3 == 3 && func5 == 0 {
        Ok(Instruction::amoadd_d { rd, rs1, rs2, rl, aq })
    } else if funct3 == 3 && func5 == 4 {
        Ok(Instruction::amoxor_d { rd, rs1, rs2, rl, aq })
    } else if funct3 == 3 && func5 == 12 {
        Ok(Instruction::amoand_d { rd, rs1, rs2, rl, aq })
    } else if funct3 == 3 && func5 == 8 {
        Ok(Instruction::amoor_d { rd, rs1, rs2, rl, aq })
    } else if funct3 == 3 && func5 == 16 {
        Ok(Instruction::amomin_d { rd, rs1, rs2, rl, aq })
    } else if funct3 == 3 && func5 == 20 {
        Ok(Instruction::amomax_d { rd, rs1, rs2, rl, aq })
    } else if funct3 == 3 && func5 == 24 {
        Ok(Instruction::amominu_d { rd, rs1, rs2, rl, aq })
    } else if funct3 == 3 && func5 == 28 {
        Ok(Instruction::amomaxu_d { rd, rs1, rs2, rl, aq })
    } else {
        Err(InstructionDecodeError::UnknownRInstruction { opcode, rd, rs1, rs2, funct3, funct7 })
    }
}

/// Decoding of the floating-point R opcodes, the fused multiply-add family,
/// and the floating-point stores.
pub open spec fn spec_decode_r_float(w: u32) -> Result<Instruction, InstructionDecodeError> {
    let opcode = (w & 0x7F) as usize;
    let ird = (w >> 7) & 0x1F;
    let funct3 = (w >> 12) & 0x7;
    let irs1 = (w >> 15) & 0x1F;
    let irs2 = (w >> 20) & 0x1F;
    let funct7 = (w >> 25) & 0x7F;
    let rd = spec_f_register(ird);
    let rs1 = spec_f_register(irs1);
    let rs2 = spec_f_register(irs2);
    let rm = spec_rounding_mode(funct3);
    let fmt = spec_float_format(funct7 & 0b11);
    let func5 = funct7 >> 2;
    let rs3 = spec_f_register(func5);
    if opcode == 0b0100111 && funct3 == 0b010 {
        Ok(Instruction::fsw { imm: s_imm(w), rs1, rs2 })
    } else if opcode == 0b0100111 && funct3 == 0b011 {
        Ok(Instruction::fsd { imm: s_imm(w), rs1, rs2 })
    } else if opcode == 67 && fmt == FloatFormat::s {
        Ok(Instruction::fmadd_s { rd, rm, rs1, rs2, rs3 })
    } else if opcode == 67 && fmt == FloatFormat::d {
        Ok(Instruction::fmadd_d { rd, rm, rs1, rs2, rs3 })
    } else if opcode == 71 && fmt == FloatFormat::s {
        Ok(Instruction::fmsub_s { rd, rm, rs1, rs2, rs3 })
    } else if opcode == 71 && fmt == FloatFormat::d {
        Ok(Instruction::fmsub_d { rd, rm, rs1, rs2, rs3 })
    } else if opcode == 75 && fmt == FloatFormat::s {
        Ok(Instruction::fnmsub_s { rd, rm, rs1, rs2, rs3 })
    } else if opcode == 75 && fmt == FloatFormat::d {
        Ok(Instruction::fnmsub_d { rd, rm, rs1, rs2, rs3 })
    } else if opcode == 79 && fmt == FloatFormat::s {
        Ok(Instruction::fnmadd_s { rd, rm, rs1, rs2, rs3 })
    } else if opcode == 79 && fmt == FloatFormat::d {
        Ok(Instruction::fnmadd_d { rd, rm, rs1, rs2, rs3 })
    } else if opcode == 0b1010011 && fmt == FloatFormat::s && func5 == 0b00000 {
        Ok(Instruction::fadd_s { rd, rm, rs1, rs2 })
    } else if opcode == 0b1010011 && fmt == FloatFormat::s && func5 == 0b00001 {
        Ok(Instruction::fsub_s { rd, rm, rs1, rs2 })
    } else if opcode == 0b1010011 && fmt == FloatFormat::s && func5 == 0b00010 {
        Ok(Instruction::fmul_s { rd, rm, rs1, rs2 })
    } else if opcode == 0b1010011 && fmt == FloatFormat::s && func5 == 0b00011 {
        Ok(Instruction::fdiv_s { rd, rm, rs1, rs2 })
    } else if opcode == 0b1010011 && irs2 == 0b00000 && fmt == FloatFormat::s && func5 == 0b01011 {
        Ok(Instruction::fsqrt_s { rd, rm, rs1 })
    } else if opcode == 0b1010011 && funct3 == 0b000 && fmt == FloatFormat::s && func5 == 0b00100 {
        Ok(Instruction::fsgnj_s { rd, rs1, rs2 })
    } else if opcode == 0b1010011 && funct3 == 0b001 && fmt == FloatFormat::s && func5 == 0b00100 {
        Ok(Instruction::fsgnjn_s { rd, rs1, rs2 })
    } else if opcode == 0b1010011 && funct3 == 0b010 && fmt == FloatFormat::s && func5 == 0b00100 {
        Ok(Instruction::fsgnjx_s { rd, rs1, rs2 })
    } else if opcode == 0b1010011 && funct3 == 0b000 && fmt == FloatFormat::s && func5 == 0b00101 {
        Ok(Instruction::fmin_s { rd, rs1, rs2 })
    } else if opcode == 0b1010011 && funct3 == 0b001 && fmt == FloatFormat::s && func5 == 0b00101 {
        Ok(Instruction::fmax_s { rd, rs1, rs2 })
    } else if opcode == 0b1010011 && funct3 == 0b010 && fmt == FloatFormat::s && func5 == 0b10100 {
        Ok(Instruction::feq_s { rd, rs1, rs2 })
    } else if opcode == 0b1010011 && funct3 == 0b001 && fmt == FloatFormat::s && func5 == 0b10100 {
        Ok(Instruction::flt_s { rd, rs1, rs2 })
    } else if opcode == 0b1010011 && funct3 == 0b000 && fmt == FloatFormat::s && func5 == 0b10100 {
        Ok(Instruction::fle_s { rd, rs1, rs2 })
    } else if opcode == 0b1010011 && funct3 == 0b001 && irs2 == 0b00000 && fmt == FloatFormat::s && func5 == 0b11100 {
        Ok(Instruction::fclass_s { rd, rs1 })
    } else if opcode == 0b1010011 && fmt == FloatFormat::d && func5 == 0b00000 {
        Ok(Instruction::fadd_d { rd, rm, rs1, rs2 })
    } else if opcode == 0b1010011 && fmt == FloatFormat::d && func5 == 0b00001 {
        Ok(Instruction::fsub_d { rd, rm, rs1, rs2 })
    } else if opcode == 0b1010011 && fmt == FloatFormat::d && func5 == 0b00010 {
        Ok(Instruction::fmul_d { rd, rm, rs1, rs2 })
    } else if opcode == 0b1010011 && fmt == FloatFormat::d && func5 == 0b00011 {
        Ok(Instruction::fdiv_d { rd, rm, rs1, rs2 })
    } else if opcode == 0b1010011 && irs2 == 0b00000 && fmt == FloatFormat::d && func5 == 0b01011 {
        Ok(Instruction::fsqrt_d { rd, rm, rs1 })
    } else if opcode == 0b1010011 && funct3 == 0b000 && fmt == FloatFormat::d && func5 == 0b00100 {
        Ok(Instruction::fsgnj_d { rd, rs1, rs2 })
    } else if opcode == 0b1010011 && funct3 == 0b001 && fmt == FloatFormat::d && func5 == 0b00100 {
        Ok(Instruction::fsgnjn_d { rd, rs1, rs2 })
    } else if opcode == 0b1010011 && funct3 == 0b010 && fmt == FloatFormat::d && func5 == 0b00100 {
        Ok(Instruction::fsgnjx_d { rd, rs1, rs2 })
    } else if opcode == 0b1010011 && funct3 == 0b000 && fmt == FloatFormat::d && func5 == 0b00101 {
        Ok(Instruction::fmin_d { rd, rs1, rs2 })
    } else if opcode == 0b1010011 && funct3 == 0b001 && fmt == FloatFormat::d && func5 == 0b00101 {
        Ok(Instruction::fmax_d { rd, rs1, rs2 })
    } else if opcode == 0b1010011 && funct3 == 0b010 && fmt == FloatFormat::d && func5 == 0b10100 {
        Ok(Instruction::feq_d { rd, rs1, rs2 })
    } else if opcode == 0b1010011 && funct3 == 0b001 && fmt == FloatFormat::d && func5 == 0b10100 {
        Ok(Instruction::flt_d { rd, rs1, rs2 })
    } else if opcode == 0b1010011 && funct3 == 0b000 && fmt == FloatFormat::d && func5 == 0b10100 {
        Ok(Instruction::fle_d { rd, rs1, rs2 })
    } else if opcode == 0b1010011 && funct3 == 0b001 && irs2 == 0b00000 && fmt == FloatFormat::d && func5 == 0b11100 {
        Ok(Instruction::fclass_d { rd, rs1 })
    } else if opcode == 0b1010011 && irs2 == 0b00000 && fmt == FloatFormat::s && func5 == 0b11000 {
        Ok(Instruction::fcvt_w_s { rd, rm, rs1 })
    } else if opcode == 0b1010011 && irs2 == 0b00001 && fmt == FloatFormat::s && func5 == 0b11000 {
        Ok(Instruction::fcvt_wu_s { rd, rm, rs1 })
    } else if opcode == 0b1010011 && funct3 == 0b000 && irs2 == 0b00000 && fmt == FloatFormat::s && func5 == 0b11100 {
        Ok(Instruction::fmv_x_w { rd, rs1 })
    } else if opcode == 0b1010011 && irs2 == 0b00000 && fmt == FloatFormat::s && func5 == 0b11010 {
        Ok(Instruction::fcvt_s_w { rd, rm, rs1 })
    } else if opcode == 0b1010011 && irs2 == 0b00001 && fmt == FloatFormat::s && func5 == 0b11010 {
        Ok(Instruction::fcvt_s_wu { rd, rm, rs1 })
    } else if opcode == 0b1010011 && funct3 == 0b000 && irs2 == 0b00000 && fmt == FloatFormat::s && func5 == 0b11110 {
        Ok(Instruction::fmv_w_x { rd, rs1 })
    } else if opcode == 0b1010011 && irs2 == 0b00010 && fmt == FloatFormat::s && func5 == 0b11000 {
        Ok(Instruction::fcv_tl_s { rd, rm, rs1 })
    } else if opcode == 0b1010011 && irs2 == 0b00011 && fmt == FloatFormat::s && func5 == 0b11000 {
        Ok(Instruction::fcv_tlu_s { rd, rm, rs1 })
    } else if opcode == 0b1010011 && irs2 == 0b00010 && fmt == FloatFormat::s && func5 == 0b11010 {
        Ok(Instruction::fcv_ts_l { rd, rm, rs1 })
    } else if opcode == 0b1010011 && irs2 == 0b00011 && fmt == FloatFormat::s && func5 == 0b11010 {
        Ok(Instruction::fcv_ts_lu { rd, rm, rs1 })
    } else if opcode == 0b1010011 && irs2 == 0b00001 && fmt == FloatFormat::d && func5 == 0b01000 {
        Ok(Instruction::fcvt_s_d { rd, rm, rs1 })
    } else if opcode == 0b1010011 && irs2 == 0b00000 && fmt == FloatFormat::d && func5 == 0b01000 {
        Ok(Instruction::fcvt_d_s { rd, rm, rs1 })
    } else if opcode == 0b1010011 && irs2 == 0b00000 && fmt == FloatFormat::d && func5 == 0b11000 {
        Ok(Instruction::fcvt_w_d { rd, rm, rs1 })
    } else if opcode == 0b1010011 && irs2 == 0b00001 && fmt == FloatFormat::d && func5 == 0b11000 {
        Ok(Instruction::fcvt_wu_d { rd, rm, rs1 })
    } else if opcode == 0b1010011 && irs2 == 0b00000 && fmt == FloatFormat::d && func5 == 0b11010 {
        Ok(Instruction::fcvt_d_w { rd, rm, rs1 })
    } else if opcode == 0b1010011 && irs2 == 0b00001 && fmt == FloatFormat::d && func5 == 0b11010 {
        Ok(Instruction::fcvt_d_wu { rd, rm, rs1 })
    } else if opcode == 0b1010011 && irs2 == 0b00010 && fmt == FloatFormat::d && func5 == 0b11000 {
        Ok(Instruction::fcvt_l_d { rd, rm, rs1 })
    } else if opcode == 0b1010011 && irs2 == 0b00011 && fmt == FloatFormat::d && func5 == 0b11000 {
        Ok(Instruction::fcvt_lu_d { rd, rm, rs1 })
    } else if opcode == 0b1010011 && funct3 == 0b000 && irs2 == 0b00000 && fmt == FloatFormat::d && func5 == 0b11100 {
        Ok(Instruction::fmv_x_d { rd, rs1 })
    } else if opcode == 0b1010011 && irs2 == 0b00010 && fmt == FloatFormat::d && func5 == 0b11010 {
        Ok(Instruction::fcvt_d_l { rd, rm, rs1 })
    } else if opcode == 0b1010011 && irs2 == 0b00011 && fmt == FloatFormat::d && func5 == 0b11010 {
        Ok(Instruction::fcvt_d_lu { rd, rm, rs1 })
    } else if opcode == 0b1010011 && funct3 == 0b000 && irs2 == 0b00000 && fmt == FloatFormat::d && func5 == 0b11110 {
        Ok(Instruction::fmv_d_x { rd, rs1 })
    } else {
        Err(InstructionDecodeError::UnknownRFloatInstruction { opcode, rd, rs1, rs2, rm, fmt, func5 })
    }
}

/// Decoding of one 32-bit instruction word: format dispatch on the opcode,
/// then the format's own field extraction and sub-dispatch.
pub open spec fn spec_decode(w: u32) -> Result<Instruction, InstructionDecodeError> {
    match spec_format(w & 0x7F) {
        Some(f) => spec_decode_format(f, w),
        None => Err(InstructionDecodeError::NoInstructionFormatForOpcode {
            opcode: (w & 0x7F) as usize,
            instruction: w,
        }),
    }
}

/// Decoding of a word under a given format.
pub open spec fn spec_decode_format(f: InstructionFormat, w: u32) -> Result<Instruction, InstructionDecodeError> {
    match f {
        InstructionFormat::I => spec_decode_i(w),
        InstructionFormat::U => spec_decode_u(w),
        InstructionFormat::S => spec_decode_s(w),
        InstructionFormat::B => spec_decode_b(w),
        InstructionFormat::J => spec_decode_j(w),
        InstructionFormat::R => spec_decode_r(w),
    }
}

/// The instruction fields a decoder extracts are bounded by their widths:
/// register fields are 5 bits, funct3 is 3 bits, and funct7's pieces fit
/// their slices.
proof fn lemma_field_bounds(w: u32)
    by (bit_vector)
    ensures
        (w >> 7) & 0x1F < 32,
        (w >> 15) & 0x1F < 32,
        (w >> 20) & 0x1F < 32,
        (w >> 12) & 0x7 < 8,
        ((w >> 25) & 0x7F) >> 2 < 32,
        ((w >> 25) & 0x7F) & 0b11 < 4,
{
}

/// Extract the I-format immediate, as `i_imm` states.
fn imm_i(w: u32) -> (r: i64)
    ensures
        r == i_imm(w),
{
    (if (w >> 31) & 1 == 1 {
        0xFFFF_FFFF_FFFF_F000u64 | (((w >> 20) & 0xFFF) as u64)
    } else {
        ((w >> 20) & 0xFFF) as u64
    }) as i64
}

/// Extract the S-format immediate, as `s_imm` states.
fn imm_s(w: u32) -> (r: i64)
    ensures
        r == s_imm(w),
{
    (if (w >> 31) & 1 == 1 {
        0xFFFF_FFFF_FFFF_F000u64 | (((((w >> 25) & 0x7F) << 5) | ((w >> 7) & 0x1F)) as u64)
    } else {
        (((((w >> 25) & 0x7F) << 5) | ((w >> 7) & 0x1F)) as u64)
    }) as i64
}

/// Extract the B-format immediate, as `b_imm` states.
fn imm_b(w: u32) -> (r: i64)
    ensures
        r == b_imm(w),
{
    (if (w >> 31) & 1 == 1 {
        0xFFFF_FFFF_FFFF_F000u64
            | (((((w >> 7) & 1) << 11) | (((w >> 25) & 0x3F) << 5) | (((w >> 8) & 0xF) << 1)) as u64)
    } else {
        ((((w >> 7) & 1) << 11) | (((w >> 25) & 0x3F) << 5) | (((w >> 8) & 0xF) << 1)) as u64
    }) as i64
}

/// Extract the J-format immediate, as `j_imm` states.
fn imm_j(w: u32) -> (r: i64)
    ensures
        r == j_imm(w),
{
    (if (w >> 31) & 1 == 1 {
        0xFFFF_FFFF_FFF0_0000u64
            | (((((w >> 12) & 0xFF) << 12) | (((w >> 20) & 1) << 11) | (((w >> 21) & 0x3FF) << 1)) as u64)
    } else {
        ((((w >> 12) & 0xFF) << 12) | (((w >> 20) & 1) << 11) | (((w >> 21) & 0x3FF) << 1)) as u64
    }) as i64
}

/// Extract the U-format immediate, as `u_imm` states.
fn imm_u(w: u32) -> (r: u64)
    ensures
        r == u_imm(w),
{
    if (w >> 31) & 1 == 1 {
        0xFFFF_FFFF_0000_0000u64 | ((w as u64) & 0xFFFF_F000)
    } else {
        (w as u64) & 0xFFFF_F000
    }
}

/// Decode a word under the I format, as `spec_decode_i` states.
fn decode_i(w: u32) -> (r: Result<Instruction, InstructionDecodeError>)
    ensures
        r == spec_decode_i(w),
{
    proof {
        lemma_field_bounds(w);
    }
    let opcode = (w & 0x7F) as usize;
    let rd_u32 = (w >> 7) & 0x1F;
    let rd = XRegister::from_u32(rd_u32);
    let func3 = (w >> 12) & 0x7;
    let uimm = ((w >> 15) & 0x1F) as u64;
    let rs1 = XRegister::from_u32((w >> 15) & 0x1F);
    let imm = imm_i(w);
    if opcode == 0b0010011 {
        if func3 == 0b000 { Ok(Instruction::addi { rd, rs1, imm }) }
        else if func3 == 0b010 { Ok(Instruction::slti { rd, rs1, imm }) }
        else if func3 == 0b011 { Ok(Instruction::sltiu { rd, rs1, imm: imm as u64 }) }
        else if func3 == 0b100 { Ok(Instruction::xori { rd, rs1, imm: imm as u64 }) }
        else if func3 == 0b110 { Ok(Instruction::ori { rd, rs1, imm: imm as u64 }) }
        else if func3 == 0b111 { Ok(Instruction::andi { rd, rs1, imm: imm as u64 }) }
        else if func3 == 0b001 { Ok(Instruction::slli { rd, rs1, shamt: (((w >> 20) & 0x3F) as u64) as i64 }) }
        else {
            // func3 == 0b101: the high immediate bits select logical vs arithmetic
            let shamt = (((w >> 20) & 0x3F) as u64) as i64;
            let func6 = w >> 26;
            if func6 == 0x00 { Ok(Instruction::srli { rd, rs1, shamt }) }
            else if func6 == 0x10 { Ok(Instruction::srai { rd, rs1, shamt }) }
            else { Err(InstructionDecodeError::UnknownIInstruction { opcode, rd, rs1, imm }) }
        }
    } else if opcode == 0b0000011 {
        if func3 == 0b000 { Ok(Instruction::lb { rd, rs1, imm }) }
        else if func3 == 0b001 { Ok(Instruction::lh { rd, rs1, imm }) }
        else if func3 == 0b010 { Ok(Instruction::lw { rd, rs1, imm }) }
        else if func3 == 0b100 { Ok(Instruction::lbu { rd, rs1, imm }) }
        else if func3 == 0b101 { Ok(Instruction::lhu { rd, rs1, imm }) }
        else if func3 == 0b110 { Ok(Instruction::lwu { rd, rs1, imm }) }
        else if func3 == 0b011 { Ok(Instruction::ld { rd, rs1, imm }) }
        else { Err(InstructionDecodeError::UnknownIInstruction { opcode, rd, rs1, imm }) }
    } else if opcode == 0b1100111 {
        if func3 == 0b000 { Ok(Instruction::jalr { rd, rs1, imm }) }
        else { Err(InstructionDecodeError::UnknownIInstruction { opcode, rd, rs1, imm }) }
    } else if opcode == 0b1110011 {
        if func3 == 0b000 {
            if imm == 0 { Ok(Instruction::ecall) }
            else if imm == 1 { Ok(Instruction::ebreak) }
            else { Err(InstructionDecodeError::UnknownIInstruction { opcode, rd, rs1, imm }) }
        }
        else if func3 == 0b001 { Ok(Instruction::csrrw { rd, rs1, imm }) }
        else if func3 == 0b010 { Ok(Instruction::csrrs { rd, rs1, imm }) }
        else if func3 == 0b011 { Ok(Instruction::csrrc { rd, rs1, imm }) }
        else if func3 == 0b101 { Ok(Instruction::csrrwi { rd, uimm, imm }) }
        else if func3 == 0b110 { Ok(Instruction::csrrsi { rd, uimm, imm }) }
        else if func3 == 0b111 { Ok(Instruction::csrrci { rd, uimm, imm }) }
        else { Err(InstructionDecodeError::UnknownIInstruction { opcode, rd, rs1, imm }) }
    } else if opcode == 0b0011011 {
        if func3 == 0b000 { Ok(Instruction::addiw { rd, rs1, imm }) }
        else if func3 == 0b001 { Ok(Instruction::slliw { rd, rs1, shamt: (((w >> 20) & 0x1F) as u64) as i64 }) }
        else if func3 == 0b101 {
            let shamt = (((w >> 20) & 0x1F) as u64) as i64;
            let func7 = w >> 25;
            if func7 == 0x00 { Ok(Instruction::srliw { rd, rs1, shamt }) }
            else if func7 == 0x20 { Ok(Instruction::sraiw { rd, rs1, shamt }) }
            else { Err(InstructionDecodeError::UnknownIInstruction { opcode, rd, rs1, imm }) }
        }
        else { Err(InstructionDecodeError::UnknownIInstruction { opcode, rd, rs1, imm }) }
    } else if opcode == 0b0001111 {
        if func3 == 0b001 { Ok(Instruction::fence_i { rd, rs1, imm }) }
        else if func3 == 0b000 {
            let succ = (imm as u64) & 0xF;
            let pred = ((imm as u64) >> 4) & 0xF;
            let fm = ((imm as u64) >> 8) & 0xF;
            if fm == 0b1000 && pred == 0b0011 && succ == 0b0011 && rd_u32 == 0 && (w >> 15) & 0x1F == 0 {
                Ok(Instruction::fence_tso)
            } else if fm == 0b0000 && pred == 0b0001 && succ == 0b0000 && rd_u32 == 0 && (w >> 15) & 0x1F == 0 {
                Ok(Instruction::pause)
            } else {
                Ok(Instruction::fence { rd, rs1, succ, pred, fm })
            }
        }
        else { Err(InstructionDecodeError::UnknownIInstruction { opcode, rd, rs1, imm }) }
    } else if opcode == 0b0000111 {
        if func3 == 0b010 { Ok(Instruction::flw { rd: FRegister::from_u32(rd_u32), rs1: FRegister::from_u32((w >> 15) & 0x1F), imm }) }
        else if func3 == 0b011 { Ok(Instruction::fld { rd: FRegister::from_u32(rd_u32), rs1: FRegister::from_u32((w >> 15) & 0x1F), imm }) }
        else { Err(InstructionDecodeError::UnknownIInstruction { opcode, rd, rs1, imm }) }
    } else {
        Err(InstructionDecodeError::UnknownIInstruction { opcode, rd, rs1, imm })
    }
}

/// Decode a word under the U format, as `spec_decode_u` states.
fn decode_u(w: u32) -> (r: Result<Instruction, InstructionDecodeError>)
    ensures
        r == spec_decode_u(w),
{
    proof {
        lemma_field_bounds(w);
    }
    let opcode = (w & 0x7F) as usize;
    let rd = XRegister::from_u32((w >> 7) & 0x1F);
    let uimm = imm_u(w);
    if opcode == 0b0110111 { Ok(Instruction::lui { rd, uimm }) }
    else if opcode == 0b0010111 { Ok(Instruction::auipc { rd, imm: uimm as i64 }) }
    else { Err(InstructionDecodeError::UnknownUInstruction { opcode, rd, uimm }) }
}

/// Decode a word under the S format, as `spec_decode_s` states.
fn decode_s(w: u32) -> (r: Result<Instruction, InstructionDecodeError>)
    ensures
        r == spec_decode_s(w),
{
    proof {
        lemma_field_bounds(w);
    }
    let opcode = (w & 0x7F) as usize;
    let funct3 = (w >> 12) & 0x7;
    let rs1 = XRegister::from_u32((w >> 15) & 0x1F);
    let rs2 = XRegister::from_u32((w >> 20) & 0x1F);
    let imm = imm_s(w);
    if opcode == 0b0100011 && funct3 == 0b000 { Ok(Instruction::sb { rs1, rs2, imm }) }
    else if opcode == 0b0100011 && funct3 == 0b001 { Ok(Instruction::sh { rs1, rs2, imm }) }
    else if opcode == 0b0100011 && funct3 == 0b010 { Ok(Instruction::sw { rs1, rs2, imm }) }
    else if opcode == 0b0100011 && funct3 == 0b011 { Ok(Instruction::sd { rs1, rs2, imm }) }
    else { Err(InstructionDecodeError::UnknownSInstruction { opcode, rs1, rs2, funct3, imm }) }
}

/// Decode a word under the B format, as `spec_decode_b` states.
fn decode_b(w: u32) -> (r: Result<Instruction, InstructionDecodeError>)
    ensures
        r == spec_decode_b(w),
{
    proof {
        lemma_field_bounds(w);
    }
    let opcode = (w & 0x7F) as usize;
    let funct3 = (w >> 12) & 0x7;
    let rs1 = XRegister::from_u32((w >> 15) & 0x1F);
    let rs2 = XRegister::from_u32((w >> 20) & 0x1F);
    let imm = imm_b(w);
    if opcode == 0b1100011 && funct3 == 0b000 { Ok(Instruction::beq { rs1, rs2, imm }) }
    else if opcode == 0b1100011 && funct3 == 0b001 { Ok(Instruction::bne { rs1, rs2, imm }) }
    else if opcode == 0b1100011 && funct3 == 0b100 { Ok(Instruction::blt { rs1, rs2, imm }) }
    else if opcode == 0b1100011 && funct3 == 0b101 { Ok(Instruction::bge { rs1, rs2, imm }) }
    else if opcode == 0b1100011 && funct3 == 0b110 { Ok(Instruction::bltu { rs1, rs2, imm }) }
    else if opcode == 0b1100011 && funct3 == 0b111 { Ok(Instruction::bgeu { rs1, rs2, imm }) }
    else { Err(InstructionDecodeError::UnknownBInstruction { opcode, rs1, rs2, funct3, imm }) }
}

/// Decode a word under the J format, as `spec_decode_j` states.
fn decode_j(w: u32) -> (r: Result<Instruction, InstructionDecodeError>)
    ensures
        r == spec_decode_j(w),
{
    proof {
        lemma_field_bounds(w);
    }
    let opcode = (w & 0x7F) as usize;
    let rd = XRegister::from_u32((w >> 7) & 0x1F);
    let imm = imm_j(w);
    if opcode == 0b1101111 { Ok(Instruction::jal { rd, imm }) }
    else { Err(InstructionDecodeError::UnknownJInstruction { opcode, imm }) }
}

/// Decode the base integer R opcodes, as `spec_decode_r_base` states.
fn decode_r_base(w: u32) -> (r: Result<Instruction, InstructionDecodeError>)
    ensures
        r == spec_decode_r_base(w),
{
    proof {
        lemma_field_bounds(w);
    }
    let opcode = (w & 0x7F) as usize;
    let rd = XRegister::from_u32((w >> 7) & 0x1F);
    let funct3 = (w >> 12) & 0x7;
    let rs1 = XRegister::from_u32((w >> 15) & 0x1F);
    let rs2 = XRegister::from_u32((w >> 20) & 0x1F);
    let funct7 = (w >> 25) & 0x7F;
    if opcode == 0b0110011 {
        if funct3 == 0 && funct7 == 0 {
            Ok(Instruction::add { rd, rs1, rs2 })
        } else if funct3 == 0 && funct7 == 32 {
            Ok(Instruction::sub { rd, rs1, rs2 })
        } else if funct3 == 4 && funct7 == 0 {
            Ok(Instruction::xor { rd, rs1, rs2 })
        } else if funct3 == 6 && funct7 == 0 {
            Ok(Instruction::or { rd, rs1, rs2 })
        } else if funct3 == 7 && funct7 == 0 {
            Ok(Instruction::and { rd, rs1, rs2 })
        } else if funct3 == 1 && funct7 == 0 {
            Ok(Instruction::sll { rd, rs1, rs2 })
        } else if funct3 == 5 && funct7 == 0 {
            Ok(Instruction::srl { rd, rs1, rs2 })
        } else if funct3 == 5 && funct7 == 32 {
            Ok(Instruction::sra { rd, rs1, rs2 })
        } else if funct3 == 2 && funct7 == 0 {
            Ok(Instruction::slt { rd, rs1, rs2 })
        } else if funct3 == 3 && funct7 == 0 {
            Ok(Instruction::sltu { rd, rs1, rs2 })
        } else if funct3 == 0 && funct7 == 1 {
            Ok(Instruction::mul { rd, rs1, rs2 })
        } else if funct3 == 1 && funct7 == 1 {
            Ok(Instruction::mulh { rd, rs1, rs2 })
        } else if funct3 == 2 && funct7 == 1 {
            Ok(Instruction::mulhsu { rd, rs1, rs2 })
        } else if funct3 == 3 && funct7 == 1 {
            Ok(Instruction::mulhu { rd, rs1, rs2 })
        } else if funct3 == 4 && funct7 == 1 {
            Ok(Instruction::div { rd, rs1, rs2 })
        } else if funct3 == 5 && funct7 == 1 {
            Ok(Instruction::divu { rd, rs1, rs2 })
        } else if funct3 == 6 && funct7 == 1 {
            Ok(Instruction::rem { rd, rs1, rs2 })
        } else if funct3 == 7 && funct7 == 1 {
            Ok(Instruction::remu { rd, rs1, rs2 })
        } else {
            Err(InstructionDecodeError::UnknownRInstruction { opcode, rd, rs1, rs2, funct3, funct7 })
        }
    } else {
        if funct3 == 0 && funct7 == 0 {
            Ok(Instruction::addw { rd, rs1, rs2 })
        } else if funct3 == 0 && funct7 == 32 {
            Ok(Instruction::subw { rd, rs1, rs2 })
        } else if funct3 == 1 && funct7 == 0 {
            Ok(Instruction::sllw { rd, rs1, rs2 })
        } else if funct3 == 5 && funct7 == 0 {
            Ok(Instruction::srlw { rd, rs1, rs2 })
        } else if funct3 == 5 && funct7 == 32 {
            Ok(Instruction::sraw { rd, rs1, rs2 })
        } else if funct3 == 0 && funct7 == 1 {
            Ok(Instruction::mulw { rd, rs1, rs2 })
        } else if funct3 == 4 && funct7 == 1 {
            Ok(Instruction::divw { rd, rs1, rs2 })
        } else if funct3 == 5 && funct7 == 1 {
            Ok(Instruction::divuw { rd, rs1, rs2 })
        } else if funct3 == 6 && funct7 == 1 {
            Ok(Instruction::remw { rd, rs1, rs2 })
        } else if funct3 == 7 && funct7 == 1 {
            Ok(Instruction::remuw { rd, rs1, rs2 })
        } else {
            Err(InstructionDecodeError::UnknownRInstruction { opcode, rd, rs1, rs2, funct3, funct7 })
        }
    }
}

/// Decode the atomic-extension opcode, as `spec_decode_r_atomic` states.
fn decode_r_atomic(w: u32) -> (r: Result<Instruction, InstructionDecodeError>)
    ensures
        r == spec_decode_r_atomic(w),
{
    proof {
        lemma_field_bounds(w);
    }
    let opcode = (w & 0x7F) as usize;
    let rd = XRegister::from_u32((w >> 7) & 0x1F);
    let funct3 = (w >> 12) & 0x7;
    let rs1 = XRegister::from_u32((w >> 15) & 0x1F);
    let irs2 = (w >> 20) & 0x1F;
    let rs2 = XRegister::from_u32(irs2);
    let funct7 = (w >> 25) & 0x7F;
    let rl = (funct7 & 1) != 0;
    let aq = ((funct7 >> 1) & 1) != 0;
    let func5 = funct7 >> 2;
    if funct3 == 2 && func5 == 2 && irs2 == 0 {
        Ok(Instruction::lr_w { rd, rs1, rl, aq })
    } else if funct3 == 2 && func5 == 3 {
        Ok(Instruction::sc_w { rd, rs1, rs2, rl, aq })
    } else if funct3 == 2 && func5 == 1 {
        Ok(Instruction::amoswap_w { rd, rs1, rs2, rl, aq })
    } else if funct3 == 2 && func5 == 0 {
        Ok(Instruction::amoadd_w { rd, rs1, rs2, rl, aq })
    } else if funct3 == 2 && func5 == 4 {
        Ok(Instruction::amoxor_w { rd, rs1, rs2, rl, aq })
    } else if funct3 == 2 && func5 == 12 {
        Ok(Instruction::amoand_w { rd, rs1, rs2, rl, aq })
    } else if funct3 == 2 && func5 == 8 {
        Ok(Instruction::amoor_w { rd, rs1, rs2, rl, aq })
    } else if funct3 == 2 && func5 == 16 {
        Ok(Instruction::amomin_w { rd, rs1, rs2, rl, aq })
    } else if funct3 == 2 && func5 == 20 {
        Ok(Instruction::amomax_w { rd, rs1, rs2, rl, aq })
    } else if funct3 == 2 && func5 == 24 {
        Ok(Instruction::amominu_w { rd, rs1, rs2, rl, aq })
    } else if funct3 == 2 && func5 == 28 {
        Ok(Instruction::amomaxu_w { rd, rs1, rs2, rl, aq })
    } else if funct3 == 3 && func5 == 2 && irs2 == 0 {
        Ok(Instruction::lr_d { rd, rs1, rl, aq })
    } else if funct3 == 3 && func5 == 3 {
        Ok(Instruction::sc_d { rd, rs1, rs2, rl, aq })
    } else if funct3 == 3 && func5 == 1 {
        Ok(Instruction::amoswap_d { rd, rs1, rs2, rl, aq })
    } else if funct3 == 3 && func5 == 0 {
        Ok(Instruction::amoadd_d { rd, rs1, rs2, rl, aq })
    } else if funct3 == 3 && func5 == 4 {
        Ok(Instruction::amoxor_d { rd, rs1, rs2, rl, aq })
    } else if funct3 == 3 && func5 == 12 {
        Ok(Instruction::amoand_d { rd, rs1, rs2, rl, aq })
    } else if funct3 == 3 && func5 == 8 {
        Ok(Instruction::amoor_d { rd, rs1, rs2, rl, aq })
    } else if funct3 == 3 && func5 == 16 {
        Ok(Instruction::amomin_d { rd, rs1, rs2, rl, aq })
    } else if funct3 == 3 && func5 == 20 {
        Ok(Instruction::amomax_d { rd, rs1, rs2, rl, aq })
    } else if funct3 == 3 && func5 == 24 {
        Ok(Instruction::amominu_d { rd, rs1, rs2, rl, aq })
    } else if funct3 == 3 && func5 == 28 {
        Ok(Instruction::amomaxu_d { rd, rs1, rs2, rl, aq })
    } else {
        Err(InstructionDecodeError::UnknownRInstruction { opcode, rd, rs1, rs2, funct3, funct7 })
    }
}

/// Decode the floating-point opcodes, as `spec_decode_r_float` states.
fn decode_r_float(w: u32) -> (r: Result<Instruction, InstructionDecodeError>)
    ensures
        r == spec_decode_r_float(w),
{
    proof {
        lemma_field_bounds(w);
    }
    let opcode = (w & 0x7F) as usize;
    let ird = (w >> 7) & 0x1F;
    let funct3 = (w >> 12) & 0x7;
    let irs1 = (w >> 15) & 0x1F;
    let irs2 = (w >> 20) & 0x1F;
    let funct7 = (w >> 25) & 0x7F;
    let rd = FRegister::from_u32(ird);
    let rs1 = FRegister::from_u32(irs1);
    let rs2 = FRegister::from_u32(irs2);
    let rm = RoundingMode::from_u32(funct3);
    let fmt = FloatFormat::from_u32(funct7 & 0b11);
    let func5 = funct7 >> 2;
    let rs3 = FRegister::from_u32(func5);
    if opcode == 0b0100111 && funct3 == 0b010 {
        Ok(Instruction::fsw { imm: imm_s(w), rs1, rs2 })
    } else if opcode == 0b0100111 && funct3 == 0b011 {
        Ok(Instruction::fsd { imm: imm_s(w), rs1, rs2 })
    } else if opcode == 67 && fmt == FloatFormat::s {
        Ok(Instruction::fmadd_s { rd, rm, rs1, rs2, rs3 })
    } else if opcode == 67 && fmt == FloatFormat::d {
        Ok(Instruction::fmadd_d { rd, rm, rs1, rs2, rs3 })
    } else if opcode == 71 && fmt == FloatFormat::s {
        Ok(Instruction::fmsub_s { rd, rm, rs1, rs2, rs3 })
    } else if opcode == 71 && fmt == FloatFormat::d {
        Ok(Instruction::fmsub_d { rd, rm, rs1, rs2, rs3 })
    } else if opcode == 75 && fmt == FloatFormat::s {
        Ok(Instruction::fnmsub_s { rd, rm, rs1, rs2, rs3 })
    } else if opcode == 75 && fmt == FloatFormat::d {
        Ok(Instruction::fnmsub_d { rd, rm, rs1, rs2, rs3 })
    } else if opcode == 79 && fmt == FloatFormat::s {
        Ok(Instruction::fnmadd_s { rd, rm, rs1, rs2, rs3 })
    } else if opcode == 79 && fmt == FloatFormat::d {
        Ok(Instruction::fnmadd_d { rd, rm, rs1, rs2, rs3 })
    } else if opcode == 0b1010011 && fmt == FloatFormat::s && func5 == 0b00000 {
        Ok(Instruction::fadd_s { rd, rm, rs1, rs2 })
    } else if opcode == 0b1010011 && fmt == FloatFormat::s && func5 == 0b00001 {
        Ok(Instruction::fsub_s { rd, rm, rs1, rs2 })
    } else if opcode == 0b1010011 && fmt == FloatFormat::s && func5 == 0b00010 {
        Ok(Instruction::fmul_s { rd, rm, rs1, rs2 })
    } else if opcode == 0b1010011 && fmt == FloatFormat::s && func5 == 0b00011 {
        Ok(Instruction::fdiv_s { rd, rm, rs1, rs2 })
    } else if opcode == 0b1010011 && irs2 == 0b00000 && fmt == FloatFormat::s && func5 == 0b01011 {
        Ok(Instruction::fsqrt_s { rd, rm, rs1 })
    } else if opcode == 0b1010011 && funct3 == 0b000 && fmt == FloatFormat::s && func5 == 0b00100 {
        Ok(Instruction::fsgnj_s { rd, rs1, rs2 })
    } else if opcode == 0b1010011 && funct3 == 0b001 && fmt == FloatFormat::s && func5 == 0b00100 {
        Ok(Instruction::fsgnjn_s { rd, rs1, rs2 })
    } else if opcode == 0b1010011 && funct3 == 0b010 && fmt == FloatFormat::s && func5 == 0b00100 {
        Ok(Instruction::fsgnjx_s { rd, rs1, rs2 })
    } else if opcode == 0b1010011 && funct3 == 0b000 && fmt == FloatFormat::s && func5 == 0b00101 {
        Ok(Instruction::fmin_s { rd, rs1, rs2 })
    } else if opcode == 0b1010011 && funct3 == 0b001 && fmt == FloatFormat::s && func5 == 0b00101 {
        Ok(Instruction::fmax_s { rd, rs1, rs2 })
    } else if opcode == 0b1010011 && funct3 == 0b010 && fmt == FloatFormat::s && func5 == 0b10100 {
        Ok(Instruction::feq_s { rd, rs1, rs2 })
    } else if opcode == 0b1010011 && funct3 == 0b001 && fmt == FloatFormat::s && func5 == 0b10100 {
        Ok(Instruction::flt_s { rd, rs1, rs2 })
    } else if opcode == 0b1010011 && funct3 == 0b000 && fmt == FloatFormat::s && func5 == 0b10100 {
        Ok(Instruction::fle_s { rd, rs1, rs2 })
    } else if opcode == 0b1010011 && funct3 == 0b001 && irs2 == 0b00000 && fmt == FloatFormat::s && func5 == 0b11100 {
        Ok(Instruction::fclass_s { rd, rs1 })
    } else if opcode == 0b1010011 && fmt == FloatFormat::d && func5 == 0b00000 {
        Ok(Instruction::fadd_d { rd, rm, rs1, rs2 })
    } else if opcode == 0b1010011 && fmt == FloatFormat::d && func5 == 0b00001 {
        Ok(Instruction::fsub_d { rd, rm, rs1, rs2 })
    } else if opcode == 0b1010011 && fmt == FloatFormat::d && func5 == 0b00010 {
        Ok(Instruction::fmul_d { rd, rm, rs1, rs2 })
    } else if opcode == 0b1010011 && fmt == FloatFormat::d && func5 == 0b00011 {
        Ok(Instruction::fdiv_d { rd, rm, rs1, rs2 })
    } else if opcode == 0b1010011 && irs2 == 0b00000 && fmt == FloatFormat::d && func5 == 0b01011 {
        Ok(Instruction::fsqrt_d { rd, rm, rs1 })
    } else if opcode == 0b1010011 && funct3 == 0b000 && fmt == FloatFormat::d && func5 == 0b00100 {
        Ok(Instruction::fsgnj_d { rd, rs1, rs2 })
    } else if opcode == 0b1010011 && funct3 == 0b001 && fmt == FloatFormat::d && func5 == 0b00100 {
        Ok(Instruction::fsgnjn_d { rd, rs1, rs2 })
    } else if opcode == 0b1010011 && funct3 == 0b010 && fmt == FloatFormat::d && func5 == 0b00100 {
        Ok(Instruction::fsgnjx_d { rd, rs1, rs2 })
    } else if opcode == 0b1010011 && funct3 == 0b000 && fmt == FloatFormat::d && func5 == 0b00101 {
        Ok(Instruction::fmin_d { rd, rs1, rs2 })
    } else if opcode == 0b1010011 && funct3 == 0b001 && fmt == FloatFormat::d && func5 == 0b00101 {
        Ok(Instruction::fmax_d { rd, rs1, rs2 })
    } else if opcode == 0b1010011 && funct3 == 0b010 && fmt == FloatFormat::d && func5 == 0b10100 {
        Ok(Instruction::feq_d { rd, rs1, rs2 })
    } else if opcode == 0b1010011 && funct3 == 0b001 && fmt == FloatFormat::d && func5 == 0b10100 {
        Ok(Instruction::flt_d { rd, rs1, rs2 })
    } else if opcode == 0b1010011 && funct3 == 0b000 && fmt == FloatFormat::d && func5 == 0b10100 {
        Ok(Instruction::fle_d { rd, rs1, rs2 })
    } else if opcode == 0b1010011 && funct3 == 0b001 && irs2 == 0b00000 && fmt == FloatFormat::d && func5 == 0b11100 {
        Ok(Instruction::fclass_d { rd, rs1 })
    } else if opcode == 0b1010011 && irs2 == 0b00000 && fmt == FloatFormat::s && func5 == 0b11000 {
        Ok(Instruction::fcvt_w_s { rd, rm, rs1 })
    } else if opcode == 0b1010011 && irs2 == 0b00001 && fmt == FloatFormat::s && func5 == 0b11000 {
        Ok(Instruction::fcvt_wu_s { rd, rm, rs1 })
    } else if opcode == 0b1010011 && funct3 == 0b000 && irs2 == 0b00000 && fmt == FloatFormat::s && func5 == 0b11100 {
        Ok(Instruction::fmv_x_w { rd, rs1 })
    } else if opcode == 0b1010011 && irs2 == 0b00000 && fmt == FloatFormat::s && func5 == 0b11010 {
        Ok(Instruction::fcvt_s_w { rd, rm, rs1 })
    } else if opcode == 0b1010011 && irs2 == 0b00001 && fmt == FloatFormat::s && func5 == 0b11010 {
        Ok(Instruction::fcvt_s_wu { rd, rm, rs1 })
    } else if opcode == 0b1010011 && funct3 == 0b000 && irs2 == 0b00000 && fmt == FloatFormat::s && func5 == 0b11110 {
        Ok(Instruction::fmv_w_x { rd, rs1 })
    } else if opcode == 0b1010011 && irs2 == 0b00010 && fmt == FloatFormat::s && func5 == 0b11000 {
        Ok(Instruction::fcv_tl_s { rd, rm, rs1 })
    } else if opcode == 0b1010011 && irs2 == 0b00011 && fmt == FloatFormat::s && func5 == 0b11000 {
        Ok(Instruction::fcv_tlu_s { rd, rm, rs1 })
    } else if opcode == 0b1010011 && irs2 == 0b00010 && fmt == FloatFormat::s && func5 == 0b11010 {
        Ok(Instruction::fcv_ts_l { rd, rm, rs1 })
    } else if opcode == 0b1010011 && irs2 == 0b00011 && fmt == FloatFormat::s && func5 == 0b11010 {
        Ok(Instruction::fcv_ts_lu { rd, rm, rs1 })
    } else if opcode == 0b1010011 && irs2 == 0b00001 && fmt == FloatFormat::d && func5 == 0b01000 {
        Ok(Instruction::fcvt_s_d { rd, rm, rs1 })
    } else if opcode == 0b1010011 && irs2 == 0b00000 && fmt == FloatFormat::d && func5 == 0b01000 {
        Ok(Instruction::fcvt_d_s { rd, rm, rs1 })
    } else if opcode == 0b1010011 && irs2 == 0b00000 && fmt == FloatFormat::d && func5 == 0b11000 {
        Ok(Instruction::fcvt_w_d { rd, rm, rs1 })
    } else if opcode == 0b1010011 && irs2 == 0b00001 && fmt == FloatFormat::d && func5 == 0b11000 {
        Ok(Instruction::fcvt_wu_d { rd, rm, rs1 })
    } else if opcode == 0b1010011 && irs2 == 0b00000 && fmt == FloatFormat::d && func5 == 0b11010 {
        Ok(Instruction::fcvt_d_w { rd, rm, rs1 })
    } else if opcode == 0b1010011 && irs2 == 0b00001 && fmt == FloatFormat::d && func5 == 0b11010 {
        Ok(Instruction::fcvt_d_wu { rd, rm, rs1 })
    } else if opcode == 0b1010011 && irs2 == 0b00010 && fmt == FloatFormat::d && func5 == 0b11000 {
        Ok(Instruction::fcvt_l_d { rd, rm, rs1 })
    } else if opcode == 0b1010011 && irs2 == 0b00011 && fmt == FloatFormat::d && func5 == 0b11000 {
        Ok(Instruction::fcvt_lu_d { rd, rm, rs1 })
    } else if opcode == 0b1010011 && funct3 == 0b000 && irs2 == 0b00000 && fmt == FloatFormat::d && func5 == 0b11100 {
        Ok(Instruction::fmv_x_d { rd, rs1 })
    } else if opcode == 0b1010011 && irs2 == 0b00010 && fmt == FloatFormat::d && func5 == 0b11010 {
        Ok(Instruction::fcvt_d_l { rd, rm, rs1 })
    } else if opcode == 0b1010011 && irs2 == 0b00011 && fmt == FloatFormat::d && func5 == 0b11010 {
        Ok(Instruction::fcvt_d_lu { rd, rm, rs1 })
    } else if opcode == 0b1010011 && funct3 == 0b000 && irs2 == 0b00000 && fmt == FloatFormat::d && func5 == 0b11110 {
        Ok(Instruction::fmv_d_x { rd, rs1 })
    } else {
        Err(InstructionDecodeError::UnknownRFloatInstruction { opcode, rd, rs1, rs2, rm, fmt, func5 })
    }
}

impl InstructionFormat {
    /// The format assigned to a 7-bit opcode, if any.
    pub fn of_opcode(opcode: u32) -> (r: Option<InstructionFormat>)
        ensures
            r == spec_format(opcode),
    {
        if opcode == 0b0000011 || opcode == 0b0000111 || opcode == 0b0001111 || opcode == 0b0010011
            || opcode == 0b0011011 || opcode == 0b1100111 || opcode == 0b1110011 {
            Some(InstructionFormat::I)
        } else if opcode == 0b0010111 || opcode == 0b0110111 {
            Some(InstructionFormat::U)
        } else if opcode == 0b0100011 {
            Some(InstructionFormat::S)
        } else if opcode == 0b0100111 || opcode == 0b0101111 || opcode == 0b0110011
            || opcode == 0b0111011 || opcode == 0b1000011 || opcode == 0b1000111
            || opcode == 0b1001011 || opcode == 0b1001111 || opcode == 0b1010011 {
            Some(InstructionFormat::R)
        } else if opcode == 0b1100011 {
            Some(InstructionFormat::B)
        } else if opcode == 0b1101111 {
            Some(InstructionFormat::J)
        } else {
            None
        }
    }

    /// Decode a word under this format: extract the format's field layout and
    /// sub-dispatch on the function fields.
    pub fn decode(&self, instruction: u32) -> (r: Result<Instruction, InstructionDecodeError>)
        ensures
            r == spec_decode_format(*self, instruction),
    {
        match self {
            InstructionFormat::I => decode_i(instruction),
            InstructionFormat::U => decode_u(instruction),
            InstructionFormat::S => decode_s(instruction),
            InstructionFormat::B => decode_b(instruction),
            InstructionFormat::J => decode_j(instruction),
            InstructionFormat::R => decode_r(instruction),
        }
    }
}

/// Decoding of a word under the R format (dispatch to the opcode family).
fn decode_r(w: u32) -> (r: Result<Instruction, InstructionDecodeError>)
    ensures
        r == spec_decode_r(w),
{
    proof {
        lemma_field_bounds(w);
    }
    let opcode = (w & 0x7F) as usize;
    if opcode == 0b0110011 || opcode == 0b0111011 {
        decode_r_base(w)
    } else if opcode == 0b0101111 {
        decode_r_atomic(w)
    } else if opcode == 0b0100111 || opcode == 0b1000011 || opcode == 0b1000111
        || opcode == 0b1001011 || opcode == 0b1001111 || opcode == 0b1010011 {
        decode_r_float(w)
    } else {
        let rd = XRegister::from_u32((w >> 7) & 0x1F);
        let funct3 = (w >> 12) & 0x7;
        let rs1 = XRegister::from_u32((w >> 15) & 0x1F);
        let rs2 = XRegister::from_u32((w >> 20) & 0x1F);
        let funct7 = (w >> 25) & 0x7F;
        Err(InstructionDecodeError::UnknownRInstruction { opcode, rd, rs1, rs2, funct3, funct7 })
    }
}

impl Instruction {
    /// Decode one 32-bit instruction word, as `spec_decode` states: format
    /// dispatch on the opcode, then the format's own decoding.
    pub fn decode(instruction: u32) -> (r: Result<Instruction, InstructionDecodeError>)
        ensures
            r == spec_decode(instruction),
    {
        let opcode = instruction & 0x7F;
        match InstructionFormat::of_opcode(opcode) {
            Some(format) => format.decode(instruction),
            None => Err(InstructionDecodeError::NoInstructionFormatForOpcode {
                opcode: opcode as usize,
                instruction,
            }),
        }
    }
}



/// Sign-extension correctness for the I format: with bit 31 of the word
/// set, the immediate's top 52 bits are all ones; with bit 31 clear, they
/// are all zeros.
pub proof fn lemma_i_imm_sign_extension(w: u32)
    by (bit_vector)
    ensures
        (w >> 31) & 1 == 1 ==> (i_imm(w) as u64) >> 12 == 0xF_FFFF_FFFF_FFFFu64,
        (w >> 31) & 1 == 0 ==> (i_imm(w) as u64) >> 12 == 0,
{
}

/// Sign-extension correctness for the S format, as `lemma_i_imm_sign_extension`.
pub proof fn lemma_s_imm_sign_extension(w: u32)
    by (bit_vector)
    ensures
        (w >> 31) & 1 == 1 ==> (s_imm(w) as u64) >> 12 == 0xF_FFFF_FFFF_FFFFu64,
        (w >> 31) & 1 == 0 ==> (s_imm(w) as u64) >> 12 == 0,
{
}

/// Sign-extension correctness for the B format: its immediate is sign
/// extended from bit 12 up.
pub proof fn lemma_b_imm_sign_extension(w: u32)
    by (bit_vector)
    ensures
        (w >> 31) & 1 == 1 ==> (b_imm(w) as u64) >> 12 == 0xF_FFFF_FFFF_FFFFu64,
        (w >> 31) & 1 == 0 ==> (b_imm(w) as u64) >> 12 == 0,
{
}

/// Sign-extension correctness for the J format: its immediate is sign
/// extended from bit 20 up.
pub proof fn lemma_j_imm_sign_extension(w: u32)
    by (bit_vector)
    ensures
        (w >> 31) & 1 == 1 ==> (j_imm(w) as u64) >> 20 == 0xFFF_FFFF_FFFFu64,
        (w >> 31) & 1 == 0 ==> (j_imm(w) as u64) >> 20 == 0,
{
}

/// Sign-extension correctness for the U format: its immediate is sign
/// extended from bit 32 up.
pub proof fn lemma_u_imm_sign_extension(w: u32)
    by (bit_vector)
    ensures
        (w >> 31) & 1 == 1 ==> u_imm(w) >> 32 == 0xFFFF_FFFFu64,
        (w >> 31) & 1 == 0 ==> u_imm(w) >> 32 == 0,
{
}

/// Decoding is a pure function of the instruction word: two decodings of
/// the same word yield identical values.
pub proof fn lemma_decode_idempotent(
    w: u32,
    r1: Result<Instruction, InstructionDecodeError>,
    r2: Result<Instruction, InstructionDecodeError>,
)
    requires
        r1 == spec_decode(w),
        r2 == spec_decode(w),
    ensures
        r1 == r2,
{
}

} // verus!
