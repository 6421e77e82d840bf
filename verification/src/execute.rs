use vstd::prelude::*;

use crate::cpu::Core;
use crate::device::DeviceError;
use crate::endianness::Endianness;
use crate::instruction::Instruction;
use crate::register::{XRegister, spec_x_write};

verus! {

/// Why an instruction could not be applied: no semantics are implemented
/// for it, or the bus faulted during its load or store.
#[derive(Debug, PartialEq, Clone)]
pub enum InstructionExecuteError {
    NotImplemented(Instruction),
    DeviceError(DeviceError),
}

/// The destination register and value a pure register instruction writes,
/// for the instructions whose result depends only on the register file.
pub open spec fn alu_result(i: Instruction, x: Seq<u64>) -> Option<(XRegister, u64)> {
    match i {
        Instruction::add { rd, rs1, rs2 } => Some((rd, x[rs1.idx()].wrapping_add(x[rs2.idx()]))),
        Instruction::sub { rd, rs1, rs2 } => Some((rd, x[rs1.idx()].wrapping_sub(x[rs2.idx()]))),
        Instruction::xor { rd, rs1, rs2 } => Some((rd, x[rs1.idx()] ^ x[rs2.idx()])),
        Instruction::or { rd, rs1, rs2 } => Some((rd, x[rs1.idx()] | x[rs2.idx()])),
        Instruction::and { rd, rs1, rs2 } => Some((rd, x[rs1.idx()] & x[rs2.idx()])),
        Instruction::sll { rd, rs1, rs2 } => Some((rd, x[rs1.idx()] << (x[rs2.idx()] % 64))),
        Instruction::srl { rd, rs1, rs2 } => Some((rd, x[rs1.idx()] >> (x[rs2.idx()] % 64))),
        Instruction::sra { rd, rs1, rs2 } => Some((rd, (((x[rs1.idx()] as i64) >> ((x[rs2.idx()] % 64) as i64)) as u64))),
        Instruction::slt { rd, rs1, rs2 } => Some((rd, if (x[rs1.idx()] as i64) < (x[rs2.idx()] as i64) { 1u64 } else { 0u64 })),
        Instruction::sltu { rd, rs1, rs2 } => Some((rd, if x[rs1.idx()] < x[rs2.idx()] { 1u64 } else { 0u64 })),
        Instruction::addi { rd, rs1, imm } => Some((rd, x[rs1.idx()].wrapping_add(imm as u64))),
        Instruction::xori { rd, rs1, imm } => Some((rd, x[rs1.idx()] ^ imm)),
        Instruction::ori { rd, rs1, imm } => Some((rd, x[rs1.idx()] | imm)),
        Instruction::andi { rd, rs1, imm } => Some((rd, x[rs1.idx()] & imm)),
        Instruction::slli { rd, rs1, shamt } => Some((rd, x[rs1.idx()] << ((shamt as u64) % 64))),
        Instruction::srli { rd, rs1, shamt } => Some((rd, x[rs1.idx()] >> ((shamt as u64) % 64))),
        Instruction::srai { rd, rs1, shamt } => Some((rd, (((x[rs1.idx()] as i64) >> (((shamt as u64) % 64) as i64)) as u64))),
        Instruction::slti { rd, rs1, imm } => Some((rd, if (x[rs1.idx()] as i64) < imm { 1u64 } else { 0u64 })),
        Instruction::sltiu { rd, rs1, imm } => Some((rd, if x[rs1.idx()] < imm { 1u64 } else { 0u64 })),
        Instruction::lui { rd, uimm } => Some((rd, uimm)),
        _ => None,
    }
}

/// The destination, base register, offset, width and signedness of a load.
pub open spec fn load_fields(i: Instruction) -> Option<(XRegister, XRegister, i64, int, bool)> {
    match i {
        Instruction::lb { rd, rs1, imm } => Some((rd, rs1, imm, 1, true)),
        Instruction::lh { rd, rs1, imm } => Some((rd, rs1, imm, 2, true)),
        Instruction::lw { rd, rs1, imm } => Some((rd, rs1, imm, 4, true)),
        Instruction::ld { rd, rs1, imm } => Some((rd, rs1, imm, 8, false)),
        Instruction::lbu { rd, rs1, imm } => Some((rd, rs1, imm, 1, false)),
        Instruction::lhu { rd, rs1, imm } => Some((rd, rs1, imm, 2, false)),
        Instruction::lwu { rd, rs1, imm } => Some((rd, rs1, imm, 4, false)),
        _ => None,
    }
}

/// The base register, source register, offset and width of a store.
pub open spec fn store_fields(i: Instruction) -> Option<(XRegister, XRegister, i64, int)> {
    match i {
        Instruction::sb { rs1, rs2, imm } => Some((rs1, rs2, imm, 1)),
        Instruction::sh { rs1, rs2, imm } => Some((rs1, rs2, imm, 2)),
        Instruction::sw { rs1, rs2, imm } => Some((rs1, rs2, imm, 4)),
        Instruction::sd { rs1, rs2, imm } => Some((rs1, rs2, imm, 8)),
        _ => None,
    }
}

/// Whether a branch's predicate holds over the register file, with its
/// offset; `None` for a non-branch.
pub open spec fn branch_fields(i: Instruction, x: Seq<u64>) -> Option<(bool, i64)> {
    match i {
        Instruction::beq { rs1, rs2, imm } => Some((x[rs1.idx()] == x[rs2.idx()], imm)),
        Instruction::bne { rs1, rs2, imm } => Some((x[rs1.idx()] != x[rs2.idx()], imm)),
        Instruction::blt { rs1, rs2, imm } => Some(((x[rs1.idx()] as i64) < (x[rs2.idx()] as i64), imm)),
        Instruction::bge { rs1, rs2, imm } => Some(((x[rs1.idx()] as i64) >= (x[rs2.idx()] as i64), imm)),
        Instruction::bltu { rs1, rs2, imm } => Some((x[rs1.idx()] < x[rs2.idx()], imm)),
        Instruction::bgeu { rs1, rs2, imm } => Some((x[rs1.idx()] >= x[rs2.idx()], imm)),
        _ => None,
    }
}

/// A 64-bit wrapping addition of a signed offset to an address.
pub open spec fn mem_addr(base: u64, imm: i64) -> usize {
    base.wrapping_add(imm as u64) as usize
}

/// The program counter moved by a signed offset, wrapping.
pub open spec fn pc_add(pc: usize, imm: i64) -> usize {
    ((pc as u64).wrapping_add(imm as u64)) as usize
}

/// The jump target of an indirect jump: base plus offset with the low bit
/// cleared.
pub open spec fn jalr_target(base: u64, imm: i64) -> usize {
    (base.wrapping_add(imm as u64) & 0xFFFF_FFFF_FFFF_FFFEu64) as usize
}

/// The link value a jump leaves in its destination register: the address of
/// the instruction after the jump.
pub open spec fn link_value(pc: usize) -> u64 {
    (pc as u64).wrapping_add(4)
}

/// Everything but the integer register file is untouched, and the program
/// counter keeps its value, awaiting the default advance.
pub open spec fn only_x_write(pre: Core, post: Core, rd: XRegister, v: u64) -> bool {
    &&& post.pc == pre.pc
    &&& post.bus == pre.bus
    &&& post.f_registers == pre.f_registers
    &&& post.x_registers@ == spec_x_write(pre.x_registers@, rd, v)
}

/// How one instruction takes the core from `pre` to `post` with result `r`:
/// `Ok(true)` asks the caller for the default advance by 4, `Ok(false)`
/// says the program counter was set explicitly, and an error leaves the
/// fault from the bus or the unimplemented instruction.
pub open spec fn exec_rel(
    i: Instruction,
    pre: Core,
    post: Core,
    r: Result<bool, InstructionExecuteError>,
) -> bool {
    match alu_result(i, pre.x_registers@) {
        Some((rd, v)) => only_x_write(pre, post, rd, v) && r == Ok::<
            bool,
            InstructionExecuteError,
        >(true),
        None => match i {
            Instruction::auipc { rd, imm } => only_x_write(
                pre,
                post,
                rd,
                (pre.pc as u64).wrapping_add(imm as u64),
            ) && r == Ok::<bool, InstructionExecuteError>(true),
            Instruction::jal { rd, imm } => {
                &&& post.bus == pre.bus
                &&& post.f_registers == pre.f_registers
                &&& post.x_registers@ == spec_x_write(pre.x_registers@, rd, link_value(pre.pc))
                &&& post.pc == pc_add(pre.pc, imm)
                &&& r == Ok::<bool, InstructionExecuteError>(false)
            },
            Instruction::jalr { rd, rs1, imm } => {
                &&& post.bus == pre.bus
                &&& post.f_registers == pre.f_registers
                &&& post.x_registers@ == spec_x_write(pre.x_registers@, rd, link_value(pre.pc))
                &&& post.pc == jalr_target(pre.x_registers@[rs1.idx()], imm)
                &&& r == Ok::<bool, InstructionExecuteError>(false)
            },
            Instruction::ecall => post == pre && r == Ok::<bool, InstructionExecuteError>(true),
            Instruction::ebreak => post == pre && r == Ok::<bool, InstructionExecuteError>(true),
            Instruction::fence_tso => post == pre && r == Ok::<bool, InstructionExecuteError>(
                true,
            ),
            Instruction::fence { .. } => post == pre && r == Ok::<
                bool,
                InstructionExecuteError,
            >(true),
            Instruction::fence_i { .. } => post == pre && r == Ok::<
                bool,
                InstructionExecuteError,
            >(true),
            Instruction::pause => post == pre && r == Ok::<bool, InstructionExecuteError>(true),
            _ => match branch_fields(i, pre.x_registers@) {
                Some((taken, imm)) => {
                    &&& post.x_registers == pre.x_registers
                    &&& post.f_registers == pre.f_registers
                    &&& post.bus == pre.bus
                    &&& if taken {
                        post.pc == pc_add(pre.pc, imm) && r == Ok::<
                            bool,
                            InstructionExecuteError,
                        >(false)
                    } else {
                        post.pc == pre.pc && r == Ok::<bool, InstructionExecuteError>(true)
                    }
                },
                None => match load_fields(i) {
                    Some((rd, rs1, imm, size, sx)) => {
                        let addr = mem_addr(pre.x_registers@[rs1.idx()], imm);
                        match pre.bus.read_int_spec(
                            addr as int,
                            size,
                            Endianness::LittleEndian,
                            sx,
                        ) {
                            Ok(v) => only_x_write(pre, post, rd, v) && r == Ok::<
                                bool,
                                InstructionExecuteError,
                            >(true),
                            Err(e) => post == pre && r == Err::<bool, InstructionExecuteError>(
                                InstructionExecuteError::DeviceError(e),
                            ),
                        }
                    },
                    None => match store_fields(i) {
                        Some((rs1, rs2, imm, size)) => {
                            let addr = mem_addr(pre.x_registers@[rs1.idx()], imm);
                            let v = pre.x_registers@[rs2.idx()];
                            &&& post.x_registers == pre.x_registers
                            &&& post.f_registers == pre.f_registers
                            &&& post.pc == pre.pc
                            &&& match r {
                                Ok(b) => b == true && pre.bus.write_int_rel(
                                    post.bus,
                                    addr as int,
                                    v,
                                    size,
                                    Endianness::LittleEndian,
                                    Ok(()),
                                ),
                                Err(InstructionExecuteError::DeviceError(e)) => pre
                                    .bus
                                    .write_int_rel(
                                    post.bus,
                                    addr as int,
                                    v,
                                    size,
                                    Endianness::LittleEndian,
                                    Err(e),
                                ),
                                _ => false,
                            }
                        },
                        None => post == pre && r == Err::<bool, InstructionExecuteError>(
                            InstructionExecuteError::NotImplemented(i),
                        ),
                    },
                },
            },
        },
    }
}

impl Instruction {
    /// Apply this instruction's semantics to the core, as `exec_rel`
    /// states: registers and memory change per the ISA, and the result says
    /// whether the default advance of the program counter applies.
    pub fn execute(&self, core: &mut Core) -> (r: Result<bool, InstructionExecuteError>)
        requires
            old(core).inv(),
        ensures
            final(core).inv(),
            exec_rel(*self, *old(core), *final(core), r),
    {
        match self {
            Instruction::add { .. } | Instruction::sub { .. } | Instruction::xor { .. } | Instruction::or { .. } | Instruction::and { .. } | Instruction::sll { .. } | Instruction::srl { .. } | Instruction::sra { .. } | Instruction::slt { .. } | Instruction::sltu { .. } | Instruction::addi { .. } | Instruction::xori { .. } | Instruction::ori { .. } | Instruction::andi { .. } | Instruction::slli { .. } | Instruction::srli { .. } | Instruction::srai { .. } | Instruction::slti { .. } | Instruction::sltiu { .. } | Instruction::lui { .. } => self.execute_alu(core),
            Instruction::lb { .. } | Instruction::lh { .. } | Instruction::lw { .. } | Instruction::ld { .. } | Instruction::lbu { .. } | Instruction::lhu { .. } | Instruction::lwu { .. } => self.execute_load(core),
            Instruction::sb { .. } | Instruction::sh { .. } | Instruction::sw { .. } | Instruction::sd { .. } => self.execute_store(core),
            Instruction::beq { .. } | Instruction::bne { .. } | Instruction::blt { .. } | Instruction::bge { .. } | Instruction::bltu { .. } | Instruction::bgeu { .. } => self.execute_branch(core),
            Instruction::jal { .. } | Instruction::jalr { .. } | Instruction::auipc { .. } | Instruction::ecall | Instruction::ebreak | Instruction::fence_tso | Instruction::fence { .. } | Instruction::fence_i { .. } | Instruction::pause => self.execute_jump_misc(core),
            _ => Err(InstructionExecuteError::NotImplemented(*self)),
        }
    }

    /// The register-only instructions.
    #[verifier::rlimit(100)]
    #[verifier::spinoff_prover]
    fn execute_alu(&self, core: &mut Core) -> (r: Result<bool, InstructionExecuteError>)
        requires
            old(core).inv(),
            matches!(*self, Instruction::add { .. } | Instruction::sub { .. } | Instruction::xor { .. } | Instruction::or { .. } | Instruction::and { .. } | Instruction::sll { .. } | Instruction::srl { .. } | Instruction::sra { .. } | Instruction::slt { .. } | Instruction::sltu { .. } | Instruction::addi { .. } | Instruction::xori { .. } | Instruction::ori { .. } | Instruction::andi { .. } | Instruction::slli { .. } | Instruction::srli { .. } | Instruction::srai { .. } | Instruction::slti { .. } | Instruction::sltiu { .. } | Instruction::lui { .. }),
        ensures
            final(core).inv(),
            exec_rel(*self, *old(core), *final(core), r),
    {
        match self {
        Instruction::add { rd, rs1, rs2 } => {
            let a = core.x_registers.get(*rs1);
            let b = core.x_registers.get(*rs2);
            let v = a.wrapping_add(b);
            core.x_registers.set(*rd, v);
            Ok(true)
        },

        Instruction::sub { rd, rs1, rs2 } => {
            let a = core.x_registers.get(*rs1);
            let b = core.x_registers.get(*rs2);
            let v = a.wrapping_sub(b);
            core.x_registers.set(*rd, v);
            Ok(true)
        },

        Instruction::xor { rd, rs1, rs2 } => {
            let a = core.x_registers.get(*rs1);
            let b = core.x_registers.get(*rs2);
            let v = a ^ b;
            core.x_registers.set(*rd, v);
            Ok(true)
        },

        Instruction::or { rd, rs1, rs2 } => {
            let a = core.x_registers.get(*rs1);
            let b = core.x_registers.get(*rs2);
            let v = a | b;
            core.x_registers.set(*rd, v);
            Ok(true)
        },

        Instruction::and { rd, rs1, rs2 } => {
            let a = core.x_registers.get(*rs1);
            let b = core.x_registers.get(*rs2);
            let v = a & b;
            core.x_registers.set(*rd, v);
            Ok(true)
        },

        Instruction::sll { rd, rs1, rs2 } => {
            let a = core.x_registers.get(*rs1);
            let b = core.x_registers.get(*rs2);
            let v = a << (b % 64);
            core.x_registers.set(*rd, v);
            Ok(true)
        },

        Instruction::srl { rd, rs1, rs2 } => {
            let a = core.x_registers.get(*rs1);
            let b = core.x_registers.get(*rs2);
            let v = a >> (b % 64);
            core.x_registers.set(*rd, v);
            Ok(true)
        },

        Instruction::sra { rd, rs1, rs2 } => {
            let a = core.x_registers.get(*rs1);
            let b = core.x_registers.get(*rs2);
            let v = (((a as i64) >> ((b % 64) as i64)) as u64);
            core.x_registers.set(*rd, v);
            Ok(true)
        },

        Instruction::slt { rd, rs1, rs2 } => {
            let a = core.x_registers.get(*rs1);
            let b = core.x_registers.get(*rs2);
            let v = if (a as i64) < (b as i64) { 1u64 } else { 0u64 };
            core.x_registers.set(*rd, v);
            Ok(true)
        },

        Instruction::sltu { rd, rs1, rs2 } => {
            let a = core.x_registers.get(*rs1);
            let b = core.x_registers.get(*rs2);
            let v = if a < b { 1u64 } else { 0u64 };
            core.x_registers.set(*rd, v);
            Ok(true)
        },

        Instruction::addi { rd, rs1, imm } => {
            let a = core.x_registers.get(*rs1);
            let v = a.wrapping_add((*imm) as u64);
            core.x_registers.set(*rd, v);
            Ok(true)
        },

        Instruction::xori { rd, rs1, imm } => {
            let a = core.x_registers.get(*rs1);
            let v = a ^ (*imm);
            core.x_registers.set(*rd, v);
            Ok(true)
        },

        Instruction::ori { rd, rs1, imm } => {
            let a = core.x_registers.get(*rs1);
            let v = a | (*imm);
            core.x_registers.set(*rd, v);
            Ok(true)
        },

        Instruction::andi { rd, rs1, imm } => {
            let a = core.x_registers.get(*rs1);
            let v = a & (*imm);
            core.x_registers.set(*rd, v);
            Ok(true)
        },

        Instruction::slli { rd, rs1, shamt } => {
            let a = core.x_registers.get(*rs1);
            let v = a << (((*shamt) as u64) % 64);
            core.x_registers.set(*rd, v);
            Ok(true)
        },

        Instruction::srli { rd, rs1, shamt } => {
            let a = core.x_registers.get(*rs1);
            let v = a >> (((*shamt) as u64) % 64);
            core.x_registers.set(*rd, v);
            Ok(true)
        },

        Instruction::srai { rd, rs1, shamt } => {
            let a = core.x_registers.get(*rs1);
            let v = (((a as i64) >> ((((*shamt) as u64) % 64) as i64)) as u64);
            core.x_registers.set(*rd, v);
            Ok(true)
        },

        Instruction::slti { rd, rs1, imm } => {
            let a = core.x_registers.get(*rs1);
            let v = if (a as i64) < (*imm) { 1u64 } else { 0u64 };
            core.x_registers.set(*rd, v);
            Ok(true)
        },

        Instruction::sltiu { rd, rs1, imm } => {
            let a = core.x_registers.get(*rs1);
            let v = if a < (*imm) { 1u64 } else { 0u64 };
            core.x_registers.set(*rd, v);
            Ok(true)
        },

        Instruction::lui { rd, uimm } => {
            let v = (*uimm);
            core.x_registers.set(*rd, v);
            Ok(true)
        },
            _ => Err(InstructionExecuteError::NotImplemented(*self)),
        }
    }

    /// The loads: read through the bus, then write the destination.
    #[verifier::rlimit(100)]
    #[verifier::spinoff_prover]
    fn execute_load(&self, core: &mut Core) -> (r: Result<bool, InstructionExecuteError>)
        requires
            old(core).inv(),
            matches!(*self, Instruction::lb { .. } | Instruction::lh { .. } | Instruction::lw { .. } | Instruction::ld { .. } | Instruction::lbu { .. } | Instruction::lhu { .. } | Instruction::lwu { .. }),
        ensures
            final(core).inv(),
            exec_rel(*self, *old(core), *final(core), r),
    {
        match self {
        Instruction::lb { rd, rs1, imm } => {
            let address = core.x_registers.get(*rs1).wrapping_add(*imm as u64) as usize;
            match core.bus.read_int(address, 1, Endianness::LittleEndian, true) {
                Ok(v) => {
                    core.x_registers.set(*rd, v);
                    Ok(true)
                },
                Err(e) => Err(InstructionExecuteError::DeviceError(e)),
            }
        },

        Instruction::lh { rd, rs1, imm } => {
            let address = core.x_registers.get(*rs1).wrapping_add(*imm as u64) as usize;
            match core.bus.read_int(address, 2, Endianness::LittleEndian, true) {
                Ok(v) => {
                    core.x_registers.set(*rd, v);
                    Ok(true)
                },
                Err(e) => Err(InstructionExecuteError::DeviceError(e)),
            }
        },

        Instruction::lw { rd, rs1, imm } => {
            let address = core.x_registers.get(*rs1).wrapping_add(*imm as u64) as usize;
            match core.bus.read_int(address, 4, Endianness::LittleEndian, true) {
                Ok(v) => {
                    core.x_registers.set(*rd, v);
                    Ok(true)
                },
                Err(e) => Err(InstructionExecuteError::DeviceError(e)),
            }
        },

        Instruction::ld { rd, rs1, imm } => {
            let address = core.x_registers.get(*rs1).wrapping_add(*imm as u64) as usize;
            match core.bus.read_int(address, 8, Endianness::LittleEndian, false) {
                Ok(v) => {
                    core.x_registers.set(*rd, v);
                    Ok(true)
                },
                Err(e) => Err(InstructionExecuteError::DeviceError(e)),
            }
        },

        Instruction::lbu { rd, rs1, imm } => {
            let address = core.x_registers.get(*rs1).wrapping_add(*imm as u64) as usize;
            match core.bus.read_int(address, 1, Endianness::LittleEndian, false) {
                Ok(v) => {
                    core.x_registers.set(*rd, v);
                    Ok(true)
                },
                Err(e) => Err(InstructionExecuteError::DeviceError(e)),
            }
        },

        Instruction::lhu { rd, rs1, imm } => {
            let address = core.x_registers.get(*rs1).wrapping_add(*imm as u64) as usize;
            match core.bus.read_int(address, 2, Endianness::LittleEndian, false) {
                Ok(v) => {
                    core.x_registers.set(*rd, v);
                    Ok(true)
                },
                Err(e) => Err(InstructionExecuteError::DeviceError(e)),
            }
        },

        Instruction::lwu { rd, rs1, imm } => {
            let address = core.x_registers.get(*rs1).wrapping_add(*imm as u64) as usize;
            match core.bus.read_int(address, 4, Endianness::LittleEndian, false) {
                Ok(v) => {
                    core.x_registers.set(*rd, v);
                    Ok(true)
                },
                Err(e) => Err(InstructionExecuteError::DeviceError(e)),
            }
        },
            _ => Err(InstructionExecuteError::NotImplemented(*self)),
        }
    }

    /// The stores: write through the bus.
    #[verifier::rlimit(100)]
    #[verifier::spinoff_prover]
    fn execute_store(&self, core: &mut Core) -> (r: Result<bool, InstructionExecuteError>)
        requires
            old(core).inv(),
            matches!(*self, Instruction::sb { .. } | Instruction::sh { .. } | Instruction::sw { .. } | Instruction::sd { .. }),
        ensures
            final(core).inv(),
            exec_rel(*self, *old(core), *final(core), r),
    {
        match self {
        Instruction::sb { rs1, rs2, imm } => {
            let address = core.x_registers.get(*rs1).wrapping_add(*imm as u64) as usize;
            let v = core.x_registers.get(*rs2);
            match core.bus.write_int(address, v, 1, Endianness::LittleEndian) {
                Ok(u) => {
                    proof {
                        assert(u == ());
                    }
                    Ok(true)
                },
                Err(e) => Err(InstructionExecuteError::DeviceError(e)),
            }
        },

        Instruction::sh { rs1, rs2, imm } => {
            let address = core.x_registers.get(*rs1).wrapping_add(*imm as u64) as usize;
            let v = core.x_registers.get(*rs2);
            match core.bus.write_int(address, v, 2, Endianness::LittleEndian) {
                Ok(u) => {
                    proof {
                        assert(u == ());
                    }
                    Ok(true)
                },
                Err(e) => Err(InstructionExecuteError::DeviceError(e)),
            }
        },

        Instruction::sw { rs1, rs2, imm } => {
            let address = core.x_registers.get(*rs1).wrapping_add(*imm as u64) as usize;
            let v = core.x_registers.get(*rs2);
            match core.bus.write_int(address, v, 4, Endianness::LittleEndian) {
                Ok(u) => {
                    proof {
                        assert(u == ());
                    }
                    Ok(true)
                },
                Err(e) => Err(InstructionExecuteError::DeviceError(e)),
            }
        },

        Instruction::sd { rs1, rs2, imm } => {
            let address = core.x_registers.get(*rs1).wrapping_add(*imm as u64) as usize;
            let v = core.x_registers.get(*rs2);
            match core.bus.write_int(address, v, 8, Endianness::LittleEndian) {
                Ok(u) => {
                    proof {
                        assert(u == ());
                    }
                    Ok(true)
                },
                Err(e) => Err(InstructionExecuteError::DeviceError(e)),
            }
        },
            _ => Err(InstructionExecuteError::NotImplemented(*self)),
        }
    }

    /// The conditional branches: an explicit program-counter write when the predicate holds.
    #[verifier::rlimit(100)]
    #[verifier::spinoff_prover]
    fn execute_branch(&self, core: &mut Core) -> (r: Result<bool, InstructionExecuteError>)
        requires
            old(core).inv(),
            matches!(*self, Instruction::beq { .. } | Instruction::bne { .. } | Instruction::blt { .. } | Instruction::bge { .. } | Instruction::bltu { .. } | Instruction::bgeu { .. }),
        ensures
            final(core).inv(),
            exec_rel(*self, *old(core), *final(core), r),
    {
        match self {
        Instruction::beq { rs1, rs2, imm } => {
            let a = core.x_registers.get(*rs1);
            let b = core.x_registers.get(*rs2);
            if a == b {
                core.add_to_pc(*imm);
                Ok(false)
            } else {
                Ok(true)
            }
        },

        Instruction::bne { rs1, rs2, imm } => {
            let a = core.x_registers.get(*rs1);
            let b = core.x_registers.get(*rs2);
            if a != b {
                core.add_to_pc(*imm);
                Ok(false)
            } else {
                Ok(true)
            }
        },

        Instruction::blt { rs1, rs2, imm } => {
            let a = core.x_registers.get(*rs1);
            let b = core.x_registers.get(*rs2);
            if (a as i64) < (b as i64) {
                core.add_to_pc(*imm);
                Ok(false)
            } else {
                Ok(true)
            }
        },

        Instruction::bge { rs1, rs2, imm } => {
            let a = core.x_registers.get(*rs1);
            let b = core.x_registers.get(*rs2);
            if (a as i64) >= (b as i64) {
                core.add_to_pc(*imm);
                Ok(false)
            } else {
                Ok(true)
            }
        },

        Instruction::bltu { rs1, rs2, imm } => {
            let a = core.x_registers.get(*rs1);
            let b = core.x_registers.get(*rs2);
            if a < b {
                core.add_to_pc(*imm);
                Ok(false)
            } else {
                Ok(true)
            }
        },

        Instruction::bgeu { rs1, rs2, imm } => {
            let a = core.x_registers.get(*rs1);
            let b = core.x_registers.get(*rs2);
            if a >= b {
                core.add_to_pc(*imm);
                Ok(false)
            } else {
                Ok(true)
            }
        },
            _ => Err(InstructionExecuteError::NotImplemented(*self)),
        }
    }

    /// The jumps, the upper-immediate program-counter add, and the instructions that are no-ops on register and memory state.
    #[verifier::rlimit(100)]
    #[verifier::spinoff_prover]
    fn execute_jump_misc(&self, core: &mut Core) -> (r: Result<bool, InstructionExecuteError>)
        requires
            old(core).inv(),
            matches!(*self, Instruction::jal { .. } | Instruction::jalr { .. } | Instruction::auipc { .. } | Instruction::ecall | Instruction::ebreak | Instruction::fence_tso | Instruction::fence { .. } | Instruction::fence_i { .. } | Instruction::pause),
        ensures
            final(core).inv(),
            exec_rel(*self, *old(core), *final(core), r),
    {
        match self {
        Instruction::jal { rd, imm } => {
            let link = (core.pc as u64).wrapping_add(4);
            core.x_registers.set(*rd, link);
            core.add_to_pc(*imm);
            Ok(false)
        },

        Instruction::jalr { rd, rs1, imm } => {
            let base = core.x_registers.get(*rs1);
            let link = (core.pc as u64).wrapping_add(4);
            core.x_registers.set(*rd, link);
            core.pc = (base.wrapping_add(*imm as u64) & 0xFFFF_FFFF_FFFF_FFFEu64) as usize;
            Ok(false)
        },

        Instruction::auipc { rd, imm } => {
            let v = (core.pc as u64).wrapping_add(*imm as u64);
            core.x_registers.set(*rd, v);
            Ok(true)
        },

        Instruction::ecall => Ok(true),

        Instruction::ebreak => Ok(true),

        Instruction::fence_tso => Ok(true),

        Instruction::fence { .. } => Ok(true),
        Instruction::fence_i { .. } => Ok(true),
        Instruction::pause => Ok(true),
            _ => Err(InstructionExecuteError::NotImplemented(*self)),
        }
    }

}


/// Branch program-counter discipline: a branch whose predicate holds sets
/// the program counter to the branch target and suppresses the default
/// advance; one whose predicate fails leaves the program counter for the
/// default advance.
pub proof fn lemma_branch_pc_discipline(
    i: Instruction,
    pre: Core,
    post: Core,
    r: Result<bool, InstructionExecuteError>,
    taken: bool,
    imm: i64,
)
    requires
        branch_fields(i, pre.x_registers@) == Some((taken, imm)),
        exec_rel(i, pre, post, r),
    ensures
        taken ==> post.pc == pc_add(pre.pc, imm) && r == Ok::<bool, InstructionExecuteError>(
            false,
        ),
        !taken ==> post.pc == pre.pc && r == Ok::<bool, InstructionExecuteError>(true),
        post.x_registers == pre.x_registers,
        post.bus == pre.bus,
{
}

/// An untaken branch leaves the program counter advanced by exactly 4 over
/// one full fetch-decode-execute step.
pub proof fn lemma_untaken_branch_step(pre: Core, post: Core, word: u64, i: Instruction, imm: i64)
    requires
        pre.bus.read_int_spec(pre.pc as int, 4, Endianness::LittleEndian, false) == Ok::<
            u64,
            DeviceError,
        >(word),
        crate::decode::spec_decode(word as u32) == Ok::<
            Instruction,
            crate::decode::InstructionDecodeError,
        >(i),
        branch_fields(i, pre.x_registers@) == Some((false, imm)),
        crate::cpu::step_rel(pre, post, Ok(())),
    ensures
        post.pc == pre.pc.wrapping_add(4),
{
}

/// A taken branch sets the program counter to the branch target over one
/// full fetch-decode-execute step.
pub proof fn lemma_taken_branch_step(pre: Core, post: Core, word: u64, i: Instruction, imm: i64)
    requires
        pre.bus.read_int_spec(pre.pc as int, 4, Endianness::LittleEndian, false) == Ok::<
            u64,
            DeviceError,
        >(word),
        crate::decode::spec_decode(word as u32) == Ok::<
            Instruction,
            crate::decode::InstructionDecodeError,
        >(i),
        branch_fields(i, pre.x_registers@) == Some((true, imm)),
        crate::cpu::step_rel(pre, post, Ok(())),
    ensures
        post.pc == pc_add(pre.pc, imm),
{
}

/// Jump discipline: a jump-and-link writes the address of the following
/// instruction into its destination register and sets the program counter
/// to the jump target, for positive and negative offsets alike.
pub proof fn lemma_jal_discipline(
    i: Instruction,
    pre: Core,
    post: Core,
    r: Result<bool, InstructionExecuteError>,
    rd: XRegister,
    imm: i64,
)
    requires
        i == (Instruction::jal { rd, imm }),
        exec_rel(i, pre, post, r),
    ensures
        post.x_registers@ == spec_x_write(pre.x_registers@, rd, link_value(pre.pc)),
        post.pc == pc_add(pre.pc, imm),
        r == Ok::<bool, InstructionExecuteError>(false),
{
}

} // verus!
