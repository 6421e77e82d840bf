use vstd::prelude::*;

mod bus;
mod cpu;
mod execute;
mod endianness;
mod device;
mod dram;
mod instruction;
mod decode;
mod register;
mod uart;
mod utilities;

pub use bus::{Bus, MappedDevice, spans_of, lemma_bus_round_trip, lemma_bus_int_round_trip};
pub use cpu::{Core, CoreError, core_with_pc, step_rel};
pub use execute::{InstructionExecuteError, exec_rel, alu_result, load_fields, store_fields, branch_fields, mem_addr, pc_add, jalr_target, link_value, only_x_write, lemma_branch_pc_discipline, lemma_untaken_branch_step, lemma_taken_branch_step, lemma_jal_discipline};
pub use endianness::Endianness;
pub use device::{Device, DeviceError};
pub use dram::DRAM;
pub use instruction::{RoundingMode, FloatFormat, InstructionFormat, Instruction};
pub use decode::{InstructionDecodeError, spec_decode, spec_decode_format, spec_format, i_imm, s_imm, b_imm, u_imm, j_imm, lemma_i_imm_sign_extension, lemma_s_imm_sign_extension, lemma_b_imm_sign_extension, lemma_j_imm_sign_extension, lemma_u_imm_sign_extension, lemma_decode_idempotent};
pub use uart::UART;
pub use register::{XRegister, FRegister, XRegisterMap, FRegisterMap, spec_x_register, spec_f_register, spec_x_write, spec_x_writes, lemma_x0_invariant};
pub use utilities::{extend_sign, extend_sign_u16};
