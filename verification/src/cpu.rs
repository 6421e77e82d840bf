use vstd::prelude::*;

use crate::bus::Bus;
use crate::decode::{InstructionDecodeError, spec_decode};
use crate::device::DeviceError;
use crate::endianness::Endianness;
use crate::execute::{InstructionExecuteError, exec_rel, pc_add};
use crate::instruction::Instruction;
use crate::register::{XRegisterMap, FRegisterMap};

verus! {

/// Why one fetch-decode-execute step failed: the fetch faulted, the word
/// had no decoding, or the instruction could not be applied. Each carries
/// the underlying fault unchanged.
#[derive(Debug, PartialEq)]
pub enum CoreError {
    DeviceError(DeviceError),
    InstructionDecodeError(InstructionDecodeError),
    InstructionExecuteError(InstructionExecuteError),
}

/// One hart: the program counter, both register files, and the bus that
/// backs its address space.
pub struct Core {
    pub pc: usize,
    pub x_registers: XRegisterMap,
    pub f_registers: FRegisterMap,
    pub bus: Bus,
}

/// The same core with its program counter replaced.
pub open spec fn core_with_pc(c: Core, pc: usize) -> Core {
    (Core { pc, x_registers: c.x_registers, f_registers: c.f_registers, bus: c.bus })
}

/// How one step takes the core from `pre` to `post` with result `r`: a
/// fetch through the bus at the program counter, the decoding of that word,
/// and the decoded instruction's application, each error propagated
/// unchanged in its own variant; on success the program counter either was
/// set by the instruction or advanced by exactly 4.
pub open spec fn step_rel(pre: Core, post: Core, r: Result<(), CoreError>) -> bool {
    match pre.bus.read_int_spec(pre.pc as int, 4, Endianness::LittleEndian, false) {
        Err(e) => r == Err::<(), CoreError>(CoreError::DeviceError(e)) && post == pre,
        Ok(word) => match spec_decode(word as u32) {
            Err(e) => r == Err::<(), CoreError>(CoreError::InstructionDecodeError(e)) && post
                == pre,
            Ok(i) => match r {
                Ok(_) => exec_rel(i, pre, post, Ok(false)) || (exec_rel(
                    i,
                    pre,
                    core_with_pc(post, pre.pc),
                    Ok(true),
                ) && post.pc == pre.pc.wrapping_add(4)),
                Err(CoreError::InstructionExecuteError(e)) => exec_rel(i, pre, post, Err(e)),
                _ => false,
            },
        },
    }
}

impl Core {
    /// Well-formedness: both register files and the bus are well-formed.
    pub open spec fn inv(self) -> bool {
        &&& self.x_registers.inv()
        &&& self.f_registers.inv()
        &&& self.bus.inv()
    }

    /// A fresh core over the given bus: the program counter at zero and
    /// every register zero.
    pub fn new(bus: Bus) -> (r: Core)
        requires
            bus.inv(),
        ensures
            r.inv(),
            r.pc == 0,
            r.x_registers@ == Seq::new(32, |i: int| 0u64),
            r.f_registers@ == Seq::new(32, |i: int| 0u64),
            r.bus == bus,
    {
        Core { pc: 0, x_registers: XRegisterMap::new(), f_registers: FRegisterMap::new(), bus }
    }

    /// Move the program counter by a signed offset, wrapping.
    pub fn add_to_pc(&mut self, imm: i64)
        ensures
            final(self).pc == pc_add(old(self).pc, imm),
            final(self).x_registers == old(self).x_registers,
            final(self).f_registers == old(self).f_registers,
            final(self).bus == old(self).bus,
    {
        self.pc = ((self.pc as u64).wrapping_add(imm as u64)) as usize;
    }

    /// One fetch-decode-execute step, as `step_rel` states.
    pub fn execute(&mut self) -> (r: Result<(), CoreError>)
        requires
            old(self).inv(),
        ensures
            final(self).inv(),
            step_rel(*old(self), *final(self), r),
    {
        let word = match self.bus.read_int(self.pc, 4, Endianness::LittleEndian, false) {
            Ok(w) => w,
            Err(e) => {
                return Err(CoreError::DeviceError(e));
            },
        };
        let instruction = match Instruction::decode(word as u32) {
            Ok(i) => i,
            Err(e) => {
                return Err(CoreError::InstructionDecodeError(e));
            },
        };
        let ghost pre = *self;
        match instruction.execute(self) {
            Ok(advance) => {
                if advance {
                    proof {
                        assert(self.pc == pre.pc);
                    }
                    self.pc = self.pc.wrapping_add(4);
                    proof {
                        assert(core_with_pc(*self, pre.pc) == Core {
                            pc: pre.pc,
                            x_registers: self.x_registers,
                            f_registers: self.f_registers,
                            bus: self.bus,
                        });
                    }
                }
                Ok(())
            },
            Err(e) => Err(CoreError::InstructionExecuteError(e)),
        }
    }
}

} // verus!
