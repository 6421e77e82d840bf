use vstd::prelude::*;

verus! {

#[derive(Debug, PartialEq, Eq, Structural, Copy, Clone)]
#[allow(non_camel_case_types)]
pub enum XRegister {
    x0,
    x1,
    x2,
    x3,
    x4,
    x5,
    x6,
    x7,
    x8,
    x9,
    x10,
    x11,
    x12,
    x13,
    x14,
    x15,
    x16,
    x17,
    x18,
    x19,
    x20,
    x21,
    x22,
    x23,
    x24,
    x25,
    x26,
    x27,
    x28,
    x29,
    x30,
    x31,
}

#[derive(Debug, PartialEq, Eq, Structural, Copy, Clone)]
#[allow(non_camel_case_types)]
pub enum FRegister {
    F0,
    F1,
    F2,
    F3,
    F4,
    F5,
    F6,
    F7,
    F8,
    F9,
    F10,
    F11,
    F12,
    F13,
    F14,
    F15,
    F16,
    F17,
    F18,
    F19,
    F20,
    F21,
    F22,
    F23,
    F24,
    F25,
    F26,
    F27,
    F28,
    F29,
    F30,
    F31,
}

/// The `XRegister` register named by a 5-bit field value; field values are
/// always below 32, so the catch-all arm is never reached by the decoder.
pub open spec fn spec_x_register(value: u32) -> XRegister {
    if value == 0 {
        XRegister::x0
    } else if value == 1 {
        XRegister::x1
    } else if value == 2 {
        XRegister::x2
    } else if value == 3 {
        XRegister::x3
    } else if value == 4 {
        XRegister::x4
    } else if value == 5 {
        XRegister::x5
    } else if value == 6 {
        XRegister::x6
    } else if value == 7 {
        XRegister::x7
    } else if value == 8 {
        XRegister::x8
    } else if value == 9 {
        XRegister::x9
    } else if value == 10 {
        XRegister::x10
    } else if value == 11 {
        XRegister::x11
    } else if value == 12 {
        XRegister::x12
    } else if value == 13 {
        XRegister::x13
    } else if value == 14 {
        XRegister::x14
    } else if value == 15 {
        XRegister::x15
    } else if value == 16 {
        XRegister::x16
    } else if value == 17 {
        XRegister::x17
    } else if value == 18 {
        XRegister::x18
    } else if value == 19 {
        XRegister::x19
    } else if value == 20 {
        XRegister::x20
    } else if value == 21 {
        XRegister::x21
    } else if value == 22 {
        XRegister::x22
    } else if value == 23 {
        XRegister::x23
    } else if value == 24 {
        XRegister::x24
    } else if value == 25 {
        XRegister::x25
    } else if value == 26 {
        XRegister::x26
    } else if value == 27 {
        XRegister::x27
    } else if value == 28 {
        XRegister::x28
    } else if value == 29 {
        XRegister::x29
    } else if value == 30 {
        XRegister::x30
    } else {
        XRegister::x31
    }
}

impl XRegister {
    /// Numeric index of this register within its file.
    pub open spec fn idx(self) -> int {
        match self {
            XRegister::x0 => 0,
            XRegister::x1 => 1,
            XRegister::x2 => 2,
            XRegister::x3 => 3,
            XRegister::x4 => 4,
            XRegister::x5 => 5,
            XRegister::x6 => 6,
            XRegister::x7 => 7,
            XRegister::x8 => 8,
            XRegister::x9 => 9,
            XRegister::x10 => 10,
            XRegister::x11 => 11,
            XRegister::x12 => 12,
            XRegister::x13 => 13,
            XRegister::x14 => 14,
            XRegister::x15 => 15,
            XRegister::x16 => 16,
            XRegister::x17 => 17,
            XRegister::x18 => 18,
            XRegister::x19 => 19,
            XRegister::x20 => 20,
            XRegister::x21 => 21,
            XRegister::x22 => 22,
            XRegister::x23 => 23,
            XRegister::x24 => 24,
            XRegister::x25 => 25,
            XRegister::x26 => 26,
            XRegister::x27 => 27,
            XRegister::x28 => 28,
            XRegister::x29 => 29,
            XRegister::x30 => 30,
            XRegister::x31 => 31,
        }
    }

    /// Same index, as an executable value.
    pub fn index(self) -> (i: usize)
        ensures
            i == self.idx(),
    {
        match self {
            XRegister::x0 => 0,
            XRegister::x1 => 1,
            XRegister::x2 => 2,
            XRegister::x3 => 3,
            XRegister::x4 => 4,
            XRegister::x5 => 5,
            XRegister::x6 => 6,
            XRegister::x7 => 7,
            XRegister::x8 => 8,
            XRegister::x9 => 9,
            XRegister::x10 => 10,
            XRegister::x11 => 11,
            XRegister::x12 => 12,
            XRegister::x13 => 13,
            XRegister::x14 => 14,
            XRegister::x15 => 15,
            XRegister::x16 => 16,
            XRegister::x17 => 17,
            XRegister::x18 => 18,
            XRegister::x19 => 19,
            XRegister::x20 => 20,
            XRegister::x21 => 21,
            XRegister::x22 => 22,
            XRegister::x23 => 23,
            XRegister::x24 => 24,
            XRegister::x25 => 25,
            XRegister::x26 => 26,
            XRegister::x27 => 27,
            XRegister::x28 => 28,
            XRegister::x29 => 29,
            XRegister::x30 => 30,
            XRegister::x31 => 31,
        }
    }

    /// Register named by a 5-bit field of an instruction word.
    pub fn from_u32(value: u32) -> (r: Self)
        requires
            value < 32,
        ensures
            r == spec_x_register(value),
            r.idx() == value,
    {
        match value {
            0 => XRegister::x0,
            1 => XRegister::x1,
            2 => XRegister::x2,
            3 => XRegister::x3,
            4 => XRegister::x4,
            5 => XRegister::x5,
            6 => XRegister::x6,
            7 => XRegister::x7,
            8 => XRegister::x8,
            9 => XRegister::x9,
            10 => XRegister::x10,
            11 => XRegister::x11,
            12 => XRegister::x12,
            13 => XRegister::x13,
            14 => XRegister::x14,
            15 => XRegister::x15,
            16 => XRegister::x16,
            17 => XRegister::x17,
            18 => XRegister::x18,
            19 => XRegister::x19,
            20 => XRegister::x20,
            21 => XRegister::x21,
            22 => XRegister::x22,
            23 => XRegister::x23,
            24 => XRegister::x24,
            25 => XRegister::x25,
            26 => XRegister::x26,
            27 => XRegister::x27,
            28 => XRegister::x28,
            29 => XRegister::x29,
            30 => XRegister::x30,
            31 => XRegister::x31,
            _ => XRegister::x31,
        }
    }
}

/// The `FRegister` register named by a 5-bit field value; field values are
/// always below 32, so the catch-all arm is never reached by the decoder.
pub open spec fn spec_f_register(value: u32) -> FRegister {
    if value == 0 {
        FRegister::F0
    } else if value == 1 {
        FRegister::F1
    } else if value == 2 {
        FRegister::F2
    } else if value == 3 {
        FRegister::F3
    } else if value == 4 {
        FRegister::F4
    } else if value == 5 {
        FRegister::F5
    } else if value == 6 {
        FRegister::F6
    } else if value == 7 {
        FRegister::F7
    } else if value == 8 {
        FRegister::F8
    } else if value == 9 {
        FRegister::F9
    } else if value == 10 {
        FRegister::F10
    } else if value == 11 {
        FRegister::F11
    } else if value == 12 {
        FRegister::F12
    } else if value == 13 {
        FRegister::F13
    } else if value == 14 {
        FRegister::F14
    } else if value == 15 {
        FRegister::F15
    } else if value == 16 {
        FRegister::F16
    } else if value == 17 {
        FRegister::F17
    } else if value == 18 {
        FRegister::F18
    } else if value == 19 {
        FRegister::F19
    } else if value == 20 {
        FRegister::F20
    } else if value == 21 {
        FRegister::F21
    } else if value == 22 {
        FRegister::F22
    } else if value == 23 {
        FRegister::F23
    } else if value == 24 {
        FRegister::F24
    } else if value == 25 {
        FRegister::F25
    } else if value == 26 {
        FRegister::F26
    } else if value == 27 {
        FRegister::F27
    } else if value == 28 {
        FRegister::F28
    } else if value == 29 {
        FRegister::F29
    } else if value == 30 {
        FRegister::F30
    } else {
        FRegister::F31
    }
}

impl FRegister {
    /// Numeric index of this register within its file.
    pub open spec fn idx(self) -> int {
        match self {
            FRegister::F0 => 0,
            FRegister::F1 => 1,
            FRegister::F2 => 2,
            FRegister::F3 => 3,
            FRegister::F4 => 4,
            FRegister::F5 => 5,
            FRegister::F6 => 6,
            FRegister::F7 => 7,
            FRegister::F8 => 8,
            FRegister::F9 => 9,
            FRegister::F10 => 10,
            FRegister::F11 => 11,
            FRegister::F12 => 12,
            FRegister::F13 => 13,
            FRegister::F14 => 14,
            FRegister::F15 => 15,
            FRegister::F16 => 16,
            FRegister::F17 => 17,
            FRegister::F18 => 18,
            FRegister::F19 => 19,
            FRegister::F20 => 20,
            FRegister::F21 => 21,
            FRegister::F22 => 22,
            FRegister::F23 => 23,
            FRegister::F24 => 24,
            FRegister::F25 => 25,
            FRegister::F26 => 26,
            FRegister::F27 => 27,
            FRegister::F28 => 28,
            FRegister::F29 => 29,
            FRegister::F30 => 30,
            FRegister::F31 => 31,
        }
    }

    /// Same index, as an executable value.
    pub fn index(self) -> (i: usize)
        ensures
            i == self.idx(),
    {
        match self {
            FRegister::F0 => 0,
            FRegister::F1 => 1,
            FRegister::F2 => 2,
            FRegister::F3 => 3,
            FRegister::F4 => 4,
            FRegister::F5 => 5,
            FRegister::F6 => 6,
            FRegister::F7 => 7,
            FRegister::F8 => 8,
            FRegister::F9 => 9,
            FRegister::F10 => 10,
            FRegister::F11 => 11,
            FRegister::F12 => 12,
            FRegister::F13 => 13,
            FRegister::F14 => 14,
            FRegister::F15 => 15,
            FRegister::F16 => 16,
            FRegister::F17 => 17,
            FRegister::F18 => 18,
            FRegister::F19 => 19,
            FRegister::F20 => 20,
            FRegister::F21 => 21,
            FRegister::F22 => 22,
            FRegister::F23 => 23,
            FRegister::F24 => 24,
            FRegister::F25 => 25,
            FRegister::F26 => 26,
            FRegister::F27 => 27,
            FRegister::F28 => 28,
            FRegister::F29 => 29,
            FRegister::F30 => 30,
            FRegister::F31 => 31,
        }
    }

    /// Register named by a 5-bit field of an instruction word.
    pub fn from_u32(value: u32) -> (r: Self)
        requires
            value < 32,
        ensures
            r == spec_f_register(value),
            r.idx() == value,
    {
        match value {
            0 => FRegister::F0,
            1 => FRegister::F1,
            2 => FRegister::F2,
            3 => FRegister::F3,
            4 => FRegister::F4,
            5 => FRegister::F5,
            6 => FRegister::F6,
            7 => FRegister::F7,
            8 => FRegister::F8,
            9 => FRegister::F9,
            10 => FRegister::F10,
            11 => FRegister::F11,
            12 => FRegister::F12,
            13 => FRegister::F13,
            14 => FRegister::F14,
            15 => FRegister::F15,
            16 => FRegister::F16,
            17 => FRegister::F17,
            18 => FRegister::F18,
            19 => FRegister::F19,
            20 => FRegister::F20,
            21 => FRegister::F21,
            22 => FRegister::F22,
            23 => FRegister::F23,
            24 => FRegister::F24,
            25 => FRegister::F25,
            26 => FRegister::F26,
            27 => FRegister::F27,
            28 => FRegister::F28,
            29 => FRegister::F29,
            30 => FRegister::F30,
            31 => FRegister::F31,
            _ => FRegister::F31,
        }
    }
}

/// One write to the integer register file: writes to register 0 are dropped,
/// every other register is plain storage.
pub open spec fn spec_x_write(regs: Seq<u64>, register: XRegister, value: u64) -> Seq<u64> {
    if register.idx() == 0 {
        regs
    } else {
        regs.update(register.idx(), value)
    }
}

/// The 32 general-purpose integer registers. Register `x0` is hard-wired to
/// zero: writes to it are dropped, reads of it yield 0.
pub struct XRegisterMap {
    registers: Vec<u64>,
}

impl View for XRegisterMap {
    type V = Seq<u64>;

    closed spec fn view(&self) -> Seq<u64> {
        self.registers@
    }
}

impl XRegisterMap {
    /// Well-formedness: 32 slots, with slot 0 holding zero.
    pub open spec fn inv(self) -> bool {
        &&& self@.len() == 32
        &&& self@[0] == 0
    }

    /// A fresh register file with every register zero.
    pub fn new() -> (r: XRegisterMap)
        ensures
            r.inv(),
            r@ == Seq::new(32, |i: int| 0u64),
    {
        let mut registers: Vec<u64> = Vec::new();
        let mut i: usize = 0;
        while i < 32
            invariant
                i <= 32,
                registers@.len() == i,
                forall|j: int| 0 <= j < i ==> registers@[j] == 0u64,
            decreases 32 - i,
        {
            registers.push(0);
            i = i + 1;
        }
        let r = XRegisterMap { registers };
        proof {
            assert(r@ =~= Seq::new(32, |i: int| 0u64));
        }
        r
    }

    /// Read a register; register 0 always reads as zero.
    pub fn get(&self, register: XRegister) -> (value: u64)
        requires
            self.inv(),
        ensures
            value == self@[register.idx()],
            register.idx() == 0 ==> value == 0,
    {
        let i = register.index();
        if i == 0 {
            0
        } else {
            self.registers[i]
        }
    }

    /// Write a register; a write to register 0 has no effect.
    pub fn set(&mut self, register: XRegister, value: u64)
        requires
            old(self).inv(),
        ensures
            final(self).inv(),
            final(self)@ == spec_x_write(old(self)@, register, value),
    {
        let i = register.index();
        if i != 0 {
            self.registers.set(i, value);
        }
    }
}

/// The 32 floating-point registers, stored as raw 64-bit patterns. No index
/// is special here.
pub struct FRegisterMap {
    registers: Vec<u64>,
}

impl View for FRegisterMap {
    type V = Seq<u64>;

    closed spec fn view(&self) -> Seq<u64> {
        self.registers@
    }
}

impl FRegisterMap {
    /// Well-formedness: 32 slots.
    pub open spec fn inv(self) -> bool {
        self@.len() == 32
    }

    /// A fresh register file with every register zero.
    pub fn new() -> (r: FRegisterMap)
        ensures
            r.inv(),
            r@ == Seq::new(32, |i: int| 0u64),
    {
        let mut registers: Vec<u64> = Vec::new();
        let mut i: usize = 0;
        while i < 32
            invariant
                i <= 32,
                registers@.len() == i,
                forall|j: int| 0 <= j < i ==> registers@[j] == 0u64,
            decreases 32 - i,
        {
            registers.push(0);
            i = i + 1;
        }
        let r = FRegisterMap { registers };
        proof {
            assert(r@ =~= Seq::new(32, |i: int| 0u64));
        }
        r
    }

    /// Read a register's raw bit pattern.
    pub fn get(&self, register: FRegister) -> (value: u64)
        requires
            self.inv(),
        ensures
            value == self@[register.idx()],
    {
        self.registers[register.index()]
    }

    /// Write a register's raw bit pattern.
    pub fn set(&mut self, register: FRegister, value: u64)
        requires
            old(self).inv(),
        ensures
            final(self).inv(),
            final(self)@ == old(self)@.update(register.idx(), value),
    {
        self.registers.set(register.index(), value);
    }
}

/// A sequence of writes applied in order to the integer register file.
pub open spec fn spec_x_writes(regs: Seq<u64>, writes: Seq<(XRegister, u64)>) -> Seq<u64>
    decreases writes.len(),
{
    if writes.len() == 0 {
        regs
    } else {
        spec_x_writes(spec_x_write(regs, writes[0].0, writes[0].1), writes.drop_first())
    }
}

/// Register 0 stays zero under every sequence of writes, so every read of it
/// after those writes yields exactly 0.
pub proof fn lemma_x0_invariant(regs: Seq<u64>, writes: Seq<(XRegister, u64)>)
    requires
        regs.len() == 32,
        regs[0] == 0,
    ensures
        spec_x_writes(regs, writes).len() == 32,
        spec_x_writes(regs, writes)[0] == 0,
    decreases writes.len(),
{
    if writes.len() > 0 {
        lemma_x0_invariant(spec_x_write(regs, writes[0].0, writes[0].1), writes.drop_first());
    }
}

} // verus!
