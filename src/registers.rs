//! The controller's indexed register banks.
//!
//! All indexed registers live in one flat file of bytes, one slot per
//! register, each bank occupying a contiguous range of slots.
use vstd::prelude::*;

verus! {

/// Number of indexed registers over all banks.
pub const REGISTER_COUNT: usize = 61;

/// CRTC register whose top bit protects CRTC registers 0 to 7.
pub const CRTC_VERTICAL_RETRACE_END: u8 = 0x11;

/// The protect bit of `CRTC_VERTICAL_RETRACE_END`.
pub const CRTC_PROTECT_BIT: u8 = 0x80;

/// Sequencer map mask register: which planes the host writes reach.
pub const SEQUENCER_MAP_MASK: u8 = 0x02;

/// Sequencer memory mode register.
pub const SEQUENCER_MEMORY_MODE: u8 = 0x04;

/// Graphics controller read map select register.
pub const GRAPHICS_READ_MAP_SELECT: u8 = 0x04;

/// Graphics controller mode register.
pub const GRAPHICS_MODE: u8 = 0x05;

/// Graphics controller miscellaneous register (memory map select).
pub const GRAPHICS_MISC: u8 = 0x06;

/// One functional unit of the controller.
#[derive(Clone, Copy, Debug, PartialEq, Eq, Structural)]
pub enum RegisterBank {
    /// The cathode ray tube (timing) controller.
    Crtc,
    /// The sequencer.
    Sequencer,
    /// The graphics controller.
    Graphics,
    /// The attribute controller.
    Attribute,
    /// The general registers (miscellaneous output).
    General,
}

impl RegisterBank {
    /// How many indexed registers the bank has.
    pub open spec fn spec_size(self) -> usize {
        match self {
            RegisterBank::Crtc => 25,
            RegisterBank::Sequencer => 5,
            RegisterBank::Graphics => 9,
            RegisterBank::Attribute => 21,
            RegisterBank::General => 1,
        }
    }

    /// The first slot of the bank in the register file.
    pub open spec fn spec_first_slot(self) -> usize {
        match self {
            RegisterBank::Crtc => 0,
            RegisterBank::Sequencer => 25,
            RegisterBank::Graphics => 30,
            RegisterBank::Attribute => 39,
            RegisterBank::General => 60,
        }
    }

    #[verifier::when_used_as_spec(spec_size)]
    pub fn size(self) -> (n: usize)
        ensures
            n == self.spec_size(),
    {
        match self {
            RegisterBank::Crtc => 25,
            RegisterBank::Sequencer => 5,
            RegisterBank::Graphics => 9,
            RegisterBank::Attribute => 21,
            RegisterBank::General => 1,
        }
    }

    #[verifier::when_used_as_spec(spec_first_slot)]
    pub fn first_slot(self) -> (n: usize)
        ensures
            n == self.spec_first_slot(),
    {
        match self {
            RegisterBank::Crtc => 0,
            RegisterBank::Sequencer => 25,
            RegisterBank::Graphics => 30,
            RegisterBank::Attribute => 39,
            RegisterBank::General => 60,
        }
    }
}

/// The slot of register `index` of `bank` in the register file.
pub open spec fn slot(bank: RegisterBank, index: int) -> int {
    bank.spec_first_slot() + index
}

/// Whether `index` names a register of `bank`.
pub open spec fn valid_index(bank: RegisterBank, index: int) -> bool {
    0 <= index < bank.spec_size()
}

/// The value of register `index` of `bank` in a register file.
pub open spec fn reg(regs: Seq<u8>, bank: RegisterBank, index: int) -> u8 {
    regs[slot(bank, index)]
}

/// Whether the CRTC protect bit is set.
pub open spec fn is_locked(regs: Seq<u8>) -> bool {
    regs[CRTC_VERTICAL_RETRACE_END as int] & CRTC_PROTECT_BIT != 0
}

/// Whether a write to the register is ignored while the protect bit is set.
pub open spec fn is_protected(bank: RegisterBank, index: int) -> bool {
    bank == RegisterBank::Crtc && 0 <= index < 8
}

/// The register file after writing `value` to register `index` of `bank`:
/// a protected register keeps its value while the protect bit is set.
pub open spec fn after_write(regs: Seq<u8>, bank: RegisterBank, index: int, value: u8) -> Seq<u8> {
    if is_protected(bank, index) && is_locked(regs) {
        regs
    } else {
        regs.update(slot(bank, index), value)
    }
}

/// `old` with the bits of `mask` replaced by those of `value`.
pub open spec fn merge_bits(old: u8, mask: u8, value: u8) -> u8 {
    (old & !mask) | (value & mask)
}

/// The register file of the controller.
pub struct Registers {
    values: Vec<u8>,
}

impl View for Registers {
    type V = Seq<u8>;

    closed spec fn view(&self) -> Seq<u8> {
        self.values@
    }
}

impl Registers {
    /// A register file with every register cleared, as at power-on.
    pub fn new() -> (r: Registers)
        ensures
            r@ == Seq::new(REGISTER_COUNT as nat, |i: int| 0u8),
    {
        let mut values: Vec<u8> = Vec::new();
        let mut i: usize = 0;
        while i < REGISTER_COUNT
            invariant
                i <= REGISTER_COUNT,
                values@ == Seq::new(i as nat, |j: int| 0u8),
            decreases REGISTER_COUNT - i,
        {
            values.push(0u8);
            i = i + 1;
            assert(values@ =~= Seq::new(i as nat, |j: int| 0u8));
        }
        Registers { values }
    }

    /// Reads register `index` of `bank`.
    pub fn read(&self, bank: RegisterBank, index: u8) -> (r: u8)
        requires
            self@.len() == REGISTER_COUNT,
            valid_index(bank, index as int),
        ensures
            r == reg(self@, bank, index as int),
    {
        self.values[bank.first_slot() + index as usize]
    }

    /// Writes `value` to register `index` of `bank`; the write is lost on a
    /// protected register while the protect bit is set.
    pub fn write(&mut self, bank: RegisterBank, index: u8, value: u8)
        requires
            old(self)@.len() == REGISTER_COUNT,
            valid_index(bank, index as int),
        ensures
            final(self)@ == after_write(old(self)@, bank, index as int, value),
    {
        let locked = self.values[CRTC_VERTICAL_RETRACE_END as usize] & CRTC_PROTECT_BIT != 0;
        if bank == RegisterBank::Crtc && index < 8 && locked {
            return;
        }
        let s = bank.first_slot() + index as usize;
        self.values.set(s, value);
    }

    /// Replaces the bits of `mask` in register `index` of `bank` with those
    /// of `value`, leaving the other bits as they are.
    pub fn set_bits(&mut self, bank: RegisterBank, index: u8, mask: u8, value: u8)
        requires
            old(self)@.len() == REGISTER_COUNT,
            valid_index(bank, index as int),
        ensures
            final(self)@ == after_write(
                old(self)@,
                bank,
                index as int,
                merge_bits(reg(old(self)@, bank, index as int), mask, value),
            ),
    {
        let current = self.read(bank, index);
        self.write(bank, index, (current & !mask) | (value & mask));
    }
}

} // verus!
