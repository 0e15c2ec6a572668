//! A model of the register block of one eFlexPWM peripheral.
//!
//! A register holds what the driver knows of it: what the hardware makes of
//! the driver's writes, and, for the bits that the hardware changes on its
//! own, the value last read from the hardware (`Handle::observe` in the
//! `pwm` module). Most registers keep the last value written. Two do not:
//!
//! - `MCTRL`: a one written to an `LDOK` bit sets it and a zero leaves it;
//!   a one written to a `CLDOK` bit clears the matching `LDOK` bit; `CLDOK`
//!   reads as zero; `RUN` and `IPOL` keep the value written. The hardware
//!   also clears an `LDOK` bit once the submodule has loaded its buffered
//!   registers; the model learns that only from a value read back.
//! - `FSTS0`: a one written to an `FFLAG` bit (3:0) clears that fault flag;
//!   `FFPIN` (11:8) shows the fault inputs and is not written; `FFULL`
//!   (7:4) and `FHALF` (15:12) take the value written. The hardware sets
//!   fault flags and changes `FFPIN`; the model learns that only from a
//!   value read back.
//!
//! The driver's work is described by the state it leaves and by the order
//! of its writes (`RegWrite`); `replay` gives the state after a sequence of
//! writes.
use vstd::prelude::*;

verus! {

/// Offset of the `LDOK` field (load okay, one bit per submodule) in `MCTRL`.
pub const MCTRL_LDOK: u16 = 0;

/// Offset of the `CLDOK` field (clear load okay) in `MCTRL`.
pub const MCTRL_CLDOK: u16 = 4;

/// Offset of the `RUN` field (one bit per submodule) in `MCTRL`.
pub const MCTRL_RUN: u16 = 8;

/// Mask of a field that holds one bit per submodule.
pub const SUBMODULE_FIELD_MASK: u16 = 0xF;

/// `CTRL2.CLK_SEL`: the field offset; `CLK_SEL_0` selects the IPG clock.
pub const CTRL2_CLK_SEL: u16 = 0;

/// `CTRL2.CLK_SEL_0`: the submodule is clocked from the IPG clock.
pub const CLK_SEL_IPG: u16 = 0;

/// `CTRL2.INDEP`: the two outputs run independently, not as a complementary pair.
pub const CTRL2_INDEP: u16 = 0x2000;

/// `CTRL2.WAITEN`: the submodule runs in wait mode.
pub const CTRL2_WAITEN: u16 = 0x4000;

/// `CTRL2.DBGEN`: the submodule runs in debug mode.
pub const CTRL2_DBGEN: u16 = 0x8000;

/// `CTRL.FULL`: a reload opportunity at every full cycle.
pub const CTRL_FULL: u16 = 0x0400;

/// Offset of the `CTRL.PRSC` (prescaler) field.
pub const CTRL_PRSC: u16 = 4;

/// Offset of the `OUTEN.PWMA_EN` field.
pub const OUTEN_PWMA: u16 = 8;

/// Offset of the `OUTEN.PWMB_EN` field.
pub const OUTEN_PWMB: u16 = 4;

/// `FCTRL0.FLVL` set for all four fault inputs (offset 12, four bits).
pub const FCTRL0_ALL_FAULT_LEVELS: u16 = 0xF000;

/// `FSTS0.FFLAG` written with ones for all four fault inputs (offset 0,
/// four bits): clears all four fault flags.
pub const FSTS0_ALL_FAULT_FLAGS: u16 = 0x000F;

/// `MCTRL` after `value` is written to it while it holds `stored`: `LDOK`
/// keeps its bits, gains those written as one and loses those whose `CLDOK`
/// bit is written as one; `CLDOK` reads as zero; `RUN` and `IPOL` take the
/// value written.
pub open spec fn mctrl_after_write(stored: u16, value: u16) -> u16 {
    (value & 0xFF00) | ((stored | value) & !(value >> 4u16) & 0x000F)
}

/// `FSTS0` after `value` is written to it while it holds `stored`: each
/// fault flag (`FFLAG`, 3:0) written as one is cleared, the fault pin field
/// (`FFPIN`, 11:8) keeps its value, and `FFULL` (7:4) and `FHALF` (15:12)
/// take the value written.
pub open spec fn fsts0_after_write(stored: u16, value: u16) -> u16 {
    (value & 0xF0F0) | (stored & 0x0F00) | (stored & !value & 0x000F)
}

/// The value of `reg` after the field at `offset`, `mask` wide, is set to
/// `value`; the bits outside the field keep their value.
pub open spec fn with_field(reg: u16, offset: u16, mask: u16, value: u16) -> u16 {
    (reg & !(mask << offset)) | ((value & mask) << offset)
}

/// The value of the field at `offset`, `mask` wide, in `reg`.
pub open spec fn field(reg: u16, offset: u16, mask: u16) -> u16 {
    (reg >> offset) & mask
}

/// Read-modify-write of one field of a register.
pub fn modify_field(reg: u16, offset: u16, mask: u16, value: u16) -> (r: u16)
    requires
        offset < 16,
    ensures
        r == with_field(reg, offset, mask, value),
{
    (reg & !(mask << offset)) | ((value & mask) << offset)
}

/// The registers of one PWM submodule.
#[derive(Clone, Copy, PartialEq, Eq, Debug, Structural)]
pub struct SubmoduleRegisters {
    /// `SMnCTRL2`
    pub ctrl2: u16,
    /// `SMnCTRL`
    pub ctrl: u16,
    /// `SMnOCTRL`
    pub octrl: u16,
    /// `SMnDTCNT0`
    pub dtcnt0: u16,
    /// `SMnINIT`
    pub init: u16,
    /// `SMnVAL0`
    pub val0: u16,
    /// `SMnVAL1`: the modulo, the last count of a PWM period
    pub val1: u16,
    /// `SMnVAL2`: turn-on count of output A
    pub val2: u16,
    /// `SMnVAL3`: turn-off count of output A
    pub val3: u16,
    /// `SMnVAL4`: turn-on count of output B
    pub val4: u16,
    /// `SMnVAL5`: turn-off count of output B
    pub val5: u16,
}

impl SubmoduleRegisters {
    /// A submodule whose registers all hold zero.
    pub fn zeroed() -> (r: SubmoduleRegisters)
        ensures
            r == SubmoduleRegisters::zero(),
    {
        SubmoduleRegisters {
            ctrl2: 0,
            ctrl: 0,
            octrl: 0,
            dtcnt0: 0,
            init: 0,
            val0: 0,
            val1: 0,
            val2: 0,
            val3: 0,
            val4: 0,
            val5: 0,
        }
    }

    pub open spec fn zero() -> SubmoduleRegisters {
        SubmoduleRegisters {
            ctrl2: 0,
            ctrl: 0,
            octrl: 0,
            dtcnt0: 0,
            init: 0,
            val0: 0,
            val1: 0,
            val2: 0,
            val3: 0,
            val4: 0,
            val5: 0,
        }
    }
}

/// The register block of one PWM peripheral: the registers shared by the
/// submodules and the registers of submodules 0 to 3.
#[derive(Clone, Copy, PartialEq, Eq, Debug, Structural)]
pub struct Registers {
    /// `MCTRL`: load okay, clear load okay, run
    pub mctrl: u16,
    /// `OUTEN`: output enables
    pub outen: u16,
    /// `FCTRL0`: fault control
    pub fctrl0: u16,
    /// `FSTS0`: fault status
    pub fsts0: u16,
    pub sm0: SubmoduleRegisters,
    pub sm1: SubmoduleRegisters,
    pub sm2: SubmoduleRegisters,
    pub sm3: SubmoduleRegisters,
}

/// One register of a submodule.
#[derive(Clone, Copy, PartialEq, Eq, Debug, Structural)]
pub enum SmReg {
    Ctrl2,
    Ctrl,
    Octrl,
    Dtcnt0,
    Init,
    Val0,
    Val1,
    Val2,
    Val3,
    Val4,
    Val5,
}

impl SubmoduleRegisters {
    /// The value of register `reg`.
    pub open spec fn get(self, reg: SmReg) -> u16 {
        match reg {
            SmReg::Ctrl2 => self.ctrl2,
            SmReg::Ctrl => self.ctrl,
            SmReg::Octrl => self.octrl,
            SmReg::Dtcnt0 => self.dtcnt0,
            SmReg::Init => self.init,
            SmReg::Val0 => self.val0,
            SmReg::Val1 => self.val1,
            SmReg::Val2 => self.val2,
            SmReg::Val3 => self.val3,
            SmReg::Val4 => self.val4,
            SmReg::Val5 => self.val5,
        }
    }

    /// These registers with register `reg` set to `value`.
    pub open spec fn with(self, reg: SmReg, value: u16) -> SubmoduleRegisters {
        match reg {
            SmReg::Ctrl2 => SubmoduleRegisters { ctrl2: value, ..self },
            SmReg::Ctrl => SubmoduleRegisters { ctrl: value, ..self },
            SmReg::Octrl => SubmoduleRegisters { octrl: value, ..self },
            SmReg::Dtcnt0 => SubmoduleRegisters { dtcnt0: value, ..self },
            SmReg::Init => SubmoduleRegisters { init: value, ..self },
            SmReg::Val0 => SubmoduleRegisters { val0: value, ..self },
            SmReg::Val1 => SubmoduleRegisters { val1: value, ..self },
            SmReg::Val2 => SubmoduleRegisters { val2: value, ..self },
            SmReg::Val3 => SubmoduleRegisters { val3: value, ..self },
            SmReg::Val4 => SubmoduleRegisters { val4: value, ..self },
            SmReg::Val5 => SubmoduleRegisters { val5: value, ..self },
        }
    }

    /// Reads register `reg`.
    pub fn read(&self, reg: SmReg) -> (r: u16)
        ensures
            r == self.get(reg),
    {
        match reg {
            SmReg::Ctrl2 => self.ctrl2,
            SmReg::Ctrl => self.ctrl,
            SmReg::Octrl => self.octrl,
            SmReg::Dtcnt0 => self.dtcnt0,
            SmReg::Init => self.init,
            SmReg::Val0 => self.val0,
            SmReg::Val1 => self.val1,
            SmReg::Val2 => self.val2,
            SmReg::Val3 => self.val3,
            SmReg::Val4 => self.val4,
            SmReg::Val5 => self.val5,
        }
    }

    /// Writes `value` to register `reg`.
    pub fn write(&mut self, reg: SmReg, value: u16)
        ensures
            *final(self) == old(self).with(reg, value),
    {
        match reg {
            SmReg::Ctrl2 => self.ctrl2 = value,
            SmReg::Ctrl => self.ctrl = value,
            SmReg::Octrl => self.octrl = value,
            SmReg::Dtcnt0 => self.dtcnt0 = value,
            SmReg::Init => self.init = value,
            SmReg::Val0 => self.val0 = value,
            SmReg::Val1 => self.val1 = value,
            SmReg::Val2 => self.val2 = value,
            SmReg::Val3 => self.val3 = value,
            SmReg::Val4 => self.val4 = value,
            SmReg::Val5 => self.val5 = value,
        }
    }
}

/// A register of the PWM peripheral.
#[derive(Clone, Copy, PartialEq, Eq, Debug, Structural)]
pub enum RegId {
    Mctrl,
    Outen,
    Fctrl0,
    Fsts0,
    /// Register `reg` of submodule `idx`
    Sm { idx: u16, reg: SmReg },
}

impl RegId {
    /// Whether the register exists: submodules are numbered 0 to 3.
    pub open spec fn valid(self) -> bool {
        match self {
            RegId::Sm { idx, .. } => idx < 4,
            _ => true,
        }
    }
}

/// A write of `value` to register `reg`.
#[derive(Clone, Copy, PartialEq, Eq, Debug, Structural)]
pub struct RegWrite {
    pub reg: RegId,
    pub value: u16,
}

/// A write of `value` to register `reg` of submodule `idx`.
pub open spec fn sm_write(idx: u16, reg: SmReg, value: u16) -> RegWrite {
    RegWrite { reg: RegId::Sm { idx, reg }, value }
}

/// A write of `value` to `MCTRL`.
pub open spec fn mctrl_write(value: u16) -> RegWrite {
    RegWrite { reg: RegId::Mctrl, value }
}

impl Registers {
    /// A register block whose registers all hold zero.
    pub fn zeroed() -> (r: Registers)
        ensures
            r.mctrl == 0,
            r.outen == 0,
            r.fctrl0 == 0,
            r.fsts0 == 0,
            forall|i: int| 0 <= i < 4 ==> #[trigger] r.submodule(i) == SubmoduleRegisters::zero(),
    {
        Registers {
            mctrl: 0,
            outen: 0,
            fctrl0: 0,
            fsts0: 0,
            sm0: SubmoduleRegisters::zeroed(),
            sm1: SubmoduleRegisters::zeroed(),
            sm2: SubmoduleRegisters::zeroed(),
            sm3: SubmoduleRegisters::zeroed(),
        }
    }

    /// The registers of submodule `idx`.
    pub open spec fn submodule(self, idx: int) -> SubmoduleRegisters {
        if idx == 0 {
            self.sm0
        } else if idx == 1 {
            self.sm1
        } else if idx == 2 {
            self.sm2
        } else {
            self.sm3
        }
    }

    /// This register block with the registers of submodule `idx` replaced.
    pub open spec fn with_submodule(self, idx: int, regs: SubmoduleRegisters) -> Registers {
        if idx == 0 {
            Registers { sm0: regs, ..self }
        } else if idx == 1 {
            Registers { sm1: regs, ..self }
        } else if idx == 2 {
            Registers { sm2: regs, ..self }
        } else {
            Registers { sm3: regs, ..self }
        }
    }

    /// The value of register `reg`.
    pub open spec fn get(self, reg: RegId) -> u16 {
        match reg {
            RegId::Mctrl => self.mctrl,
            RegId::Outen => self.outen,
            RegId::Fctrl0 => self.fctrl0,
            RegId::Fsts0 => self.fsts0,
            RegId::Sm { idx, reg } => self.submodule(idx as int).get(reg),
        }
    }

    /// The register block after the write `w`.
    pub open spec fn apply(self, w: RegWrite) -> Registers {
        match w.reg {
            RegId::Mctrl => Registers { mctrl: mctrl_after_write(self.mctrl, w.value), ..self },
            RegId::Outen => Registers { outen: w.value, ..self },
            RegId::Fctrl0 => Registers { fctrl0: w.value, ..self },
            RegId::Fsts0 => Registers { fsts0: fsts0_after_write(self.fsts0, w.value), ..self },
            RegId::Sm { idx, reg } => self.with_submodule(
                idx as int,
                self.submodule(idx as int).with(reg, w.value),
            ),
        }
    }

    /// The register block with register `reg` holding `value`, as read from
    /// the hardware.
    pub open spec fn stored(self, reg: RegId, value: u16) -> Registers {
        match reg {
            RegId::Mctrl => Registers { mctrl: value, ..self },
            RegId::Outen => Registers { outen: value, ..self },
            RegId::Fctrl0 => Registers { fctrl0: value, ..self },
            RegId::Fsts0 => Registers { fsts0: value, ..self },
            RegId::Sm { idx, reg } => self.with_submodule(
                idx as int,
                self.submodule(idx as int).with(reg, value),
            ),
        }
    }

    /// Makes register `reg` hold `value`, as read from the hardware.
    pub fn store(&mut self, reg: RegId, value: u16)
        requires
            reg.valid(),
        ensures
            *final(self) == old(self).stored(reg, value),
    {
        match reg {
            RegId::Mctrl => self.mctrl = value,
            RegId::Outen => self.outen = value,
            RegId::Fctrl0 => self.fctrl0 = value,
            RegId::Fsts0 => self.fsts0 = value,
            RegId::Sm { idx, reg } => {
                if idx == 0 {
                    self.sm0.write(reg, value);
                } else if idx == 1 {
                    self.sm1.write(reg, value);
                } else if idx == 2 {
                    self.sm2.write(reg, value);
                } else {
                    self.sm3.write(reg, value);
                }
            },
        }
    }

    /// Reads register `reg`.
    pub fn read(&self, reg: RegId) -> (r: u16)
        requires
            reg.valid(),
        ensures
            r == self.get(reg),
    {
        match reg {
            RegId::Mctrl => self.mctrl,
            RegId::Outen => self.outen,
            RegId::Fctrl0 => self.fctrl0,
            RegId::Fsts0 => self.fsts0,
            RegId::Sm { idx, reg } => {
                if idx == 0 {
                    self.sm0.read(reg)
                } else if idx == 1 {
                    self.sm1.read(reg)
                } else if idx == 2 {
                    self.sm2.read(reg)
                } else {
                    self.sm3.read(reg)
                }
            },
        }
    }

    /// Writes `value` to register `reg`.
    pub fn write(&mut self, reg: RegId, value: u16)
        requires
            reg.valid(),
        ensures
            *final(self) == old(self).apply(RegWrite { reg, value }),
    {
        match reg {
            RegId::Mctrl => {
                self.mctrl = (value & 0xFF00) | ((self.mctrl | value) & !(value >> 4u16) & 0x000F);
            },
            RegId::Outen => self.outen = value,
            RegId::Fctrl0 => self.fctrl0 = value,
            RegId::Fsts0 => {
                self.fsts0 = (value & 0xF0F0) | (self.fsts0 & 0x0F00) | (self.fsts0 & !value & 0x000F);
            },
            RegId::Sm { idx, reg } => {
                if idx == 0 {
                    self.sm0.write(reg, value);
                } else if idx == 1 {
                    self.sm1.write(reg, value);
                } else if idx == 2 {
                    self.sm2.write(reg, value);
                } else {
                    self.sm3.write(reg, value);
                }
            },
        }
    }
}

/// The register block after the writes `ws`, in order, starting from
/// `regs`.
pub open spec fn replay(regs: Registers, ws: Seq<RegWrite>) -> Registers
    decreases ws.len(),
{
    if ws.len() == 0 {
        regs
    } else {
        replay(regs, ws.drop_last()).apply(ws.last())
    }
}

/// Replaying one more write applies it to the replayed state.
pub proof fn lemma_replay_push(regs: Registers, ws: Seq<RegWrite>, w: RegWrite)
    ensures
        replay(regs, ws.push(w)) == replay(regs, ws).apply(w),
{
    assert(ws.push(w).drop_last() =~= ws);
}

/// Replaying two runs of writes one after the other is replaying them
/// joined.
pub proof fn lemma_replay_concat(regs: Registers, a: Seq<RegWrite>, b: Seq<RegWrite>)
    ensures
        replay(regs, a + b) == replay(replay(regs, a), b),
    decreases b.len(),
{
    if b.len() == 0 {
        assert(a + b =~= a);
    } else {
        lemma_replay_concat(regs, a, b.drop_last());
        assert((a + b).drop_last() =~= a + b.drop_last());
        assert((a + b).last() == b.last());
    }
}

/// Writes to submodule registers leave the shared registers as they were.
pub proof fn lemma_replay_submodule_writes(regs: Registers, ws: Seq<RegWrite>)
    requires
        forall|k: int| 0 <= k < ws.len() ==> (#[trigger] ws[k]).reg is Sm,
    ensures
        replay(regs, ws).mctrl == regs.mctrl,
        replay(regs, ws).outen == regs.outen,
        replay(regs, ws).fctrl0 == regs.fctrl0,
        replay(regs, ws).fsts0 == regs.fsts0,
    decreases ws.len(),
{
    if ws.len() > 0 {
        let w = ws.last();
        assert(w == ws[ws.len() - 1]);
        let last = ws.drop_last();
        assert forall|k: int| 0 <= k < last.len() implies (#[trigger] last[k]).reg is Sm by {
            assert(last[k] == ws[k]);
        }
        lemma_replay_submodule_writes(regs, last);
        let r = replay(regs, last);
        let idx = w.reg->idx;
        if idx == 0 {
        } else if idx == 1 {
        } else if idx == 2 {
        } else {
        }
    }
}

/// Replacing the registers of one submodule leaves those of the others as
/// they were, and the shared registers too.
pub proof fn lemma_with_submodule(r: Registers, idx: int, regs: SubmoduleRegisters)
    requires
        0 <= idx < 4,
    ensures
        r.with_submodule(idx, regs).submodule(idx) == regs,
        forall|j: int|
            0 <= j < 4 && j != idx ==> #[trigger] r.with_submodule(idx, regs).submodule(j)
                == r.submodule(j),
        r.with_submodule(idx, regs).mctrl == r.mctrl,
        r.with_submodule(idx, regs).outen == r.outen,
        r.with_submodule(idx, regs).fctrl0 == r.fctrl0,
        r.with_submodule(idx, regs).fsts0 == r.fsts0,
{
}

} // verus!
