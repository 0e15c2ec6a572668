//! Pulse Width Modulation (PWM)
//!
//! The flow follows the peripheral's structure:
//!
//! - Enable the clock of a PWM peripheral by calling `clock()` on an
//!   `Unclocked` value. The result is a `PWM` that holds the peripheral
//!   `Handle` and the four `Submodule`s.
//! - Turn a submodule into `Pins` by supplying two pins and a `Timing` to
//!   `outputs`. `Pins` are inert: call `control()` with the `Handle` to get a
//!   `Controller`.
//! - A `Controller` sets duty cycles and the switching period, and enables and
//!   disables the two outputs. Drop it when done.
use vstd::prelude::*;
use crate::ccm;
use crate::ccm::{ClockSelect, Prescalar, TicksError, ticks_for};
use crate::registers::{
    Registers, SubmoduleRegisters, SmReg, RegId, RegWrite, sm_write, mctrl_write, modify_field,
    mctrl_after_write, fsts0_after_write, replay, lemma_replay_push, lemma_replay_concat,
    lemma_replay_submodule_writes, with_field, field, MCTRL_LDOK, MCTRL_CLDOK,
    MCTRL_RUN, SUBMODULE_FIELD_MASK, CLK_SEL_IPG, CTRL2_INDEP, CTRL2_WAITEN, CTRL2_DBGEN,
    CTRL_FULL, CTRL_PRSC, OUTEN_PWMA, OUTEN_PWMB, FCTRL0_ALL_FAULT_LEVELS, FSTS0_ALL_FAULT_FLAGS,
    lemma_with_submodule,
};
use crate::time::Period;

verus! {

/// A PWM pin channel
#[derive(Clone, Copy, PartialEq, Eq, Debug, Structural)]
pub enum Channel {
    /// Channel A
    A,
    /// Channel B
    B,
}

/// One of the four PWM peripherals.
#[derive(Clone, Copy, PartialEq, Eq, Debug, Structural)]
pub enum ModuleId {
    Pwm1,
    Pwm2,
    Pwm3,
    Pwm4,
}

impl ModuleId {
    /// The clock gate of this peripheral in `CCGR4`.
    pub open spec fn gate(self) -> u32 {
        match self {
            ModuleId::Pwm1 => 8,
            ModuleId::Pwm2 => 9,
            ModuleId::Pwm3 => 10,
            ModuleId::Pwm4 => 11,
        }
    }

    /// The clock gate of this peripheral in `CCGR4`.
    pub fn clock_gate(&self) -> (r: u32)
        ensures
            r == self.gate(),
    {
        match self {
            ModuleId::Pwm1 => 8,
            ModuleId::Pwm2 => 9,
            ModuleId::Pwm3 => 10,
            ModuleId::Pwm4 => 11,
        }
    }
}

/// One of the four submodules of a PWM peripheral.
#[derive(Clone, Copy, PartialEq, Eq, Debug, Structural)]
pub enum SubmoduleId {
    Sm0,
    Sm1,
    Sm2,
    Sm3,
}

impl SubmoduleId {
    /// The submodule's number.
    pub open spec fn index(self) -> u16 {
        match self {
            SubmoduleId::Sm0 => 0,
            SubmoduleId::Sm1 => 1,
            SubmoduleId::Sm2 => 2,
            SubmoduleId::Sm3 => 3,
        }
    }

    /// The submodule's number.
    pub fn idx(&self) -> (r: u16)
        ensures
            r == self.index(),
            r < 4,
    {
        match self {
            SubmoduleId::Sm0 => 0,
            SubmoduleId::Sm1 => 1,
            SubmoduleId::Sm2 => 2,
            SubmoduleId::Sm3 => 3,
        }
    }
}

/// The bit of submodule `idx` in a field that has one bit per submodule.
pub open spec fn submodule_bit(idx: u16) -> u16 {
    1u16 << idx
}

/// The value written to `MCTRL`, read as `mctrl`, to begin a reload of
/// submodule `idx`: `CLDOK` holding the submodule's bit alone, which clears
/// the submodule's `LDOK` bit.
pub open spec fn begin_reload(mctrl: u16, idx: u16) -> u16 {
    with_field(mctrl, MCTRL_CLDOK, SUBMODULE_FIELD_MASK, submodule_bit(idx))
}

/// The value written to `MCTRL`, read as `mctrl`, to finish a reload of
/// submodule `idx`: `LDOK` holding the submodule's bit alone, which sets it.
pub open spec fn finish_reload(mctrl: u16, idx: u16) -> u16 {
    with_field(mctrl, MCTRL_LDOK, SUBMODULE_FIELD_MASK, submodule_bit(idx))
}

/// The value written to `MCTRL`, read as `mctrl`, to start submodule `idx`:
/// the whole `RUN` field replaced by the submodule's bit alone.
pub open spec fn start_running(mctrl: u16, idx: u16) -> u16 {
    with_field(mctrl, MCTRL_RUN, SUBMODULE_FIELD_MASK, submodule_bit(idx))
}

/// `MCTRL` while submodule `idx` is reloaded: after the first write of the
/// reload.
pub open spec fn unloaded_mctrl(mctrl: u16, idx: u16) -> u16 {
    mctrl_after_write(mctrl, begin_reload(mctrl, idx))
}

/// `MCTRL` after a reload of submodule `idx`.
pub open spec fn reloaded_mctrl(mctrl: u16, idx: u16) -> u16 {
    mctrl_after_write(unloaded_mctrl(mctrl, idx), finish_reload(unloaded_mctrl(mctrl, idx), idx))
}

/// `MCTRL` after submodule `idx` is started.
pub open spec fn running_mctrl(mctrl: u16, idx: u16) -> u16 {
    mctrl_after_write(mctrl, start_running(mctrl, idx))
}

/// Whether `MCTRL` holds the `LDOK` bit of submodule `idx`: the submodule's
/// buffered registers are loaded.
pub open spec fn load_okay(mctrl: u16, idx: u16) -> bool {
    mctrl & submodule_bit(idx) != 0
}

/// Whether `MCTRL` holds the `RUN` bit of submodule `idx`.
pub open spec fn runs(mctrl: u16, idx: u16) -> bool {
    (mctrl >> MCTRL_RUN) & submodule_bit(idx) != 0
}

/// Specifies the timing-related parameters for a PWM submodule
#[derive(Clone, Copy, PartialEq, Eq, Debug, Structural)]
pub struct Timing {
    /// The clock selection for the PWM submodule
    pub clock_select: ClockSelect,
    /// The clock divider for the PWM submodule
    pub prescalar: Prescalar,
    /// The driving (switching) frequency, expressed as a period
    pub switching_period: Period,
}

impl Timing {
    /// The modulo (`VAL1`) that makes a submodule run with this timing: the
    /// switching period in ticks of the divided clock, less one.
    pub open spec fn modulo_ticks(self) -> Result<u16, TicksError> {
        ticks_for(
            self.switching_period.total_nanos(),
            self.clock_select.hertz(),
            self.prescalar.divider(),
        )
    }
}

/// The `CLK_SEL` value for a clock selection.
pub open spec fn clock_select_field(clock_select: ClockSelect) -> u16 {
    match clock_select {
        ClockSelect::IPG(_) => CLK_SEL_IPG,
    }
}

/// `SMnCTRL2` of a configured submodule: runs in wait and debug modes, with
/// independent outputs, from the selected clock.
pub open spec fn configured_ctrl2(timing: Timing) -> u16 {
    CTRL2_WAITEN | CTRL2_DBGEN | CTRL2_INDEP | (clock_select_field(timing.clock_select) & 3)
}

/// `SMnCTRL` of a configured submodule: full-cycle reloads and the timing's
/// prescaler.
pub open spec fn configured_ctrl(timing: Timing) -> u16 {
    CTRL_FULL | ((timing.prescalar.field_value() & 7) << CTRL_PRSC)
}

/// The registers of a submodule after `outputs` configured it with `timing`.
/// The control registers are written first; the value registers from `VAL1`
/// on are written only when the period has a number of ticks.
pub open spec fn configured_submodule(sm: SubmoduleRegisters, timing: Timing) -> SubmoduleRegisters {
    let base = SubmoduleRegisters {
        ctrl2: configured_ctrl2(timing),
        ctrl: configured_ctrl(timing),
        octrl: 0,
        dtcnt0: 0,
        init: 0,
        val0: 0,
        ..sm
    };
    match timing.modulo_ticks() {
        Ok(t) => SubmoduleRegisters { val1: t, val2: 0, val3: 0, val4: 0, val5: 0, ..base },
        Err(_) => base,
    }
}

/// The register block after `outputs` configured submodule `idx` with
/// `timing`: the submodule's registers are reloaded, and, when the period has
/// a number of ticks, `RUN` is set for the submodule alone.
pub open spec fn configured(regs: Registers, idx: u16, timing: Timing) -> Registers {
    let written = regs.with_submodule(
        idx as int,
        configured_submodule(regs.submodule(idx as int), timing),
    );
    let loaded = Registers { mctrl: reloaded_mctrl(regs.mctrl, idx), ..written };
    if timing.modulo_ticks() is Ok {
        Registers { mctrl: running_mctrl(loaded.mctrl, idx), ..loaded }
    } else {
        loaded
    }
}

/// The writes that configure submodule `idx` for `timing`, in order: the
/// control registers, `INIT` and `VAL0`, then, when the period has a number
/// of ticks, the modulo `VAL1` and the compare registers `VAL2` to `VAL5`.
pub open spec fn configure_writes(idx: u16, timing: Timing) -> Seq<RegWrite> {
    let head = seq![
        sm_write(idx, SmReg::Ctrl2, configured_ctrl2(timing)),
        sm_write(idx, SmReg::Ctrl, configured_ctrl(timing)),
        sm_write(idx, SmReg::Octrl, 0),
        sm_write(idx, SmReg::Dtcnt0, 0),
        sm_write(idx, SmReg::Init, 0),
        sm_write(idx, SmReg::Val0, 0),
    ];
    match timing.modulo_ticks() {
        Ok(t) => head + seq![
            sm_write(idx, SmReg::Val1, t),
            sm_write(idx, SmReg::Val2, 0),
            sm_write(idx, SmReg::Val3, 0),
            sm_write(idx, SmReg::Val4, 0),
            sm_write(idx, SmReg::Val5, 0),
        ],
        Err(_) => head,
    }
}

/// The writes of a reload of submodule `idx` while `MCTRL` holds `mctrl`:
/// `CLDOK` is written for the submodule, then come the writes `body`, then
/// `LDOK` is written for the submodule.
pub open spec fn reload_writes(mctrl: u16, idx: u16, body: Seq<RegWrite>) -> Seq<RegWrite> {
    seq![mctrl_write(begin_reload(mctrl, idx))] + body + seq![
        mctrl_write(finish_reload(unloaded_mctrl(mctrl, idx), idx)),
    ]
}

/// The writes of `outputs` on submodule `idx` while `MCTRL` holds `mctrl`:
/// the reload that configures the submodule, then, when the period has a
/// number of ticks, the write of `RUN`.
pub open spec fn outputs_writes(mctrl: u16, idx: u16, timing: Timing) -> Seq<RegWrite> {
    let reload = reload_writes(mctrl, idx, configure_writes(idx, timing));
    if timing.modulo_ticks() is Ok {
        reload.push(mctrl_write(start_running(reloaded_mctrl(mctrl, idx), idx)))
    } else {
        reload
    }
}

/// The compare value (`VAL3` for channel A, `VAL5` for channel B) that sets a
/// duty of `duty` / 65536 in a period of `modulo + 1` ticks.
pub open spec fn compare_from_duty(duty: u16, modulo: u16) -> u16 {
    let c: int = (duty as int * (modulo as int + 1)) / 65536;
    if c > modulo {
        modulo
    } else {
        c as u16
    }
}

/// The duty, out of 65536, of a compare value `cval` in a period of
/// `modulo + 1` ticks, truncated to 16 bits.
pub open spec fn duty_from_compare(cval: u16, modulo: u16) -> u16 {
    ((cval as int * 65536 / (modulo as int + 1)) % 65536) as u16
}

/// The register that holds the turn-off count of `channel`: `VAL3` for
/// channel A, `VAL5` for channel B.
pub open spec fn compare_reg(channel: Channel) -> SmReg {
    match channel {
        Channel::A => SmReg::Val3,
        Channel::B => SmReg::Val5,
    }
}

/// The register that holds the turn-off count of `channel`.
pub fn compare_register(channel: Channel) -> (r: SmReg)
    ensures
        r == compare_reg(channel),
{
    match channel {
        Channel::A => SmReg::Val3,
        Channel::B => SmReg::Val5,
    }
}

/// The compare value of `channel` in a submodule.
pub open spec fn compare_of(sm: SubmoduleRegisters, channel: Channel) -> u16 {
    sm.get(compare_reg(channel))
}

/// The offset, in `OUTEN`, of the enable field of `channel`.
pub open spec fn channel_offset(channel: Channel) -> u16 {
    match channel {
        Channel::A => OUTEN_PWMA,
        Channel::B => OUTEN_PWMB,
    }
}

/// The bit of `OUTEN` that enables output `channel` of submodule `idx`.
pub open spec fn output_bit(idx: u16, channel: Channel) -> u16 {
    1u16 << ((channel_offset(channel) + idx) as u16)
}

/// Whether `outen` enables output `channel` of submodule `idx`.
pub open spec fn output_enabled(outen: u16, idx: u16, channel: Channel) -> bool {
    outen & output_bit(idx, channel) != 0
}

/// The register block after the PWM peripheral is taken into use: `FCTRL0`
/// holds `FLVL` set for all four fault inputs and its other fields zero, and
/// the four fault flags of `FSTS0` are cleared.
pub open spec fn faults_reset(regs: Registers) -> Registers {
    Registers {
        fctrl0: FCTRL0_ALL_FAULT_LEVELS,
        fsts0: fsts0_after_write(regs.fsts0, FSTS0_ALL_FAULT_FLAGS),
        ..regs
    }
}

/// PWM peripheral handle
///
/// Most operations that could affect multiple submodules require
/// access to this handle.
pub struct Handle {
    module: ModuleId,
    reg: Registers,
    log: Vec<RegWrite>,
}

impl Handle {
    /// The peripheral this handle belongs to.
    pub closed spec fn module(self) -> ModuleId {
        self.module
    }

    /// The peripheral's registers.
    pub closed spec fn regs(self) -> Registers {
        self.reg
    }

    /// The register writes made through this handle, oldest first.
    pub closed spec fn writes(self) -> Seq<RegWrite> {
        self.log@
    }

    /// Whether the registers are those that the writes made since the
    /// `n`-th give when replayed on `base`.
    spec fn replays_from(self, base: Registers, n: int) -> bool {
        self.regs() == replay(base, self.writes().subrange(n, self.writes().len() as int))
    }

    /// Records that register `reg` was read from the hardware as `value`.
    /// This is how the handle learns of what the hardware changes on its
    /// own: `LDOK` bits of `MCTRL` cleared once a submodule has loaded its
    /// buffered registers, fault flags and fault pins in `FSTS0`. Nothing is
    /// written.
    pub fn observe(&mut self, reg: RegId, value: u16)
        requires
            reg.valid(),
        ensures
            final(self).regs() == old(self).regs().stored(reg, value),
            final(self).writes() == old(self).writes(),
            final(self).module() == old(self).module(),
    {
        self.reg.store(reg, value);
    }

    /// Hands over the register writes made through this handle, oldest first,
    /// and forgets them.
    pub fn take_writes(&mut self) -> (r: Vec<RegWrite>)
        ensures
            r@ == old(self).writes(),
            final(self).writes() == Seq::<RegWrite>::empty(),
            final(self).regs() == old(self).regs(),
            final(self).module() == old(self).module(),
    {
        let mut taken: Vec<RegWrite> = Vec::new();
        std::mem::swap(&mut taken, &mut self.log);
        taken
    }

    /// Reads register `reg`.
    fn read(&self, reg: RegId) -> (r: u16)
        requires
            reg.valid(),
        ensures
            r == self.regs().get(reg),
    {
        self.reg.read(reg)
    }

    /// Writes `value` to register `reg`.
    fn write(&mut self, reg: RegId, value: u16)
        requires
            reg.valid(),
        ensures
            final(self).module() == old(self).module(),
            final(self).regs() == old(self).regs().apply(RegWrite { reg, value }),
            final(self).writes() == old(self).writes().push(RegWrite { reg, value }),
            forall|base: Registers, n: int|
                0 <= n <= old(self).writes().len() && #[trigger] old(self).replays_from(base, n)
                    ==> final(self).replays_from(base, n),
    {
        self.reg.write(reg, value);
        self.log.push(RegWrite { reg, value });
        proof {
            let w = RegWrite { reg, value };
            assert forall|base: Registers, n: int|
                0 <= n <= old(self).writes().len() && #[trigger] old(self).replays_from(
                    base,
                    n,
                ) implies self.replays_from(base, n) by {
                let before = old(self).writes().subrange(n, old(self).writes().len() as int);
                assert(self.writes().subrange(n, self.writes().len() as int) =~= before.push(w));
                lemma_replay_push(base, before, w);
            }
        }
    }

    /// The peripheral this handle belongs to.
    pub fn module_id(&self) -> (r: ModuleId)
        ensures
            r == self.module(),
    {
        self.module
    }

    /// The peripheral's registers.
    pub fn registers(&self) -> (r: &Registers)
        ensures
            *r == self.regs(),
    {
        &self.reg
    }
}

/// A PWM submodule
///
/// A submodule may be consumed to create PWM pin instances
pub struct Submodule {
    module: ModuleId,
    id: SubmoduleId,
}

/// A PWM peripheral
///
/// The PWM peripheral is broken into
///
/// - the PWM master handle, `handle`,
/// - four submodules, numbered `0` through `3`.
///
/// The submodules are taken when you want to turn pins into
/// PWM outputs. The handle provides access to registers that
/// are shared across PWM submodules.
pub struct PWM {
    /// The peripheral handle
    ///
    /// Methods that need access to peripheral-level registers, rather than
    /// just submodule-level registers, must have a mutable reference to
    /// the handle.
    pub handle: Handle,
    /// Submodule 0
    pub sm0: Submodule,
    /// Submodule 1
    pub sm1: Submodule,
    /// Submodule 2
    pub sm2: Submodule,
    /// Submodule 3
    pub sm3: Submodule,
}

impl PWM {
    /// Whether this is a freshly split peripheral of `module`: each submodule
    /// belongs to `module` and has its own number.
    pub open spec fn split_from(self, module: ModuleId) -> bool {
        &&& self.handle.module() == module
        &&& self.sm0.module() == module && self.sm0.id() == SubmoduleId::Sm0
        &&& self.sm1.module() == module && self.sm1.id() == SubmoduleId::Sm1
        &&& self.sm2.module() == module && self.sm2.id() == SubmoduleId::Sm2
        &&& self.sm3.module() == module && self.sm3.id() == SubmoduleId::Sm3
    }

    fn new(module: ModuleId, reg: Registers) -> (r: PWM)
        ensures
            r.split_from(module),
            r.handle.regs() == faults_reset(reg),
            r.handle.writes() == seq![
                RegWrite { reg: RegId::Fctrl0, value: FCTRL0_ALL_FAULT_LEVELS },
                RegWrite { reg: RegId::Fsts0, value: FSTS0_ALL_FAULT_FLAGS },
            ],
    {
        let mut handle = Handle { module, reg, log: Vec::new() };
        // Clear any fault levels
        handle.write(RegId::Fctrl0, FCTRL0_ALL_FAULT_LEVELS);
        // Clear fault flags
        handle.write(RegId::Fsts0, FSTS0_ALL_FAULT_FLAGS);
        PWM {
            handle,
            sm0: Submodule { module, id: SubmoduleId::Sm0 },
            sm1: Submodule { module, id: SubmoduleId::Sm1 },
            sm2: Submodule { module, id: SubmoduleId::Sm2 },
            sm3: Submodule { module, id: SubmoduleId::Sm3 },
        }
    }
}

/// What `while_reset` does between clearing and setting the submodule's
/// load-okay bit.
enum Reload {
    /// Configure the submodule for `timing`, clocked by `clk_sel`
    Configure { clk_sel: u16, timing: Timing },
    /// Set the duty of `channel`
    Duty { channel: Channel, duty: u16 },
    /// Set the modulo, the number of ticks in a period less one
    Modulo { ticks: u16 },
}

/// The submodule's registers after the action `act`.
spec fn reload_effect(sm: SubmoduleRegisters, act: Reload) -> SubmoduleRegisters {
    match act {
        Reload::Configure { timing, .. } => configured_submodule(sm, timing),
        Reload::Duty { channel, duty } => sm.with(
            compare_reg(channel),
            compare_from_duty(duty, sm.val1),
        ),
        Reload::Modulo { ticks } => sm.with(SmReg::Val1, ticks),
    }
}

/// The writes that the action `act` makes to submodule `idx`.
spec fn action_writes(sm: SubmoduleRegisters, idx: u16, act: Reload) -> Seq<RegWrite> {
    match act {
        Reload::Configure { timing, .. } => configure_writes(idx, timing),
        Reload::Duty { channel, duty } => seq![
            sm_write(idx, compare_reg(channel), compare_from_duty(duty, sm.val1)),
        ],
        Reload::Modulo { ticks } => seq![sm_write(idx, SmReg::Val1, ticks)],
    }
}

/// Whether the action `act` runs to its end.
spec fn reload_completes(act: Reload) -> bool {
    match act {
        Reload::Configure { timing, .. } => timing.modulo_ticks() is Ok,
        _ => true,
    }
}

/// The register block after `while_reset` ran `act` on submodule `idx`.
spec fn reloaded(regs: Registers, idx: u16, act: Reload) -> Registers {
    Registers {
        mctrl: reloaded_mctrl(regs.mctrl, idx),
        ..regs.with_submodule(idx as int, reload_effect(regs.submodule(idx as int), act))
    }
}

/// Configures submodule `idx` for `timing`, clocked by `clk_sel`. Stops
/// after the writes of the control registers when the period has no number
/// of ticks that fits the modulo register.
fn configure_submodule(handle: &mut Handle, idx: u16, clk_sel: u16, timing: Timing) -> (r: Option<()>)
    requires
        idx < 4,
        clk_sel == clock_select_field(timing.clock_select),
    ensures
        final(handle).module() == old(handle).module(),
        final(handle).regs() == old(handle).regs().with_submodule(
            idx as int,
            configured_submodule(old(handle).regs().submodule(idx as int), timing),
        ),
        final(handle).writes() == old(handle).writes() + configure_writes(idx, timing),
        forall|base: Registers, n: int|
            0 <= n <= old(handle).writes().len() && #[trigger] old(handle).replays_from(base, n)
                ==> final(handle).replays_from(base, n),
        r.is_some() <==> timing.modulo_ticks() is Ok,
{
    let ghost writes0 = handle.writes();
    handle.write(RegId::Sm { idx, reg: SmReg::Ctrl2 }, CTRL2_WAITEN | CTRL2_DBGEN | CTRL2_INDEP | (clk_sel & 3));
    handle.write(RegId::Sm { idx, reg: SmReg::Ctrl }, CTRL_FULL | ((timing.prescalar.bits() & 7) << CTRL_PRSC));
    handle.write(RegId::Sm { idx, reg: SmReg::Octrl }, 0);
    handle.write(RegId::Sm { idx, reg: SmReg::Dtcnt0 }, 0);
    handle.write(RegId::Sm { idx, reg: SmReg::Init }, 0);
    handle.write(RegId::Sm { idx, reg: SmReg::Val0 }, 0);
    let ticks = ccm::ticks(
        timing.switching_period,
        ccm::frequency(timing.clock_select),
        ccm::divider(timing.prescalar),
    );
    match ticks {
        Ok(ticks) => {
            handle.write(RegId::Sm { idx, reg: SmReg::Val1 }, ticks);
            handle.write(RegId::Sm { idx, reg: SmReg::Val2 }, 0);
            handle.write(RegId::Sm { idx, reg: SmReg::Val3 }, 0);
            handle.write(RegId::Sm { idx, reg: SmReg::Val4 }, 0);
            handle.write(RegId::Sm { idx, reg: SmReg::Val5 }, 0);
            assert(handle.writes() =~= writes0 + configure_writes(idx, timing));
            Some(())
        },
        Err(_) => {
            assert(handle.writes() =~= writes0 + configure_writes(idx, timing));
            None
        },
    }
}

/// The compare value for `duty` in a period of `modulo + 1` ticks.
fn compare_value(duty: u16, modulo: u16) -> (r: u16)
    ensures
        r == compare_from_duty(duty, modulo),
{
    let modulo: u32 = modulo as u32;
    let product: u32 = {
        assert((duty as int) * (modulo + 1) <= 65535 * 65536) by (nonlinear_arith)
            requires
                duty <= 65535,
                modulo + 1 <= 65536,
        ;
        (duty as u32) * (modulo + 1)
    };
    let cval: u32 = product >> 16;
    assert(cval == product / 65536) by (bit_vector)
        requires
            cval == product >> 16,
    ;
    if cval > modulo {
        modulo as u16
    } else {
        cval as u16
    }
}

/// The duty of compare value `cval` in a period of `modulo + 1` ticks.
fn duty_value(cval: u16, modulo: u16) -> (r: u16)
    ensures
        r == duty_from_compare(cval, modulo),
{
    let modulo: u32 = modulo as u32;
    let cval: u32 = cval as u32;
    let shifted: u32 = cval << 16;
    assert(shifted == cval * 65536) by (bit_vector)
        requires
            shifted == cval << 16,
            cval < 65536,
    ;
    let q: u32 = shifted / (modulo + 1);
    let r: u16 = q as u16;
    assert(r == q % 65536) by (bit_vector)
        requires
            r == q as u16,
    ;
    r
}

/// Executes `act` while the PWM submodule `idx` is not loaded. Once the
/// action completes, loads any changes incurred by the action. Useful for
/// setting VAL registers.
///
/// The combinator is closed over the three actions of this driver
/// (`Reload`): it runs one of them and hands back whether the action ran to
/// its end, which is all that its callers use of an action's result.
fn while_reset(handle: &mut Handle, idx: u16, act: Reload) -> (r: Option<()>)
    requires
        idx < 4,
        act matches Reload::Configure { clk_sel, timing } ==> clk_sel == clock_select_field(
            timing.clock_select,
        ),
    ensures
        final(handle).module() == old(handle).module(),
        final(handle).regs() == reloaded(old(handle).regs(), idx, act),
        final(handle).writes() == old(handle).writes() + reload_writes(
            old(handle).regs().mctrl,
            idx,
            action_writes(old(handle).regs().submodule(idx as int), idx, act),
        ),
        final(handle).regs() == replay(
            old(handle).regs(),
            reload_writes(
                old(handle).regs().mctrl,
                idx,
                action_writes(old(handle).regs().submodule(idx as int), idx, act),
            ),
        ),
        forall|base: Registers, n: int|
            0 <= n <= old(handle).writes().len() && #[trigger] old(handle).replays_from(base, n)
                ==> final(handle).replays_from(base, n),
        r.is_some() <==> reload_completes(act),
{
    let ghost regs0 = handle.regs();
    let ghost writes0 = handle.writes();
    assert(handle.writes().subrange(writes0.len() as int, writes0.len() as int) =~= Seq::<RegWrite>::empty());
    assert(handle.replays_from(regs0, writes0.len() as int));
    let mctrl: u16 = handle.read(RegId::Mctrl);
    handle.write(RegId::Mctrl, modify_field(mctrl, MCTRL_CLDOK, SUBMODULE_FIELD_MASK, 1u16 << idx));
    let ghost regs1 = handle.regs();
    let ghost writes1 = handle.writes();
    proof {
        lemma_with_submodule(regs1, idx as int, reload_effect(regs0.submodule(idx as int), act));
    }
    let result = match act {
        Reload::Configure { clk_sel, timing } => configure_submodule(handle, idx, clk_sel, timing),
        Reload::Duty { channel, duty } => {
            let modulo: u16 = handle.read(RegId::Sm { idx, reg: SmReg::Val1 });
            let cval: u16 = compare_value(duty, modulo);
            handle.write(RegId::Sm { idx, reg: compare_register(channel) }, cval);
            Some(())
        },
        Reload::Modulo { ticks } => {
            handle.write(RegId::Sm { idx, reg: SmReg::Val1 }, ticks);
            Some(())
        },
    };
    assert(handle.writes() =~= writes1 + action_writes(regs0.submodule(idx as int), idx, act));
    let mctrl: u16 = handle.read(RegId::Mctrl);
    handle.write(RegId::Mctrl, modify_field(mctrl, MCTRL_LDOK, SUBMODULE_FIELD_MASK, 1u16 << idx));
    assert(handle.writes() =~= writes0 + reload_writes(
        regs0.mctrl,
        idx,
        action_writes(regs0.submodule(idx as int), idx, act),
    ));
    assert(handle.writes().subrange(writes0.len() as int, handle.writes().len() as int)
        =~= reload_writes(regs0.mctrl, idx, action_writes(regs0.submodule(idx as int), idx, act)));
    result
}

impl Submodule {
    /// The peripheral this submodule belongs to.
    pub closed spec fn module(self) -> ModuleId {
        self.module
    }

    /// Which submodule of its peripheral this is.
    pub closed spec fn id(self) -> SubmoduleId {
        self.id
    }

    /// Converts two pins into PWM outputs. Returns a `Pins` type that wraps the
    /// underlying pins, or `None` when the timing's switching period has no
    /// number of ticks that fits the modulo register.
    ///
    /// The pins are carried as they are given and are not inspected: the
    /// caller supplies the output A and output B pins of this submodule.
    ///
    /// Requires a mutable reference to a `Handle` in order to modify registers
    /// that are shared across all PWM submodules.
    pub fn outputs<A, B>(self, handle: &mut Handle, pin_a: A, pin_b: B, timing: Timing) -> (r:
        Option<Pins<A, B>>)
        requires
            old(handle).module() == self.module(),
        ensures
            final(handle).module() == old(handle).module(),
            final(handle).regs() == configured(old(handle).regs(), self.id().index(), timing),
            forall|j: int|
                0 <= j < 4 && j != self.id().index() ==> #[trigger] final(handle).regs().submodule(j)
                    == old(handle).regs().submodule(j),
            final(handle).writes() == old(handle).writes() + outputs_writes(
                old(handle).regs().mctrl,
                self.id().index(),
                timing,
            ),
            final(handle).regs() == replay(
                old(handle).regs(),
                outputs_writes(old(handle).regs().mctrl, self.id().index(), timing),
            ),
            r.is_some() <==> timing.modulo_ticks() is Ok,
            r matches Some(p) ==> {
                &&& p.pin_a() == pin_a
                &&& p.pin_b() == pin_b
                &&& p.timing() == timing
                &&& p.module() == self.module()
                &&& p.submodule() == self.id()
            },
    {
        let idx: u16 = self.id.idx();
        let clk_sel: u16 = match timing.clock_select {
            ClockSelect::IPG(_) => CLK_SEL_IPG,
        };
        proof {
            lemma_with_submodule(
                handle.reg,
                idx as int,
                configured_submodule(handle.reg.submodule(idx as int), timing),
            );
        }
        let ghost writes0 = handle.writes();
        let ghost regs0 = handle.regs();
        assert(handle.writes().subrange(writes0.len() as int, writes0.len() as int) =~= Seq::<
            RegWrite,
        >::empty());
        assert(handle.replays_from(regs0, writes0.len() as int));
        let loaded = while_reset(handle, idx, Reload::Configure { clk_sel, timing });
        if loaded.is_none() {
            assert(handle.writes().subrange(writes0.len() as int, handle.writes().len() as int)
                =~= outputs_writes(regs0.mctrl, idx, timing));
            return None;
        }
        let mctrl: u16 = handle.read(RegId::Mctrl);
        handle.write(RegId::Mctrl, modify_field(mctrl, MCTRL_RUN, SUBMODULE_FIELD_MASK, 1u16 << idx));
        assert(handle.writes() =~= writes0 + outputs_writes(
            old(handle).regs().mctrl,
            idx,
            timing,
        ));
        assert(handle.writes().subrange(writes0.len() as int, handle.writes().len() as int)
            =~= outputs_writes(regs0.mctrl, idx, timing));
        Some(Pins::new(pin_a, pin_b, timing, self.module, self.id))
    }
}

/// A pair of submodule PWM pins
///
/// When taken in a `Controller`, you may configure the PWM outputs
pub struct Pins<A, B> {
    _pin_a: A,
    _pin_b: B,
    timing: Timing,
    module: ModuleId,
    submodule: SubmoduleId,
}

impl<A, B> Pins<A, B> {
    /// The pin of output A.
    pub closed spec fn pin_a(self) -> A {
        self._pin_a
    }

    /// The pin of output B.
    pub closed spec fn pin_b(self) -> B {
        self._pin_b
    }

    /// The timing that the outputs run with.
    pub closed spec fn timing(self) -> Timing {
        self.timing
    }

    /// These pins, running with `timing`.
    pub closed spec fn with_timing(self, timing: Timing) -> Self {
        Pins { timing, ..self }
    }

    /// The peripheral of the outputs.
    pub closed spec fn module(self) -> ModuleId {
        self.module
    }

    /// The submodule of the outputs.
    pub closed spec fn submodule(self) -> SubmoduleId {
        self.submodule
    }

    fn new(pin_a: A, pin_b: B, timing: Timing, module: ModuleId, submodule: SubmoduleId) -> (r: Self)
        ensures
            r.pin_a() == pin_a,
            r.pin_b() == pin_b,
            r.timing() == timing,
            r.module() == module,
            r.submodule() == submodule,
    {
        Pins { _pin_a: pin_a, _pin_b: pin_b, timing, module, submodule }
    }

    /// Provides control of PWM pins
    ///
    /// Supply the PWM handle of the pins' peripheral. The handle is required
    /// to modify peripheral-wide registers for safe manipulation.
    pub fn control<'a>(&'a mut self, handle: &'a mut Handle) -> (r: Controller<'a, A, B>)
        requires
            old(handle).module() == old(self).module(),
        ensures
            r.pins() == *old(self),
            r.handle() == *old(handle),
            *final(self) == *final(r.pins_ref()),
            *final(handle) == *final(r.handle_ref()),
    {
        Controller::new(self, handle)
    }
}

/// A PWM controller
///
/// The `Controller` enables you to set PWM duty cycles and switching periods.
/// It requires mutable access to both the PWM handle and the PWM pins that you
/// want to control. Once you've set your values, drop the controller. Pair the
/// handle with another `Pins` to set those values.
pub struct Controller<'a, A, B> {
    pins: &'a mut Pins<A, B>,
    handle: &'a mut Handle,
}

impl<'a, A, B> Controller<'a, A, B> {
    /// The borrowed pins.
    pub closed spec fn pins_ref(&self) -> &'a mut Pins<A, B> {
        self.pins
    }

    /// The borrowed handle.
    pub closed spec fn handle_ref(&self) -> &'a mut Handle {
        self.handle
    }

    /// The pins, as they are now.
    pub open spec fn pins(&self) -> Pins<A, B> {
        *self.pins_ref()
    }

    /// The handle, as it is now.
    pub open spec fn handle(&self) -> Handle {
        *self.handle_ref()
    }

    /// The number of the controlled submodule.
    pub open spec fn idx(&self) -> u16 {
        self.pins().submodule().index()
    }

    /// The registers of the controlled peripheral.
    pub open spec fn regs(&self) -> Registers {
        self.handle().regs()
    }

    /// The registers of the controlled submodule.
    pub open spec fn sm_regs(&self) -> SubmoduleRegisters {
        self.regs().submodule(self.idx() as int)
    }

    fn new(pins: &'a mut Pins<A, B>, handle: &'a mut Handle) -> (r: Self)
        ensures
            r.pins() == *old(pins),
            r.handle() == *old(handle),
            *final(pins) == *final(r.pins_ref()),
            *final(handle) == *final(r.handle_ref()),
    {
        Self { pins, handle }
    }

    /// Disables the output of `channel`: clears its bit in `OUTEN`.
    pub fn disable(&mut self, channel: Channel)
        ensures
            final(self).pins() == old(self).pins(),
            final(self).handle().module() == old(self).handle().module(),
            final(self).regs() == (Registers {
                outen: old(self).regs().outen & !output_bit(old(self).idx(), channel),
                ..old(self).regs()
            }),
            final(self).handle().writes() == old(self).handle().writes().push(
                RegWrite {
                    reg: RegId::Outen,
                    value: old(self).regs().outen & !output_bit(old(self).idx(), channel),
                },
            ),
            !output_enabled(final(self).regs().outen, old(self).idx(), channel),
            forall|j: u16, c: Channel|
                j < 4 && (j != old(self).idx() || c != channel) ==> output_enabled(
                    final(self).regs().outen,
                    j,
                    c,
                ) == output_enabled(old(self).regs().outen, j, c),
            *final(final(self).pins_ref()) == *final(old(self).pins_ref()),
            *final(final(self).handle_ref()) == *final(old(self).handle_ref()),
    {
        let idx: u16 = self.pins.submodule.idx();
        let channel_offset: u16 = match channel {
            Channel::A => OUTEN_PWMA,
            Channel::B => OUTEN_PWMB,
        };
        let offset: u16 = channel_offset + idx;
        let outen: u16 = self.handle.read(RegId::Outen);
        proof {
            lemma_output_bit_clear(outen, idx, channel);
        }
        self.handle.write(RegId::Outen, outen & !(1u16 << offset));
    }

    /// Enables the output of `channel`: sets its bit in `OUTEN`.
    pub fn enable(&mut self, channel: Channel)
        ensures
            final(self).pins() == old(self).pins(),
            final(self).handle().module() == old(self).handle().module(),
            final(self).regs() == (Registers {
                outen: old(self).regs().outen | output_bit(old(self).idx(), channel),
                ..old(self).regs()
            }),
            final(self).handle().writes() == old(self).handle().writes().push(
                RegWrite {
                    reg: RegId::Outen,
                    value: old(self).regs().outen | output_bit(old(self).idx(), channel),
                },
            ),
            output_enabled(final(self).regs().outen, old(self).idx(), channel),
            forall|j: u16, c: Channel|
                j < 4 && (j != old(self).idx() || c != channel) ==> output_enabled(
                    final(self).regs().outen,
                    j,
                    c,
                ) == output_enabled(old(self).regs().outen, j, c),
            *final(final(self).pins_ref()) == *final(old(self).pins_ref()),
            *final(final(self).handle_ref()) == *final(old(self).handle_ref()),
    {
        let idx: u16 = self.pins.submodule.idx();
        let channel_offset: u16 = match channel {
            Channel::A => OUTEN_PWMA,
            Channel::B => OUTEN_PWMB,
        };
        let offset: u16 = channel_offset + idx;
        let outen: u16 = self.handle.read(RegId::Outen);
        proof {
            lemma_output_bit_set(outen, idx, channel);
        }
        self.handle.write(RegId::Outen, outen | (1u16 << offset));
    }

    /// The duty of `channel`, out of 65536: its compare value over the period
    /// of `VAL1 + 1` ticks.
    pub fn get_duty(&self, channel: Channel) -> (r: u16)
        ensures
            r == duty_from_compare(compare_of(self.sm_regs(), channel), self.sm_regs().val1),
    {
        let idx: u16 = self.pins.submodule.idx();
        let modulo: u16 = self.handle.read(RegId::Sm { idx, reg: SmReg::Val1 });
        let cval: u16 = self.handle.read(RegId::Sm { idx, reg: compare_register(channel) });
        duty_value(cval, modulo)
    }

    /// The switching period.
    pub fn get_period(&self) -> (r: Period)
        ensures
            r == self.pins().timing().switching_period,
    {
        self.pins.timing.switching_period
    }

    /// The largest duty: `u16::MAX`.
    pub fn get_max_duty(&self) -> (r: u16)
        ensures
            r == u16::MAX,
    {
        u16::MAX
    }

    /// Sets the duty of `channel` to `duty` / 65536 of the period: writes the
    /// compare register of the channel in a reload of the submodule.
    pub fn set_duty(&mut self, channel: Channel, duty: u16)
        ensures
            final(self).pins() == old(self).pins(),
            final(self).handle().module() == old(self).handle().module(),
            final(self).regs() == (Registers {
                mctrl: reloaded_mctrl(old(self).regs().mctrl, old(self).idx()),
                ..old(self).regs().with_submodule(
                    old(self).idx() as int,
                    old(self).sm_regs().with(
                        compare_reg(channel),
                        compare_from_duty(duty, old(self).sm_regs().val1),
                    ),
                )
            }),
            final(self).handle().writes() == old(self).handle().writes() + reload_writes(
                old(self).regs().mctrl,
                old(self).idx(),
                seq![
                    sm_write(
                        old(self).idx(),
                        compare_reg(channel),
                        compare_from_duty(duty, old(self).sm_regs().val1),
                    ),
                ],
            ),
            final(self).regs() == replay(
                old(self).regs(),
                reload_writes(
                    old(self).regs().mctrl,
                    old(self).idx(),
                    seq![
                        sm_write(
                            old(self).idx(),
                            compare_reg(channel),
                            compare_from_duty(duty, old(self).sm_regs().val1),
                        ),
                    ],
                ),
            ),
            *final(final(self).pins_ref()) == *final(old(self).pins_ref()),
            *final(final(self).handle_ref()) == *final(old(self).handle_ref()),
    {
        let idx: u16 = self.pins.submodule.idx();
        while_reset(self.handle, idx, Reload::Duty { channel, duty });
    }

    /// Sets the switching period to `period`, when it has a number of ticks of
    /// the submodule's clock that fits the modulo register: the modulo is
    /// written in a reload of the submodule. Otherwise nothing changes.
    pub fn set_period(&mut self, period: Period)
        ensures
            final(self).handle().module() == old(self).handle().module(),
            ({
                let timing = Timing { switching_period: period, ..old(self).pins().timing() };
                match timing.modulo_ticks() {
                    Ok(ticks) => {
                        &&& final(self).pins() == old(self).pins().with_timing(timing)
                        &&& final(self).regs() == (Registers {
                            mctrl: reloaded_mctrl(old(self).regs().mctrl, old(self).idx()),
                            ..old(self).regs().with_submodule(
                                old(self).idx() as int,
                                old(self).sm_regs().with(SmReg::Val1, ticks),
                            )
                        })
                        &&& final(self).handle().writes() == old(self).handle().writes()
                            + reload_writes(
                            old(self).regs().mctrl,
                            old(self).idx(),
                            seq![sm_write(old(self).idx(), SmReg::Val1, ticks)],
                        )
                        &&& final(self).regs() == replay(
                            old(self).regs(),
                            reload_writes(
                                old(self).regs().mctrl,
                                old(self).idx(),
                                seq![sm_write(old(self).idx(), SmReg::Val1, ticks)],
                            ),
                        )
                    },
                    Err(_) => {
                        &&& final(self).pins() == old(self).pins()
                        &&& final(self).regs() == old(self).regs()
                        &&& final(self).handle().writes() == old(self).handle().writes()
                    },
                }
            }),
            *final(final(self).pins_ref()) == *final(old(self).pins_ref()),
            *final(final(self).handle_ref()) == *final(old(self).handle_ref()),
    {
        let ticks = ccm::ticks(
            period,
            ccm::frequency(self.pins.timing.clock_select),
            ccm::divider(self.pins.timing.prescalar),
        );
        if let Ok(ticks) = ticks {
            self.pins.timing.switching_period = period;
            let idx: u16 = self.pins.submodule.idx();
            while_reset(self.handle, idx, Reload::Modulo { ticks });
        }
    }
}

/// Setting the bit of one output sets it, and leaves the others as they were.
proof fn lemma_output_bit_set(outen: u16, idx: u16, channel: Channel)
    requires
        idx < 4,
    ensures
        output_enabled(outen | output_bit(idx, channel), idx, channel),
        forall|j: u16, c: Channel|
            j < 4 && (j != idx || c != channel) ==> output_enabled(
                outen | output_bit(idx, channel),
                j,
                c,
            ) == output_enabled(outen, j, c),
{
    let o: u16 = (channel_offset(channel) + idx) as u16;
    assert(o < 12);
    assert((outen | (1u16 << o)) & (1u16 << o) != 0) by (bit_vector)
        requires
            o < 16,
    ;
    assert forall|j: u16, c: Channel|
        j < 4 && (j != idx || c != channel) implies output_enabled(
        outen | output_bit(idx, channel),
        j,
        c,
    ) == output_enabled(outen, j, c) by {
        let p: u16 = (channel_offset(c) + j) as u16;
        assert(p != o);
        assert(((outen | (1u16 << o)) & (1u16 << p) != 0) == (outen & (1u16 << p) != 0))
            by (bit_vector)
            requires
                o < 16,
                p < 16,
                p != o,
        ;
    }
}

/// Clearing the bit of one output clears it, and leaves the others as they
/// were.
proof fn lemma_output_bit_clear(outen: u16, idx: u16, channel: Channel)
    requires
        idx < 4,
    ensures
        !output_enabled(outen & !output_bit(idx, channel), idx, channel),
        forall|j: u16, c: Channel|
            j < 4 && (j != idx || c != channel) ==> output_enabled(
                outen & !output_bit(idx, channel),
                j,
                c,
            ) == output_enabled(outen, j, c),
{
    let o: u16 = (channel_offset(channel) + idx) as u16;
    assert(o < 12);
    assert((outen & !(1u16 << o)) & (1u16 << o) == 0) by (bit_vector)
        requires
            o < 16,
    ;
    assert forall|j: u16, c: Channel|
        j < 4 && (j != idx || c != channel) implies output_enabled(
        outen & !output_bit(idx, channel),
        j,
        c,
    ) == output_enabled(outen, j, c) by {
        let p: u16 = (channel_offset(c) + j) as u16;
        assert(p != o);
        assert(((outen & !(1u16 << o)) & (1u16 << p) != 0) == (outen & (1u16 << p) != 0))
            by (bit_vector)
            requires
                o < 16,
                p < 16,
                p != o,
        ;
    }
}

/// Setting a duty and reading it back gives the duty, rounded down to the
/// resolution of the period: the read duty is at most the one set and short
/// of it by less than one tick's worth (65536 / (modulo + 1)) plus one. With
/// the full modulo of 65535, the read duty is the one set. The compare value
/// never exceeds the modulo.
pub proof fn lemma_duty_round_trip(duty: u16, modulo: u16)
    ensures
        compare_from_duty(duty, modulo) <= modulo,
        duty_from_compare(compare_from_duty(duty, modulo), modulo) <= duty,
        (duty - duty_from_compare(compare_from_duty(duty, modulo), modulo)) * (modulo + 1)
            < 65536 + modulo + 1,
        modulo == u16::MAX ==> duty_from_compare(compare_from_duty(duty, modulo), modulo)
            == duty,
{
    let d: int = duty as int;
    let n: int = modulo as int + 1;
    let c: int = (d * n) / 65536;
    assert(0 <= c && c * 65536 <= d * n && d * n < (c + 1) * 65536) by (nonlinear_arith)
        requires
            c == (d * n) / 65536,
            0 <= d,
            0 < n,
    ;
    assert(c < n) by (nonlinear_arith)
        requires
            c * 65536 <= d * n,
            d < 65536,
            0 < n,
            0 <= c,
    ;
    assert(compare_from_duty(duty, modulo) == c);
    let g: int = c * 65536 / n;
    assert(0 <= g && g * n <= c * 65536 && c * 65536 < (g + 1) * n) by (nonlinear_arith)
        requires
            g == c * 65536 / n,
            0 <= c,
            0 < n,
    ;
    assert(g <= d) by (nonlinear_arith)
        requires
            g * n <= c * 65536,
            c * 65536 <= d * n,
            0 < n,
    ;
    assert(g % 65536 == g);
    assert(duty_from_compare(compare_from_duty(duty, modulo), modulo) == g);
    assert((d - g) * n < 65536 + n) by (nonlinear_arith)
        requires
            d * n < (c + 1) * 65536,
            c * 65536 < (g + 1) * n,
    ;
    if modulo == u16::MAX {
        assert(c == d) by (nonlinear_arith)
            requires
                n == 65536,
                c == (d * n) / 65536,
        ;
        assert(g == d) by (nonlinear_arith)
            requires
                n == 65536,
                c == d,
                g == c * 65536 / n,
        ;
    }
}

/// What a reload does to `MCTRL`: while the submodule's registers are
/// written, its `LDOK` bit is clear; after the reload it is set. The other
/// submodules' `LDOK` bits, the `RUN` and `IPOL` fields stay as they were,
/// and `CLDOK` reads as zero.
pub proof fn lemma_reload_mctrl(mctrl: u16, idx: u16)
    requires
        idx < 4,
    ensures
        !load_okay(unloaded_mctrl(mctrl, idx), idx),
        load_okay(reloaded_mctrl(mctrl, idx), idx),
        forall|j: u16|
            j < 4 && j != idx ==> load_okay(unloaded_mctrl(mctrl, idx), j) == load_okay(mctrl, j)
                && load_okay(reloaded_mctrl(mctrl, idx), j) == load_okay(mctrl, j),
        field(unloaded_mctrl(mctrl, idx), MCTRL_RUN, SUBMODULE_FIELD_MASK) == field(
            mctrl,
            MCTRL_RUN,
            SUBMODULE_FIELD_MASK,
        ),
        field(reloaded_mctrl(mctrl, idx), MCTRL_RUN, SUBMODULE_FIELD_MASK) == field(
            mctrl,
            MCTRL_RUN,
            SUBMODULE_FIELD_MASK,
        ),
        field(reloaded_mctrl(mctrl, idx), 12, SUBMODULE_FIELD_MASK) == field(
            mctrl,
            12,
            SUBMODULE_FIELD_MASK,
        ),
        field(unloaded_mctrl(mctrl, idx), MCTRL_CLDOK, SUBMODULE_FIELD_MASK) == 0,
        field(reloaded_mctrl(mctrl, idx), MCTRL_CLDOK, SUBMODULE_FIELD_MASK) == 0,
{
    let m = mctrl;
    let v1 = begin_reload(m, idx);
    let m1 = unloaded_mctrl(m, idx);
    let v2 = finish_reload(m1, idx);
    let m2 = reloaded_mctrl(m, idx);
    assert(v1 == (m & !(15u16 << 4u16)) | (((1u16 << idx) & 15u16) << 4u16));
    assert(m1 == (v1 & 0xFF00u16) | ((m | v1) & !(v1 >> 4u16) & 0x000Fu16));
    assert(v2 == (m1 & !(15u16 << 0u16)) | (((1u16 << idx) & 15u16) << 0u16));
    assert(m2 == (v2 & 0xFF00u16) | ((m1 | v2) & !(v2 >> 4u16) & 0x000Fu16));
    assert({
        &&& m1 & (1u16 << idx) == 0
        &&& m2 & (1u16 << idx) != 0
        &&& forall|j: u16|
            j < 4 && j != idx ==> #[trigger] (m1 & (1u16 << j)) == m & (1u16 << j) && m2 & (1u16
                << j) == m & (1u16 << j)
        &&& (m1 >> 8u16) & 15u16 == (m >> 8u16) & 15u16
        &&& (m2 >> 8u16) & 15u16 == (m >> 8u16) & 15u16
        &&& (m2 >> 12u16) & 15u16 == (m >> 12u16) & 15u16
        &&& (m1 >> 4u16) & 15u16 == 0
        &&& (m2 >> 4u16) & 15u16 == 0
    }) by (bit_vector)
        requires
            idx < 4,
            v1 == (m & !(15u16 << 4u16)) | (((1u16 << idx) & 15u16) << 4u16),
            m1 == (v1 & 0xFF00u16) | ((m | v1) & !(v1 >> 4u16) & 0x000Fu16),
            v2 == (m1 & !(15u16 << 0u16)) | (((1u16 << idx) & 15u16) << 0u16),
            m2 == (v2 & 0xFF00u16) | ((m1 | v2) & !(v2 >> 4u16) & 0x000Fu16),
    ;
}

/// `reload_writes`, replayed up to its `k`-th write.
pub open spec fn reload_prefix(regs: Registers, idx: u16, body: Seq<RegWrite>, k: int) -> Registers {
    replay(regs, reload_writes(regs.mctrl, idx, body).take(k))
}

/// A submodule is not loaded while it is reloaded: after the reload's first
/// write and through every write of its body (writes to submodule
/// registers), the submodule's `LDOK` bit is clear. After the reload's last
/// write `MCTRL` is `reloaded_mctrl`, whose `LDOK` bit for the submodule is
/// set (`lemma_reload_mctrl`).
pub proof fn lemma_unloaded_while_reloading(regs: Registers, idx: u16, body: Seq<RegWrite>)
    requires
        idx < 4,
        forall|k: int| 0 <= k < body.len() ==> (#[trigger] body[k]).reg is Sm,
    ensures
        forall|k: int|
            1 <= k <= body.len() + 1 ==> #[trigger] reload_prefix(regs, idx, body, k).mctrl
                == unloaded_mctrl(regs.mctrl, idx) && !load_okay(
                reload_prefix(regs, idx, body, k).mctrl,
                idx,
            ),
        replay(regs, reload_writes(regs.mctrl, idx, body)).mctrl == reloaded_mctrl(
            regs.mctrl,
            idx,
        ),
{
    lemma_reload_mctrl(regs.mctrl, idx);
    let first = seq![mctrl_write(begin_reload(regs.mctrl, idx))];
    let last = mctrl_write(finish_reload(unloaded_mctrl(regs.mctrl, idx), idx));
    let w = reload_writes(regs.mctrl, idx, body);
    assert(first =~= Seq::<RegWrite>::empty().push(first[0]));
    lemma_replay_push(regs, Seq::<RegWrite>::empty(), first[0]);
    assert(replay(regs, Seq::<RegWrite>::empty()) == regs);
    let r1 = replay(regs, first);
    assert(r1.mctrl == unloaded_mctrl(regs.mctrl, idx));
    assert forall|k: int| 1 <= k <= body.len() + 1 implies #[trigger] reload_prefix(
        regs,
        idx,
        body,
        k,
    ).mctrl == unloaded_mctrl(regs.mctrl, idx) && !load_okay(
        reload_prefix(regs, idx, body, k).mctrl,
        idx,
    ) by {
        let bt = body.take(k - 1);
        assert(w.take(k) =~= first + bt);
        lemma_replay_concat(regs, first, bt);
        assert forall|i: int| 0 <= i < bt.len() implies (#[trigger] bt[i]).reg is Sm by {
            assert(bt[i] == body[i]);
        }
        lemma_replay_submodule_writes(r1, bt);
    }
    assert(w =~= (first + body).push(last));
    lemma_replay_push(regs, first + body, last);
    assert(w.take(body.len() as int + 1) =~= first + body);
    assert(reload_prefix(regs, idx, body, body.len() as int + 1).mctrl == unloaded_mctrl(regs.mctrl, idx));
}

/// Once `outputs` has configured a submodule with a period that has a
/// number of ticks, the submodule runs, alone among the submodules, with
/// that number of ticks as its modulo and a duty of zero on both channels;
/// its buffered registers are loaded, and the other submodules' `LDOK` bits
/// are as they were.
pub proof fn lemma_configured_runs_at_zero_duty(regs: Registers, idx: u16, timing: Timing)
    requires
        idx < 4,
        timing.modulo_ticks() is Ok,
    ensures
        configured(regs, idx, timing).submodule(idx as int).val1 == timing.modulo_ticks()->Ok_0,
        duty_from_compare(
            compare_of(configured(regs, idx, timing).submodule(idx as int), Channel::A),
            configured(regs, idx, timing).submodule(idx as int).val1,
        ) == 0,
        duty_from_compare(
            compare_of(configured(regs, idx, timing).submodule(idx as int), Channel::B),
            configured(regs, idx, timing).submodule(idx as int).val1,
        ) == 0,
        runs(configured(regs, idx, timing).mctrl, idx),
        forall|j: u16| j < 4 && j != idx ==> !runs(configured(regs, idx, timing).mctrl, j),
        load_okay(configured(regs, idx, timing).mctrl, idx),
        forall|j: u16|
            j < 4 && j != idx ==> load_okay(configured(regs, idx, timing).mctrl, j) == load_okay(
                regs.mctrl,
                j,
            ),
{
    let sm = configured_submodule(regs.submodule(idx as int), timing);
    lemma_with_submodule(regs, idx as int, sm);
    lemma_reload_mctrl(regs.mctrl, idx);
    let m = regs.mctrl;
    let m2 = reloaded_mctrl(m, idx);
    let v3 = start_running(m2, idx);
    let m3 = running_mctrl(m2, idx);
    assert(v3 == (m2 & !(15u16 << 8u16)) | (((1u16 << idx) & 15u16) << 8u16));
    assert(m3 == (v3 & 0xFF00u16) | ((m2 | v3) & !(v3 >> 4u16) & 0x000Fu16));
    assert((m2 >> 4u16) & 15u16 == 0);
    assert({
        &&& (m3 >> 8u16) & (1u16 << idx) != 0
        &&& forall|j: u16| j < 4 && j != idx ==> #[trigger] ((m3 >> 8u16) & (1u16 << j)) == 0
        &&& forall|j: u16| j < 4 ==> #[trigger] (m3 & (1u16 << j)) == m2 & (1u16 << j)
    }) by (bit_vector)
        requires
            idx < 4,
            (m2 >> 4u16) & 15u16 == 0,
            v3 == (m2 & !(15u16 << 8u16)) | (((1u16 << idx) & 15u16) << 8u16),
            m3 == (v3 & 0xFF00u16) | ((m2 | v3) & !(v3 >> 4u16) & 0x000Fu16),
    ;
    assert(m3 & (1u16 << idx) == m2 & (1u16 << idx));
    assert(0int * 65536 / (sm.val1 as int + 1) == 0);
}

/// Taking the peripheral into use sets every fault level and clears every
/// fault flag, whatever the registers held: `FCTRL0` and `FSTS0` end the
/// same from any prior state but for the fault pins (`FFPIN`), which the
/// hardware shows. Doing it again changes nothing.
pub proof fn lemma_fault_reset(regs: Registers)
    ensures
        faults_reset(regs).fctrl0 == FCTRL0_ALL_FAULT_LEVELS,
        faults_reset(regs).fsts0 & 0x000F == 0,
        faults_reset(regs).fsts0 & 0xF0F0 == 0,
        faults_reset(regs).fsts0 & 0x0F00 == regs.fsts0 & 0x0F00,
        faults_reset(faults_reset(regs)) == faults_reset(regs),
{
    let f = regs.fsts0;
    let f1 = faults_reset(regs).fsts0;
    let f2 = faults_reset(faults_reset(regs)).fsts0;
    let v = FSTS0_ALL_FAULT_FLAGS;
    assert(v == 0x000Fu16);
    assert(f1 == (v & 0xF0F0u16) | (f & 0x0F00u16) | (f & !v & 0x000Fu16));
    assert(f2 == (v & 0xF0F0u16) | (f1 & 0x0F00u16) | (f1 & !v & 0x000Fu16));
    assert(f1 & 0x000F == 0 && f1 & 0xF0F0 == 0 && f1 & 0x0F00 == f & 0x0F00 && f2 == f1)
        by (bit_vector)
        requires
            v == 0x000Fu16,
            f1 == (v & 0xF0F0u16) | (f & 0x0F00u16) | (f & !v & 0x000Fu16),
            f2 == (v & 0xF0F0u16) | (f1 & 0x0F00u16) | (f1 & !v & 0x000Fu16),
    ;
}

/// The peripherals PWM1 to PWM4 have the consecutive clock gates CG8 to
/// CG11 of `CCGR4`, so four distinct gates; clocking one sets its gate's two
/// bits to `0b11` and leaves every other gate as it was.
pub proof fn lemma_clock_gates(ccgr4: u32, module: ModuleId)
    ensures
        ModuleId::Pwm1.gate() == 8,
        ModuleId::Pwm2.gate() == ModuleId::Pwm1.gate() + 1,
        ModuleId::Pwm3.gate() == ModuleId::Pwm2.gate() + 1,
        ModuleId::Pwm4.gate() == ModuleId::Pwm3.gate() + 1,
        (ccm::gate_on(ccgr4, module.gate()) >> (2 * module.gate()) as u32) & 3 == 3,
        forall|other: u32|
            other < 16 && other != module.gate() ==> (#[trigger] (ccm::gate_on(
                ccgr4,
                module.gate(),
            ) >> (2 * other) as u32) & 3) == (ccgr4 >> (2 * other) as u32) & 3,
{
    ccm::lemma_gate_on(ccgr4, module.gate());
}

/// The submodules are numbered as named, one after the other from zero, and
/// splitting a peripheral gives submodule `k` in field `smk`.
pub proof fn lemma_submodules_numbered(pwm: PWM, module: ModuleId)
    ensures
        SubmoduleId::Sm0.index() == 0,
        SubmoduleId::Sm1.index() == SubmoduleId::Sm0.index() + 1,
        SubmoduleId::Sm2.index() == SubmoduleId::Sm1.index() + 1,
        SubmoduleId::Sm3.index() == SubmoduleId::Sm2.index() + 1,
        pwm.split_from(module) ==> {
            &&& pwm.sm0.id().index() == 0
            &&& pwm.sm1.id().index() == 1
            &&& pwm.sm2.id().index() == 2
            &&& pwm.sm3.id().index() == 3
        },
{
}

/// The output enables of `OUTEN` are laid out by channel: bits 11:8
/// (`PWMA_EN`) hold channel A and bits 7:4 (`PWMB_EN`) channel B, one bit
/// per submodule, bit `idx` for submodule `idx`. Enabling or disabling an
/// output changes its bit of its channel's field and no other bit.
pub proof fn lemma_output_enable_fields(outen: u16, idx: u16)
    requires
        idx < 4,
    ensures
        ((outen | output_bit(idx, Channel::A)) >> 8u16) & 0xF == ((outen >> 8u16) & 0xF) | (1u16
            << idx),
        (outen | output_bit(idx, Channel::A)) & 0xF0FF == outen & 0xF0FF,
        ((outen & !output_bit(idx, Channel::A)) >> 8u16) & 0xF == ((outen >> 8u16) & 0xF) & !(1u16
            << idx),
        (outen & !output_bit(idx, Channel::A)) & 0xF0FF == outen & 0xF0FF,
        ((outen | output_bit(idx, Channel::B)) >> 4u16) & 0xF == ((outen >> 4u16) & 0xF) | (1u16
            << idx),
        (outen | output_bit(idx, Channel::B)) & 0xFF0F == outen & 0xFF0F,
        ((outen & !output_bit(idx, Channel::B)) >> 4u16) & 0xF == ((outen >> 4u16) & 0xF) & !(1u16
            << idx),
        (outen & !output_bit(idx, Channel::B)) & 0xFF0F == outen & 0xFF0F,
{
    let a = output_bit(idx, Channel::A);
    let b = output_bit(idx, Channel::B);
    let oa: u16 = (8 + idx) as u16;
    let ob: u16 = (4 + idx) as u16;
    assert(a == 1u16 << oa);
    assert(b == 1u16 << ob);
    assert({
        &&& ((outen | a) >> 8u16) & 0xF == ((outen >> 8u16) & 0xF) | (1u16 << idx)
        &&& (outen | a) & 0xF0FF == outen & 0xF0FF
        &&& ((outen & !a) >> 8u16) & 0xF == ((outen >> 8u16) & 0xF) & !(1u16 << idx)
        &&& (outen & !a) & 0xF0FF == outen & 0xF0FF
        &&& ((outen | b) >> 4u16) & 0xF == ((outen >> 4u16) & 0xF) | (1u16 << idx)
        &&& (outen | b) & 0xFF0F == outen & 0xFF0F
        &&& ((outen & !b) >> 4u16) & 0xF == ((outen >> 4u16) & 0xF) & !(1u16 << idx)
        &&& (outen & !b) & 0xFF0F == outen & 0xFF0F
    }) by (bit_vector)
        requires
            idx < 4,
            oa == 8 + idx,
            ob == 4 + idx,
            a == 1u16 << oa,
            b == 1u16 << ob,
    ;
}

/// After `outputs` configured a submodule with `timing`, the submodule's
/// `CTRL` has `FULL` (bit 10) set and its prescaler field `PRSC` (bits 6:4)
/// selects the divider that the modulo `VAL1` was computed with: the
/// hardware divides the clock by one shifted left by that field, which is
/// `timing.prescalar.divider()`.
pub proof fn lemma_configured_prescaler(regs: Registers, idx: u16, timing: Timing)
    requires
        idx < 4,
    ensures
        configured(regs, idx, timing).submodule(idx as int).ctrl & 0x0400 != 0,
        1u32 << ((((configured(regs, idx, timing).submodule(idx as int).ctrl >> 4u16) & 7u16)
            as u32)) == timing.prescalar.divider(),
{
    let sm = configured_submodule(regs.submodule(idx as int), timing);
    lemma_with_submodule(regs, idx as int, sm);
    ccm::lemma_prescaler_doubles();
    let v: u16 = timing.prescalar.field_value();
    let c: u16 = configured_ctrl(timing);
    assert(v < 8);
    assert(c == 0x0400u16 | ((v & 7u16) << 4u16));
    assert(c & 0x0400 != 0 && (c >> 4u16) & 7u16 == v) by (bit_vector)
        requires
            v < 8,
            c == 0x0400u16 | ((v & 7u16) << 4u16),
    ;
    assert(sm.ctrl == c);
}

/// Whether the write `w` goes to a register of submodule `idx`.
pub open spec fn targets_submodule(w: RegWrite, idx: u16) -> bool {
    w.reg matches RegId::Sm { idx: i, .. } && i == idx
}

/// The configuration of a submodule happens while the submodule is not
/// loaded: the reload first sets `CLDOK` for the submodule, then every write
/// goes to that submodule's own registers, and last `LDOK` is set for it.
pub proof fn lemma_configuration_within_reload(mctrl: u16, idx: u16, timing: Timing)
    ensures
        reload_writes(mctrl, idx, configure_writes(idx, timing))[0] == mctrl_write(
            begin_reload(mctrl, idx),
        ),
        reload_writes(mctrl, idx, configure_writes(idx, timing)).last() == mctrl_write(
            finish_reload(unloaded_mctrl(mctrl, idx), idx),
        ),
        forall|k: int|
            0 < k < reload_writes(mctrl, idx, configure_writes(idx, timing)).len() - 1
                ==> targets_submodule(
                #[trigger] reload_writes(mctrl, idx, configure_writes(idx, timing))[k],
                idx,
            ),
{
    let w = configure_writes(idx, timing);
    assert forall|k: int| 0 <= k < w.len() implies targets_submodule(#[trigger] w[k], idx) by {}
    assert forall|k: int|
        0 < k < reload_writes(mctrl, idx, w).len() - 1 implies #[trigger] reload_writes(
        mctrl,
        idx,
        w,
    )[k] == w[k - 1] by {}
}

/// A PWM peripheral that is not receiving a clock input
///
/// You may access the PWM components by using the `clock()` method.
pub struct Unclocked {
    reg: Registers,
    module: ModuleId,
}

impl Unclocked {
    /// The peripheral.
    pub closed spec fn module(self) -> ModuleId {
        self.module
    }

    /// The peripheral's registers.
    pub closed spec fn regs(self) -> Registers {
        self.reg
    }

    /// The unclocked peripheral `module`, whose registers hold `reg`.
    pub fn new(module: ModuleId, reg: Registers) -> (r: Self)
        ensures
            r.module() == module,
            r.regs() == reg,
    {
        Unclocked { reg, module }
    }

    /// Enable the input clock for this PWM module. Returns a `PWM` instance
    /// that can allocated PWM outputs.
    pub fn clock(self, handle: &mut ccm::Handle) -> (r: PWM)
        ensures
            final(handle).ccgr4 == ccm::gate_on(old(handle).ccgr4, self.module().gate()),
            r.split_from(self.module()),
            r.handle.regs() == faults_reset(self.regs()),
            r.handle.writes() == seq![
                RegWrite { reg: RegId::Fctrl0, value: FCTRL0_ALL_FAULT_LEVELS },
                RegWrite { reg: RegId::Fsts0, value: FSTS0_ALL_FAULT_FLAGS },
            ],
    {
        let gate: u32 = self.module.clock_gate();
        handle.enable_gate(gate);
        PWM::new(self.module, self.reg)
    }
}

} // verus!
