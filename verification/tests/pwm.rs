use imxrt_pwm::ccm::{self, ClockSelect, IPGFrequency, Prescalar, TicksError};
use imxrt_pwm::pwm::{Channel, ModuleId, PWM, SubmoduleId, Timing, Unclocked};
use imxrt_pwm::registers::{RegId, RegWrite, Registers};
use imxrt_pwm::time::Period;

const IPG_HZ: u32 = 150_000_000;

fn timing(prescalar: Prescalar, nanos: u64) -> Timing {
    Timing {
        clock_select: ClockSelect::IPG(IPGFrequency(IPG_HZ)),
        prescalar,
        switching_period: Period::from_nanos(nanos),
    }
}

fn clocked(module: ModuleId) -> (PWM, ccm::Handle) {
    let mut ccm = ccm::Handle { ccgr4: 0 };
    let pwm = Unclocked::new(module, Registers::zeroed()).clock(&mut ccm);
    (pwm, ccm)
}

#[test]
fn clock_turns_on_the_gate_and_clears_faults() {
    let (pwm, ccm) = clocked(ModuleId::Pwm2);
    assert_eq!(ccm.ccgr4, 0x000C_0000);
    assert_eq!(pwm.handle.module_id(), ModuleId::Pwm2);
    let regs = pwm.handle.registers();
    assert_eq!(regs.fctrl0, 0xF000);
    // A one written to a fault flag clears it.
    assert_eq!(regs.fsts0, 0);
    assert_eq!(regs.mctrl, 0);
    assert_eq!(regs.outen, 0);
}

#[test]
fn clock_keeps_other_gates() {
    let mut ccm = ccm::Handle { ccgr4: 0xFFFF_FFFF & !(3 << 22) };
    let _pwm = Unclocked::new(ModuleId::Pwm4, Registers::zeroed()).clock(&mut ccm);
    assert_eq!(ccm.ccgr4, 0xFFFF_FFFF);
}

#[test]
fn outputs_configures_and_starts_the_submodule() {
    let (mut pwm, _) = clocked(ModuleId::Pwm1);
    let pins = pwm.sm1.outputs(&mut pwm.handle, "A", "B", timing(Prescalar::PRSC_0, 1000));
    assert!(pins.is_some());
    let regs = pwm.handle.registers();
    assert_eq!(regs.sm1.ctrl2, 0xE000);
    assert_eq!(regs.sm1.ctrl, 0x0400);
    assert_eq!(regs.sm1.val1, 165);
    assert_eq!(regs.sm1.val3, 0);
    assert_eq!(regs.sm1.val5, 0);
    // LDOK and RUN hold the bit of submodule 1; CLDOK reads as zero.
    assert_eq!(regs.mctrl, 0x0202);
    assert_eq!(regs.sm0, Registers::zeroed().sm0);
    assert_eq!(regs.sm2, Registers::zeroed().sm2);
}

#[test]
fn outputs_writes_the_prescaler() {
    let (mut pwm, _) = clocked(ModuleId::Pwm3);
    let pins = pwm.sm3.outputs(&mut pwm.handle, (), (), timing(Prescalar::PRSC_3, 1_000_000));
    assert!(pins.is_some());
    let regs = pwm.handle.registers();
    assert_eq!(regs.sm3.ctrl, 0x0430);
    assert_eq!(regs.sm3.val1, 18866);
    assert_eq!(regs.mctrl, 0x0808);
}

#[test]
fn outputs_refuses_a_period_too_long_for_the_modulo() {
    let (mut pwm, _) = clocked(ModuleId::Pwm1);
    let pins = pwm.sm0.outputs(&mut pwm.handle, (), (), timing(Prescalar::PRSC_0, 1_000_000_000));
    assert!(pins.is_none());
    let regs = pwm.handle.registers();
    // The control registers are written, the modulo is not, and the
    // submodule is reloaded but not started.
    assert_eq!(regs.sm0.ctrl2, 0xE000);
    assert_eq!(regs.sm0.val1, 0);
    assert_eq!(regs.mctrl, 0x0001);
}

#[test]
fn outputs_runs_only_the_last_configured_submodule() {
    let (mut pwm, _) = clocked(ModuleId::Pwm1);
    assert!(pwm.sm0.outputs(&mut pwm.handle, (), (), timing(Prescalar::PRSC_0, 1000)).is_some());
    assert!(pwm.sm1.outputs(&mut pwm.handle, (), (), timing(Prescalar::PRSC_0, 1000)).is_some());
    // RUN is replaced by the last submodule's bit; LDOK keeps both bits.
    assert_eq!(pwm.handle.registers().mctrl, 0x0203);
}

#[test]
fn new_outputs_have_zero_duty_and_the_timing_period() {
    let (mut pwm, _) = clocked(ModuleId::Pwm1);
    let mut pins = pwm.sm2.outputs(&mut pwm.handle, (), (), timing(Prescalar::PRSC_0, 1000)).unwrap();
    let ctrl = pins.control(&mut pwm.handle);
    assert_eq!(ctrl.get_duty(Channel::A), 0);
    assert_eq!(ctrl.get_duty(Channel::B), 0);
    assert_eq!(ctrl.get_period(), Period::from_nanos(1000));
    assert_eq!(ctrl.get_max_duty(), u16::MAX);
}

#[test]
fn set_duty_writes_the_compare_value_and_reads_back() {
    let (mut pwm, _) = clocked(ModuleId::Pwm1);
    let mut pins = pwm.sm1.outputs(&mut pwm.handle, (), (), timing(Prescalar::PRSC_0, 1000)).unwrap();
    {
        let mut ctrl = pins.control(&mut pwm.handle);
        ctrl.set_duty(Channel::A, 32768);
        ctrl.set_duty(Channel::B, 40000);
        assert_eq!(ctrl.get_duty(Channel::A), 32768);
        assert_eq!(ctrl.get_duty(Channel::B), 39874);
    }
    let regs = pwm.handle.registers();
    assert_eq!(regs.sm1.val3, 83);
    assert_eq!(regs.sm1.val5, 101);
    assert_eq!(regs.mctrl & 0x00FF, 0x0002);
}

#[test]
fn full_duty_is_the_modulo() {
    let (mut pwm, _) = clocked(ModuleId::Pwm1);
    let mut pins = pwm.sm1.outputs(&mut pwm.handle, (), (), timing(Prescalar::PRSC_0, 1000)).unwrap();
    let mut ctrl = pins.control(&mut pwm.handle);
    ctrl.set_duty(Channel::A, u16::MAX);
    assert_eq!(ctrl.get_duty(Channel::A), 65141);
    drop(ctrl);
    assert_eq!(pwm.handle.registers().sm1.val3, 165);
}

#[test]
fn duty_round_trips_exactly_with_the_full_modulo() {
    let (mut pwm, _) = clocked(ModuleId::Pwm1);
    let full = Timing {
        clock_select: ClockSelect::IPG(IPGFrequency(1_000_000_000)),
        prescalar: Prescalar::PRSC_0,
        switching_period: Period::from_nanos(65536),
    };
    let mut pins = pwm.sm0.outputs(&mut pwm.handle, (), (), full).unwrap();
    let mut ctrl = pins.control(&mut pwm.handle);
    for duty in [0u16, 1, 12345, 32768, 65535] {
        ctrl.set_duty(Channel::B, duty);
        assert_eq!(ctrl.get_duty(Channel::B), duty);
    }
    drop(ctrl);
    assert_eq!(pwm.handle.registers().sm0.val1, 65535);
}

#[test]
fn enable_and_disable_touch_one_output() {
    let (mut pwm, _) = clocked(ModuleId::Pwm1);
    let mut pins = pwm.sm1.outputs(&mut pwm.handle, (), (), timing(Prescalar::PRSC_0, 1000)).unwrap();
    let mut ctrl = pins.control(&mut pwm.handle);
    ctrl.enable(Channel::A);
    ctrl.enable(Channel::B);
    drop(ctrl);
    assert_eq!(pwm.handle.registers().outen, 0x0220);
    let mut ctrl = pins.control(&mut pwm.handle);
    ctrl.disable(Channel::A);
    ctrl.disable(Channel::A);
    drop(ctrl);
    assert_eq!(pwm.handle.registers().outen, 0x0020);
}

#[test]
fn set_period_updates_period_and_modulo() {
    let (mut pwm, _) = clocked(ModuleId::Pwm1);
    let mut pins = pwm.sm1.outputs(&mut pwm.handle, (), (), timing(Prescalar::PRSC_0, 1000)).unwrap();
    let mut ctrl = pins.control(&mut pwm.handle);
    ctrl.set_period(Period::from_nanos(2000));
    assert_eq!(ctrl.get_period(), Period::from_nanos(2000));
    drop(ctrl);
    assert_eq!(pwm.handle.registers().sm1.val1, 332);
}

#[test]
fn set_period_ignores_a_period_without_ticks() {
    let (mut pwm, _) = clocked(ModuleId::Pwm1);
    let mut pins = pwm.sm1.outputs(&mut pwm.handle, (), (), timing(Prescalar::PRSC_0, 1000)).unwrap();
    let before = *pwm.handle.registers();
    let mut ctrl = pins.control(&mut pwm.handle);
    ctrl.set_period(Period::new(1, 0));
    assert_eq!(ctrl.get_period(), Period::from_nanos(1000));
    drop(ctrl);
    assert_eq!(*pwm.handle.registers(), before);
}

#[test]
fn ticks_divides_the_period_by_the_clock_period() {
    assert_eq!(ccm::ticks(Period::from_nanos(1000), IPG_HZ, 1), Ok(165));
    assert_eq!(ccm::ticks(Period::from_nanos(1_000_000), IPG_HZ, 8), Ok(18866));
    assert_eq!(ccm::ticks(Period::from_nanos(65536), 1_000_000_000, 1), Ok(65535));
}

#[test]
fn ticks_errors() {
    assert_eq!(ccm::ticks(Period::new(u64::MAX, 0), IPG_HZ, 1), Err(TicksError::DurationOverflow));
    assert_eq!(ccm::ticks(Period::from_nanos(1000), IPG_HZ, 0), Err(TicksError::DivideByZero));
    assert_eq!(ccm::ticks(Period::from_nanos(1000), 4, 8), Err(TicksError::DivideByZero));
    assert_eq!(ccm::ticks(Period::from_nanos(1000), 2_000_000_000, 1), Err(TicksError::TicksOverflow));
    assert_eq!(ccm::ticks(Period::from_nanos(3), IPG_HZ, 1), Err(TicksError::TicksOverflow));
    assert_eq!(ccm::ticks(Period::from_nanos(65537), 1_000_000_000, 1), Err(TicksError::TicksOverflow));
}

#[test]
fn divider_and_frequency() {
    assert_eq!(ccm::divider(Prescalar::PRSC_0), 1);
    assert_eq!(ccm::divider(Prescalar::PRSC_7), 128);
    assert_eq!(ccm::frequency(ClockSelect::IPG(IPGFrequency(IPG_HZ))), IPG_HZ);
}

#[test]
fn period_nanoseconds() {
    let p = Period::from_nanos(3_000_000_123);
    assert_eq!(p, Period::new(3, 123));
    assert_eq!(p.as_nanos(), 3_000_000_123);
    assert_eq!(Period::new(u64::MAX, 999_999_999).as_nanos(), u64::MAX as u128 * 1_000_000_000 + 999_999_999);
}

#[test]
fn submodule_ids() {
    assert_eq!(SubmoduleId::Sm3.idx(), 3);
    assert_eq!(ModuleId::Pwm1.clock_gate(), 8);
}

#[test]
fn clock_clears_latched_fault_flags() {
    let mut regs = Registers::zeroed();
    regs.fsts0 = 0x0103;
    regs.fctrl0 = 0x0F0F;
    let mut ccm = ccm::Handle { ccgr4: 0 };
    let mut pwm = Unclocked::new(ModuleId::Pwm1, regs).clock(&mut ccm);
    assert_eq!(pwm.handle.registers().fsts0, 0x0100);
    assert_eq!(pwm.handle.registers().fctrl0, 0xF000);
    let writes = pwm.handle.take_writes();
    assert_eq!(writes.len(), 2);
    assert_eq!(writes[0], RegWrite { reg: RegId::Fctrl0, value: 0xF000 });
    assert_eq!(writes[1], RegWrite { reg: RegId::Fsts0, value: 0x000F });
    assert!(pwm.handle.take_writes().is_empty());
}

#[test]
fn reload_keeps_other_submodules_loaded() {
    let mut regs = Registers::zeroed();
    // Submodules 0 and 3 loaded, submodule 0 running.
    regs.mctrl = 0x0109;
    let mut ccm = ccm::Handle { ccgr4: 0 };
    let mut pwm = Unclocked::new(ModuleId::Pwm1, regs).clock(&mut ccm);
    let _ = pwm.handle.take_writes();
    let pins = pwm.sm0.outputs(&mut pwm.handle, (), (), timing(Prescalar::PRSC_0, 1000));
    assert!(pins.is_some());
    let mut pins = pins.unwrap();
    let writes = pwm.handle.take_writes();
    // CLDOK of submodule 0 first, with LDOK, RUN and IPOL written as read.
    assert_eq!(writes[0], RegWrite { reg: RegId::Mctrl, value: 0x0119 });
    assert_eq!(writes.len(), 14);
    // LDOK of submodule 0 after the submodule's writes, read back with its
    // LDOK bit cleared by CLDOK.
    assert_eq!(writes[12], RegWrite { reg: RegId::Mctrl, value: 0x0101 });
    assert_eq!(writes[13], RegWrite { reg: RegId::Mctrl, value: 0x0109 });
    assert_eq!(pwm.handle.registers().mctrl, 0x0109);
    let mut ctrl = pins.control(&mut pwm.handle);
    ctrl.set_duty(Channel::A, 1000);
    drop(ctrl);
    assert_eq!(pwm.handle.registers().mctrl, 0x0109);
}

#[test]
fn observed_load_okay_is_written_back_as_read() {
    let (mut pwm, _) = clocked(ModuleId::Pwm1);
    let mut pins = pwm.sm1.outputs(&mut pwm.handle, (), (), timing(Prescalar::PRSC_0, 1000)).unwrap();
    assert_eq!(pwm.handle.registers().mctrl, 0x0202);
    let _ = pwm.handle.take_writes();
    // The hardware has loaded submodule 1 and cleared its LDOK bit.
    pwm.handle.observe(RegId::Mctrl, 0x0200);
    assert_eq!(pwm.handle.registers().mctrl, 0x0200);
    assert!(pwm.handle.take_writes().is_empty());
    let mut ctrl = pins.control(&mut pwm.handle);
    ctrl.set_duty(Channel::A, 32768);
    drop(ctrl);
    let writes = pwm.handle.take_writes();
    assert_eq!(writes.len(), 3);
    assert_eq!(writes[0], RegWrite { reg: RegId::Mctrl, value: 0x0220 });
    assert_eq!(writes[1].value, 83);
    assert_eq!(writes[2], RegWrite { reg: RegId::Mctrl, value: 0x0202 });
    assert_eq!(pwm.handle.registers().mctrl, 0x0202);
}

#[test]
fn observed_fault_status_is_kept() {
    let (mut pwm, _) = clocked(ModuleId::Pwm1);
    pwm.handle.observe(RegId::Fsts0, 0x0103);
    assert_eq!(pwm.handle.registers().fsts0, 0x0103);
}
