use stm32f3xx_hal::dac::{
    cr_with_channel_enabled, cr_with_noise, cr_with_triangle, cr_with_trigger, Dac,
    DacBitAlignment, DacChannel, DacDevice, DacRegisters, RccWrite, Trigger,
};

fn zero_regs() -> DacRegisters {
    DacRegisters { cr: 0, dhr12r1: 0, dhr12l1: 0, dhr8r1: 0 }
}

#[test]
fn trigger_codes_follow_the_reference_manual() {
    let all = [
        Trigger::Tim6,
        Trigger::Tim3_8,
        Trigger::Tim7,
        Trigger::Tim5,
        Trigger::Tim2,
        Trigger::Tim4,
        Trigger::Exti9,
        Trigger::Swtrig,
    ];
    for (i, t) in all.iter().enumerate() {
        assert_eq!(t.bits() as usize, i);
    }
}

#[test]
fn enable_channel_sets_only_the_enable_bit() {
    assert_eq!(cr_with_channel_enabled(0, DacChannel::One), 0x0000_0001);
    assert_eq!(cr_with_channel_enabled(0, DacChannel::Two), 0x0001_0000);
    assert_eq!(cr_with_channel_enabled(0x1234_5678, DacChannel::One), 0x1234_5679);
    assert_eq!(cr_with_channel_enabled(0x0001_0000, DacChannel::Two), 0x0001_0000);
}

#[test]
fn set_trigger_writes_enable_and_selection() {
    assert_eq!(cr_with_trigger(0, DacChannel::One, Trigger::Tim6), 0x0000_0004);
    assert_eq!(cr_with_trigger(0, DacChannel::One, Trigger::Swtrig), 0x0000_003C);
    assert_eq!(cr_with_trigger(0xFFFF_FFFF, DacChannel::One, Trigger::Tim6), 0xFFFF_FFC7);
    assert_eq!(cr_with_trigger(0, DacChannel::Two, Trigger::Tim2), 0x0024_0000);
    assert_eq!(cr_with_trigger(0xFFFF_FFFF, DacChannel::Two, Trigger::Tim3_8), 0xFFCF_FFFF);
}

#[test]
fn later_trigger_replaces_earlier_one() {
    let once = cr_with_trigger(0x0000_0001, DacChannel::One, Trigger::Exti9);
    let twice = cr_with_trigger(
        cr_with_trigger(0x0000_0001, DacChannel::One, Trigger::Tim4),
        DacChannel::One,
        Trigger::Exti9,
    );
    assert_eq!(once, twice);
}

#[test]
fn noise_generation_words() {
    assert_eq!(cr_with_noise(0, DacChannel::One), 0x0000_0040);
    assert_eq!(cr_with_noise(0xFFFF_FFFF, DacChannel::One), 0xFFFF_F07F);
    assert_eq!(cr_with_noise(0, DacChannel::Two), 0x0040_0000);
    // The amplitude selector of channel 2 is left alone.
    assert_eq!(cr_with_noise(0x0F00_0000, DacChannel::Two), 0x0F40_0000);
}

#[test]
fn triangle_generation_words() {
    assert_eq!(cr_with_triangle(0, DacChannel::One), 0x0000_0380);
    assert_eq!(cr_with_triangle(0xFFFF_FFFF, DacChannel::One), 0xFFFF_F3BF);
    assert_eq!(cr_with_triangle(0xFFFF_FFFF, DacChannel::Two), 0xFFBF_FFFF);
}

#[test]
fn last_selected_waveform_wins() {
    let cr = 0x00C3_0F0F;
    for ch in [DacChannel::One, DacChannel::Two] {
        assert_eq!(cr_with_noise(cr_with_triangle(cr, ch), ch), cr_with_noise(cr, ch));
        assert_eq!(cr_with_triangle(cr_with_noise(cr, ch), ch), cr_with_triangle(cr, ch));
    }
}

#[test]
fn channels_are_independent() {
    let cr = 0xA5A5_5A5A;
    let a = cr_with_noise(cr_with_trigger(cr, DacChannel::Two, Trigger::Tim7), DacChannel::One);
    let b = cr_with_trigger(cr_with_noise(cr, DacChannel::One), DacChannel::Two, Trigger::Tim7);
    assert_eq!(a, b);
    assert_eq!(a & 0xFFFF_0000, cr_with_trigger(cr, DacChannel::Two, Trigger::Tim7) & 0xFFFF_0000);
    assert_eq!(cr_with_triangle(cr, DacChannel::Two) & 0x0000_FFFF, cr & 0x0000_FFFF);
}

#[test]
fn rcc_words_of_the_first_converter() {
    let d = DacDevice::One;
    assert_eq!(d.clock_enable_word(0), 0x2000_0000);
    assert_eq!(d.clock_enable_word(0x0000_0011), 0x2000_0011);
    let held = d.reset_hold_word(0x0000_0100);
    assert_eq!(held, 0x2000_0100);
    assert_eq!(d.reset_release_word(held), 0x0000_0100);
}

#[test]
fn dac_configuration_steps_update_the_control_word() {
    let mut dac = Dac::new(zero_regs(), DacDevice::One, DacBitAlignment::TwelveRight);
    dac.enable_channel(DacChannel::One);
    dac.set_trigger(DacChannel::One, Trigger::Tim6);
    dac.enable_triangle_gen(DacChannel::One);
    assert_eq!(dac.regs.cr, 0x0000_0385);
    dac.enable_noise_gen(DacChannel::Two);
    assert_eq!(dac.regs.cr, 0x0040_0385);
    assert_eq!(dac.regs.dhr12r1, 0);
    assert_eq!(dac.device, DacDevice::One);
    assert_eq!(dac.bits, DacBitAlignment::TwelveRight);
}

#[test]
fn write_data_goes_to_the_register_of_the_alignment() {
    let mut eight = Dac::new(zero_regs(), DacDevice::One, DacBitAlignment::EightRight);
    eight.write_data(0xAB);
    assert_eq!(eight.regs, DacRegisters { cr: 0, dhr12r1: 0, dhr12l1: 0, dhr8r1: 0xAB });

    let mut left = Dac::new(zero_regs(), DacDevice::One, DacBitAlignment::TwelveLeft);
    left.write_data(0xFFF0);
    assert_eq!(left.regs, DacRegisters { cr: 0, dhr12r1: 0, dhr12l1: 0xFFF0, dhr8r1: 0 });

    let mut right = Dac::new(zero_regs(), DacDevice::One, DacBitAlignment::TwelveRight);
    right.write_data(0x0FFF);
    right.write_data(0x0123);
    assert_eq!(right.regs, DacRegisters { cr: 0, dhr12r1: 0x0123, dhr12l1: 0, dhr8r1: 0 });
}

#[test]
fn power_up_enables_clock_then_pulses_reset() {
    let writes = DacDevice::One.power_up_writes(0x0000_0011, 0x0000_0100);
    assert_eq!(
        writes,
        vec![
            RccWrite::Apb1enr(0x2000_0011),
            RccWrite::Apb1rstr(0x2000_0100),
            RccWrite::Apb1rstr(0x0000_0100),
        ]
    );
}
