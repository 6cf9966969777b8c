//! Digital-to-analog converter (DAC): the control-register word that each
//! configuration step writes, and a register image that follows those steps.
use vstd::prelude::*;
use crate::bits::{field, with_field, set_field};

verus! {

/// Operating modes of the converter. None are told apart so far, and no value
/// of this type can be made outside the crate.
pub struct DacMode {
    _0: (),
}

/// Which converter peripheral is meant.
#[derive(Clone, Copy, Debug, PartialEq, Eq)]
pub enum DacDevice {
    One,
    Two,
}

/// One of the two output channels of a converter.
#[derive(Clone, Copy, Debug, PartialEq, Eq)]
pub enum DacChannel {
    One,
    Two,
}

/// Width and alignment of the samples that are written to the converter.
#[derive(Clone, Copy, Debug, PartialEq, Eq)]
pub enum DacBitAlignment {
    /// Eight bit precision, right-aligned.
    EightRight,
    /// 12-bit precision, left-aligned.
    TwelveLeft,
    /// 12-bit precision, right-aligned.
    TwelveRight,
}

/// Event that makes the converter load its held sample into the output.
#[derive(Clone, Copy, Debug, PartialEq, Eq)]
pub enum Trigger {
    /// Timer 6
    Tim6,
    /// Timers 3 or 8
    Tim3_8,
    /// Timer 7
    Tim7,
    /// Timer 15
    Tim5,
    /// Timer 2
    Tim2,
    /// Timer 4
    Tim4,
    /// Eg, for interrupts
    Exti9,
    /// A software trigger
    Swtrig,
}

/// The three-bit code by which the control register selects a trigger.
pub open spec fn trigger_code(trigger: Trigger) -> u8 {
    match trigger {
        Trigger::Tim6 => 0b000,
        Trigger::Tim3_8 => 0b001,
        Trigger::Tim7 => 0b010,
        Trigger::Tim5 => 0b011,
        Trigger::Tim2 => 0b100,
        Trigger::Tim4 => 0b101,
        Trigger::Exti9 => 0b110,
        Trigger::Swtrig => 0b111,
    }
}

impl Trigger {
    /// The selection code of this trigger.
    pub fn bits(&self) -> (code: u8)
        ensures
            code == trigger_code(*self),
    {
        match self {
            Trigger::Tim6 => 0b000,
            Trigger::Tim3_8 => 0b001,
            Trigger::Tim7 => 0b010,
            Trigger::Tim5 => 0b011,
            Trigger::Tim2 => 0b100,
            Trigger::Tim4 => 0b101,
            Trigger::Exti9 => 0b110,
            Trigger::Swtrig => 0b111,
        }
    }
}

// Bit positions in the control register (DAC_CR).
/// Channel 1 enable.
pub const CR_EN1: u32 = 0;
/// Channel 1 trigger enable.
pub const CR_TEN1: u32 = 2;
/// Lowest bit of the channel 1 trigger selection (three bits).
pub const CR_TSEL1: u32 = 3;
/// Lowest bit of the channel 1 wave generation field (two bits).
pub const CR_WAVE1: u32 = 6;
/// Lowest bit of the channel 1 mask/amplitude selector (four bits).
pub const CR_MAMP1: u32 = 8;
/// Channel 2 enable.
pub const CR_EN2: u32 = 16;
/// Channel 2 trigger enable.
pub const CR_TEN2: u32 = 18;
/// Lowest bit of the channel 2 trigger selection (three bits).
pub const CR_TSEL2: u32 = 19;
/// Lowest bit of the channel 2 wave generation field (two bits).
pub const CR_WAVE2: u32 = 22;

/// Mask of a single-bit field.
pub const BIT_MASK: u32 = 0b1;
/// Mask of the trigger selection field.
pub const TSEL_MASK: u32 = 0b111;
/// Mask of the wave generation field.
pub const WAVE_MASK: u32 = 0b11;
/// Mask of the mask/amplitude selector.
pub const MAMP_MASK: u32 = 0b1111;

/// Wave generation code: noise.
pub const WAVE_NOISE: u32 = 0b01;
/// Wave generation code: triangle.
pub const WAVE_TRIANGLE: u32 = 0b10;
/// Amplitude selector written when noise is selected on channel 1.
pub const NOISE_AMPLITUDE: u32 = 0b0000;
/// Amplitude selector written when a triangle is selected on channel 1.
pub const TRIANGLE_AMPLITUDE: u32 = 0b0011;

/// Position of the converter's bit in the APB1 clock-enable and reset registers.
pub const RCC_APB1_DAC1: u32 = 29;

/// Enable bit of a channel.
pub open spec fn en_bit(channel: DacChannel) -> u32 {
    match channel {
        DacChannel::One => CR_EN1,
        DacChannel::Two => CR_EN2,
    }
}

/// Trigger-enable bit of a channel.
pub open spec fn ten_bit(channel: DacChannel) -> u32 {
    match channel {
        DacChannel::One => CR_TEN1,
        DacChannel::Two => CR_TEN2,
    }
}

/// Lowest bit of a channel's trigger selection.
pub open spec fn tsel_lo(channel: DacChannel) -> u32 {
    match channel {
        DacChannel::One => CR_TSEL1,
        DacChannel::Two => CR_TSEL2,
    }
}

/// Lowest bit of a channel's wave generation field.
pub open spec fn wave_lo(channel: DacChannel) -> u32 {
    match channel {
        DacChannel::One => CR_WAVE1,
        DacChannel::Two => CR_WAVE2,
    }
}

/// Control word after the channel is switched on.
pub open spec fn cr_enabled(cr: u32, channel: DacChannel) -> u32 {
    with_field(cr, en_bit(channel), BIT_MASK, 1)
}

/// Control word after the channel's trigger is enabled and set to `trigger`.
pub open spec fn cr_triggered(cr: u32, channel: DacChannel, trigger: Trigger) -> u32 {
    with_field(
        with_field(cr, ten_bit(channel), BIT_MASK, 1),
        tsel_lo(channel),
        TSEL_MASK,
        trigger_code(trigger) as u32,
    )
}

/// Control word after noise generation is selected on the channel; on channel 1
/// the amplitude selector is cleared as well.
pub open spec fn cr_noise(cr: u32, channel: DacChannel) -> u32 {
    match channel {
        DacChannel::One => with_field(
            with_field(cr, CR_WAVE1, WAVE_MASK, WAVE_NOISE),
            CR_MAMP1,
            MAMP_MASK,
            NOISE_AMPLITUDE,
        ),
        DacChannel::Two => with_field(cr, CR_WAVE2, WAVE_MASK, WAVE_NOISE),
    }
}

/// Control word after triangle generation is selected on the channel; on
/// channel 1 the amplitude selector is set to its triangle value as well.
pub open spec fn cr_triangle(cr: u32, channel: DacChannel) -> u32 {
    match channel {
        DacChannel::One => with_field(
            with_field(cr, CR_WAVE1, WAVE_MASK, WAVE_TRIANGLE),
            CR_MAMP1,
            MAMP_MASK,
            TRIANGLE_AMPLITUDE,
        ),
        DacChannel::Two => with_field(cr, CR_WAVE2, WAVE_MASK, WAVE_TRIANGLE),
    }
}

/// The control word with the channel switched on.
pub fn cr_with_channel_enabled(cr: u32, channel: DacChannel) -> (r: u32)
    ensures
        r == cr_enabled(cr, channel),
{
    match channel {
        DacChannel::One => set_field(cr, CR_EN1, BIT_MASK, 1),
        DacChannel::Two => set_field(cr, CR_EN2, BIT_MASK, 1),
    }
}

/// The control word with the channel's trigger enabled and selected.
pub fn cr_with_trigger(cr: u32, channel: DacChannel, trigger: Trigger) -> (r: u32)
    ensures
        r == cr_triggered(cr, channel, trigger),
{
    let code = trigger.bits() as u32;
    match channel {
        DacChannel::One => set_field(set_field(cr, CR_TEN1, BIT_MASK, 1), CR_TSEL1, TSEL_MASK, code),
        DacChannel::Two => set_field(set_field(cr, CR_TEN2, BIT_MASK, 1), CR_TSEL2, TSEL_MASK, code),
    }
}

/// The control word with noise generation selected on the channel.
pub fn cr_with_noise(cr: u32, channel: DacChannel) -> (r: u32)
    ensures
        r == cr_noise(cr, channel),
{
    match channel {
        DacChannel::One => set_field(
            set_field(cr, CR_WAVE1, WAVE_MASK, WAVE_NOISE),
            CR_MAMP1,
            MAMP_MASK,
            NOISE_AMPLITUDE,
        ),
        DacChannel::Two => set_field(cr, CR_WAVE2, WAVE_MASK, WAVE_NOISE),
    }
}

/// The control word with triangle generation selected on the channel.
pub fn cr_with_triangle(cr: u32, channel: DacChannel) -> (r: u32)
    ensures
        r == cr_triangle(cr, channel),
{
    match channel {
        DacChannel::One => set_field(
            set_field(cr, CR_WAVE1, WAVE_MASK, WAVE_TRIANGLE),
            CR_MAMP1,
            MAMP_MASK,
            TRIANGLE_AMPLITUDE,
        ),
        DacChannel::Two => set_field(cr, CR_WAVE2, WAVE_MASK, WAVE_TRIANGLE),
    }
}


/// Bits of the control register that switching a channel on may change.
pub open spec fn enable_mask(channel: DacChannel) -> u32 {
    match channel {
        DacChannel::One => 0x0000_0001,
        DacChannel::Two => 0x0001_0000,
    }
}

/// Bits of the control register that selecting a trigger may change.
pub open spec fn trigger_mask(channel: DacChannel) -> u32 {
    match channel {
        DacChannel::One => 0x0000_003C,
        DacChannel::Two => 0x003C_0000,
    }
}

/// Bits of the control register that selecting a waveform may change.
pub open spec fn waveform_mask(channel: DacChannel) -> u32 {
    match channel {
        DacChannel::One => 0x0000_0FC0,
        DacChannel::Two => 0x00C0_0000,
    }
}

/// The half of the control register that belongs to a channel.
pub open spec fn channel_half(channel: DacChannel) -> u32 {
    match channel {
        DacChannel::One => 0x0000_FFFF,
        DacChannel::Two => 0xFFFF_0000,
    }
}

/// The other channel.
pub open spec fn other_channel(channel: DacChannel) -> DacChannel {
    match channel {
        DacChannel::One => DacChannel::Two,
        DacChannel::Two => DacChannel::One,
    }
}

/// What each update puts into the fields it writes, and that it leaves every
/// other bit alone, for both channels at once (`c` stands for a trigger code).
proof fn lemma_cr_update_fields(cr: u32, c: u32)
    by (bit_vector)
    requires
        c < 8,
    ensures
        field(with_field(cr, CR_EN1, BIT_MASK, 1), CR_EN1, BIT_MASK) == 1,
        with_field(cr, CR_EN1, BIT_MASK, 1) & !0x0000_0001u32 == cr & !0x0000_0001u32,
        field(with_field(cr, CR_EN2, BIT_MASK, 1), CR_EN2, BIT_MASK) == 1,
        with_field(cr, CR_EN2, BIT_MASK, 1) & !0x0001_0000u32 == cr & !0x0001_0000u32,
        field(with_field(with_field(cr, CR_TEN1, BIT_MASK, 1), CR_TSEL1, TSEL_MASK, c), CR_TEN1, BIT_MASK) == 1,
        field(with_field(with_field(cr, CR_TEN1, BIT_MASK, 1), CR_TSEL1, TSEL_MASK, c), CR_TSEL1, TSEL_MASK) == c,
        with_field(with_field(cr, CR_TEN1, BIT_MASK, 1), CR_TSEL1, TSEL_MASK, c) & !0x0000_003Cu32
            == cr & !0x0000_003Cu32,
        field(with_field(with_field(cr, CR_TEN2, BIT_MASK, 1), CR_TSEL2, TSEL_MASK, c), CR_TEN2, BIT_MASK) == 1,
        field(with_field(with_field(cr, CR_TEN2, BIT_MASK, 1), CR_TSEL2, TSEL_MASK, c), CR_TSEL2, TSEL_MASK) == c,
        with_field(with_field(cr, CR_TEN2, BIT_MASK, 1), CR_TSEL2, TSEL_MASK, c) & !0x003C_0000u32
            == cr & !0x003C_0000u32,
        field(with_field(with_field(cr, CR_WAVE1, WAVE_MASK, WAVE_NOISE), CR_MAMP1, MAMP_MASK, NOISE_AMPLITUDE), CR_WAVE1, WAVE_MASK)
            == WAVE_NOISE,
        field(with_field(with_field(cr, CR_WAVE1, WAVE_MASK, WAVE_NOISE), CR_MAMP1, MAMP_MASK, NOISE_AMPLITUDE), CR_MAMP1, MAMP_MASK)
            == NOISE_AMPLITUDE,
        with_field(with_field(cr, CR_WAVE1, WAVE_MASK, WAVE_NOISE), CR_MAMP1, MAMP_MASK, NOISE_AMPLITUDE) & !0x0000_0FC0u32
            == cr & !0x0000_0FC0u32,
        field(with_field(with_field(cr, CR_WAVE1, WAVE_MASK, WAVE_TRIANGLE), CR_MAMP1, MAMP_MASK, TRIANGLE_AMPLITUDE), CR_WAVE1, WAVE_MASK)
            == WAVE_TRIANGLE,
        field(with_field(with_field(cr, CR_WAVE1, WAVE_MASK, WAVE_TRIANGLE), CR_MAMP1, MAMP_MASK, TRIANGLE_AMPLITUDE), CR_MAMP1, MAMP_MASK)
            == TRIANGLE_AMPLITUDE,
        with_field(with_field(cr, CR_WAVE1, WAVE_MASK, WAVE_TRIANGLE), CR_MAMP1, MAMP_MASK, TRIANGLE_AMPLITUDE) & !0x0000_0FC0u32
            == cr & !0x0000_0FC0u32,
        field(with_field(cr, CR_WAVE2, WAVE_MASK, WAVE_NOISE), CR_WAVE2, WAVE_MASK) == WAVE_NOISE,
        with_field(cr, CR_WAVE2, WAVE_MASK, WAVE_NOISE) & !0x00C0_0000u32 == cr & !0x00C0_0000u32,
        field(with_field(cr, CR_WAVE2, WAVE_MASK, WAVE_TRIANGLE), CR_WAVE2, WAVE_MASK) == WAVE_TRIANGLE,
        with_field(cr, CR_WAVE2, WAVE_MASK, WAVE_TRIANGLE) & !0x00C0_0000u32 == cr & !0x00C0_0000u32,
{
}

/// Switching a channel on sets its enable bit and changes no other bit.
pub proof fn law_enable_channel(cr: u32, channel: DacChannel)
    ensures
        field(cr_enabled(cr, channel), en_bit(channel), BIT_MASK) == 1,
        cr_enabled(cr, channel) & !enable_mask(channel) == cr & !enable_mask(channel),
{
    lemma_cr_update_fields(cr, 0);
}

/// Selecting a trigger enables the channel's trigger, stores the trigger's code
/// in the channel's selection field, and changes no other bit.
pub proof fn law_set_trigger(cr: u32, channel: DacChannel, trigger: Trigger)
    ensures
        field(cr_triggered(cr, channel, trigger), ten_bit(channel), BIT_MASK) == 1,
        field(cr_triggered(cr, channel, trigger), tsel_lo(channel), TSEL_MASK) == trigger_code(
            trigger,
        ),
        cr_triggered(cr, channel, trigger) & !trigger_mask(channel) == cr & !trigger_mask(channel),
{
    lemma_cr_update_fields(cr, trigger_code(trigger) as u32);
}

/// Selecting noise stores the noise code in the channel's wave field (and, on
/// channel 1, amplitude selector 0), and changes no other bit.
pub proof fn law_noise(cr: u32, channel: DacChannel)
    ensures
        field(cr_noise(cr, channel), wave_lo(channel), WAVE_MASK) == WAVE_NOISE,
        channel == DacChannel::One ==> field(cr_noise(cr, channel), CR_MAMP1, MAMP_MASK)
            == NOISE_AMPLITUDE,
        cr_noise(cr, channel) & !waveform_mask(channel) == cr & !waveform_mask(channel),
{
    lemma_cr_update_fields(cr, 0);
}

/// Selecting a triangle stores the triangle code in the channel's wave field
/// (and, on channel 1, amplitude selector 0b0011), and changes no other bit.
pub proof fn law_triangle(cr: u32, channel: DacChannel)
    ensures
        field(cr_triangle(cr, channel), wave_lo(channel), WAVE_MASK) == WAVE_TRIANGLE,
        channel == DacChannel::One ==> field(cr_triangle(cr, channel), CR_MAMP1, MAMP_MASK)
            == TRIANGLE_AMPLITUDE,
        cr_triangle(cr, channel) & !waveform_mask(channel) == cr & !waveform_mask(channel),
{
    lemma_cr_update_fields(cr, 0);
}

/// Two words that agree outside `changed` agree on every part `kept` that lies
/// outside `changed`.
proof fn lemma_frame_part(old_word: u32, new_word: u32, changed: u32, kept: u32)
    by (bit_vector)
    requires
        new_word & !changed == old_word & !changed,
        changed & kept == 0,
    ensures
        new_word & kept == old_word & kept,
{
}

/// An update on one channel leaves the half of the control register that
/// belongs to the other channel unchanged.
pub proof fn law_other_channel_untouched(cr: u32, channel: DacChannel, trigger: Trigger)
    ensures
        cr_enabled(cr, channel) & channel_half(other_channel(channel)) == cr & channel_half(
            other_channel(channel),
        ),
        cr_triggered(cr, channel, trigger) & channel_half(other_channel(channel)) == cr
            & channel_half(other_channel(channel)),
        cr_noise(cr, channel) & channel_half(other_channel(channel)) == cr & channel_half(
            other_channel(channel),
        ),
        cr_triangle(cr, channel) & channel_half(other_channel(channel)) == cr & channel_half(
            other_channel(channel),
        ),
{
    let half = channel_half(other_channel(channel));
    assert(0x0000_0001u32 & 0xFFFF_0000u32 == 0 && 0x0000_003Cu32 & 0xFFFF_0000u32 == 0
        && 0x0000_0FC0u32 & 0xFFFF_0000u32 == 0 && 0x0001_0000u32 & 0x0000_FFFFu32 == 0
        && 0x003C_0000u32 & 0x0000_FFFFu32 == 0 && 0x00C0_0000u32 & 0x0000_FFFFu32 == 0)
        by (bit_vector);
    law_enable_channel(cr, channel);
    law_set_trigger(cr, channel, trigger);
    law_noise(cr, channel);
    law_triangle(cr, channel);
    lemma_frame_part(cr, cr_enabled(cr, channel), enable_mask(channel), half);
    lemma_frame_part(cr, cr_triggered(cr, channel, trigger), trigger_mask(channel), half);
    lemma_frame_part(cr, cr_noise(cr, channel), waveform_mask(channel), half);
    lemma_frame_part(cr, cr_triangle(cr, channel), waveform_mask(channel), half);
}

/// Repeating an update, or selecting one waveform after the other, gives the
/// same word as the last update alone (`c1`, `c2` stand for trigger codes).
proof fn lemma_cr_last_update_wins(cr: u32, c1: u32, c2: u32)
    by (bit_vector)
    ensures
        with_field(with_field(cr, CR_EN1, BIT_MASK, 1), CR_EN1, BIT_MASK, 1) == with_field(cr, CR_EN1, BIT_MASK, 1),
        with_field(with_field(cr, CR_EN2, BIT_MASK, 1), CR_EN2, BIT_MASK, 1) == with_field(cr, CR_EN2, BIT_MASK, 1),
        with_field(with_field(with_field(with_field(cr, CR_TEN1, BIT_MASK, 1), CR_TSEL1, TSEL_MASK, c1), CR_TEN1, BIT_MASK, 1), CR_TSEL1, TSEL_MASK, c2)
            == with_field(with_field(cr, CR_TEN1, BIT_MASK, 1), CR_TSEL1, TSEL_MASK, c2),
        with_field(with_field(with_field(with_field(cr, CR_TEN2, BIT_MASK, 1), CR_TSEL2, TSEL_MASK, c1), CR_TEN2, BIT_MASK, 1), CR_TSEL2, TSEL_MASK, c2)
            == with_field(with_field(cr, CR_TEN2, BIT_MASK, 1), CR_TSEL2, TSEL_MASK, c2),
        with_field(with_field(with_field(with_field(cr, CR_WAVE1, WAVE_MASK, WAVE_NOISE), CR_MAMP1, MAMP_MASK, NOISE_AMPLITUDE), CR_WAVE1, WAVE_MASK, WAVE_NOISE), CR_MAMP1, MAMP_MASK, NOISE_AMPLITUDE)
            == with_field(with_field(cr, CR_WAVE1, WAVE_MASK, WAVE_NOISE), CR_MAMP1, MAMP_MASK, NOISE_AMPLITUDE),
        with_field(with_field(with_field(with_field(cr, CR_WAVE1, WAVE_MASK, WAVE_TRIANGLE), CR_MAMP1, MAMP_MASK, TRIANGLE_AMPLITUDE), CR_WAVE1, WAVE_MASK, WAVE_NOISE), CR_MAMP1, MAMP_MASK, NOISE_AMPLITUDE)
            == with_field(with_field(cr, CR_WAVE1, WAVE_MASK, WAVE_NOISE), CR_MAMP1, MAMP_MASK, NOISE_AMPLITUDE),
        with_field(with_field(with_field(with_field(cr, CR_WAVE1, WAVE_MASK, WAVE_TRIANGLE), CR_MAMP1, MAMP_MASK, TRIANGLE_AMPLITUDE), CR_WAVE1, WAVE_MASK, WAVE_TRIANGLE), CR_MAMP1, MAMP_MASK, TRIANGLE_AMPLITUDE)
            == with_field(with_field(cr, CR_WAVE1, WAVE_MASK, WAVE_TRIANGLE), CR_MAMP1, MAMP_MASK, TRIANGLE_AMPLITUDE),
        with_field(with_field(with_field(with_field(cr, CR_WAVE1, WAVE_MASK, WAVE_NOISE), CR_MAMP1, MAMP_MASK, NOISE_AMPLITUDE), CR_WAVE1, WAVE_MASK, WAVE_TRIANGLE), CR_MAMP1, MAMP_MASK, TRIANGLE_AMPLITUDE)
            == with_field(with_field(cr, CR_WAVE1, WAVE_MASK, WAVE_TRIANGLE), CR_MAMP1, MAMP_MASK, TRIANGLE_AMPLITUDE),
        with_field(with_field(cr, CR_WAVE2, WAVE_MASK, WAVE_NOISE), CR_WAVE2, WAVE_MASK, WAVE_NOISE) == with_field(cr, CR_WAVE2, WAVE_MASK, WAVE_NOISE),
        with_field(with_field(cr, CR_WAVE2, WAVE_MASK, WAVE_TRIANGLE), CR_WAVE2, WAVE_MASK, WAVE_NOISE) == with_field(cr, CR_WAVE2, WAVE_MASK, WAVE_NOISE),
        with_field(with_field(cr, CR_WAVE2, WAVE_MASK, WAVE_TRIANGLE), CR_WAVE2, WAVE_MASK, WAVE_TRIANGLE) == with_field(cr, CR_WAVE2, WAVE_MASK, WAVE_TRIANGLE),
        with_field(with_field(cr, CR_WAVE2, WAVE_MASK, WAVE_NOISE), CR_WAVE2, WAVE_MASK, WAVE_TRIANGLE) == with_field(cr, CR_WAVE2, WAVE_MASK, WAVE_TRIANGLE),
{
}

/// Each configuration step is idempotent, a later trigger selection replaces an
/// earlier one, and the waveform selected last is the one that stays.
pub proof fn law_last_update_wins(cr: u32, channel: DacChannel, first: Trigger, second: Trigger)
    ensures
        cr_enabled(cr_enabled(cr, channel), channel) == cr_enabled(cr, channel),
        cr_triggered(cr_triggered(cr, channel, first), channel, second) == cr_triggered(
            cr,
            channel,
            second,
        ),
        cr_noise(cr_noise(cr, channel), channel) == cr_noise(cr, channel),
        cr_triangle(cr_triangle(cr, channel), channel) == cr_triangle(cr, channel),
        cr_noise(cr_triangle(cr, channel), channel) == cr_noise(cr, channel),
        cr_triangle(cr_noise(cr, channel), channel) == cr_triangle(cr, channel),
{
    lemma_cr_last_update_wins(cr, trigger_code(first) as u32, trigger_code(second) as u32);
}

/// Updates of the two channels commute (`c1`, `c2` stand for trigger codes).
proof fn lemma_cr_channels_commute(cr: u32, c1: u32, c2: u32)
    by (bit_vector)
    ensures
        with_field(with_field(cr, CR_EN2, BIT_MASK, 1), CR_EN1, BIT_MASK, 1)
            == with_field(with_field(cr, CR_EN1, BIT_MASK, 1), CR_EN2, BIT_MASK, 1),
        with_field(with_field(with_field(cr, CR_TEN2, BIT_MASK, 1), CR_TSEL2, TSEL_MASK, c2), CR_EN1, BIT_MASK, 1)
            == with_field(with_field(with_field(cr, CR_EN1, BIT_MASK, 1), CR_TEN2, BIT_MASK, 1), CR_TSEL2, TSEL_MASK, c2),
        with_field(with_field(cr, CR_WAVE2, WAVE_MASK, WAVE_NOISE), CR_EN1, BIT_MASK, 1)
            == with_field(with_field(cr, CR_EN1, BIT_MASK, 1), CR_WAVE2, WAVE_MASK, WAVE_NOISE),
        with_field(with_field(cr, CR_WAVE2, WAVE_MASK, WAVE_TRIANGLE), CR_EN1, BIT_MASK, 1)
            == with_field(with_field(cr, CR_EN1, BIT_MASK, 1), CR_WAVE2, WAVE_MASK, WAVE_TRIANGLE),
        with_field(with_field(with_field(cr, CR_EN2, BIT_MASK, 1), CR_TEN1, BIT_MASK, 1), CR_TSEL1, TSEL_MASK, c1)
            == with_field(with_field(with_field(cr, CR_TEN1, BIT_MASK, 1), CR_TSEL1, TSEL_MASK, c1), CR_EN2, BIT_MASK, 1),
        with_field(with_field(with_field(with_field(cr, CR_TEN2, BIT_MASK, 1), CR_TSEL2, TSEL_MASK, c2), CR_TEN1, BIT_MASK, 1), CR_TSEL1, TSEL_MASK, c1)
            == with_field(with_field(with_field(with_field(cr, CR_TEN1, BIT_MASK, 1), CR_TSEL1, TSEL_MASK, c1), CR_TEN2, BIT_MASK, 1), CR_TSEL2, TSEL_MASK, c2),
        with_field(with_field(with_field(cr, CR_WAVE2, WAVE_MASK, WAVE_NOISE), CR_TEN1, BIT_MASK, 1), CR_TSEL1, TSEL_MASK, c1)
            == with_field(with_field(with_field(cr, CR_TEN1, BIT_MASK, 1), CR_TSEL1, TSEL_MASK, c1), CR_WAVE2, WAVE_MASK, WAVE_NOISE),
        with_field(with_field(with_field(cr, CR_WAVE2, WAVE_MASK, WAVE_TRIANGLE), CR_TEN1, BIT_MASK, 1), CR_TSEL1, TSEL_MASK, c1)
            == with_field(with_field(with_field(cr, CR_TEN1, BIT_MASK, 1), CR_TSEL1, TSEL_MASK, c1), CR_WAVE2, WAVE_MASK, WAVE_TRIANGLE),
        with_field(with_field(with_field(cr, CR_EN2, BIT_MASK, 1), CR_WAVE1, WAVE_MASK, WAVE_NOISE), CR_MAMP1, MAMP_MASK, NOISE_AMPLITUDE)
            == with_field(with_field(with_field(cr, CR_WAVE1, WAVE_MASK, WAVE_NOISE), CR_MAMP1, MAMP_MASK, NOISE_AMPLITUDE), CR_EN2, BIT_MASK, 1),
        with_field(with_field(with_field(with_field(cr, CR_TEN2, BIT_MASK, 1), CR_TSEL2, TSEL_MASK, c2), CR_WAVE1, WAVE_MASK, WAVE_NOISE), CR_MAMP1, MAMP_MASK, NOISE_AMPLITUDE)
            == with_field(with_field(with_field(with_field(cr, CR_WAVE1, WAVE_MASK, WAVE_NOISE), CR_MAMP1, MAMP_MASK, NOISE_AMPLITUDE), CR_TEN2, BIT_MASK, 1), CR_TSEL2, TSEL_MASK, c2),
        with_field(with_field(with_field(cr, CR_WAVE2, WAVE_MASK, WAVE_NOISE), CR_WAVE1, WAVE_MASK, WAVE_NOISE), CR_MAMP1, MAMP_MASK, NOISE_AMPLITUDE)
            == with_field(with_field(with_field(cr, CR_WAVE1, WAVE_MASK, WAVE_NOISE), CR_MAMP1, MAMP_MASK, NOISE_AMPLITUDE), CR_WAVE2, WAVE_MASK, WAVE_NOISE),
        with_field(with_field(with_field(cr, CR_WAVE2, WAVE_MASK, WAVE_TRIANGLE), CR_WAVE1, WAVE_MASK, WAVE_NOISE), CR_MAMP1, MAMP_MASK, NOISE_AMPLITUDE)
            == with_field(with_field(with_field(cr, CR_WAVE1, WAVE_MASK, WAVE_NOISE), CR_MAMP1, MAMP_MASK, NOISE_AMPLITUDE), CR_WAVE2, WAVE_MASK, WAVE_TRIANGLE),
        with_field(with_field(with_field(cr, CR_EN2, BIT_MASK, 1), CR_WAVE1, WAVE_MASK, WAVE_TRIANGLE), CR_MAMP1, MAMP_MASK, TRIANGLE_AMPLITUDE)
            == with_field(with_field(with_field(cr, CR_WAVE1, WAVE_MASK, WAVE_TRIANGLE), CR_MAMP1, MAMP_MASK, TRIANGLE_AMPLITUDE), CR_EN2, BIT_MASK, 1),
        with_field(with_field(with_field(with_field(cr, CR_TEN2, BIT_MASK, 1), CR_TSEL2, TSEL_MASK, c2), CR_WAVE1, WAVE_MASK, WAVE_TRIANGLE), CR_MAMP1, MAMP_MASK, TRIANGLE_AMPLITUDE)
            == with_field(with_field(with_field(with_field(cr, CR_WAVE1, WAVE_MASK, WAVE_TRIANGLE), CR_MAMP1, MAMP_MASK, TRIANGLE_AMPLITUDE), CR_TEN2, BIT_MASK, 1), CR_TSEL2, TSEL_MASK, c2),
        with_field(with_field(with_field(cr, CR_WAVE2, WAVE_MASK, WAVE_NOISE), CR_WAVE1, WAVE_MASK, WAVE_TRIANGLE), CR_MAMP1, MAMP_MASK, TRIANGLE_AMPLITUDE)
            == with_field(with_field(with_field(cr, CR_WAVE1, WAVE_MASK, WAVE_TRIANGLE), CR_MAMP1, MAMP_MASK, TRIANGLE_AMPLITUDE), CR_WAVE2, WAVE_MASK, WAVE_NOISE),
        with_field(with_field(with_field(cr, CR_WAVE2, WAVE_MASK, WAVE_TRIANGLE), CR_WAVE1, WAVE_MASK, WAVE_TRIANGLE), CR_MAMP1, MAMP_MASK, TRIANGLE_AMPLITUDE)
            == with_field(with_field(with_field(cr, CR_WAVE1, WAVE_MASK, WAVE_TRIANGLE), CR_MAMP1, MAMP_MASK, TRIANGLE_AMPLITUDE), CR_WAVE2, WAVE_MASK, WAVE_TRIANGLE),
{
}

/// The two channels are configured independently: any update of channel 1 and
/// any update of channel 2 give the same word in either order.
pub proof fn law_channels_commute(cr: u32, first: Trigger, second: Trigger)
    ensures
        cr_enabled(cr_enabled(cr, DacChannel::Two), DacChannel::One) == cr_enabled(cr_enabled(cr, DacChannel::One), DacChannel::Two),
        cr_enabled(cr_triggered(cr, DacChannel::Two, second), DacChannel::One) == cr_triggered(cr_enabled(cr, DacChannel::One), DacChannel::Two, second),
        cr_enabled(cr_noise(cr, DacChannel::Two), DacChannel::One) == cr_noise(cr_enabled(cr, DacChannel::One), DacChannel::Two),
        cr_enabled(cr_triangle(cr, DacChannel::Two), DacChannel::One) == cr_triangle(cr_enabled(cr, DacChannel::One), DacChannel::Two),
        cr_triggered(cr_enabled(cr, DacChannel::Two), DacChannel::One, first) == cr_enabled(cr_triggered(cr, DacChannel::One, first), DacChannel::Two),
        cr_triggered(cr_triggered(cr, DacChannel::Two, second), DacChannel::One, first) == cr_triggered(cr_triggered(cr, DacChannel::One, first), DacChannel::Two, second),
        cr_triggered(cr_noise(cr, DacChannel::Two), DacChannel::One, first) == cr_noise(cr_triggered(cr, DacChannel::One, first), DacChannel::Two),
        cr_triggered(cr_triangle(cr, DacChannel::Two), DacChannel::One, first) == cr_triangle(cr_triggered(cr, DacChannel::One, first), DacChannel::Two),
        cr_noise(cr_enabled(cr, DacChannel::Two), DacChannel::One) == cr_enabled(cr_noise(cr, DacChannel::One), DacChannel::Two),
        cr_noise(cr_triggered(cr, DacChannel::Two, second), DacChannel::One) == cr_triggered(cr_noise(cr, DacChannel::One), DacChannel::Two, second),
        cr_noise(cr_noise(cr, DacChannel::Two), DacChannel::One) == cr_noise(cr_noise(cr, DacChannel::One), DacChannel::Two),
        cr_noise(cr_triangle(cr, DacChannel::Two), DacChannel::One) == cr_triangle(cr_noise(cr, DacChannel::One), DacChannel::Two),
        cr_triangle(cr_enabled(cr, DacChannel::Two), DacChannel::One) == cr_enabled(cr_triangle(cr, DacChannel::One), DacChannel::Two),
        cr_triangle(cr_triggered(cr, DacChannel::Two, second), DacChannel::One) == cr_triggered(cr_triangle(cr, DacChannel::One), DacChannel::Two, second),
        cr_triangle(cr_noise(cr, DacChannel::Two), DacChannel::One) == cr_noise(cr_triangle(cr, DacChannel::One), DacChannel::Two),
        cr_triangle(cr_triangle(cr, DacChannel::Two), DacChannel::One) == cr_triangle(cr_triangle(cr, DacChannel::One), DacChannel::Two),
{
    lemma_cr_channels_commute(cr, trigger_code(first) as u32, trigger_code(second) as u32);
}

/// Different triggers have different codes, and every code fits the three-bit
/// selection field.
pub proof fn law_trigger_codes(a: Trigger, b: Trigger)
    ensures
        trigger_code(a) < 8,
        trigger_code(a) == trigger_code(b) ==> a == b,
        trigger_code(Trigger::Tim6) == 0 && trigger_code(Trigger::Tim3_8) == 1 && trigger_code(
            Trigger::Tim7,
        ) == 2 && trigger_code(Trigger::Tim5) == 3 && trigger_code(Trigger::Tim2) == 4
            && trigger_code(Trigger::Tim4) == 5 && trigger_code(Trigger::Exti9) == 6
            && trigger_code(Trigger::Swtrig) == 7,
{
}

/// The APB1 clock-enable word with the converter's clock switched on.
pub open spec fn apb1enr_dac_enabled(apb1enr: u32) -> u32 {
    with_field(apb1enr, RCC_APB1_DAC1, BIT_MASK, 1)
}

/// The APB1 reset word with the converter held in reset.
pub open spec fn apb1rstr_dac_held(apb1rstr: u32) -> u32 {
    with_field(apb1rstr, RCC_APB1_DAC1, BIT_MASK, 1)
}

/// The APB1 reset word with the converter let out of reset.
pub open spec fn apb1rstr_dac_released(apb1rstr: u32) -> u32 {
    with_field(apb1rstr, RCC_APB1_DAC1, BIT_MASK, 0)
}

impl DacDevice {
    /// The APB1 clock-enable word that switches on this converter's clock.
    pub fn clock_enable_word(&self, apb1enr: u32) -> (r: u32)
        requires
            *self == DacDevice::One,
        ensures
            r == apb1enr_dac_enabled(apb1enr),
    {
        set_field(apb1enr, RCC_APB1_DAC1, BIT_MASK, 1)
    }

    /// The APB1 reset word that holds this converter in reset.
    pub fn reset_hold_word(&self, apb1rstr: u32) -> (r: u32)
        requires
            *self == DacDevice::One,
        ensures
            r == apb1rstr_dac_held(apb1rstr),
    {
        set_field(apb1rstr, RCC_APB1_DAC1, BIT_MASK, 1)
    }

    /// The APB1 reset word that lets this converter out of reset.
    pub fn reset_release_word(&self, apb1rstr: u32) -> (r: u32)
        requires
            *self == DacDevice::One,
        ensures
            r == apb1rstr_dac_released(apb1rstr),
    {
        set_field(apb1rstr, RCC_APB1_DAC1, BIT_MASK, 0)
    }
}

/// Enabling the clock sets the converter's bit; the reset pulse sets it and then
/// clears it; neither touches another peripheral's bit, and a pulse on a word
/// whose converter bit was clear gives the word back unchanged.
pub proof fn law_clock_and_reset(apb1enr: u32, apb1rstr: u32)
    ensures
        field(apb1enr_dac_enabled(apb1enr), RCC_APB1_DAC1, BIT_MASK) == 1,
        apb1enr_dac_enabled(apb1enr) & !0x2000_0000u32 == apb1enr & !0x2000_0000u32,
        field(apb1rstr_dac_held(apb1rstr), RCC_APB1_DAC1, BIT_MASK) == 1,
        field(apb1rstr_dac_released(apb1rstr_dac_held(apb1rstr)), RCC_APB1_DAC1, BIT_MASK) == 0,
        apb1rstr_dac_released(apb1rstr_dac_held(apb1rstr)) & !0x2000_0000u32 == apb1rstr
            & !0x2000_0000u32,
        field(apb1rstr, RCC_APB1_DAC1, BIT_MASK) == 0 ==> apb1rstr_dac_released(
            apb1rstr_dac_held(apb1rstr),
        ) == apb1rstr,
{
    assert(field(with_field(apb1enr, 29, 1, 1), 29, 1) == 1 && with_field(apb1enr, 29, 1, 1)
        & !0x2000_0000u32 == apb1enr & !0x2000_0000u32 && field(with_field(apb1rstr, 29, 1, 1), 29, 1)
        == 1 && field(with_field(with_field(apb1rstr, 29, 1, 1), 29, 1, 0), 29, 1) == 0
        && with_field(with_field(apb1rstr, 29, 1, 1), 29, 1, 0) & !0x2000_0000u32 == apb1rstr
        & !0x2000_0000u32 && (field(apb1rstr, 29, 1) == 0 ==> with_field(
        with_field(apb1rstr, 29, 1, 1),
        29,
        1,
        0,
    ) == apb1rstr)) by (bit_vector);
}

/// A write of a whole RCC register.
#[derive(Clone, Copy, Debug, PartialEq, Eq)]
pub enum RccWrite {
    /// APB1 peripheral clock-enable register.
    Apb1enr(u32),
    /// APB1 peripheral reset register.
    Apb1rstr(u32),
}

/// The writes that bring the converter up, given the two RCC words before: its
/// clock is enabled first, then a reset pulse is applied and released.
pub open spec fn power_up_sequence(apb1enr: u32, apb1rstr: u32) -> Seq<RccWrite> {
    seq![
        RccWrite::Apb1enr(apb1enr_dac_enabled(apb1enr)),
        RccWrite::Apb1rstr(apb1rstr_dac_held(apb1rstr)),
        RccWrite::Apb1rstr(apb1rstr_dac_released(apb1rstr_dac_held(apb1rstr))),
    ]
}

impl DacDevice {
    /// The RCC writes, in order, that enable this converter's clock and reset
    /// it, given the APB1 clock-enable and reset words before.
    pub fn power_up_writes(&self, apb1enr: u32, apb1rstr: u32) -> (writes: Vec<RccWrite>)
        requires
            *self == DacDevice::One,
        ensures
            writes@ == power_up_sequence(apb1enr, apb1rstr),
    {
        let held = self.reset_hold_word(apb1rstr);
        let mut writes: Vec<RccWrite> = Vec::new();
        writes.push(RccWrite::Apb1enr(self.clock_enable_word(apb1enr)));
        writes.push(RccWrite::Apb1rstr(held));
        writes.push(RccWrite::Apb1rstr(self.reset_release_word(held)));
        writes
    }
}

/// After the power-up writes the converter's clock is on and its reset is
/// released; no other peripheral's bit of either register changes, and a reset
/// word whose converter bit was clear ends as it was.
pub proof fn law_power_up(apb1enr: u32, apb1rstr: u32)
    ensures
        power_up_sequence(apb1enr, apb1rstr).len() == 3,
        power_up_sequence(apb1enr, apb1rstr)[0] matches RccWrite::Apb1enr(enr) && field(
            enr,
            RCC_APB1_DAC1,
            BIT_MASK,
        ) == 1 && enr & !0x2000_0000u32 == apb1enr & !0x2000_0000u32,
        power_up_sequence(apb1enr, apb1rstr)[1] matches RccWrite::Apb1rstr(held) && field(
            held,
            RCC_APB1_DAC1,
            BIT_MASK,
        ) == 1,
        power_up_sequence(apb1enr, apb1rstr)[2] matches RccWrite::Apb1rstr(rstr) && field(
            rstr,
            RCC_APB1_DAC1,
            BIT_MASK,
        ) == 0 && rstr & !0x2000_0000u32 == apb1rstr & !0x2000_0000u32 && (field(
            apb1rstr,
            RCC_APB1_DAC1,
            BIT_MASK,
        ) == 0 ==> rstr == apb1rstr),
{
    law_clock_and_reset(apb1enr, apb1rstr);
}

/// Plain values of the converter registers that the configuration steps and the
/// sample writes touch.
#[derive(Clone, Copy, Debug, PartialEq, Eq)]
pub struct DacRegisters {
    /// Control register.
    pub cr: u32,
    /// Channel 1 12-bit right-aligned data holding register.
    pub dhr12r1: u32,
    /// Channel 1 12-bit left-aligned data holding register.
    pub dhr12l1: u32,
    /// Channel 1 8-bit right-aligned data holding register.
    pub dhr8r1: u32,
}

impl DacRegisters {
    /// The same registers with another control word.
    pub open spec fn with_cr(self, cr: u32) -> DacRegisters {
        DacRegisters { cr, ..self }
    }

    /// The same registers after `data` is written to the holding register that
    /// the alignment selects.
    pub open spec fn with_sample(self, bits: DacBitAlignment, data: u32) -> DacRegisters {
        match bits {
            DacBitAlignment::EightRight => DacRegisters { dhr8r1: data, ..self },
            DacBitAlignment::TwelveLeft => DacRegisters { dhr12l1: data, ..self },
            DacBitAlignment::TwelveRight => DacRegisters { dhr12r1: data, ..self },
        }
    }
}

/// Represents a Digital to Analog Converter (DAC) peripheral, by the values of
/// its registers.
pub struct Dac {
    pub regs: DacRegisters,
    pub device: DacDevice,
    pub bits: DacBitAlignment,
}

impl Dac {
    /// A converter whose registers hold `regs`. Only the first converter is
    /// supported.
    pub fn new(regs: DacRegisters, device: DacDevice, bits: DacBitAlignment) -> (dac: Self)
        requires
            device == DacDevice::One,
        ensures
            dac.regs == regs,
            dac.device == device,
            dac.bits == bits,
    {
        Dac { regs, device, bits }
    }

    /// Switches the channel on.
    pub fn enable_channel(&mut self, channel: DacChannel)
        ensures
            final(self).regs == old(self).regs.with_cr(cr_enabled(old(self).regs.cr, channel)),
            final(self).regs.cr == cr_enabled(old(self).regs.cr, channel),
            final(self).regs.dhr12r1 == old(self).regs.dhr12r1,
            final(self).regs.dhr12l1 == old(self).regs.dhr12l1,
            final(self).regs.dhr8r1 == old(self).regs.dhr8r1,
            final(self).device == old(self).device,
            final(self).bits == old(self).bits,
    {
        self.regs.cr = cr_with_channel_enabled(self.regs.cr, channel);
    }

    /// Select and activate a trigger. See f303 Reference manual, section 16.5.4.
    /// Each time a DAC interface detects a rising edge on the selected trigger source,
    /// the last data stored into the DAC_DHRx register are transferred into the
    /// DAC_DORx register.
    pub fn set_trigger(&mut self, channel: DacChannel, trigger: Trigger)
        ensures
            final(self).regs == old(self).regs.with_cr(
                cr_triggered(old(self).regs.cr, channel, trigger),
            ),
            final(self).regs.cr == cr_triggered(old(self).regs.cr, channel, trigger),
            final(self).regs.dhr12r1 == old(self).regs.dhr12r1,
            final(self).regs.dhr12l1 == old(self).regs.dhr12l1,
            final(self).regs.dhr8r1 == old(self).regs.dhr8r1,
            final(self).device == old(self).device,
            final(self).bits == old(self).bits,
    {
        self.regs.cr = cr_with_trigger(self.regs.cr, channel, trigger);
    }

    /// Selects noise generation on the channel.
    pub fn enable_noise_gen(&mut self, channel: DacChannel)
        ensures
            final(self).regs == old(self).regs.with_cr(cr_noise(old(self).regs.cr, channel)),
            final(self).regs.cr == cr_noise(old(self).regs.cr, channel),
            final(self).regs.dhr12r1 == old(self).regs.dhr12r1,
            final(self).regs.dhr12l1 == old(self).regs.dhr12l1,
            final(self).regs.dhr8r1 == old(self).regs.dhr8r1,
            final(self).device == old(self).device,
            final(self).bits == old(self).bits,
    {
        self.regs.cr = cr_with_noise(self.regs.cr, channel);
    }

    /// Selects triangle generation on the channel.
    pub fn enable_triangle_gen(&mut self, channel: DacChannel)
        ensures
            final(self).regs == old(self).regs.with_cr(cr_triangle(old(self).regs.cr, channel)),
            final(self).regs.cr == cr_triangle(old(self).regs.cr, channel),
            final(self).regs.dhr12r1 == old(self).regs.dhr12r1,
            final(self).regs.dhr12l1 == old(self).regs.dhr12l1,
            final(self).regs.dhr8r1 == old(self).regs.dhr8r1,
            final(self).device == old(self).device,
            final(self).bits == old(self).bits,
    {
        self.regs.cr = cr_with_triangle(self.regs.cr, channel);
    }

    /// Writes a sample to channel 1's holding register of the chosen alignment.
    pub fn write_data(&mut self, data: u32)
        ensures
            final(self).regs == old(self).regs.with_sample(old(self).bits, data),
            final(self).device == old(self).device,
            final(self).bits == old(self).bits,
    {
        match self.bits {
            DacBitAlignment::EightRight => {
                self.regs.dhr8r1 = data;
            },
            DacBitAlignment::TwelveLeft => {
                self.regs.dhr12l1 = data;
            },
            DacBitAlignment::TwelveRight => {
                self.regs.dhr12r1 = data;
            },
        }
    }
}

/// A written sample reads back from the holding register that the alignment
/// selects; the control register and the other holding registers keep their
/// values.
pub proof fn law_write_data(regs: DacRegisters, bits: DacBitAlignment, data: u32)
    ensures
        regs.with_sample(bits, data).cr == regs.cr,
        bits == DacBitAlignment::EightRight ==> regs.with_sample(bits, data).dhr8r1 == data
            && regs.with_sample(bits, data).dhr12l1 == regs.dhr12l1 && regs.with_sample(
            bits,
            data,
        ).dhr12r1 == regs.dhr12r1,
        bits == DacBitAlignment::TwelveLeft ==> regs.with_sample(bits, data).dhr12l1 == data
            && regs.with_sample(bits, data).dhr8r1 == regs.dhr8r1 && regs.with_sample(
            bits,
            data,
        ).dhr12r1 == regs.dhr12r1,
        bits == DacBitAlignment::TwelveRight ==> regs.with_sample(bits, data).dhr12r1 == data
            && regs.with_sample(bits, data).dhr8r1 == regs.dhr8r1 && regs.with_sample(
            bits,
            data,
        ).dhr12l1 == regs.dhr12l1,
{
}

/// Whatever the APB1 words were before: enabling the clock sets bit 29 of the
/// clock-enable word, holding the reset sets bit 29 of the reset word, releasing
/// it clears bit 29, and none of them changes any other bit.
pub proof fn law_rcc_words(w: u32)
    ensures
        (apb1enr_dac_enabled(w) >> 29u32) & 1 == 1,
        apb1enr_dac_enabled(w) & !0x2000_0000u32 == w & !0x2000_0000u32,
        (apb1rstr_dac_held(w) >> 29u32) & 1 == 1,
        apb1rstr_dac_held(w) & !0x2000_0000u32 == w & !0x2000_0000u32,
        (apb1rstr_dac_released(w) >> 29u32) & 1 == 0,
        apb1rstr_dac_released(w) & !0x2000_0000u32 == w & !0x2000_0000u32,
{
    assert((with_field(w, 29, 1, 1) >> 29u32) & 1 == 1 && with_field(w, 29, 1, 1)
        & !0x2000_0000u32 == w & !0x2000_0000u32 && (with_field(w, 29, 1, 0) >> 29u32) & 1 == 0
        && with_field(w, 29, 1, 0) & !0x2000_0000u32 == w & !0x2000_0000u32) by (bit_vector);
}

/// Replacing the control word of the register image stores exactly that word
/// and keeps the holding registers; storing a sample stores exactly that value
/// in the selected holding register and keeps the rest.
pub proof fn law_register_image(regs: DacRegisters, cr: u32, bits: DacBitAlignment, data: u32)
    ensures
        regs.with_cr(cr).cr == cr,
        regs.with_cr(cr).dhr12r1 == regs.dhr12r1,
        regs.with_cr(cr).dhr12l1 == regs.dhr12l1,
        regs.with_cr(cr).dhr8r1 == regs.dhr8r1,
        regs.with_sample(bits, data).cr == regs.cr,
        (bits == DacBitAlignment::EightRight ==> regs.with_sample(bits, data).dhr8r1 == data),
        (bits == DacBitAlignment::TwelveLeft ==> regs.with_sample(bits, data).dhr12l1 == data),
        (bits == DacBitAlignment::TwelveRight ==> regs.with_sample(bits, data).dhr12r1 == data),
{
}

/// Whatever was selected before, after a configuration step of the register
/// image the step's fields hold its values: the trigger selection field holds
/// the new trigger's code, and the wave field holds the last waveform chosen.
pub proof fn law_image_steps_replace(regs: DacRegisters, channel: DacChannel, trigger: Trigger)
    ensures
        field(
            regs.with_cr(cr_triggered(regs.cr, channel, trigger)).cr,
            tsel_lo(channel),
            TSEL_MASK,
        ) == trigger_code(trigger),
        field(regs.with_cr(cr_triggered(regs.cr, channel, trigger)).cr, ten_bit(channel), BIT_MASK)
            == 1,
        field(regs.with_cr(cr_enabled(regs.cr, channel)).cr, en_bit(channel), BIT_MASK) == 1,
        field(regs.with_cr(cr_noise(regs.cr, channel)).cr, wave_lo(channel), WAVE_MASK)
            == WAVE_NOISE,
        field(regs.with_cr(cr_triangle(regs.cr, channel)).cr, wave_lo(channel), WAVE_MASK)
            == WAVE_TRIANGLE,
{
    law_set_trigger(regs.cr, channel, trigger);
    law_enable_channel(regs.cr, channel);
    law_noise(regs.cr, channel);
    law_triangle(regs.cr, channel);
}

} // verus!
