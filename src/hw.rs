//! Converter scaling, the DAC8164 wire frame, the mode switch and timer flags.

use vstd::arithmetic::div_mod::lemma_div_is_ordered;
use vstd::arithmetic::mul::lemma_mul_inequality;
use vstd::prelude::*;

verus! {

/// The frequency of the main system clock.
pub const SYST_CLK_FREQ_MHZ: u32 = 80;

/// The frequency of the fast periodic timer, which paces ribbon sampling.
pub const TIM2_FREQ_HZ: u32 = 5_000;

/// The frequency of the slow periodic timer, which paces the user interface.
pub const TIM6_FREQ_HZ: u32 = 30;

/// The clock frequency of the DAC's synchronous bus.
pub const SPI_CLK_FREQ_MHZ: u32 = 20;

/// The baud rate of MIDI.
pub const MIDI_BAUD_RATE_HZ: u32 = 31_250;

/// The largest value the oversampled analog to digital converter produces.
pub const ADC_MAX: u16 = 0xFFF0;

/// The largest value the 14-bit digital to analog converter accepts.
pub const DAC_MAX: u16 = 16_383;

/// The number of analog inputs sampled into the converter buffer.
pub const NUM_ADC_DMA_SIGNALS: usize = 5;

/// The fixed-point representation of 1.0.
pub const LEVEL_ONE: i64 = 786_432;

/// One semitone, 1/12 of [`LEVEL_ONE`].
pub const SEMITONE: i64 = 65_536;

/// Half a semitone.
pub const HALF_SEMITONE: i64 = 32_768;

/// Bit of the DAC8164 control byte that loads the written value at once.
pub const DAC_LOAD_NOW: u8 = 0x10;

/// Pins which may be read by the analog to digital converter.
#[derive(Clone, Copy, Debug, PartialEq, Eq, Structural)]
pub enum AdcPin {
    PA0,
    PA1,
    PA2,
    PA3,
    PA4,
}

impl AdcPin {
    pub open spec fn index_spec(self) -> nat {
        match self {
            AdcPin::PA0 => 0,
            AdcPin::PA1 => 1,
            AdcPin::PA2 => 2,
            AdcPin::PA3 => 3,
            AdcPin::PA4 => 4,
        }
    }

    /// The slot of the converter buffer that holds this pin's reading.
    pub fn index(self) -> (r: usize)
        ensures
            r == self.index_spec(),
            r < NUM_ADC_DMA_SIGNALS,
    {
        match self {
            AdcPin::PA0 => 0,
            AdcPin::PA1 => 1,
            AdcPin::PA2 => 2,
            AdcPin::PA3 => 3,
            AdcPin::PA4 => 4,
        }
    }
}

/// Channels of the onboard DAC8164.
#[derive(Clone, Copy, Debug, PartialEq, Eq, Structural)]
pub enum Dac8164Channel {
    A,
    B,
    C,
    D,
}

impl Dac8164Channel {
    pub open spec fn select_code_spec(self) -> u8 {
        match self {
            Dac8164Channel::A => 0b000,
            Dac8164Channel::B => 0b010,
            Dac8164Channel::C => 0b100,
            Dac8164Channel::D => 0b110,
        }
    }

    /// The channel-select bits of the control byte.
    pub fn select_code(self) -> (r: u8)
        ensures
            r == self.select_code_spec(),
            r < 8,
    {
        match self {
            Dac8164Channel::A => 0b000,
            Dac8164Channel::B => 0b010,
            Dac8164Channel::C => 0b100,
            Dac8164Channel::D => 0b110,
        }
    }
}

/// Positions of a 3-way switch.
#[derive(Clone, Copy, Debug, PartialEq, Eq, Structural)]
pub enum Switch3wayState {
    Up,
    Middle,
    Down,
}

pub open spec fn switch_state_of(first_low: bool, second_low: bool) -> Switch3wayState {
    if !first_low && second_low {
        Switch3wayState::Up
    } else if !first_low && !second_low {
        Switch3wayState::Middle
    } else {
        Switch3wayState::Down
    }
}

/// The position of the on-off-on switch that grounds one of two pulled-up pins.
///
/// A grounded first pin means Down; so does the inconsistent case of both pins
/// grounded, so that a faulty switch still yields a position.
pub fn decode_mode_switch(first_low: bool, second_low: bool) -> (r: Switch3wayState)
    ensures
        r == switch_state_of(first_low, second_low),
        (!first_low && second_low) <==> r == Switch3wayState::Up,
        (!first_low && !second_low) <==> r == Switch3wayState::Middle,
        first_low <==> r == Switch3wayState::Down,
{
    match (first_low, second_low) {
        (false, true) => Switch3wayState::Up,
        (false, false) => Switch3wayState::Middle,
        _ => Switch3wayState::Down,
    }
}

/// A raw converter reading clamped to the converter's full scale.
pub open spec fn clamp_adc(raw: int) -> int {
    if raw > ADC_MAX {
        ADC_MAX as int
    } else {
        raw
    }
}

/// A raw converter reading as a level in `[0, LEVEL_ONE]`, rounded down.
pub open spec fn normalized_of_adc(raw: int) -> int {
    clamp_adc(raw) * LEVEL_ONE / (ADC_MAX as int)
}

/// `adc_fs_to_normalized(v)` is the converter reading `v` with its full scale
/// mapped onto `[0, LEVEL_ONE]`; readings above the full scale are clamped.
pub fn adc_fs_to_normalized(raw: u16) -> (r: i64)
    ensures
        r == normalized_of_adc(raw as int),
        0 <= r <= LEVEL_ONE,
{
    let clamped: u16 = if raw > ADC_MAX {
        ADC_MAX
    } else {
        raw
    };
    proof {
        lemma_mul_inequality(clamped as int, ADC_MAX as int, LEVEL_ONE as int);
        lemma_div_is_ordered(clamped * LEVEL_ONE, ADC_MAX * LEVEL_ONE, ADC_MAX as int);
        lemma_div_is_ordered(0, clamped * LEVEL_ONE, ADC_MAX as int);
        assert(ADC_MAX * LEVEL_ONE / (ADC_MAX as int) == LEVEL_ONE) by (nonlinear_arith);
    }
    (clamped as i64) * LEVEL_ONE / (ADC_MAX as i64)
}

/// A level clamped to `[0, LEVEL_ONE]`.
pub open spec fn clamp_level(v: int) -> int {
    if v < 0 {
        0
    } else if v > LEVEL_ONE {
        LEVEL_ONE as int
    } else {
        v
    }
}

/// A level as a DAC code in `[0, DAC_MAX]`, rounded down.
pub open spec fn dac_code_of(v: int) -> int {
    clamp_level(v) * DAC_MAX / (LEVEL_ONE as int)
}

/// `normalized_to_dac_fs(v)` is the level `v` expanded to the DAC's full scale;
/// levels outside `[0, LEVEL_ONE]` are clamped.
pub fn normalized_to_dac_fs(v: i64) -> (r: u16)
    ensures
        r == dac_code_of(v as int),
        r <= DAC_MAX,
{
    let clamped: i64 = if v < 0 {
        0
    } else if v > LEVEL_ONE {
        LEVEL_ONE
    } else {
        v
    };
    proof {
        lemma_mul_inequality(clamped as int, LEVEL_ONE as int, DAC_MAX as int);
        lemma_div_is_ordered(clamped * DAC_MAX, LEVEL_ONE * DAC_MAX, LEVEL_ONE as int);
        lemma_div_is_ordered(0, clamped * DAC_MAX, LEVEL_ONE as int);
        assert(LEVEL_ONE * DAC_MAX / (LEVEL_ONE as int) == DAC_MAX) by (nonlinear_arith);
    }
    (clamped * (DAC_MAX as i64) / LEVEL_ONE) as u16
}

/// The three bytes sent to the DAC8164 to load `code` into `channel` at once:
/// the control byte, then the 14-bit code shifted left by two, high byte first.
pub open spec fn dac_frame_of(code: int, channel: Dac8164Channel) -> Seq<u8> {
    seq![
        (channel.select_code_spec() + DAC_LOAD_NOW) as u8,
        (code * 4 / 256) as u8,
        (code * 4 % 256) as u8,
    ]
}

/// `dac8164_frame(v, c)` is the bus frame that sets channel `c` of the DAC to
/// the level `v`, clamped to `[0, LEVEL_ONE]`.
pub fn dac8164_frame(v: i64, channel: Dac8164Channel) -> (r: [u8; 3])
    ensures
        r@ == dac_frame_of(dac_code_of(v as int), channel),
{
    let code: u16 = normalized_to_dac_fs(v);
    let shifted: u16 = code * 4;
    let control: u8 = channel.select_code() + DAC_LOAD_NOW;
    let high: u8 = (shifted / 256) as u8;
    let low: u8 = (shifted % 256) as u8;
    let r = [control, high, low];
    assert(r@ =~= dac_frame_of(dac_code_of(v as int), channel));
    r
}

/// Bit of a timer's status register that is set when the timer has elapsed.
pub const TIMER_UPDATE_FLAG: u32 = 1;

/// `take_update_flag(sr)` reads a timer's status register value `sr`: whether
/// the timer has elapsed, and the value to write back, with the flag cleared
/// if it was set and untouched otherwise.
pub fn take_update_flag(sr: u32) -> (r: (bool, u32))
    ensures
        r.0 == (sr % 2 == 1),
        r.1 == (if r.0 { sr - 1 } else { sr as int }),
        r.1 % 2 == 0,
{
    if sr % 2 == 1 {
        (true, sr - TIMER_UPDATE_FLAG)
    } else {
        (false, sr)
    }
}

/// Normalizing a converter reading yields a level in `[0, LEVEL_ONE]`; zero is
/// 0.0, and the full scale and everything above it are 1.0.
pub proof fn lemma_adc_normalized_range(raw: u16, k: u16)
    requires
        k > 0,
        ADC_MAX + k <= u16::MAX,
    ensures
        0 <= normalized_of_adc(raw as int) <= LEVEL_ONE,
        normalized_of_adc(0) == 0,
        normalized_of_adc(ADC_MAX as int) == LEVEL_ONE,
        normalized_of_adc(ADC_MAX + k) == LEVEL_ONE,
{
    let c = clamp_adc(raw as int);
    lemma_mul_inequality(c, ADC_MAX as int, LEVEL_ONE as int);
    lemma_div_is_ordered(c * LEVEL_ONE, ADC_MAX * LEVEL_ONE, ADC_MAX as int);
    lemma_div_is_ordered(0, c * LEVEL_ONE, ADC_MAX as int);
    assert(ADC_MAX * LEVEL_ONE / (ADC_MAX as int) == LEVEL_ONE) by (nonlinear_arith);
}

/// Expanding a level to the DAC's full scale yields a code in `[0, DAC_MAX]`;
/// negative levels give 0, levels of 1.0 and above give `DAC_MAX`, and one half
/// gives half the full scale, rounded down.
pub proof fn lemma_dac_code_range(v: int)
    ensures
        0 <= dac_code_of(v) <= DAC_MAX,
        v <= 0 ==> dac_code_of(v) == 0,
        v >= LEVEL_ONE ==> dac_code_of(v) == DAC_MAX,
        dac_code_of(LEVEL_ONE / 2) == DAC_MAX / 2,
{
    let c = clamp_level(v);
    lemma_mul_inequality(c, LEVEL_ONE as int, DAC_MAX as int);
    lemma_div_is_ordered(c * DAC_MAX, LEVEL_ONE * DAC_MAX, LEVEL_ONE as int);
    lemma_div_is_ordered(0, c * DAC_MAX, LEVEL_ONE as int);
    assert(LEVEL_ONE * DAC_MAX / (LEVEL_ONE as int) == DAC_MAX) by (nonlinear_arith);
    assert((LEVEL_ONE / 2) * DAC_MAX / (LEVEL_ONE as int) == DAC_MAX / 2) by (nonlinear_arith);
}

} // verus!
