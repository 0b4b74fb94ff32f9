use ribbon_cv::hw::{
    adc_fs_to_normalized, dac8164_frame, decode_mode_switch, normalized_to_dac_fs,
    take_update_flag, AdcPin, Dac8164Channel, Switch3wayState, ADC_MAX, DAC_MAX, LEVEL_ONE,
    NUM_ADC_DMA_SIGNALS,
};

#[test]
fn adc_zero_is_zero() {
    assert_eq!(adc_fs_to_normalized(0), 0);
}

#[test]
fn adc_full_scale_is_one() {
    assert_eq!(adc_fs_to_normalized(ADC_MAX), LEVEL_ONE);
}

#[test]
fn adc_above_full_scale_is_clamped() {
    assert_eq!(adc_fs_to_normalized(ADC_MAX + 1), LEVEL_ONE);
    assert_eq!(adc_fs_to_normalized(u16::MAX), LEVEL_ONE);
}

#[test]
fn adc_half_scale_is_half() {
    assert_eq!(adc_fs_to_normalized(ADC_MAX / 2), LEVEL_ONE / 2);
}

#[test]
fn adc_every_reading_in_range() {
    for raw in 0..=u16::MAX {
        let v = adc_fs_to_normalized(raw);
        assert!(0 <= v && v <= LEVEL_ONE);
    }
}

#[test]
fn dac_negative_is_zero() {
    assert_eq!(normalized_to_dac_fs(-5 * LEVEL_ONE), 0);
}

#[test]
fn dac_above_one_is_full_scale() {
    assert_eq!(normalized_to_dac_fs(2 * LEVEL_ONE), DAC_MAX);
    assert_eq!(normalized_to_dac_fs(LEVEL_ONE), DAC_MAX);
}

#[test]
fn dac_half_is_half_scale() {
    assert_eq!(normalized_to_dac_fs(LEVEL_ONE / 2), DAC_MAX / 2);
    assert_eq!(normalized_to_dac_fs(LEVEL_ONE / 2), 8191);
}

#[test]
fn dac_frame_full_scale_channel_a() {
    let f = dac8164_frame(LEVEL_ONE, Dac8164Channel::A);
    assert_eq!(f, [0x10, 0xFF, 0xFC]);
    let shifted = (DAC_MAX as u32) << 2;
    assert_eq!(f[1] as u32, shifted >> 8);
    assert_eq!(f[2] as u32, shifted & 0xFF);
}

#[test]
fn dac_frame_half_scale_channel_b() {
    assert_eq!(dac8164_frame(LEVEL_ONE / 2, Dac8164Channel::B), [0x12, 0x7F, 0xFC]);
}

#[test]
fn dac_frame_select_codes() {
    assert_eq!(dac8164_frame(0, Dac8164Channel::C), [0x14, 0, 0]);
    assert_eq!(dac8164_frame(-1, Dac8164Channel::D), [0x16, 0, 0]);
    assert_eq!(Dac8164Channel::D.select_code(), 0b110);
}

#[test]
fn mode_switch_truth_table() {
    assert_eq!(decode_mode_switch(false, true), Switch3wayState::Up);
    assert_eq!(decode_mode_switch(false, false), Switch3wayState::Middle);
    assert_eq!(decode_mode_switch(true, false), Switch3wayState::Down);
    assert_eq!(decode_mode_switch(true, true), Switch3wayState::Down);
}

#[test]
fn adc_pin_indices() {
    assert_eq!(AdcPin::PA0.index(), 0);
    assert_eq!(AdcPin::PA4.index(), NUM_ADC_DMA_SIGNALS - 1);
}

#[test]
fn timer_flag_clears_on_read_when_set() {
    assert_eq!(take_update_flag(1), (true, 0));
    assert_eq!(take_update_flag(0b11), (true, 0b10));
}

#[test]
fn timer_flag_untouched_when_clear() {
    assert_eq!(take_update_flag(0), (false, 0));
    assert_eq!(take_update_flag(0b10), (false, 0b10));
}
