//! Command encoding, configuration values, cursor addressing, raw drawing
//! and the bus interface constructors.

use ssd1315::command::Command;
use ssd1315::command::DisplaySwitch;
use ssd1315::command::EntireDisplaySwitch;
use ssd1315::command::oled_set_cursor;
use ssd1315::config::ChargePump;
use ssd1315::config::ComOutputScanDirection;
use ssd1315::config::NormalOrInverseDisplay;
use ssd1315::config::SegmentRemap;
use ssd1315::config::Ssd1315DisplayConfig;
use ssd1315::interface::I2cDisplayInterface;
use ssd1315::interface::SpiDisplayInterface;
use ssd1315::transport::RecordedTransmission;
use ssd1315::transport::RecordingTransport;
use ssd1315::DrawFromRaw;
use ssd1315::Ssd1315;

#[test]
fn commands_encode_to_documented_bytes() {
    assert_eq!(Command::DisplaySwitch(DisplaySwitch::Off).encode(), vec![0xae]);
    assert_eq!(Command::DisplaySwitch(DisplaySwitch::On).encode(), vec![0xaf]);
    assert_eq!(
        Command::EntireDisplaySwitch(EntireDisplaySwitch::FollowRam).encode(),
        vec![0xa4]
    );
    assert_eq!(
        Command::SetDisplayClockDivideRatioAndOscillatorFreq(0x80).encode(),
        vec![0xd5, 0x80]
    );
    assert_eq!(Command::SetMultiplexRatio(0x3f).encode(), vec![0xa8, 0x3f]);
    assert_eq!(Command::SetDisplayOffset(0x00).encode(), vec![0xd3, 0x00]);
    assert_eq!(Command::SetDisplayStartLine(0x40).encode(), vec![0x40]);
    assert_eq!(Command::SetSegmentRemap(SegmentRemap::Remapped).encode(), vec![0xa1]);
    assert_eq!(
        Command::SetComOutputScanDirection(ComOutputScanDirection::Remapped).encode(),
        vec![0xc8]
    );
    assert_eq!(Command::SetComPinsHardwareConfig(0x12).encode(), vec![0xda, 0x12]);
    assert_eq!(Command::SetContrastControl(0xb0).encode(), vec![0x81, 0xb0]);
    assert_eq!(Command::SetPrechargePeriod(0x22).encode(), vec![0xd9, 0x22]);
    assert_eq!(Command::SetVcomhDeselectLevel(0x30).encode(), vec![0xdb, 0x30]);
    assert_eq!(
        Command::SetNormalInverseDisplay(NormalOrInverseDisplay::Inverse).encode(),
        vec![0xa7]
    );
    assert_eq!(Command::SetChargePump(ChargePump::V9Point0).encode(), vec![0x8d, 0x95]);
}

#[test]
fn default_config_matches_power_on_reset() {
    let c = Ssd1315DisplayConfig::default();
    assert_eq!(c.display_clock_divide_ratio_and_oscillator_freq, 0x80);
    assert_eq!(c.multiplex_ratio, 0x3f);
    assert_eq!(c.display_offset, 0x00);
    assert_eq!(c.display_start_line, 0x40);
    assert_eq!(c.segment_remap, SegmentRemap::Normal);
    assert_eq!(c.com_output_scan_direction, ComOutputScanDirection::Normal);
    assert_eq!(c.com_pins_hardware_config, 0x12);
    assert_eq!(c.contrast, 0x7f);
    assert_eq!(c.precharge_period, 0x22);
    assert_eq!(c.v_comh_select_level, 0x20);
    assert_eq!(c.normal_or_inverse_display, NormalOrInverseDisplay::Normal);
    assert_eq!(c.charge_pump, ChargePump::V7Point5);
}

#[test]
fn preset_config_overrides_exactly_four_fields() {
    let d = Ssd1315DisplayConfig::default();
    let p = Ssd1315DisplayConfig::preset_config();
    assert_eq!(p.segment_remap, SegmentRemap::Remapped);
    assert_eq!(p.com_output_scan_direction, ComOutputScanDirection::Remapped);
    assert_eq!(p.contrast, 0xb0);
    assert_eq!(p.v_comh_select_level, 0x30);
    assert_eq!(
        p.display_clock_divide_ratio_and_oscillator_freq,
        d.display_clock_divide_ratio_and_oscillator_freq
    );
    assert_eq!(p.multiplex_ratio, d.multiplex_ratio);
    assert_eq!(p.display_offset, d.display_offset);
    assert_eq!(p.display_start_line, d.display_start_line);
    assert_eq!(p.com_pins_hardware_config, d.com_pins_hardware_config);
    assert_eq!(p.precharge_period, d.precharge_period);
    assert_eq!(p.normal_or_inverse_display, d.normal_or_inverse_display);
    assert_eq!(p.charge_pump, d.charge_pump);
}

#[test]
fn choice_bytes_match_the_command_table() {
    assert_eq!(SegmentRemap::Normal.value(), 0xa0);
    assert_eq!(SegmentRemap::Remapped.value(), 0xa1);
    assert_eq!(ComOutputScanDirection::Normal.value(), 0xc0);
    assert_eq!(ComOutputScanDirection::Remapped.value(), 0xc8);
    assert_eq!(NormalOrInverseDisplay::Normal.value(), 0xa6);
    assert_eq!(NormalOrInverseDisplay::Inverse.value(), 0xa7);
    assert_eq!(ChargePump::Disable.value(), 0x10);
    assert_eq!(ChargePump::V7Point5.value(), 0x14);
    assert_eq!(ChargePump::V8Point5.value(), 0x94);
    assert_eq!(ChargePump::V9Point0.value(), 0x95);
    assert_eq!(DisplaySwitch::On.value(), 0xaf);
    assert_eq!(DisplaySwitch::Off.value(), 0xae);
    assert_eq!(EntireDisplaySwitch::FollowRam.value(), 0xa4);
    assert_eq!(EntireDisplaySwitch::AllPixelsOn.value(), 0xa5);
}

#[test]
fn cursor_addressing_splits_the_column_into_nibbles() {
    let mut transport = RecordingTransport::new();
    assert!(oled_set_cursor(&mut transport, 5, 0x2a).is_ok());
    let expected = vec![
        RecordedTransmission::Commands(vec![0xb5]),
        RecordedTransmission::Commands(vec![0x0a]),
        RecordedTransmission::Commands(vec![0x12]),
    ];
    assert_eq!(transport.sent, expected);
}

#[test]
fn draw_from_raw_fills_the_device_buffer() {
    let mut display = Ssd1315::new(RecordingTransport::new());
    let raw = [[0b1010_1010u8; 128]; 8];
    raw.draw_from_raw(&mut display);
    for page in 0u8..8 {
        for col in 0u8..128 {
            assert_eq!(display.buffer.byte_at(page, col), 0b1010_1010);
        }
    }
}

#[test]
fn interface_constructors_build_adapters() {
    let _i2c = I2cDisplayInterface::new_interface(());
    let _i2c_alt = I2cDisplayInterface::new_alternative_interface(());
    let _i2c_custom = I2cDisplayInterface::new_custom_interface((), 0x3e);
    let _spi = SpiDisplayInterface::new_interface((), ());
}
