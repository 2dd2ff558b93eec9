//! Configuration values for the SSD1315 controller.
//!
//! Every tunable register operand lives here. Fields with a small closed set
//! of legal hardware states are enumerated types with an explicit byte-value
//! mapping, so that no illegal register value can be built; wide numeric
//! fields keep their raw-byte representation as the datasheet documents it.

use vstd::prelude::*;

verus! {

/// Segment remap: `Normal` = `0xa0` (RESET), `Remapped` = `0xa1`.
#[derive(Clone, Copy, Debug, PartialEq, Eq, Structural)]
pub enum SegmentRemap {
    /// Column address `0` is mapped to `SEG0`. (RESET)
    Normal,
    /// Column address `127` is mapped to `SEG0`.
    Remapped,
}

impl SegmentRemap {
    /// The operand byte this choice stands for.
    pub open spec fn spec_value(self) -> u8 {
        match self {
            SegmentRemap::Normal => 0xa0,
            SegmentRemap::Remapped => 0xa1,
        }
    }

    /// Encodes the choice as the register byte the controller expects.
    pub fn value(self) -> (b: u8)
        ensures
            b == self.spec_value(),
    {
        match self {
            SegmentRemap::Normal => 0xa0,
            SegmentRemap::Remapped => 0xa1,
        }
    }
}

/// COM output scan direction: `Normal` = `0xc0` (RESET), `Remapped` = `0xc8`.
#[derive(Clone, Copy, Debug, PartialEq, Eq, Structural)]
pub enum ComOutputScanDirection {
    /// Scan from `COM0` to `COM[N-1]`, where `N` is the multiplex ratio. (RESET)
    Normal,
    /// Scan from `COM[N-1]` to `COM0`, where `N` is the multiplex ratio.
    Remapped,
}

impl ComOutputScanDirection {
    /// The operand byte this choice stands for.
    pub open spec fn spec_value(self) -> u8 {
        match self {
            ComOutputScanDirection::Normal => 0xc0,
            ComOutputScanDirection::Remapped => 0xc8,
        }
    }

    /// Encodes the choice as the register byte the controller expects.
    pub fn value(self) -> (b: u8)
        ensures
            b == self.spec_value(),
    {
        match self {
            ComOutputScanDirection::Normal => 0xc0,
            ComOutputScanDirection::Remapped => 0xc8,
        }
    }
}

/// Normal/inverse display: `Normal` = `0xa6` (RESET), `Inverse` = `0xa7`.
#[derive(Clone, Copy, Debug, PartialEq, Eq, Structural)]
pub enum NormalOrInverseDisplay {
    Normal,
    Inverse,
}

impl NormalOrInverseDisplay {
    /// The operand byte this choice stands for.
    pub open spec fn spec_value(self) -> u8 {
        match self {
            NormalOrInverseDisplay::Normal => 0xa6,
            NormalOrInverseDisplay::Inverse => 0xa7,
        }
    }

    /// Encodes the choice as the register byte the controller expects.
    pub fn value(self) -> (b: u8)
        ensures
            b == self.spec_value(),
    {
        match self {
            NormalOrInverseDisplay::Normal => 0xa6,
            NormalOrInverseDisplay::Inverse => 0xa7,
        }
    }
}

/// Charge-pump mode: `Disable` = `0x10`, `V7Point5` = `0x14` (RESET),
/// `V8Point5` = `0x94`, `V9Point0` = `0x95`.
#[derive(Clone, Copy, Debug, PartialEq, Eq, Structural)]
pub enum ChargePump {
    Disable,
    /// 7.5V (RESET)
    V7Point5,
    /// 8.5V
    V8Point5,
    /// 9.0V
    V9Point0,
}

impl ChargePump {
    /// The operand byte this choice stands for.
    pub open spec fn spec_value(self) -> u8 {
        match self {
            ChargePump::Disable => 0x10,
            ChargePump::V7Point5 => 0x14,
            ChargePump::V8Point5 => 0x94,
            ChargePump::V9Point0 => 0x95,
        }
    }

    /// Encodes the choice as the register byte the controller expects.
    pub fn value(self) -> (b: u8)
        ensures
            b == self.spec_value(),
    {
        match self {
            ChargePump::Disable => 0x10,
            ChargePump::V7Point5 => 0x14,
            ChargePump::V8Point5 => 0x94,
            ChargePump::V9Point0 => 0x95,
        }
    }
}

/// Configuration that applies to the SSD1315.
///
/// All values can be found in the SSD1315 command table of the datasheet.
#[derive(Clone, Copy, Debug, PartialEq, Eq, Structural)]
pub struct Ssd1315DisplayConfig {
    /// Bits detail: `0bxxxx_xxxx`.
    ///
    /// The lower 4 bits define the divide ratio of the display clocks
    /// (divide ratio = `A[3:0] + 1`, RESET = `0b0000`), while the higher 4
    /// bits set the oscillator frequency (RESET = `0b1000`).
    pub display_clock_divide_ratio_and_oscillator_freq: u8,
    /// Bits detail: `0b**xx_xxxx`.
    ///
    /// MUX ratio `N = A[5:0]`, valid from `0b00_1111` up; RESET = `0b11_1111`
    /// (64MUX).
    pub multiplex_ratio: u8,
    /// Bits detail: `0b**xx_xxxx`.
    ///
    /// Vertical shift by COM, from `0` to `0b11_1111`; RESET = `0`.
    pub display_offset: u8,
    /// Bits detail: `0b01xx_xxxx`.
    ///
    /// Display RAM start-line register, `0b0100_0000` ORed with a line from
    /// `0` to `0b11_1111`; RESET = `0b0100_0000`.
    pub display_start_line: u8,
    /// Segment remap choice.
    pub segment_remap: SegmentRemap,
    /// COM output scan direction choice.
    pub com_output_scan_direction: ComOutputScanDirection,
    /// Bits detail: `0b00xx_0010`.
    ///
    /// `A[4]` picks sequential (`0`) or alternative (`1`, RESET) COM pin
    /// configuration; `A[5]` enables COM left/right remap (`0` = RESET).
    pub com_pins_hardware_config: u8,
    /// Bits detail: `0bxxxx_xxxx`.
    ///
    /// Contrast increases with the value; RESET = `0x7f`.
    pub contrast: u8,
    /// Bits detail: `0bxxxx_xxxx`.
    ///
    /// `A[3:0]` phase 1 period, `A[7:4]` phase 2 period; RESET = `0x22`.
    pub precharge_period: u8,
    /// Bits detail: `0b00xx_0000`.
    ///
    /// VCOMH deselect level: `0x00` = ~0.65 Vcc, `0x10` = ~0.71 Vcc,
    /// `0x20` = ~0.77 Vcc (RESET), `0x30` = ~0.83 Vcc.
    pub v_comh_select_level: u8,
    /// Normal/inverse display choice.
    pub normal_or_inverse_display: NormalOrInverseDisplay,
    /// Charge-pump mode choice.
    pub charge_pump: ChargePump,
}

impl Ssd1315DisplayConfig {
    /// The configuration that matches the controller's power-on-reset state.
    pub open spec fn spec_default() -> Ssd1315DisplayConfig {
        Ssd1315DisplayConfig {
            display_clock_divide_ratio_and_oscillator_freq: 0x80,
            multiplex_ratio: 0x3f,
            display_offset: 0x00,
            display_start_line: 0x40,
            segment_remap: SegmentRemap::Normal,
            com_output_scan_direction: ComOutputScanDirection::Normal,
            com_pins_hardware_config: 0x12,
            contrast: 0x7f,
            precharge_period: 0x22,
            v_comh_select_level: 0x20,
            normal_or_inverse_display: NormalOrInverseDisplay::Normal,
            charge_pump: ChargePump::V7Point5,
        }
    }

    /// The preset configuration: the power-on-reset values with the segment
    /// remap, scan direction, contrast and VCOMH fields overridden for a
    /// higher-contrast, remapped orientation.
    pub open spec fn spec_preset() -> Ssd1315DisplayConfig {
        Ssd1315DisplayConfig {
            segment_remap: SegmentRemap::Remapped,
            com_output_scan_direction: ComOutputScanDirection::Remapped,
            contrast: 0xb0,
            v_comh_select_level: 0x30,
            ..Ssd1315DisplayConfig::spec_default()
        }
    }

    /// A preset configuration for a higher-contrast, remapped orientation.
    ///
    /// It differs from the default configuration only in the segment remap,
    /// scan direction, contrast and VCOMH fields.
    pub fn preset_config() -> (c: Ssd1315DisplayConfig)
        ensures
            c == Ssd1315DisplayConfig::spec_preset(),
    {
        Ssd1315DisplayConfig {
            segment_remap: SegmentRemap::Remapped,
            com_output_scan_direction: ComOutputScanDirection::Remapped,
            contrast: 0xb0,
            v_comh_select_level: 0x30,
            ..Ssd1315DisplayConfig::default_config()
        }
    }

    /// Builds the power-on-reset configuration as an executable value.
    pub fn default_config() -> (c: Ssd1315DisplayConfig)
        ensures
            c == Ssd1315DisplayConfig::spec_default(),
    {
        Ssd1315DisplayConfig {
            display_clock_divide_ratio_and_oscillator_freq: 0x80,
            multiplex_ratio: 0x3f,
            display_offset: 0x00,
            display_start_line: 0x40,
            segment_remap: SegmentRemap::Normal,
            com_output_scan_direction: ComOutputScanDirection::Normal,
            com_pins_hardware_config: 0x12,
            contrast: 0x7f,
            precharge_period: 0x22,
            v_comh_select_level: 0x20,
            normal_or_inverse_display: NormalOrInverseDisplay::Normal,
            charge_pump: ChargePump::V7Point5,
        }
    }
}

impl Default for Ssd1315DisplayConfig {
    /// The default configuration matches the controller's power-on-reset
    /// state.
    fn default() -> (c: Ssd1315DisplayConfig)
        ensures
            c == Ssd1315DisplayConfig::spec_default(),
    {
        Ssd1315DisplayConfig::default_config()
    }
}

} // verus!
