//! The controller's register command set and the command sequencer.
//!
//! Every register write is a typed [`Command`] that serializes to one or two
//! bytes (the opcode first, then the operand if the register takes one) and
//! goes out as one command-phase transmission. [`oled_init`] emits the full
//! fixed-order initialization sequence; [`oled_set_cursor`] re-points the
//! controller's write cursor before a page transfer.

use vstd::prelude::*;

use crate::config::ComOutputScanDirection;
use crate::config::NormalOrInverseDisplay;
use crate::config::SegmentRemap;
use crate::config::ChargePump;
use crate::config::Ssd1315DisplayConfig;
use crate::transport::DisplayTransport;
use crate::transport::Transmission;
use crate::transport::TransportError;

verus! {

/// Display on/off: `On` = `0xaf`, `Off` = `0xae`.
#[derive(Clone, Copy, Debug, PartialEq, Eq, Structural)]
pub enum DisplaySwitch {
    On,
    Off,
}

impl DisplaySwitch {
    /// The opcode byte this choice stands for.
    pub open spec fn spec_value(self) -> u8 {
        match self {
            DisplaySwitch::On => 0xaf,
            DisplaySwitch::Off => 0xae,
        }
    }

    /// Encodes the choice as the opcode byte the controller expects.
    pub fn value(self) -> (b: u8)
        ensures
            b == self.spec_value(),
    {
        match self {
            DisplaySwitch::On => 0xaf,
            DisplaySwitch::Off => 0xae,
        }
    }
}

/// Entire-display switch: `FollowRam` = `0xa4` (output follows display
/// memory, RESET), `AllPixelsOn` = `0xa5` (every pixel lit regardless of
/// memory).
#[derive(Clone, Copy, Debug, PartialEq, Eq, Structural)]
pub enum EntireDisplaySwitch {
    FollowRam,
    AllPixelsOn,
}

impl EntireDisplaySwitch {
    /// The opcode byte this choice stands for.
    pub open spec fn spec_value(self) -> u8 {
        match self {
            EntireDisplaySwitch::FollowRam => 0xa4,
            EntireDisplaySwitch::AllPixelsOn => 0xa5,
        }
    }

    /// Encodes the choice as the opcode byte the controller expects.
    pub fn value(self) -> (b: u8)
        ensures
            b == self.spec_value(),
    {
        match self {
            EntireDisplaySwitch::FollowRam => 0xa4,
            EntireDisplaySwitch::AllPixelsOn => 0xa5,
        }
    }
}

/// One register write of the initialization command set.
///
/// Each variant serializes to a fixed number of bytes, opcode first, operand
/// second where the register takes one; no variant emits more than two
/// bytes.
#[derive(Clone, Copy, Debug)]
pub enum Command {
    DisplaySwitch(DisplaySwitch),
    EntireDisplaySwitch(EntireDisplaySwitch),
    SetDisplayClockDivideRatioAndOscillatorFreq(u8),
    SetMultiplexRatio(u8),
    SetDisplayOffset(u8),
    SetDisplayStartLine(u8),
    SetSegmentRemap(SegmentRemap),
    SetComOutputScanDirection(ComOutputScanDirection),
    SetComPinsHardwareConfig(u8),
    SetContrastControl(u8),
    SetPrechargePeriod(u8),
    SetVcomhDeselectLevel(u8),
    SetNormalInverseDisplay(NormalOrInverseDisplay),
    SetChargePump(ChargePump),
}

impl Command {
    /// The exact bytes this command serializes to, opcode first.
    pub open spec fn spec_bytes(self) -> Seq<u8> {
        match self {
            Command::DisplaySwitch(s) => seq![s.spec_value()],
            Command::EntireDisplaySwitch(s) => seq![s.spec_value()],
            Command::SetDisplayClockDivideRatioAndOscillatorFreq(v) => seq![0xd5u8, v],
            Command::SetMultiplexRatio(v) => seq![0xa8u8, v],
            Command::SetDisplayOffset(v) => seq![0xd3u8, v],
            Command::SetDisplayStartLine(v) => seq![v],
            Command::SetSegmentRemap(s) => seq![s.spec_value()],
            Command::SetComOutputScanDirection(s) => seq![s.spec_value()],
            Command::SetComPinsHardwareConfig(v) => seq![0xdau8, v],
            Command::SetContrastControl(v) => seq![0x81u8, v],
            Command::SetPrechargePeriod(v) => seq![0xd9u8, v],
            Command::SetVcomhDeselectLevel(v) => seq![0xdbu8, v],
            Command::SetNormalInverseDisplay(s) => seq![s.spec_value()],
            Command::SetChargePump(s) => seq![0x8du8, s.spec_value()],
        }
    }

    /// Serializes the command; encoding is pure and total.
    pub fn encode(&self) -> (bytes: Vec<u8>)
        ensures
            bytes@ == self.spec_bytes(),
            1 <= bytes@.len() <= 2,
    {
        let mut v: Vec<u8> = Vec::new();
        match self {
            Command::DisplaySwitch(s) => {
                v.push(s.value());
            },
            Command::EntireDisplaySwitch(s) => {
                v.push(s.value());
            },
            Command::SetDisplayClockDivideRatioAndOscillatorFreq(b) => {
                v.push(0xd5);
                v.push(*b);
            },
            Command::SetMultiplexRatio(b) => {
                v.push(0xa8);
                v.push(*b);
            },
            Command::SetDisplayOffset(b) => {
                v.push(0xd3);
                v.push(*b);
            },
            Command::SetDisplayStartLine(b) => {
                v.push(*b);
            },
            Command::SetSegmentRemap(s) => {
                v.push(s.value());
            },
            Command::SetComOutputScanDirection(s) => {
                v.push(s.value());
            },
            Command::SetComPinsHardwareConfig(b) => {
                v.push(0xda);
                v.push(*b);
            },
            Command::SetContrastControl(b) => {
                v.push(0x81);
                v.push(*b);
            },
            Command::SetPrechargePeriod(b) => {
                v.push(0xd9);
                v.push(*b);
            },
            Command::SetVcomhDeselectLevel(b) => {
                v.push(0xdb);
                v.push(*b);
            },
            Command::SetNormalInverseDisplay(s) => {
                v.push(s.value());
            },
            Command::SetChargePump(s) => {
                v.push(0x8d);
                v.push(s.value());
            },
        }
        proof {
            assert(v@ =~= self.spec_bytes());
        }
        v
    }

    /// Sends the command as one discrete command-phase transmission.
    pub fn send<DI: DisplayTransport>(&self, ins: &mut DI) -> (r: Result<(), TransportError>)
        ensures
            r is Ok ==> final(ins).log() == old(ins).log().push(
                Transmission::Commands(self.spec_bytes()),
            ),
            r is Err ==> final(ins).log() == old(ins).log(),
    {
        let bytes = self.encode();
        ins.send_commands(bytes.as_slice())
    }
}

/// The transmissions a list of commands produces: one command-phase
/// transmission per command, in order.
pub open spec fn command_transmissions(cmds: Seq<Command>) -> Seq<Transmission> {
    cmds.map(|i: int, c: Command| Transmission::Commands(c.spec_bytes()))
}

/// Sends each command of the list as its own transmission, stopping at the
/// first failure.
pub fn send_command_list<DI: DisplayTransport>(ins: &mut DI, cmds: &Vec<Command>) -> (r: Result<
    (),
    TransportError,
>)
    ensures
        r is Ok ==> final(ins).log() == old(ins).log() + command_transmissions(cmds@),
        r is Err ==> exists|k: int|
            0 <= k < command_transmissions(cmds@).len() && final(ins).log() == old(ins).log()
                + command_transmissions(cmds@).take(k),
{
    let ghost plan = command_transmissions(cmds@);
    let mut i: usize = 0;
    proof {
        assert(ins.log() =~= old(ins).log() + plan.take(0));
    }
    while i < cmds.len()
        invariant
            i <= cmds@.len(),
            plan == command_transmissions(cmds@),
            plan.len() == cmds@.len(),
            ins.log() == old(ins).log() + plan.take(i as int),
        decreases cmds@.len() - i,
    {
        let ghost before = ins.log();
        match cmds[i].send(ins) {
            Ok(()) => {},
            Err(e) => {
                proof {
                    assert(ins.log() == old(ins).log() + plan.take(i as int));
                }
                return Err(e);
            },
        }
        proof {
            assert(ins.log() == before.push(Transmission::Commands(cmds@[i as int].spec_bytes())));
            assert(plan[i as int] == Transmission::Commands(cmds@[i as int].spec_bytes()));
            assert(plan.take(i + 1) =~= plan.take(i as int).push(plan[i as int]));
            assert(old(ins).log() + plan.take(i + 1) =~= (old(ins).log() + plan.take(
                i as int,
            )).push(plan[i as int]));
        }
        i = i + 1;
    }
    proof {
        assert(plan.take(cmds@.len() as int) =~= plan);
    }
    Ok(())
}

/// The fixed-order initialization command sequence for a configuration.
///
/// The order is load-bearing: the charge pump is configured before the
/// display is switched on, and each tunable register is written while the
/// display is still off.
pub open spec fn spec_init_commands(config: Ssd1315DisplayConfig) -> Seq<Command> {
    seq![
        Command::DisplaySwitch(DisplaySwitch::Off),
        Command::SetDisplayClockDivideRatioAndOscillatorFreq(
            config.display_clock_divide_ratio_and_oscillator_freq,
        ),
        Command::SetMultiplexRatio(config.multiplex_ratio),
        Command::SetDisplayOffset(config.display_offset),
        Command::SetDisplayStartLine(config.display_start_line),
        Command::SetSegmentRemap(config.segment_remap),
        Command::SetComOutputScanDirection(config.com_output_scan_direction),
        Command::SetComPinsHardwareConfig(config.com_pins_hardware_config),
        Command::SetContrastControl(config.contrast),
        Command::SetPrechargePeriod(config.precharge_period),
        Command::SetVcomhDeselectLevel(config.v_comh_select_level),
        Command::EntireDisplaySwitch(EntireDisplaySwitch::FollowRam),
        Command::SetNormalInverseDisplay(config.normal_or_inverse_display),
        Command::SetChargePump(config.charge_pump),
        Command::DisplaySwitch(DisplaySwitch::On),
    ]
}

/// The transmissions a full initialization emits: fifteen command-phase
/// transmissions, one per step, in the fixed order.
pub open spec fn init_transmissions(config: Ssd1315DisplayConfig) -> Seq<Transmission> {
    command_transmissions(spec_init_commands(config))
}

/// Builds the initialization command list for a configuration.
pub fn init_commands(config: &Ssd1315DisplayConfig) -> (cmds: Vec<Command>)
    ensures
        cmds@ == spec_init_commands(*config),
{
    let cmds: Vec<Command> = vec![
        Command::DisplaySwitch(DisplaySwitch::Off),
        Command::SetDisplayClockDivideRatioAndOscillatorFreq(
            config.display_clock_divide_ratio_and_oscillator_freq,
        ),
        Command::SetMultiplexRatio(config.multiplex_ratio),
        Command::SetDisplayOffset(config.display_offset),
        Command::SetDisplayStartLine(config.display_start_line),
        Command::SetSegmentRemap(config.segment_remap),
        Command::SetComOutputScanDirection(config.com_output_scan_direction),
        Command::SetComPinsHardwareConfig(config.com_pins_hardware_config),
        Command::SetContrastControl(config.contrast),
        Command::SetPrechargePeriod(config.precharge_period),
        Command::SetVcomhDeselectLevel(config.v_comh_select_level),
        Command::EntireDisplaySwitch(EntireDisplaySwitch::FollowRam),
        Command::SetNormalInverseDisplay(config.normal_or_inverse_display),
        Command::SetChargePump(config.charge_pump),
        Command::DisplaySwitch(DisplaySwitch::On),
    ];
    proof {
        assert(cmds@ =~= spec_init_commands(*config));
    }
    cmds
}

/// Runs the full initialization sequence for a configuration, one discrete
/// command-phase transmission per step. A transport failure aborts the
/// remaining steps at once: the history then holds a proper prefix of the
/// sequence and nothing else.
pub fn oled_init<DI: DisplayTransport>(ins: &mut DI, config: Ssd1315DisplayConfig) -> (r: Result<
    (),
    TransportError,
>)
    ensures
        r is Ok ==> final(ins).log() == old(ins).log() + init_transmissions(config),
        r is Err ==> exists|k: int|
            0 <= k < init_transmissions(config).len() && final(ins).log() == old(ins).log()
                + init_transmissions(config).take(k),
{
    let cmds = init_commands(&config);
    let r = send_command_list(ins, &cmds);
    proof {
        if r is Err {
            let k = choose|k: int|
                0 <= k < command_transmissions(cmds@).len() && ins.log() == old(ins).log()
                    + command_transmissions(cmds@).take(k);
            assert(0 <= k < init_transmissions(config).len() && ins.log() == old(ins).log()
                + init_transmissions(config).take(k));
        }
    }
    r
}

/// One cursor-positioning write: the page select, or the two nibble-scoped
/// column selects.
#[derive(Clone, Copy, Debug)]
pub enum SetCursorCommand {
    /// Select the page where data will be written: opcode `0xb0 | page`.
    SetPage(u8),
    /// Select the column where data will be written, low nibble first
    /// (`column & 0x0f`), then high nibble (`0x10 | ((column >> 4) & 0x0f)`),
    /// each as its own single-byte command: the controller takes the two
    /// nibbles of the starting column as separate commands.
    SetXCoordinate(u8),
}

impl SetCursorCommand {
    /// The command-phase transmissions this cursor write produces.
    pub open spec fn spec_transmissions(self) -> Seq<Transmission> {
        match self {
            SetCursorCommand::SetPage(page) => seq![Transmission::Commands(seq![0xb0u8 | page])],
            SetCursorCommand::SetXCoordinate(x) => seq![
                Transmission::Commands(seq![x & 0x0f]),
                Transmission::Commands(seq![0x10u8 | ((x >> 4) & 0x0f)]),
            ],
        }
    }

    /// Sends the cursor write, stopping at the first failure.
    pub fn set_cursor<DI: DisplayTransport>(self, ins: &mut DI) -> (r: Result<
        (),
        TransportError,
    >)
        ensures
            r is Ok ==> final(ins).log() == old(ins).log() + self.spec_transmissions(),
            r is Err ==> exists|k: int|
                0 <= k < self.spec_transmissions().len() && final(ins).log() == old(ins).log()
                    + self.spec_transmissions().take(k),
    {
        match self {
            SetCursorCommand::SetPage(page) => {
                match send_single_command(ins, 0xb0 | page) {
                    Ok(()) => {
                        proof {
                            assert(old(ins).log() + self.spec_transmissions() =~= old(
                                ins,
                            ).log().push(Transmission::Commands(seq![0xb0u8 | page])));
                        }
                        Ok(())
                    },
                    Err(e) => {
                        proof {
                            assert(old(ins).log() + self.spec_transmissions().take(0) =~= old(
                                ins,
                            ).log());
                        }
                        Err(e)
                    },
                }
            },
            SetCursorCommand::SetXCoordinate(x) => {
                match send_single_command(ins, x & 0x0f) {
                    Ok(()) => {},
                    Err(e) => {
                        proof {
                            assert(old(ins).log() + self.spec_transmissions().take(0) =~= old(
                                ins,
                            ).log());
                        }
                        return Err(e);
                    },
                }
                let ghost mid = ins.log();
                match send_single_command(ins, 0x10 | ((x >> 4) & 0x0f)) {
                    Ok(()) => {
                        proof {
                            assert(old(ins).log() + self.spec_transmissions() =~= mid.push(
                                Transmission::Commands(seq![0x10u8 | ((x >> 4) & 0x0f)]),
                            ));
                        }
                        Ok(())
                    },
                    Err(e) => {
                        proof {
                            assert(old(ins).log() + self.spec_transmissions().take(1) =~= mid);
                        }
                        Err(e)
                    },
                }
            },
        }
    }
}

/// Sends one single-byte command as its own transmission.
fn send_single_command<DI: DisplayTransport>(ins: &mut DI, byte: u8) -> (r: Result<
    (),
    TransportError,
>)
    ensures
        r is Ok ==> final(ins).log() == old(ins).log().push(Transmission::Commands(seq![byte])),
        r is Err ==> final(ins).log() == old(ins).log(),
{
    let mut payload: Vec<u8> = Vec::new();
    payload.push(byte);
    proof {
        assert(payload@ =~= seq![byte]);
    }
    ins.send_commands(payload.as_slice())
}

/// The three command-phase transmissions that point the controller's write
/// cursor at `(page, x)`: page select, then the column's low and high
/// nibbles as separate single-byte commands.
pub open spec fn cursor_transmissions(page: u8, x: u8) -> Seq<Transmission> {
    SetCursorCommand::SetPage(page).spec_transmissions()
        + SetCursorCommand::SetXCoordinate(x).spec_transmissions()
}

/// Re-asserts the controller's write cursor: selects `page` and column `x`.
/// A transport failure aborts the remaining cursor commands at once.
pub fn oled_set_cursor<DI: DisplayTransport>(ins: &mut DI, page: u8, x: u8) -> (r: Result<
    (),
    TransportError,
>)
    ensures
        r is Ok ==> final(ins).log() == old(ins).log() + cursor_transmissions(page, x),
        r is Err ==> exists|k: int|
            0 <= k < 3 && final(ins).log() == old(ins).log() + cursor_transmissions(
                page,
                x,
            ).take(k),
{
    let ghost plan = cursor_transmissions(page, x);
    match SetCursorCommand::SetPage(page).set_cursor(ins) {
        Ok(()) => {},
        Err(e) => {
            proof {
                assert(ins.log() == old(ins).log() + plan.take(0)) by {
                    assert(old(ins).log() + SetCursorCommand::SetPage(
                        page,
                    ).spec_transmissions().take(0) =~= old(ins).log());
                    assert(old(ins).log() + plan.take(0) =~= old(ins).log());
                };
            }
            return Err(e);
        },
    }
    let ghost mid = ins.log();
    match SetCursorCommand::SetXCoordinate(x).set_cursor(ins) {
        Ok(()) => {
            proof {
                assert(ins.log() =~= old(ins).log() + plan);
            }
            Ok(())
        },
        Err(e) => {
            proof {
                let k0 = choose|k0: int|
                    0 <= k0 < SetCursorCommand::SetXCoordinate(x).spec_transmissions().len()
                        && ins.log() == mid + SetCursorCommand::SetXCoordinate(
                        x,
                    ).spec_transmissions().take(k0);
                assert(ins.log() == old(ins).log() + plan.take(1 + k0)) by {
                    assert(mid + SetCursorCommand::SetXCoordinate(x).spec_transmissions().take(
                        k0,
                    ) =~= old(ins).log() + plan.take(1 + k0));
                };
            }
            Err(e)
        },
    }
}

} // verus!
