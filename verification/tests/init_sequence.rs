//! The fixed-order initialization sequence, as the transport sees it.

use ssd1315::config::Ssd1315DisplayConfig;
use ssd1315::transport::RecordedTransmission;
use ssd1315::transport::RecordingTransport;
use ssd1315::Ssd1315;

fn command(bytes: &[u8]) -> RecordedTransmission {
    RecordedTransmission::Commands(bytes.to_vec())
}

fn init_log(config: Option<Ssd1315DisplayConfig>) -> Vec<RecordedTransmission> {
    let mut display = Ssd1315::new(RecordingTransport::new());
    if let Some(config) = config {
        display.set_custom_config(config);
    }
    assert!(display.init_screen().is_ok());
    display.interface.sent
}

#[test]
fn default_init_emits_fifteen_exact_command_transmissions() {
    let sent = init_log(None);
    let expected = vec![
        command(&[0xae]),
        command(&[0xd5, 0x80]),
        command(&[0xa8, 0x3f]),
        command(&[0xd3, 0x00]),
        command(&[0x40]),
        command(&[0xa0]),
        command(&[0xc0]),
        command(&[0xda, 0x12]),
        command(&[0x81, 0x7f]),
        command(&[0xd9, 0x22]),
        command(&[0xdb, 0x20]),
        command(&[0xa4]),
        command(&[0xa6]),
        command(&[0x8d, 0x14]),
        command(&[0xaf]),
    ];
    assert_eq!(sent, expected);
}

#[test]
fn preset_init_differs_only_in_remap_scan_contrast_and_vcomh() {
    let default_log = init_log(None);
    let preset_log = init_log(Some(Ssd1315DisplayConfig::preset_config()));
    assert_eq!(default_log.len(), 15);
    assert_eq!(preset_log.len(), 15);
    for (i, (d, p)) in default_log.iter().zip(preset_log.iter()).enumerate() {
        match i {
            // Segment remap, scan direction, contrast, VCOMH deselect level.
            5 => assert_eq!(*p, command(&[0xa1])),
            6 => assert_eq!(*p, command(&[0xc8])),
            8 => assert_eq!(*p, command(&[0x81, 0xb0])),
            10 => assert_eq!(*p, command(&[0xdb, 0x30])),
            _ => assert_eq!(d, p, "transmission {i} should be byte-identical"),
        }
    }
}

#[test]
fn init_failure_aborts_remaining_steps() {
    let mut display = Ssd1315::new(RecordingTransport::failing_on(4));
    assert!(display.init_screen().is_err());
    assert_eq!(display.interface.sent.len(), 4);
    assert_eq!(display.interface.attempts, 5);
    assert_eq!(display.interface.sent[3], command(&[0xd3, 0x00]));
}
