//! The page-sequential flush protocol and its failure semantics.

use ssd1315::transport::RecordedTransmission;
use ssd1315::transport::RecordingTransport;
use ssd1315::Ssd1315;

fn command(bytes: &[u8]) -> RecordedTransmission {
    RecordedTransmission::Commands(bytes.to_vec())
}

#[test]
fn flush_of_zero_buffer_emits_thirty_two_transmissions() {
    let mut display = Ssd1315::new(RecordingTransport::new());
    assert!(display.flush_screen().is_ok());
    let sent = &display.interface.sent;
    assert_eq!(sent.len(), 32);
    for page in 0u8..8 {
        let base = (page as usize) * 4;
        assert_eq!(sent[base], command(&[0xb0 | page]));
        assert_eq!(sent[base + 1], command(&[0x00]));
        assert_eq!(sent[base + 2], command(&[0x10]));
        assert_eq!(sent[base + 3], RecordedTransmission::Data(vec![0u8; 128]));
    }
}

#[test]
fn flush_carries_drawn_pixels_in_page_data() {
    let mut display = Ssd1315::new(RecordingTransport::new());
    assert!(display.set_pixel(5, 12, true).is_ok());
    assert!(display.flush_screen().is_ok());
    let mut page1 = vec![0u8; 128];
    page1[5] = 0x10;
    assert_eq!(display.interface.sent[7], RecordedTransmission::Data(page1));
    assert_eq!(display.interface.sent[3], RecordedTransmission::Data(vec![0u8; 128]));
}

#[test]
fn flush_failure_on_page_three_data_stops_the_protocol() {
    // Attempts 0..3 transfer page 0; attempt 15 is page 3's data phase.
    let mut display = Ssd1315::new(RecordingTransport::failing_on(15));
    assert!(display.flush_screen().is_err());
    let sent = &display.interface.sent;
    assert_eq!(sent.len(), 15, "page 3's data must not be delivered");
    assert_eq!(display.interface.attempts, 16, "no attempts for pages 4..7");
    assert_eq!(sent[12], command(&[0xb3]));
    assert_eq!(sent[13], command(&[0x00]));
    assert_eq!(sent[14], command(&[0x10]));
}

#[test]
fn flush_leaves_the_buffer_intact() {
    let mut display = Ssd1315::new(RecordingTransport::new());
    assert!(display.set_pixel(9, 33, true).is_ok());
    assert!(display.flush_screen().is_ok());
    assert_eq!(display.buffer.byte_at(4, 9), 0x02);
    assert!(display.flush_screen().is_ok());
    assert_eq!(display.interface.sent.len(), 64);
    let mut page4 = vec![0u8; 128];
    page4[9] = 0x02;
    assert_eq!(display.interface.sent[19], RecordedTransmission::Data(page4.clone()));
    assert_eq!(display.interface.sent[19 + 32], RecordedTransmission::Data(page4));
}

#[test]
fn clear_screen_blanks_the_device_but_not_the_buffer() {
    let mut display = Ssd1315::new(RecordingTransport::new());
    assert!(display.set_pixel(40, 7, true).is_ok());
    assert!(display.set_pixel(41, 8, true).is_ok());
    assert!(display.clear_screen().is_ok());
    let sent = &display.interface.sent;
    assert_eq!(sent.len(), 32);
    for page in 0u8..8 {
        let base = (page as usize) * 4;
        assert_eq!(sent[base], command(&[0xb0 | page]));
        assert_eq!(sent[base + 3], RecordedTransmission::Data(vec![0u8; 128]));
    }
    // The caller's drawn contents survive and go out on the next flush.
    assert_eq!(display.buffer.byte_at(0, 40), 0x80);
    assert_eq!(display.buffer.byte_at(1, 41), 0x01);
    assert!(display.flush_screen().is_ok());
    let mut page0 = vec![0u8; 128];
    page0[40] = 0x80;
    assert_eq!(display.interface.sent[32 + 3], RecordedTransmission::Data(page0));
}
