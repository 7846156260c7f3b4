use lightos_core::drivers::display::{DisplayDriver, DisplayError, FramebufferInfo};
use lightos_core::drivers::sound::{SoundDriver, SoundError};
use lightos_core::drivers::touchscreen::{TouchEvent, TouchscreenDriver, TouchscreenError};

fn fb() -> FramebufferInfo {
    FramebufferInfo { address: 0xE000_0000, width: 1024, height: 768, pitch: 4096, bpp: 32 }
}

#[test]
fn display_rejects_missing_framebuffer() {
    let mut info = fb();
    info.address = 0;
    assert!(matches!(DisplayDriver::new(info), Err(DisplayError::FramebufferNotFound)));
    assert!(DisplayDriver::new(fb()).is_ok());
}

#[test]
fn display_pixel_layout() {
    let d = DisplayDriver::new(fb()).unwrap();
    assert_eq!(d.bytes_per_pixel(), 4);
    assert_eq!(d.pixel_offset(0, 0), Some(0));
    assert_eq!(d.pixel_offset(3, 2), Some(2 * 4096 + 3 * 4));
    // Out of bounds in either coordinate.
    assert_eq!(d.pixel_offset(1024, 0), None);
    assert_eq!(d.pixel_offset(0, 768), None);
    assert_eq!(d.total_bytes(), 4096 * 768);
    // Colour bytes are written blue first.
    assert_eq!(d.color_bytes(0x11, 0x22, 0x33), Some((0x33, 0x22, 0x11, 0)));
}

#[test]
fn display_rejects_low_depth_colors() {
    let mut info = fb();
    info.bpp = 16;
    info.pitch = 2048;
    let d = DisplayDriver::new(info).unwrap();
    assert_eq!(d.color_bytes(1, 2, 3), None);
}

#[test]
fn sound_driver_handshake() {
    assert!(matches!(SoundDriver::new(0), Err(SoundError::DeviceNotFound)));
    let mut d = SoundDriver::new(0xFED0_0000).unwrap();
    // A status other than ready fails; ready completes initialisation.
    assert!(matches!(d.init(0), Err(SoundError::InitializationFailed)));
    assert!(d.init(1).is_ok());
    // Further init calls are no-ops regardless of the status value.
    assert!(d.init(0xFFFF).is_ok());
}

#[test]
fn sound_playback_decision() {
    let mut d = SoundDriver::new(0xFED0_0000).unwrap();
    let data = [0u8; 16];
    // Uninitialised device refuses to play.
    assert!(matches!(d.play_buffer(&data, 0), Err(SoundError::HardwareError)));
    d.init(1).unwrap();
    assert!(matches!(d.play_buffer(&[], 0b100), Err(SoundError::InvalidBuffer)));
    // The play bit is set on the current control value.
    assert_eq!(d.play_buffer(&data, 0b100), Ok(0b101));
}

#[test]
fn touchscreen_handshake() {
    assert!(matches!(TouchscreenDriver::new(0), Err(TouchscreenError::DeviceNotFound)));
    let mut d = TouchscreenDriver::new(0x4000_0000).unwrap();
    // Wrong device id.
    assert!(matches!(d.init(0x13, 0x01), Err(TouchscreenError::DeviceNotFound)));
    // Enable bit did not stick.
    assert!(matches!(d.init(0x42, 0x00), Err(TouchscreenError::CommunicationInitFailed)));
    assert!(d.init(0x42, 0x01).is_ok());
}

#[test]
fn touchscreen_event_decoding() {
    let mut d = TouchscreenDriver::new(0x4000_0000).unwrap();
    // Reads before the handshake are rejected.
    assert!(matches!(
        d.read_event(0x03, 0, 0, 0, 0, 0),
        Err(TouchscreenError::CommunicationInitFailed)
    ));
    d.init(0x42, 0x01).unwrap();
    // No pending event.
    assert_eq!(d.read_event(0x00, 0x12, 0x34, 0x56, 0x78, 9), Ok(None));
    // Big-endian coordinates, pressure, and the finger-down bit.
    assert_eq!(
        d.read_event(0x03, 0x12, 0x34, 0x56, 0x78, 200),
        Ok(Some(TouchEvent { x: 0x1234, y: 0x5678, pressure: 200, down: true }))
    );
    assert_eq!(
        d.read_event(0x01, 0x00, 0x05, 0x00, 0x06, 1),
        Ok(Some(TouchEvent { x: 5, y: 6, pressure: 1, down: false }))
    );
}
