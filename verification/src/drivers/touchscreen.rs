//! The touchscreen driver's state machine: device identification, the
//! enable handshake, and the decoding of raw register bytes into touch
//! events. The glue performs the MMIO reads and the acknowledgement
//! write.

use vstd::prelude::*;

verus! {

/// 🚨 Errors of the touchscreen driver.
#[derive(Clone, Copy, PartialEq, Eq, Structural, Debug)]
pub enum TouchscreenError {
    /// No device, or the wrong device, answers at the expected address.
    DeviceNotFound,
    /// The communication handshake failed.
    CommunicationInitFailed,
    /// The hardware reported an internal fault.
    HardwareFault,
    /// No data arrived in time.
    ReadTimeout,
}

/// 👆 One raw touch event.
#[derive(Clone, Copy, PartialEq, Eq, Structural, Debug)]
pub struct TouchEvent {
    /// Horizontal position on the screen.
    pub x: u16,
    /// Vertical position on the screen.
    pub y: u16,
    /// Touch pressure.
    pub pressure: u8,
    /// Whether the finger is down.
    pub down: bool,
}

/// The identification value the supported controller reports.
pub const TOUCH_EXPECTED_DEVICE_ID: u8 = 0x42;

/// 🔌 The touchscreen driver.
pub struct TouchscreenDriver {
    /// MMIO base address of the controller registers.
    pub mmio_base: u64,
    /// Whether the enable handshake completed.
    pub is_ready: bool,
}

impl TouchscreenDriver {
    /// 🏭 Accepts the controller exactly when an MMIO base address
    /// exists.
    pub fn new(mmio_base: u64) -> (r: Result<TouchscreenDriver, TouchscreenError>)
        ensures
            match r {
                Result::Ok(d) => mmio_base != 0 && d == (TouchscreenDriver {
                    mmio_base,
                    is_ready: false,
                }),
                Result::Err(e) => e == TouchscreenError::DeviceNotFound && mmio_base == 0,
            },
    {
        if mmio_base == 0 {
            Err(TouchscreenError::DeviceNotFound)
        } else {
            Ok(TouchscreenDriver { mmio_base, is_ready: false })
        }
    }

    /// 🔌 Completes initialisation from the identification byte and the
    /// control value the glue read back after writing the enable bit: a
    /// wrong id means no (supported) device; an enable bit that did not
    /// stick means the handshake failed; otherwise the driver is ready.
    pub fn init(&mut self, device_id: u8, control_readback: u8) -> (r: Result<
        (),
        TouchscreenError,
    >)
        ensures
            final(self).mmio_base == old(self).mmio_base,
            match r {
                Result::Ok(()) => {
                    &&& device_id == TOUCH_EXPECTED_DEVICE_ID
                    &&& control_readback & 0x01 == 0x01
                    &&& final(self).is_ready
                },
                Result::Err(e) => {
                    &&& *final(self) == *old(self)
                    &&& ((e == TouchscreenError::DeviceNotFound && device_id
                        != TOUCH_EXPECTED_DEVICE_ID) || (e
                        == TouchscreenError::CommunicationInitFailed && device_id
                        == TOUCH_EXPECTED_DEVICE_ID && control_readback & 0x01 != 0x01))
                },
            },
    {
        if device_id != TOUCH_EXPECTED_DEVICE_ID {
            return Err(TouchscreenError::DeviceNotFound);
        }
        if (control_readback & 0x01) != 0x01 {
            return Err(TouchscreenError::CommunicationInitFailed);
        }
        self.is_ready = true;
        Ok(())
    }

    /// 📡 Decodes one poll of the event registers. Bit 0 of the status
    /// byte says whether an event is pending; when it is, the big-endian
    /// coordinate bytes and the pressure byte form the event, and bit 1
    /// of the status byte says whether the finger is down. A driver whose
    /// handshake has not completed is rejected.
    pub fn read_event(
        &self,
        status: u8,
        x_msb: u8,
        x_lsb: u8,
        y_msb: u8,
        y_lsb: u8,
        pressure: u8,
    ) -> (r: Result<Option<TouchEvent>, TouchscreenError>)
        ensures
            match r {
                Result::Ok(ev) => {
                    &&& self.is_ready
                    &&& match ev {
                        Option::None => status & 0x01 == 0,
                        Option::Some(e) => {
                            &&& status & 0x01 != 0
                            &&& e == (TouchEvent {
                                x: ((x_msb as u16) * 256 + (x_lsb as u16)) as u16,
                                y: ((y_msb as u16) * 256 + (y_lsb as u16)) as u16,
                                pressure,
                                down: status & 0x02 != 0,
                            })
                        },
                    }
                },
                Result::Err(e) => e == TouchscreenError::CommunicationInitFailed && !self.is_ready,
            },
    {
        if !self.is_ready {
            return Err(TouchscreenError::CommunicationInitFailed);
        }
        if (status & 0x01) == 0 {
            return Ok(None);
        }
        let x: u16 = (x_msb as u16) * 256 + (x_lsb as u16);
        let y: u16 = (y_msb as u16) * 256 + (y_lsb as u16);
        let down = (status & 0x02) != 0;
        Ok(Some(TouchEvent { x, y, pressure, down }))
    }
}

} // verus!
