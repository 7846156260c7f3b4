//! The sound driver's state machine. The glue reads and writes the MMIO
//! registers; the decisions — whether initialisation succeeded, whether a
//! buffer may play, and which control word to write — are made here.

use vstd::prelude::*;

verus! {

/// ✨ Errors of the sound driver.
#[derive(Clone, Copy, PartialEq, Eq, Structural, Debug)]
pub enum SoundError {
    /// No device responds at the expected address.
    DeviceNotFound,
    /// The device did not report ready after a reset.
    InitializationFailed,
    /// The audio buffer is unusable (empty).
    InvalidBuffer,
    /// The device is not in a state to accept the operation.
    HardwareError,
}

/// The status-register value a healthy device reports after a reset.
pub const SOUND_STATUS_READY: u32 = 0x01;

/// The control-register bit that starts playback.
pub const SOUND_CONTROL_PLAY: u32 = 0b001;

/// 🔊 The sound driver.
pub struct SoundDriver {
    /// MMIO base address of the device registers.
    pub mmio_base: u64,
    /// Whether initialisation completed.
    pub initialized: bool,
}

impl SoundDriver {
    /// 📝 Accepts the device exactly when an MMIO base address exists.
    pub fn new(mmio_base: u64) -> (r: Result<SoundDriver, SoundError>)
        ensures
            match r {
                Result::Ok(d) => mmio_base != 0 && d == (SoundDriver {
                    mmio_base,
                    initialized: false,
                }),
                Result::Err(e) => e == SoundError::DeviceNotFound && mmio_base == 0,
            },
    {
        if mmio_base == 0 {
            Err(SoundError::DeviceNotFound)
        } else {
            Ok(SoundDriver { mmio_base, initialized: false })
        }
    }

    /// ⚙️ Completes initialisation from the status value the glue read
    /// back after resetting the device: ready (1) succeeds, anything else
    /// fails. An already-initialised driver is left alone.
    pub fn init(&mut self, status: u32) -> (r: Result<(), SoundError>)
        ensures
            final(self).mmio_base == old(self).mmio_base,
            match r {
                Result::Ok(()) => {
                    &&& (old(self).initialized || status == SOUND_STATUS_READY)
                    &&& final(self).initialized
                },
                Result::Err(e) => {
                    &&& e == SoundError::InitializationFailed
                    &&& !old(self).initialized
                    &&& status != SOUND_STATUS_READY
                    &&& *final(self) == *old(self)
                },
            },
    {
        if self.initialized {
            return Ok(());
        }
        if status != SOUND_STATUS_READY {
            return Err(SoundError::InitializationFailed);
        }
        self.initialized = true;
        Ok(())
    }

    /// 🎵 Decides a playback request: an uninitialised device and an
    /// empty buffer are rejected; otherwise the result is the control
    /// word to write back — the current control value with the play bit
    /// set. The glue writes the buffer address and that word to the
    /// device.
    pub fn play_buffer(&mut self, buffer: &[u8], control: u32) -> (r: Result<u32, SoundError>)
        ensures
            *final(self) == *old(self),
            match r {
                Result::Ok(c) => {
                    &&& old(self).initialized
                    &&& buffer@.len() > 0
                    &&& c == control | SOUND_CONTROL_PLAY
                },
                Result::Err(e) => (e == SoundError::HardwareError && !old(self).initialized) || (e
                    == SoundError::InvalidBuffer && old(self).initialized && buffer@.len() == 0),
            },
    {
        if !self.initialized {
            return Err(SoundError::HardwareError);
        }
        if buffer.len() == 0 {
            return Err(SoundError::InvalidBuffer);
        }
        Ok(control | SOUND_CONTROL_PLAY)
    }
}

} // verus!
