//! Interrupt vector numbering after the controllers are remapped, and the
//! acknowledgement routing rule.

use vstd::prelude::*;

verus! {

/// First vector of the primary interrupt controller after remapping.
pub const PIC_1_OFFSET: u8 = 32;

/// First vector of the secondary (chained) interrupt controller.
pub const PIC_2_OFFSET: u8 = PIC_1_OFFSET + 8;

/// ⚡ The hardware interrupt vectors the kernel handles.
#[derive(Clone, Copy, PartialEq, Eq, Structural, Debug)]
#[allow(non_camel_case_types)]
pub enum InterruptIndex {
    /// IRQ 0: the timer, the only preemption trigger.
    Timer,
    /// IRQ 1: the PS/2 keyboard.
    Keyboard,
    /// IRQ 3: the second serial port.
    Serial2,
    /// IRQ 14: the primary ATA channel.
    ATA_Primary,
    /// The system-call software interrupt.
    Syscall,
}

impl InterruptIndex {
    /// The vector number of the interrupt.
    pub open spec fn spec_vector(self) -> u8 {
        match self {
            InterruptIndex::Timer => 32,
            InterruptIndex::Keyboard => 33,
            InterruptIndex::Serial2 => 35,
            InterruptIndex::ATA_Primary => 46,
            InterruptIndex::Syscall => 0x80,
        }
    }

    /// The vector number of the interrupt, as written into the descriptor
    /// table and sent with the end-of-interrupt acknowledgement.
    pub fn as_u8(self) -> (r: u8)
        ensures
            r == self.spec_vector(),
    {
        match self {
            InterruptIndex::Timer => 32,
            InterruptIndex::Keyboard => 33,
            InterruptIndex::Serial2 => 35,
            InterruptIndex::ATA_Primary => 46,
            InterruptIndex::Syscall => 0x80,
        }
    }
}

/// Acknowledgement routing: an interrupt that arrived through the
/// secondary controller must be acknowledged at both controllers, one
/// from the primary only at the primary.
pub fn eoi_needs_secondary(vector: u8) -> (r: bool)
    ensures
        r == (vector >= PIC_2_OFFSET),
{
    vector >= PIC_2_OFFSET
}

} // verus!
