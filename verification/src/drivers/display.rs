//! The display driver's decision core: framebuffer validation and pixel
//! layout computations. The glue performs the volatile framebuffer writes
//! at the offsets and with the byte values computed here.

use vstd::prelude::*;

verus! {

/// 🚨 Errors of the display driver.
#[derive(Clone, Copy, PartialEq, Eq, Structural, Debug)]
pub enum DisplayError {
    /// The bootloader passed no framebuffer.
    FramebufferNotFound,
    /// The pixel format or colour depth is unsupported.
    UnsupportedFormat,
    /// The MMIO parameters are invalid.
    InvalidMmio,
}

/// 🖥️ The essential properties of the framebuffer.
#[derive(Clone, Copy, PartialEq, Eq, Structural, Debug)]
pub struct FramebufferInfo {
    /// MMIO address of the framebuffer.
    pub address: usize,
    /// Width in pixels.
    pub width: u32,
    /// Height in pixels.
    pub height: u32,
    /// Bytes per row.
    pub pitch: u32,
    /// Colour depth in bits per pixel.
    pub bpp: u8,
}

impl FramebufferInfo {
    /// A framebuffer that exists in memory: a row of pixels fits in one
    /// pitch, and all rows together fit in the address space.
    pub open spec fn wf(&self) -> bool {
        &&& (self.width as int) * ((self.bpp / 8) as int) <= self.pitch as int
        &&& (self.pitch as int) * (self.height as int) <= usize::MAX as int
    }
}

/// 🎨 The display driver.
pub struct DisplayDriver {
    pub info: FramebufferInfo,
}

impl DisplayDriver {
    /// 📝 Accepts the framebuffer exactly when the bootloader reported
    /// an address.
    pub fn new(info: FramebufferInfo) -> (r: Result<DisplayDriver, DisplayError>)
        ensures
            match r {
                Result::Ok(d) => info.address != 0 && d.info == info,
                Result::Err(e) => e == DisplayError::FramebufferNotFound && info.address == 0,
            },
    {
        if info.address == 0 {
            Err(DisplayError::FramebufferNotFound)
        } else {
            Ok(DisplayDriver { info })
        }
    }

    /// Bytes each pixel occupies.
    pub fn bytes_per_pixel(&self) -> (r: u8)
        ensures
            r == self.info.bpp / 8,
    {
        self.info.bpp / 8
    }

    /// The four bytes written for one pixel of the colour, blue first
    /// (the fourth is the unused alpha byte and only written at 32-bit
    /// depth) — or nothing at an unsupported depth.
    pub fn color_bytes(&self, red: u8, green: u8, blue: u8) -> (r: Option<(u8, u8, u8, u8)>)
        ensures
            match r {
                Option::Some(c) => (self.info.bpp / 8 == 3 || self.info.bpp / 8 == 4) && c == (
                    blue,
                    green,
                    red,
                    0u8,
                ),
                Option::None => self.info.bpp / 8 != 3 && self.info.bpp / 8 != 4,
            },
    {
        let bytes_per_pixel = self.info.bpp / 8;
        if bytes_per_pixel == 3 || bytes_per_pixel == 4 {
            Some((blue, green, red, 0u8))
        } else {
            None
        }
    }

    /// Byte offset of pixel (x, y) in the framebuffer, or nothing when
    /// the coordinates fall outside the screen.
    pub fn pixel_offset(&self, x: u32, y: u32) -> (r: Option<u64>)
        requires
            self.info.wf(),
        ensures
            match r {
                Option::Some(o) => x < self.info.width && y < self.info.height && o == y
                    * self.info.pitch + x * (self.info.bpp / 8),
                Option::None => x >= self.info.width || y >= self.info.height,
            },
    {
        if x >= self.info.width || y >= self.info.height {
            return None;
        }
        proof {
            let p = self.info.pitch as int;
            let b = (self.info.bpp / 8) as int;
            let h = self.info.height as int;
            let w = self.info.width as int;
            let yy = y as int;
            let xx = x as int;
            vstd::arithmetic::mul::lemma_mul_inequality(yy + 1, h, p);
            vstd::arithmetic::mul::lemma_mul_is_distributive_add_other_way(p, yy, 1);
            assert(yy * p + p <= h * p);
            vstd::arithmetic::mul::lemma_mul_inequality(xx + 1, w, b);
            vstd::arithmetic::mul::lemma_mul_is_distributive_add_other_way(b, xx, 1);
            assert(xx * b + b <= w * b);
            assert(xx * b <= p);
            vstd::arithmetic::mul::lemma_mul_is_commutative(p, h);
            assert(yy * p + xx * b <= usize::MAX as int);
        }
        Some((y as u64) * (self.info.pitch as u64) + (x as u64) * ((self.info.bpp / 8) as u64))
    }

    /// Total bytes the framebuffer occupies: one pitch per row.
    pub fn total_bytes(&self) -> (r: u64)
        ensures
            r == self.info.pitch * self.info.height,
    {
        proof {
            vstd::arithmetic::mul::lemma_mul_upper_bound(
                self.info.pitch as int,
                0xFFFF_FFFF,
                self.info.height as int,
                0xFFFF_FFFF,
            );
        }
        (self.info.pitch as u64) * (self.info.height as u64)
    }
}

} // verus!
