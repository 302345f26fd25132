//! The handoff from the external image decoder.
//!
//! The decoder returns a width, a height and a tightly packed RGBA byte
//! buffer. Before any texture is built from it, the buffer is checked to
//! hold exactly four bytes per pixel; a decoded image that does not is
//! rejected for its one surface and touches no other.

use vstd::prelude::*;

verus! {

/// Why a decoded buffer was rejected.
#[derive(Clone, Copy, PartialEq, Eq, Structural, Debug)]
pub enum PixelBufferError {
    /// The byte buffer does not hold exactly four bytes per pixel.
    MismatchedLength,
}

/// A decoded image, tightly packed RGBA, four bytes per pixel.
pub struct PixelBuffer {
    pub width: u32,
    pub height: u32,
    pub data: Vec<u8>,
}

/// The one shape a pixel buffer may have.
pub open spec fn pixel_buffer_wf(b: PixelBuffer) -> bool {
    b.data@.len() == 4 * (b.width as int) * (b.height as int)
}

impl PixelBuffer {
    /// Accept a decoder's result exactly when the buffer length matches the
    /// claimed size.
    pub fn from_decoded(width: u32, height: u32, data: Vec<u8>) -> (r: Result<
        PixelBuffer,
        PixelBufferError,
    >)
        ensures
            r is Ok <==> data@.len() == 4 * (width as int) * (height as int),
            r matches Ok(b) ==> b.width == width && b.height == height && b.data@ == data@
                && pixel_buffer_wf(b),
            r is Err ==> r == Result::<PixelBuffer, PixelBufferError>::Err(
                PixelBufferError::MismatchedLength,
            ),
    {
        proof {
            assert(4 * (width as int) * (height as int) < 0x100000000000000000) by (nonlinear_arith)
                requires
                    (width as int) < 0x100000000,
                    (height as int) < 0x100000000,
            ;
        }
        let expected: u128 = 4u128 * (width as u128) * (height as u128);
        if (data.len() as u128) == expected {
            Ok(PixelBuffer { width, height, data })
        } else {
            Err(PixelBufferError::MismatchedLength)
        }
    }
}

} // verus!
