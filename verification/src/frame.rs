//! The pixel buffer that goes to the display.
//!
//! A frame holds three bytes for each pixel, red, green and blue, row by
//! row. Its length is fixed when it is made: a buffer of any other length is
//! no frame.

use vstd::prelude::*;

verus! {

/// The width of the display, in pixels.
pub const FRAME_WIDTH: u32 = 16;

/// The height of the display, in pixels.
pub const FRAME_HEIGHT: u32 = 16;

/// The number of pixels of the display.
pub const FRAME_PIXELS: usize = 256;

/// A buffer of exactly three bytes for each pixel.
#[derive(Debug, PartialEq, Eq)]
pub struct DecodedFrame {
    pixel_count: usize,
    bytes: Vec<u8>,
}

/// The colours of `pixels` without their alpha: the first three bytes of
/// each, in order.
pub open spec fn rgb_of(pixels: Seq<[u8; 4]>) -> Seq<u8> {
    Seq::new(3 * pixels.len(), |i: int| pixels[i / 3][i % 3])
}

impl View for DecodedFrame {
    type V = Seq<u8>;

    closed spec fn view(&self) -> Seq<u8> {
        self.bytes@
    }
}

impl DecodedFrame {
    /// The number of pixels of this frame.
    pub closed spec fn pixel_count(&self) -> nat {
        self.pixel_count as nat
    }

    /// A frame is as long as its pixels ask for.
    #[verifier::type_invariant]
    pub closed spec fn wf(&self) -> bool {
        self.bytes@.len() == 3 * self.pixel_count
    }

    /// Makes a frame of `pixel_count` pixels out of `bytes`, which must be of
    /// that length and are otherwise refused.
    pub fn new(pixel_count: usize, bytes: Vec<u8>) -> (frame: Option<DecodedFrame>)
        ensures
            frame is Some <==> bytes@.len() == 3 * pixel_count,
            frame matches Some(f) ==> f.wf() && f@ == bytes@ && f.pixel_count() == pixel_count,
    {
        let given = bytes.len();
        let fits = match pixel_count.checked_mul(3) {
            Some(length) => length == given,
            None => false,
        };
        if fits {
            Some(DecodedFrame { pixel_count, bytes })
        } else {
            None
        }
    }

    /// Makes a frame of `pixel_count` pixels out of as many pixels with
    /// alpha, which is dropped. Any other number of pixels is refused.
    pub fn from_rgba(pixel_count: usize, pixels: &[[u8; 4]]) -> (frame: Option<DecodedFrame>)
        ensures
            frame is Some <==> pixels@.len() == pixel_count,
            frame matches Some(f) ==> f.wf() && f@ == rgb_of(pixels@) && f.pixel_count()
                == pixel_count,
    {
        if pixels.len() != pixel_count {
            return None;
        }
        let mut bytes: Vec<u8> = Vec::new();
        let mut i: usize = 0;
        while i < pixels.len()
            invariant
                i <= pixels.len(),
                bytes@ == rgb_of(pixels@.take(i as int)),
            decreases pixels.len() - i,
        {
            let pixel = pixels[i];
            bytes.push(pixel[0]);
            bytes.push(pixel[1]);
            bytes.push(pixel[2]);
            i += 1;
            assert(bytes@ =~= rgb_of(pixels@.take(i as int)));
        }
        assert(pixels@.take(pixels@.len() as int) =~= pixels@);
        Some(DecodedFrame { pixel_count, bytes })
    }

    /// The number of pixels of this frame.
    pub fn pixels(&self) -> (count: usize)
        ensures
            count == self.pixel_count(),
            self@.len() == 3 * count,
    {
        proof {
            use_type_invariant(self);
        }
        self.pixel_count
    }

    /// The bytes of this frame.
    pub fn as_bytes(&self) -> (bytes: &[u8])
        ensures
            bytes@ == self@,
            bytes@.len() == 3 * self.pixel_count(),
    {
        proof {
            use_type_invariant(self);
        }
        self.bytes.as_slice()
    }
}

} // verus!
