//! Colour masking: which pixels of a frame lie in a band.

use crate::frame::{Frame, FrameView};
use crate::hue::HueBand;
use vstd::prelude::*;

verus! {

/// Byte of a mask pixel whose frame pixel lies in the band.
pub const SET: u8 = 255;

/// Byte of a mask pixel whose frame pixel lies outside the band.
pub const CLEAR: u8 = 0;

/// A binary image with one byte per pixel, stored row by row.
#[derive(Debug)]
pub struct Mask {
    width: usize,
    height: usize,
    data: Vec<u8>,
}

/// What a mask is: its size and its bytes.
pub ghost struct MaskView {
    pub width: nat,
    pub height: nat,
    pub pixels: Seq<u8>,
}

impl MaskView {
    /// One byte per pixel, each of them `SET` or `CLEAR`.
    pub open spec fn wf(self) -> bool {
        &&& self.pixels.len() == self.width * self.height
        &&& forall|i: int|
            0 <= i < self.pixels.len() ==> self.pixels[i] == SET || self.pixels[i] == CLEAR
    }

    /// No pixel is set.
    pub open spec fn is_blank(self) -> bool {
        forall|i: int| 0 <= i < self.pixels.len() ==> self.pixels[i] == CLEAR
    }
}

/// The mask of `frame` under `band`: as large as the frame, with a pixel set
/// where the frame's pixel lies in the band and clear elsewhere.
pub open spec fn mask_of(frame: FrameView, band: HueBand) -> MaskView {
    MaskView {
        width: frame.width,
        height: frame.height,
        pixels: Seq::new(
            frame.pixel_count(),
            |i: int|
                if band.spec_contains(frame.pixel(i)) {
                    SET
                } else {
                    CLEAR
                },
        ),
    }
}

impl View for Mask {
    type V = MaskView;

    closed spec fn view(&self) -> MaskView {
        MaskView { width: self.width as nat, height: self.height as nat, pixels: self.data@ }
    }
}

impl Clone for Mask {
    fn clone(&self) -> (copy: Self)
        ensures
            copy@ == self@,
    {
        Mask { width: self.width, height: self.height, data: self.data.clone() }
    }
}

impl Mask {
    /// One byte per pixel, each of them `SET` or `CLEAR`.
    pub open spec fn wf(&self) -> bool {
        self@.wf()
    }

    /// Width in pixels.
    pub fn width(&self) -> (width: usize)
        ensures
            width == self@.width,
    {
        self.width
    }

    /// Height in pixels.
    pub fn height(&self) -> (height: usize)
        ensures
            height == self@.height,
    {
        self.height
    }

    /// The bytes of the mask.
    pub fn data(&self) -> (data: &Vec<u8>)
        ensures
            data@ == self@.pixels,
    {
        &self.data
    }

    /// Whether no pixel is set.
    pub fn is_blank(&self) -> (blank: bool)
        ensures
            blank == self@.is_blank(),
    {
        let mut i: usize = 0;
        while i < self.data.len()
            invariant
                i <= self.data@.len(),
                forall|j: int| 0 <= j < i ==> self.data@[j] == CLEAR,
            decreases self.data@.len() - i,
        {
            if self.data[i] != CLEAR {
                assert(self@.pixels[i as int] != CLEAR);
                return false;
            }
            i += 1;
        }
        true
    }
}

/// Masks `frame` with `band`: a pixel of the result is set if every channel
/// of the frame's pixel lies between the band's bounds, ends included.
pub fn mask_frame(frame: &Frame, band: &HueBand) -> (mask: Mask)
    requires
        frame.wf(),
    ensures
        mask.wf(),
        mask@ == mask_of(frame@, *band),
{
    let count = frame.pixel_count();
    let mut data: Vec<u8> = Vec::with_capacity(count);
    let mut i: usize = 0;
    while i < count
        invariant
            frame.wf(),
            count == frame@.pixel_count(),
            i <= count,
            data@.len() == i,
            forall|j: int|
                0 <= j < i ==> data@[j] == if band.spec_contains(frame@.pixel(j)) {
                    SET
                } else {
                    CLEAR
                },
        decreases count - i,
    {
        let byte = if band.contains(frame.pixel(i)) {
            SET
        } else {
            CLEAR
        };
        data.push(byte);
        i += 1;
    }
    let mask = Mask { width: frame.width(), height: frame.height(), data };
    assert(mask@.pixels =~= mask_of(frame@, *band).pixels);
    mask
}

/// Whatever the frame and the band, the mask is as large as the frame and
/// each of its pixels is either set or clear.
pub proof fn lemma_mask_of_wf(frame: FrameView, band: HueBand)
    ensures
        mask_of(frame, band).wf(),
        mask_of(frame, band).width == frame.width,
        mask_of(frame, band).height == frame.height,
{
}

/// A mask is blank exactly when no pixel of the frame lies in the band.
pub proof fn lemma_blank_mask(frame: FrameView, band: HueBand)
    ensures
        mask_of(frame, band).is_blank() <==> forall|i: int|
            0 <= i < frame.pixel_count() ==> !band.spec_contains(#[trigger] frame.pixel(i)),
{
    let mask = mask_of(frame, band);
    if mask.is_blank() {
        assert forall|i: int| 0 <= i < frame.pixel_count() implies !band.spec_contains(
            #[trigger] frame.pixel(i),
        ) by {
            assert(mask.pixels[i] == CLEAR);
        }
    }
}

/// No pixel lies in a band whose lower hue bound is above its upper one, so
/// the mask of any frame under such a band is blank.
pub proof fn lemma_inverted_band_masks_nothing(frame: FrameView, band: HueBand)
    requires
        band.spec_is_inverted(),
    ensures
        mask_of(frame, band).is_blank(),
{
}

} // verus!
