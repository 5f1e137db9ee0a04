//! Frames as plain pixel buffers: width, height and three 8-bit channels per
//! pixel, stored row by row with the channels of a pixel next to each other.

use vstd::prelude::*;

verus! {

/// Number of channels in a frame.
pub const CHANNELS: usize = 3;

/// One pixel of a frame in the hue / saturation / value colour space.
#[derive(Clone, Copy, Debug, PartialEq, Eq, Structural)]
pub struct Hsv {
    pub hue: u8,
    pub saturation: u8,
    pub value: u8,
}

/// A frame of `width` by `height` pixels with three 8-bit channels each.
#[derive(Debug)]
pub struct Frame {
    width: usize,
    height: usize,
    data: Vec<u8>,
}

/// What a frame is: its size and its bytes.
pub ghost struct FrameView {
    pub width: nat,
    pub height: nat,
    pub data: Seq<u8>,
}

impl FrameView {
    /// Number of pixels.
    pub open spec fn pixel_count(self) -> nat {
        self.width * self.height
    }

    /// The bytes are exactly three per pixel.
    pub open spec fn wf(self) -> bool {
        self.data.len() == self.pixel_count() * CHANNELS
    }

    /// The pixel at position `i`, counted row by row.
    pub open spec fn pixel(self, i: int) -> Hsv {
        Hsv {
            hue: self.data[CHANNELS * i],
            saturation: self.data[CHANNELS * i + 1],
            value: self.data[CHANNELS * i + 2],
        }
    }
}

impl View for Frame {
    type V = FrameView;

    closed spec fn view(&self) -> FrameView {
        FrameView { width: self.width as nat, height: self.height as nat, data: self.data@ }
    }
}

impl Clone for Frame {
    fn clone(&self) -> (copy: Self)
        ensures
            copy@ == self@,
    {
        Frame { width: self.width, height: self.height, data: self.data.clone() }
    }
}

impl Frame {
    /// The frame holds exactly three bytes per pixel.
    pub open spec fn wf(&self) -> bool {
        self@.wf()
    }

    /// A frame of the given size over `data`, or `None` when `data` does not
    /// hold exactly three bytes for each of the `width * height` pixels.
    pub fn new(width: usize, height: usize, data: Vec<u8>) -> (frame: Option<Frame>)
        ensures
            frame is Some <==> data@.len() == width * height * CHANNELS,
            frame matches Some(f) ==> f.wf() && f@ == (FrameView {
                width: width as nat,
                height: height as nat,
                data: data@,
            }),
    {
        let len = match width.checked_mul(height) {
            Some(pixels) => pixels.checked_mul(CHANNELS),
            None => None,
        };
        let given = data.len();
        match len {
            Some(len) => {
                if given == len {
                    Some(Frame { width, height, data })
                } else {
                    None
                }
            },
            None => None,
        }
    }

    /// A frame without pixels, as a source reports while it is not ready.
    pub fn empty() -> (frame: Frame)
        ensures
            frame.wf(),
            frame@ == (FrameView { width: 0, height: 0, data: Seq::empty() }),
    {
        Frame { width: 0, height: 0, data: Vec::new() }
    }

    /// Width in pixels.
    pub fn width(&self) -> (width: usize)
        ensures
            width == self@.width,
    {
        self.width
    }

    /// Height in pixels.
    pub fn height(&self) -> (height: usize)
        ensures
            height == self@.height,
    {
        self.height
    }

    /// The bytes of the frame.
    pub fn data(&self) -> (data: &Vec<u8>)
        ensures
            data@ == self@.data,
    {
        &self.data
    }

    /// Number of pixels.
    pub fn pixel_count(&self) -> (count: usize)
        requires
            self.wf(),
        ensures
            count == self@.pixel_count(),
    {
        self.data.len() / CHANNELS
    }

    /// The pixel at position `i`, counted row by row.
    pub fn pixel(&self, i: usize) -> (pixel: Hsv)
        requires
            self.wf(),
            i < self@.pixel_count(),
        ensures
            pixel == self@.pixel(i as int),
    {
        assert(self.data.len() == self@.pixel_count() * CHANNELS);
        let at: usize = CHANNELS * i;
        Hsv { hue: self.data[at], saturation: self.data[at + 1], value: self.data[at + 2] }
    }
}

} // verus!
