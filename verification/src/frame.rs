use vstd::prelude::*;

verus! {

pub const FRAME_WIDTH: usize = 256;

pub const FRAME_HEIGHT: usize = 240;

/// A frame buffer holds three bytes for each of its 256 x 240 pixels.
pub open spec fn spec_frame_wf(f: Seq<u8>) -> bool {
    f.len() == 256 * 240 * 3
}

/// The frame buffer after writing one RGB pixel at (x, y): three consecutive
/// bytes starting at the pixel's row-major offset.
pub open spec fn spec_set_pixel(f: Seq<u8>, x: u8, y: u8, rgb: (u8, u8, u8)) -> Seq<u8> {
    let base = 3 * (y as int * 256 + x as int);
    f.update(base, rgb.0).update(base + 1, rgb.1).update(base + 2, rgb.2)
}

/// One video frame as a flat RGB byte sequence, row-major, three bytes per
/// pixel.
pub struct Frame {
    pub data: Vec<u8>,
}

impl View for Frame {
    type V = Seq<u8>;

    open spec fn view(&self) -> Seq<u8> {
        self.data@
    }
}

impl Frame {
    pub fn new() -> (r: Frame)
        ensures
            spec_frame_wf(r@),
            forall|i: int| 0 <= i < r@.len() ==> r@[i] == 0u8,
    {
        Frame { data: vec![0u8; FRAME_WIDTH * FRAME_HEIGHT * 3] }
    }

    /// Writes one RGB pixel at (x, y).
    pub fn set_pixel(&mut self, x: u8, y: u8, rgb: (u8, u8, u8))
        requires
            spec_frame_wf(old(self)@),
            y < 240,
        ensures
            final(self)@ == spec_set_pixel(old(self)@, x, y, rgb),
            spec_frame_wf(final(self)@),
    {
        let addr = (y as usize) * 256 + (x as usize);
        self.data[3 * addr] = rgb.0;
        self.data[3 * addr + 1] = rgb.1;
        self.data[3 * addr + 2] = rgb.2;
    }
}

} // verus!
