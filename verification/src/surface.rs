//! A drawing surface as plain values: its measures and its bytes. The
//! program copies the bytes to and from the host's own surface.

use vstd::prelude::*;

verus! {

/// A colour by its three channels.
#[derive(Debug, Clone, Copy, PartialEq, Eq, Structural)]
pub struct Color {
    pub r: u8,
    pub g: u8,
    pub b: u8,
}

/// A colour as the host's drawing calls take it: the three channels and a
/// fourth byte that is not used.
#[derive(Debug, Clone, Copy, PartialEq, Eq, Structural)]
pub struct SdlColor {
    pub r: u8,
    pub g: u8,
    pub b: u8,
    pub unused: u8,
}

impl Color {
    /// Black: every channel at 0.
    pub fn black() -> (out: Color)
        ensures
            out == (Color { r: 0, g: 0, b: 0 }),
    {
        Color { r: 0, g: 0, b: 0 }
    }

    /// White: every channel at 255.
    pub fn white() -> (out: Color)
        ensures
            out == (Color { r: 255, g: 255, b: 255 }),
    {
        Color { r: 255, g: 255, b: 255 }
    }

    /// The colour in the host's form, with the unused byte at 0.
    pub fn to_sdl_color(&self) -> (out: SdlColor)
        ensures
            out == (SdlColor { r: self.r, g: self.g, b: self.b, unused: 0 }),
    {
        SdlColor { r: self.r, g: self.g, b: self.b, unused: 0 }
    }
}

/// A surface: `h` rows of `pitch` bytes each, of which `w` pixels are shown.
pub struct Surface {
    w: i32,
    h: i32,
    pitch: i32,
    pixels: Vec<u8>,
}

/// The byte that frame number `count` paints: its low eight bits.
pub open spec fn shade_of(count: i32) -> u8 {
    (count & 0xff) as u8
}

impl Surface {
    /// The width in pixels.
    pub closed spec fn width(&self) -> int {
        self.w as int
    }

    /// The height in rows.
    pub closed spec fn height(&self) -> int {
        self.h as int
    }

    /// The length of a row in bytes.
    pub closed spec fn row_bytes(&self) -> int {
        self.pitch as int
    }

    /// The bytes, row after row.
    pub closed spec fn bytes(&self) -> Seq<u8> {
        self.pixels@
    }

    /// Whether the measures are not negative and the bytes fill the rows.
    pub open spec fn well_formed(&self) -> bool {
        &&& 0 <= self.width()
        &&& 0 <= self.height()
        &&& 0 <= self.row_bytes()
        &&& self.bytes().len() == self.row_bytes() * self.height()
    }

    /// Makes a surface of the given measures over `pixels`, or `None` where
    /// a measure is negative or the bytes do not fill `h` rows of `pitch`.
    pub fn new(w: i32, h: i32, pitch: i32, pixels: Vec<u8>) -> (out: Option<Surface>)
        ensures
            out is Some == (0 <= w && 0 <= h && 0 <= pitch && pixels@.len() == pitch * h),
            out matches Some(surface) ==> {
                &&& surface.well_formed()
                &&& surface.width() == w
                &&& surface.height() == h
                &&& surface.row_bytes() == pitch
                &&& surface.bytes() == pixels@
            },
    {
        if w < 0 || h < 0 || pitch < 0 {
            return None;
        }
        assert(0 <= pitch * h <= 0x7fff_ffff * 0x7fff_ffff) by (nonlinear_arith)
            requires
                0 <= pitch <= 0x7fff_ffff,
                0 <= h <= 0x7fff_ffff,
        ;
        let size: u64 = pitch as u64 * h as u64;
        if pixels.len() as u64 != size {
            return None;
        }
        Some(Surface { w, h, pitch, pixels })
    }

    /// The width, the height and the length of a row.
    pub fn x_y_pitch(self) -> (out: (i32, i32, i32))
        ensures
            out.0 == self.width(),
            out.1 == self.height(),
            out.2 == self.row_bytes(),
    {
        (self.w, self.h, self.pitch)
    }

    /// The bytes, row after row.
    pub fn pixels(&self) -> (out: &[u8])
        ensures
            out@ == self.bytes(),
    {
        self.pixels.as_slice()
    }

    /// Whether the surface has to be locked while its bytes are written:
    /// always.
    pub fn must_lock(&self) -> (out: bool)
        ensures
            out,
    {
        true
    }
}

/// Paints frame number `count`: every byte of the surface gets the low
/// eight bits of `count`. The measures stay.
pub fn render(surface: &mut Surface, count: i32)
    ensures
        final(surface).width() == old(surface).width(),
        final(surface).height() == old(surface).height(),
        final(surface).row_bytes() == old(surface).row_bytes(),
        final(surface).bytes() == Seq::new(old(surface).bytes().len(), |i: int| shade_of(count)),
        old(surface).well_formed() ==> final(surface).well_formed(),
{
    let low: i32 = count & 0xff;
    assert(0 <= low <= 255) by (bit_vector)
        requires
            low == count & 0xff,
    ;
    let val: u8 = low as u8;
    let n = surface.pixels.len();
    let mut i: usize = 0;
    while i < n
        invariant
            i <= n,
            n == surface.pixels@.len(),
            val == shade_of(count),
            surface.w == old(surface).w,
            surface.h == old(surface).h,
            surface.pitch == old(surface).pitch,
            forall|k: int| 0 <= k < i ==> surface.pixels@[k] == val,
        decreases n - i,
    {
        surface.pixels.set(i, val);
        i += 1;
    }
}

} // verus!
