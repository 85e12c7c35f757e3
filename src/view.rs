use vstd::prelude::*;
use crate::field::ONE_BITS;

verus! {

/// Bit pattern of the `f32` value -1.0.
pub const NEG_ONE_BITS: u32 = 0xBF80_0000;

/// Bit pattern of positive infinity; magnitudes above it are NaN.
pub const INF_BITS: u32 = 0x7F80_0000;

/// Sign bit of an `f32` bit pattern.
pub const SIGN_BIT: u32 = 0x8000_0000;

/// Number of words in the render uniform block.
pub const RENDER_BLOCK_WORDS: usize = 7;

/// Magnitude part of an `f32` bit pattern (all but the sign bit).
pub open spec fn magnitude(b: u32) -> int {
    if b >= SIGN_BIT {
        b - SIGN_BIT
    } else {
        b as int
    }
}

pub open spec fn is_nan(b: u32) -> bool {
    magnitude(b) > INF_BITS
}

/// An integer that orders non-NaN `f32` bit patterns as their values are
/// ordered; +0.0 and -0.0 share the key 0.
pub open spec fn order_key(b: u32) -> int {
    if b >= SIGN_BIT {
        -magnitude(b)
    } else {
        magnitude(b)
    }
}

/// The zoom that is stored for a requested zoom `b`: `b.max(1.0)` on `f32`
/// values, so NaN and anything below 1.0 become 1.0.
pub open spec fn clamp_zoom(b: u32) -> u32 {
    if is_nan(b) || order_key(b) < order_key(ONE_BITS) {
        ONE_BITS
    } else {
        b
    }
}

/// The pan offset that is stored for a requested offset `b`:
/// `b.max(-1.0).min(1.0)` on `f32` values, so NaN becomes -1.0.
pub open spec fn clamp_pan(b: u32) -> u32 {
    if is_nan(b) || order_key(b) < order_key(NEG_ONE_BITS) {
        NEG_ONE_BITS
    } else if order_key(b) > order_key(ONE_BITS) {
        ONE_BITS
    } else {
        b
    }
}

fn float_key(b: u32) -> (r: i64)
    ensures
        r == order_key(b),
{
    if b >= SIGN_BIT {
        -((b - SIGN_BIT) as i64)
    } else {
        b as i64
    }
}

fn float_is_nan(b: u32) -> (r: bool)
    ensures
        r == is_nan(b),
{
    let m = if b >= SIGN_BIT {
        b - SIGN_BIT
    } else {
        b
    };
    m > INF_BITS
}

/// Zoom of the view from the bits of a requested `f32` zoom; never below 1.0.
pub fn zoom_of(b: u32) -> (r: u32)
    ensures
        r == clamp_zoom(b),
{
    if float_is_nan(b) || float_key(b) < float_key(ONE_BITS) {
        ONE_BITS
    } else {
        b
    }
}

/// Pan offset of the view from the bits of a requested `f32` offset; within
/// [-1.0, 1.0].
pub fn pan_of(b: u32) -> (r: u32)
    ensures
        r == clamp_pan(b),
{
    if float_is_nan(b) || float_key(b) < float_key(NEG_ONE_BITS) {
        NEG_ONE_BITS
    } else if float_key(b) > float_key(ONE_BITS) {
        ONE_BITS
    } else {
        b
    }
}

/// What the render kernel is told besides the field and the gradient: palette,
/// relief shading, boundary mode, and the view transform (zoom and pan as `f32`
/// bits).
#[derive(Clone, Copy, Debug, PartialEq, Eq, Structural)]
pub struct ViewState {
    pub color_palette: u32,
    pub emboss: bool,
    pub boundary_mode: u32,
    pub zoom: u32,
    pub pan_x: u32,
    pub pan_y: u32,
}

impl ViewState {
    /// The view's invariant: zoom at least 1.0, pan within [-1.0, 1.0].
    pub open spec fn wf(self) -> bool {
        &&& clamp_zoom(self.zoom) == self.zoom
        &&& clamp_pan(self.pan_x) == self.pan_x
        &&& clamp_pan(self.pan_y) == self.pan_y
    }

    /// The uniform block that the render kernel reads, word by word.
    pub open spec fn block(self) -> Seq<u32> {
        seq![
            self.color_palette,
            if self.emboss { 1u32 } else { 0u32 },
            self.boundary_mode,
            0u32,
            self.zoom,
            self.pan_x,
            self.pan_y,
        ]
    }

    /// Palette 0, relief shading on, full view.
    pub fn new(boundary_mode: u32) -> (v: ViewState)
        ensures
            v == (ViewState {
                color_palette: 0,
                emboss: true,
                boundary_mode,
                zoom: ONE_BITS,
                pan_x: 0,
                pan_y: 0,
            }),
            v.wf(),
    {
        ViewState { color_palette: 0, emboss: true, boundary_mode, zoom: ONE_BITS, pan_x: 0, pan_y: 0 }
    }

    /// Serializes the complete render block.
    pub fn to_words(&self) -> (r: Vec<u32>)
        ensures
            r@ == self.block(),
            r@.len() == RENDER_BLOCK_WORDS,
    {
        let mut r: Vec<u32> = Vec::new();
        r.push(self.color_palette);
        r.push(if self.emboss { 1 } else { 0 });
        r.push(self.boundary_mode);
        r.push(0);
        r.push(self.zoom);
        r.push(self.pan_x);
        r.push(self.pan_y);
        proof {
            assert(r@ =~= self.block());
        }
        r
    }
}

} // verus!
