use vstd::prelude::*;

verus! {

/// The pixel dimensions of the display surface, read once at startup. They
/// set both the GPU viewport and the `resolution` uniform.
#[derive(Clone, Copy, Debug, PartialEq, Eq, Structural)]
pub struct Viewport {
    pub width: u32,
    pub height: u32,
}

impl Viewport {
    /// A drawable surface has positive dimensions that fit the signed
    /// viewport call.
    pub open spec fn wf(self) -> bool {
        &&& 0 < self.width <= 0x7fff_ffff
        &&& 0 < self.height <= 0x7fff_ffff
    }

    /// Accepts the surface dimensions when they make a drawable viewport.
    pub fn new(width: u32, height: u32) -> (r: Option<Viewport>)
        ensures
            r matches Some(v) ==> (v.width == width && v.height == height && v.wf()),
            r is None <==> !(Viewport { width, height }).wf(),
    {
        if 0 < width && width <= 0x7fff_ffff && 0 < height && height <= 0x7fff_ffff {
            Some(Viewport { width, height })
        } else {
            None
        }
    }

    /// The value of the two-component `resolution` uniform: it always equals
    /// the viewport dimensions in pixels, the same pair the viewport command
    /// of the frame plan is set from.
    pub fn resolution_uniform(&self) -> (r: (u32, u32))
        ensures
            r.0 == self.width,
            r.1 == self.height,
    {
        (self.width, self.height)
    }
}

/// An exact ratio `num / den` with a positive denominator: the value of one
/// clip-space component, kept exact instead of rounded.
#[derive(Clone, Copy, Debug, PartialEq, Eq, Structural)]
pub struct Ratio {
    pub num: i64,
    pub den: i64,
}

impl Ratio {
    pub open spec fn wf(self) -> bool {
        self.den > 0
    }
}

/// Step one of the documented transform: `position / extent`, which lies in
/// [0, 1] for an on-screen position.
pub fn zero_to_one(position: i32, extent: u32) -> (r: Ratio)
    requires
        0 < extent <= 0x7fff_ffff,
    ensures
        r.wf(),
        r.num == position,
        r.den == extent,
{
    Ratio { num: position as i64, den: extent as i64 }
}

/// Step two: double it, into [0, 2] for an on-screen position.
pub fn zero_to_two(r1: Ratio) -> (r: Ratio)
    requires
        r1.wf(),
        i32::MIN <= r1.num <= i32::MAX,
    ensures
        r.wf(),
        r.num == 2 * r1.num,
        r.den == r1.den,
{
    Ratio { num: 2 * r1.num, den: r1.den }
}

/// Step three: shift down by one, into clip space [-1, 1]:
/// `2p/e - 1 = (2p - e) / e`.
pub fn clip_from_zero_to_two(r2: Ratio) -> (r: Ratio)
    requires
        r2.wf(),
        -0x1_0000_0000 <= r2.num <= 0x1_0000_0000,
        r2.den <= 0x7fff_ffff,
    ensures
        r.wf(),
        r.num == r2.num - r2.den,
        r.den == r2.den,
{
    Ratio { num: r2.num - r2.den, den: r2.den }
}

/// The pixel-to-clip transform for one component, exactly as the vertex
/// stage is contracted to compute it: `clip = (position / extent) * 2 - 1`,
/// kept as the exact ratio `(2 * position - extent) / extent`.
pub fn clip_component(position: i32, extent: u32) -> (r: Ratio)
    requires
        0 < extent <= 0x7fff_ffff,
    ensures
        r.wf(),
        r.num == 2 * position - extent,
        r.den == extent,
{
    let step_one = zero_to_one(position, extent);
    let step_two = zero_to_two(step_one);
    clip_from_zero_to_two(step_two)
}

/// Both clip-space components of a 2-D pixel-space vertex under the given
/// viewport resolution.
pub fn transform_vertex(x: i32, y: i32, viewport: &Viewport) -> (r: (Ratio, Ratio))
    requires
        viewport.wf(),
    ensures
        r.0.wf() && r.0.num == 2 * x - viewport.width && r.0.den == viewport.width,
        r.1.wf() && r.1.num == 2 * y - viewport.height && r.1.den == viewport.height,
{
    (clip_component(x, viewport.width), clip_component(y, viewport.height))
}

/// Law: a position inside the viewport maps into clip range, that is the
/// clip numerator `2p - e` stays within one denominator `e` of zero, so the
/// clip value lies in [-1, 1].
pub proof fn lemma_clip_in_range(position: int, extent: int)
    requires
        0 < extent,
        0 <= position <= extent,
    ensures
        -extent <= 2 * position - extent <= extent,
{
}

} // verus!
