use vstd::prelude::*;

verus! {

/// Bit pattern of the `f32` value 1.0, as stored in field texels and uniform blocks.
pub const ONE_BITS: u32 = 0x3F80_0000;

/// Bit pattern of the `f32` value 0.0.
pub const ZERO_BITS: u32 = 0;

/// Squared radius bound of the central nucleation seed: texels closer than
/// sqrt(400) to the center are seeded.
pub const SEED_RADIUS_SQ: u64 = 400;

/// Dimensions of the field in texels. Each texel holds two `f32` words, U then V,
/// stored row by row.
#[derive(Clone, Copy, Debug, PartialEq, Eq, Structural)]
pub struct Grid {
    pub width: u32,
    pub height: u32,
}

impl Grid {
    /// A grid is valid when it is not empty and its full image fits in a `Vec`.
    pub open spec fn wf(self) -> bool {
        &&& 0 < self.width
        &&& 0 < self.height
        &&& self.words() <= usize::MAX
    }

    /// Number of words in a full field image.
    pub open spec fn words(self) -> int {
        2 * (self.width * self.height)
    }
}

/// A filled disc: the texels `(x, y)` with `(x - cx)^2 + (y - cy)^2 <= r2`.
#[derive(Clone, Copy, Debug, PartialEq, Eq, Structural)]
pub struct Disc {
    pub cx: u32,
    pub cy: u32,
    pub r2: u64,
}

pub open spec fn sq(a: int) -> int {
    a * a
}

pub open spec fn covers(d: Disc, x: int, y: int) -> bool {
    sq(x - d.cx) + sq(y - d.cy) <= d.r2
}

pub open spec fn covered(discs: Seq<Disc>, x: int, y: int) -> bool {
    exists|k: int| 0 <= k < discs.len() && #[trigger] covers(discs[k], x, y)
}

/// The U word of texel `(x, y)`.
pub open spec fn u_at(d: Seq<u32>, g: Grid, x: int, y: int) -> u32 {
    d[2 * (y * g.width + x)]
}

/// The V word of texel `(x, y)`.
pub open spec fn v_at(d: Seq<u32>, g: Grid, x: int, y: int) -> u32 {
    d[2 * (y * g.width + x) + 1]
}

pub open spec fn texel_ok(d: Seq<u32>, g: Grid, discs: Seq<Disc>, x: int, y: int) -> bool {
    &&& u_at(d, g, x, y) == ONE_BITS
    &&& v_at(d, g, x, y) == if covered(discs, x, y) { ONE_BITS } else { ZERO_BITS }
}

/// `d` is a full field image of grid `g` in the base state U=1, V=0, except that
/// V=1 on every texel that one of `discs` covers.
pub open spec fn field_holds(d: Seq<u32>, g: Grid, discs: Seq<Disc>) -> bool {
    &&& d.len() == g.words()
    &&& forall|x: int, y: int|
        0 <= x < g.width && 0 <= y < g.height ==> #[trigger] texel_ok(d, g, discs, x, y)
}

/// Every texel of `d` is in the base state U=1, V=0.
pub open spec fn all_clear(d: Seq<u32>, g: Grid) -> bool {
    forall|x: int, y: int|
        0 <= x < g.width && 0 <= y < g.height ==> #[trigger] u_at(d, g, x, y) == ONE_BITS && v_at(
            d,
            g,
            x,
            y,
        ) == ZERO_BITS
}

/// The nucleation seed at the center of the grid.
pub open spec fn center_disc(g: Grid) -> Disc {
    Disc { cx: (g.width / 2) as u32, cy: (g.height / 2) as u32, r2: (SEED_RADIUS_SQ - 1) as u64 }
}

fn abs_diff(a: u32, b: u32) -> (r: u64)
    ensures
        r as int == a - b || r as int == b - a,
        r <= u32::MAX,
{
    if a >= b {
        (a - b) as u64
    } else {
        (b - a) as u64
    }
}

/// Whether disc `d` covers texel `(x, y)`.
pub fn disc_covers(d: &Disc, x: u32, y: u32) -> (r: bool)
    ensures
        r == covers(*d, x as int, y as int),
{
    let dx = abs_diff(x, d.cx);
    let dy = abs_diff(y, d.cy);
    proof {
        assert(dx * dx == sq(x - d.cx)) by (nonlinear_arith)
            requires
                dx as int == x - d.cx || dx as int == d.cx - x,
        ;
        assert(dy * dy == sq(y - d.cy)) by (nonlinear_arith)
            requires
                dy as int == y - d.cy || dy as int == d.cy - y,
        ;
        assert(dx * dx <= u32::MAX * u32::MAX) by (nonlinear_arith)
            requires
                dx <= u32::MAX,
        ;
        assert(dy * dy <= u32::MAX * u32::MAX) by (nonlinear_arith)
            requires
                dy <= u32::MAX,
        ;
    }
    let s: u128 = (dx as u128) * (dx as u128) + (dy as u128) * (dy as u128);
    s <= d.r2 as u128
}

/// Whether any of `discs` covers texel `(x, y)`.
pub fn any_covers(discs: &Vec<Disc>, x: u32, y: u32) -> (r: bool)
    ensures
        r == covered(discs@, x as int, y as int),
{
    let mut k: usize = 0;
    while k < discs.len()
        invariant
            k <= discs@.len(),
            forall|j: int| 0 <= j < k ==> !#[trigger] covers(discs@[j], x as int, y as int),
        decreases discs@.len() - k,
    {
        if disc_covers(&discs[k], x, y) {
            return true;
        }
        k += 1;
    }
    false
}

/// Builds a full field image: U=1 everywhere, V=1 where one of `discs` covers the
/// texel and V=0 elsewhere.
pub fn fill_field(g: Grid, discs: &Vec<Disc>) -> (d: Vec<u32>)
    requires
        g.wf(),
    ensures
        field_holds(d@, g, discs@),
{
    let w = g.width;
    let mut d: Vec<u32> = Vec::new();
    let mut y: u32 = 0;
    while y < g.height
        invariant
            g.wf(),
            w == g.width,
            y <= g.height,
            d@.len() == 2 * (y * w),
            forall|xx: int, yy: int|
                0 <= xx < w && 0 <= yy < y ==> #[trigger] texel_ok(d@, g, discs@, xx, yy),
        decreases g.height - y,
    {
        let mut x: u32 = 0;
        while x < w
            invariant
                g.wf(),
                w == g.width,
                y < g.height,
                x <= w,
                d@.len() == 2 * (y * w + x),
                forall|xx: int, yy: int|
                    0 <= xx < w && 0 <= yy < y ==> #[trigger] texel_ok(d@, g, discs@, xx, yy),
                forall|xx: int| 0 <= xx < x ==> #[trigger] texel_ok(d@, g, discs@, xx, y as int),
            decreases w - x,
        {
            let v = if any_covers(discs, x, y) {
                ONE_BITS
            } else {
                ZERO_BITS
            };
            let ghost before = d@;
            d.push(ONE_BITS);
            d.push(v);
            proof {
                assert forall|xx: int, yy: int|
                    0 <= xx < w && 0 <= yy < y implies #[trigger] texel_ok(d@, g, discs@, xx, yy) by {
                    assert(yy * w + xx < y * w) by (nonlinear_arith)
                        requires
                            0 <= xx < w,
                            0 <= yy < y,
                    ;
                    assert(texel_ok(before, g, discs@, xx, yy));
                }
                assert forall|xx: int| 0 <= xx < x + 1 implies #[trigger] texel_ok(
                    d@,
                    g,
                    discs@,
                    xx,
                    y as int,
                ) by {
                    if xx < x {
                        assert(texel_ok(before, g, discs@, xx, y as int));
                    }
                }
            }
            x += 1;
        }
        proof {
            assert(y * w + w == (y + 1) * w) by (nonlinear_arith);
        }
        y += 1;
    }
    proof {
        assert(y * w == g.width * g.height) by (nonlinear_arith)
            requires
                y == g.height,
                w == g.width,
        ;
    }
    d
}


/// A blob of the random scatter: a disc of radius `radius` around `(cx, cy)`.
#[derive(Clone, Copy, Debug, PartialEq, Eq, Structural)]
pub struct Blob {
    pub cx: u32,
    pub cy: u32,
    pub radius: u32,
}

pub open spec fn blob_disc(b: Blob) -> Disc {
    Disc { cx: b.cx, cy: b.cy, r2: (b.radius * b.radius) as u64 }
}

pub open spec fn blob_discs(bs: Seq<Blob>) -> Seq<Disc> {
    bs.map_values(|b: Blob| blob_disc(b))
}

/// The default initial field: base state with one circular seed of V=1 at the
/// center, on the texels closer than sqrt(400) to it.
pub fn seed_field(g: Grid) -> (d: Vec<u32>)
    requires
        g.wf(),
    ensures
        field_holds(d@, g, seq![center_disc(g)]),
        forall|x: int, y: int|
            0 <= x < g.width && 0 <= y < g.height ==> #[trigger] v_at(d@, g, x, y) == if sq(
                x - g.width / 2,
            ) + sq(y - g.height / 2) < SEED_RADIUS_SQ {
                ONE_BITS
            } else {
                ZERO_BITS
            },
{
    let mut discs: Vec<Disc> = Vec::new();
    discs.push(Disc { cx: g.width / 2, cy: g.height / 2, r2: SEED_RADIUS_SQ - 1 });
    proof {
        assert(discs@ =~= seq![center_disc(g)]);
    }
    let d = fill_field(g, &discs);
    proof {
        assert forall|x: int, y: int| 0 <= x < g.width && 0 <= y < g.height implies #[trigger] v_at(
            d@,
            g,
            x,
            y,
        ) == if sq(x - g.width / 2) + sq(y - g.height / 2) < SEED_RADIUS_SQ {
            ONE_BITS
        } else {
            ZERO_BITS
        } by {
            assert(texel_ok(d@, g, discs@, x, y));
            if covers(center_disc(g), x, y) {
                assert(covers(discs@[0], x, y));
            }
        }
    }
    d
}

/// The cleared field: U=1, V=0 on every texel.
pub fn clear_field(g: Grid) -> (d: Vec<u32>)
    requires
        g.wf(),
    ensures
        field_holds(d@, g, Seq::empty()),
        all_clear(d@, g),
{
    let discs: Vec<Disc> = Vec::new();
    let d = fill_field(g, &discs);
    proof {
        assert(discs@ =~= Seq::<Disc>::empty());
        assert forall|x: int, y: int| 0 <= x < g.width && 0 <= y < g.height implies #[trigger] u_at(
            d@,
            g,
            x,
            y,
        ) == ONE_BITS && v_at(d@, g, x, y) == ZERO_BITS by {
            assert(texel_ok(d@, g, discs@, x, y));
        }
    }
    d
}

/// The scattered field: base state with V=1 inside each of `blobs`, texels that
/// fall outside the grid being dropped.
pub fn scatter_field(g: Grid, blobs: &Vec<Blob>) -> (d: Vec<u32>)
    requires
        g.wf(),
    ensures
        field_holds(d@, g, blob_discs(blobs@)),
{
    let mut discs: Vec<Disc> = Vec::new();
    let mut k: usize = 0;
    while k < blobs.len()
        invariant
            k <= blobs@.len(),
            discs@ =~= blob_discs(blobs@.subrange(0, k as int)),
        decreases blobs@.len() - k,
    {
        let b = blobs[k];
        let r = b.radius as u64;
        proof {
            assert(r * r <= u32::MAX * u32::MAX) by (nonlinear_arith)
                requires
                    r <= u32::MAX,
            ;
        }
        discs.push(Disc { cx: b.cx, cy: b.cy, r2: r * r });
        proof {
            assert(blobs@.subrange(0, k + 1) =~= blobs@.subrange(0, k as int).push(b));
        }
        k += 1;
    }
    proof {
        assert(blobs@.subrange(0, k as int) =~= blobs@);
    }
    fill_field(g, &discs)
}

/// Each blob of a scatter leaves V=1 at its own center, whenever that center lies
/// on the grid: every one of the blobs is present in the field, however they
/// overlap.
pub proof fn lemma_blob_centers_set(d: Seq<u32>, g: Grid, blobs: Seq<Blob>)
    requires
        field_holds(d, g, blob_discs(blobs)),
    ensures
        forall|k: int|
            0 <= k < blobs.len() && blobs[k].cx < g.width && blobs[k].cy < g.height ==> v_at(
                d,
                g,
                #[trigger] blobs[k].cx as int,
                blobs[k].cy as int,
            ) == ONE_BITS,
{
    assert forall|k: int|
        0 <= k < blobs.len() && blobs[k].cx < g.width && blobs[k].cy < g.height implies v_at(
        d,
        g,
        #[trigger] blobs[k].cx as int,
        blobs[k].cy as int,
    ) == ONE_BITS by {
        let x = blobs[k].cx as int;
        let y = blobs[k].cy as int;
        assert(texel_ok(d, g, blob_discs(blobs), x, y));
        assert(blob_discs(blobs)[k] == blob_disc(blobs[k]));
        assert(sq(x - blobs[k].cx) == 0 && sq(y - blobs[k].cy) == 0);
        assert(covers(blob_discs(blobs)[k], x, y));
    }
}

} // verus!
