use vstd::prelude::*;

verus! {

/// Capacity of the gradient, in stops.
pub const MAX_GRADIENT_STOPS: usize = 8;

/// Words per stop record: position, three padding words, RGBA.
pub const STOP_WORDS: usize = 8;

/// Words in the whole gradient block: the stop records, the stop count, three
/// padding words and a final padding record of four words.
pub const GRADIENT_BLOCK_WORDS: usize = 72;

pub open spec fn min(a: int, b: int) -> int {
    if a <= b {
        a
    } else {
        b
    }
}

/// Effective number of stops for `np` positions and `nc` color components.
pub open spec fn stop_count(np: int, nc: int) -> int {
    min(min(np, nc / 4), MAX_GRADIENT_STOPS as int)
}

/// Word `j` of the gradient block built from stop positions `pos` and RGBA
/// components `colors` (all `f32` bits). Stop records past the count are
/// zero-filled, and are ignored by the render kernel.
pub open spec fn gradient_word(pos: Seq<u32>, colors: Seq<u32>, j: int) -> u32 {
    let n = stop_count(pos.len() as int, colors.len() as int);
    if j < 64 {
        let s = j / 8;
        let o = j % 8;
        if s < n {
            if o == 0 {
                pos[s]
            } else if o < 4 {
                0
            } else {
                colors[4 * s + o - 4]
            }
        } else {
            0
        }
    } else if j == 64 {
        n as u32
    } else {
        0
    }
}

pub open spec fn gradient_block(pos: Seq<u32>, colors: Seq<u32>) -> Seq<u32> {
    Seq::new(GRADIENT_BLOCK_WORDS as nat, |j: int| gradient_word(pos, colors, j))
}

/// Positions of the gradient an engine starts with: 0.0, 0.2, 0.4, 0.6, 0.8,
/// 1.0, as `f32` bits.
pub open spec fn default_positions() -> Seq<u32> {
    seq![0x0000_0000u32, 0x3E4C_CCCD, 0x3ECC_CCCD, 0x3F19_999A, 0x3F4C_CCCD, 0x3F80_0000]
}

/// RGBA components of the gradient an engine starts with, as `f32` bits: dark
/// purple (0.2, 0, 0.3), purple (0.5, 0, 1), blue (0, 0.5, 1), cyan (0, 1, 0.8),
/// orange (1, 0.3, 0) and red (1, 0, 0), all opaque.
pub open spec fn default_colors() -> Seq<u32> {
    seq![
        0x3E4C_CCCDu32, 0, 0x3E99_999A, 0x3F80_0000,
        0x3F00_0000, 0, 0x3F80_0000, 0x3F80_0000,
        0, 0x3F00_0000, 0x3F80_0000, 0x3F80_0000,
        0, 0x3F80_0000, 0x3F4C_CCCD, 0x3F80_0000,
        0x3F80_0000, 0x3E99_999A, 0, 0x3F80_0000,
        0x3F80_0000, 0, 0, 0x3F80_0000,
    ]
}

fn words_of(s: &[u32]) -> (r: Vec<u32>)
    ensures
        r@ == s@,
{
    let mut r: Vec<u32> = Vec::new();
    let mut i: usize = 0;
    while i < s.len()
        invariant
            i <= s@.len(),
            r@ == s@.subrange(0, i as int),
        decreases s@.len() - i,
    {
        r.push(s[i]);
        proof {
            assert(s@.subrange(0, i + 1) =~= s@.subrange(0, i as int).push(s@[i as int]));
        }
        i += 1;
    }
    proof {
        assert(s@.subrange(0, i as int) =~= s@);
    }
    r
}

/// Positions of the default gradient.
pub fn default_gradient_positions() -> (r: Vec<u32>)
    ensures
        r@ == default_positions(),
{
    let a: [u32; 6] = [0x0000_0000, 0x3E4C_CCCD, 0x3ECC_CCCD, 0x3F19_999A, 0x3F4C_CCCD, 0x3F80_0000];
    let r = words_of(&a);
    proof {
        assert(r@ =~= default_positions());
    }
    r
}

/// RGBA components of the default gradient.
pub fn default_gradient_colors() -> (r: Vec<u32>)
    ensures
        r@ == default_colors(),
{
    let a: [u32; 24] = [
        0x3E4C_CCCD, 0, 0x3E99_999A, 0x3F80_0000,
        0x3F00_0000, 0, 0x3F80_0000, 0x3F80_0000,
        0, 0x3F00_0000, 0x3F80_0000, 0x3F80_0000,
        0, 0x3F80_0000, 0x3F4C_CCCD, 0x3F80_0000,
        0x3F80_0000, 0x3E99_999A, 0, 0x3F80_0000,
        0x3F80_0000, 0, 0, 0x3F80_0000,
    ];
    let r = words_of(&a);
    proof {
        assert(r@ =~= default_colors());
    }
    r
}

/// The gradient block an engine starts with: six stops.
pub fn default_gradient() -> (r: Vec<u32>)
    ensures
        r@ == gradient_block(default_positions(), default_colors()),
        stop_count(default_positions().len() as int, default_colors().len() as int) == 6,
{
    let positions = default_gradient_positions();
    let colors = default_gradient_colors();
    gradient_words(&positions, &colors)
}

/// Effective number of stops: `min(np, nc / 4, 8)`.
pub fn stop_count_of(np: usize, nc: usize) -> (r: usize)
    ensures
        r == stop_count(np as int, nc as int),
{
    let c = nc / 4;
    let m = if np <= c {
        np
    } else {
        c
    };
    if m <= MAX_GRADIENT_STOPS {
        m
    } else {
        MAX_GRADIENT_STOPS
    }
}

/// Builds the whole gradient block from parallel positions and RGBA components,
/// in the order given.
pub fn gradient_words(positions: &Vec<u32>, colors: &Vec<u32>) -> (r: Vec<u32>)
    ensures
        r@ == gradient_block(positions@, colors@),
        r@[64] == stop_count(positions@.len() as int, colors@.len() as int),
{
    let n = stop_count_of(positions.len(), colors.len());
    let mut r: Vec<u32> = Vec::new();
    let mut j: usize = 0;
    while j < GRADIENT_BLOCK_WORDS
        invariant
            j <= GRADIENT_BLOCK_WORDS,
            n == stop_count(positions@.len() as int, colors@.len() as int),
            r@.len() == j,
            forall|i: int| 0 <= i < j ==> r@[i] == gradient_word(positions@, colors@, i),
        decreases GRADIENT_BLOCK_WORDS - j,
    {
        let w: u32 = if j < 64 {
            let s = j / 8;
            let o = j % 8;
            if s < n {
                if o == 0 {
                    positions[s]
                } else if o < 4 {
                    0
                } else {
                    proof {
                        assert(4 * s + 4 <= colors@.len()) by (nonlinear_arith)
                            requires
                                s < n,
                                n <= colors@.len() / 4,
                        ;
                    }
                    colors[4 * s + o - 4]
                }
            } else {
                0
            }
        } else if j == 64 {
            n as u32
        } else {
            0
        };
        r.push(w);
        j += 1;
    }
    proof {
        assert(r@ =~= gradient_block(positions@, colors@));
    }
    r
}

} // verus!
