use vstd::prelude::*;
use crate::field::Grid;

verus! {

/// Default feed rate, 0.055 as `f32` bits.
pub const DEFAULT_FEED_BITS: u32 = 0x3D61_47AE;

/// Default kill rate, 0.062 as `f32` bits.
pub const DEFAULT_KILL_BITS: u32 = 0x3D7D_F3B6;

/// Default diffusion coefficient of U, 1.0 as `f32` bits.
pub const DEFAULT_DIFFUSE_U_BITS: u32 = 0x3F80_0000;

/// Default diffusion coefficient of V, 0.5 as `f32` bits.
pub const DEFAULT_DIFFUSE_V_BITS: u32 = 0x3F00_0000;

/// Default time delta per step, 1.0 as `f32` bits.
pub const DEFAULT_DELTA_TIME_BITS: u32 = 0x3F80_0000;

/// Default boundary handling: reflect.
pub const DEFAULT_BOUNDARY: u32 = 2;

/// Number of words in the simulation uniform block.
pub const SIM_BLOCK_WORDS: usize = 12;

/// CPU-side mirror of the simulation constants. Real-valued parameters are kept
/// as the bit patterns of their `f32` values, which is what the kernel reads.
/// The kernel and boundary selectors are handed to the kernel as given
/// (0..3: default, cross, diagonal, spiral; 0..2: wrap, clamp, reflect); other
/// codes are passed through and their effect is the kernel's.
#[derive(Clone, Copy, Debug, PartialEq, Eq, Structural)]
pub struct SimParams {
    pub feed_rate: u32,
    pub kill_rate: u32,
    pub diffuse_u: u32,
    pub diffuse_v: u32,
    pub delta_time: u32,
    pub noise_strength: u32,
    pub kernel_type: u32,
    pub boundary_mode: u32,
    pub map_mode: bool,
}

pub open spec fn flag_word(b: bool) -> u32 {
    if b {
        1
    } else {
        0
    }
}

/// The parameters an engine starts with.
pub open spec fn default_params() -> SimParams {
    SimParams {
        feed_rate: DEFAULT_FEED_BITS,
        kill_rate: DEFAULT_KILL_BITS,
        diffuse_u: DEFAULT_DIFFUSE_U_BITS,
        diffuse_v: DEFAULT_DIFFUSE_V_BITS,
        delta_time: DEFAULT_DELTA_TIME_BITS,
        noise_strength: 0,
        kernel_type: 0,
        boundary_mode: DEFAULT_BOUNDARY,
        map_mode: false,
    }
}

impl SimParams {
    /// The uniform block that the diffusion-reaction kernel reads, word by word.
    pub open spec fn block(self, g: Grid) -> Seq<u32> {
        seq![
            self.feed_rate,
            self.kill_rate,
            self.diffuse_u,
            self.diffuse_v,
            self.delta_time,
            self.noise_strength,
            g.width,
            g.height,
            self.kernel_type,
            self.boundary_mode,
            flag_word(self.map_mode),
            0u32,
        ]
    }

    pub fn new() -> (p: SimParams)
        ensures
            p == default_params(),
    {
        SimParams {
            feed_rate: DEFAULT_FEED_BITS,
            kill_rate: DEFAULT_KILL_BITS,
            diffuse_u: DEFAULT_DIFFUSE_U_BITS,
            diffuse_v: DEFAULT_DIFFUSE_V_BITS,
            delta_time: DEFAULT_DELTA_TIME_BITS,
            noise_strength: 0,
            kernel_type: 0,
            boundary_mode: DEFAULT_BOUNDARY,
            map_mode: false,
        }
    }

    /// Serializes the complete parameter block.
    pub fn to_words(&self, g: Grid) -> (r: Vec<u32>)
        ensures
            r@ == self.block(g),
            r@.len() == SIM_BLOCK_WORDS,
    {
        let mut r: Vec<u32> = Vec::new();
        r.push(self.feed_rate);
        r.push(self.kill_rate);
        r.push(self.diffuse_u);
        r.push(self.diffuse_v);
        r.push(self.delta_time);
        r.push(self.noise_strength);
        r.push(g.width);
        r.push(g.height);
        r.push(self.kernel_type);
        r.push(self.boundary_mode);
        r.push(if self.map_mode { 1 } else { 0 });
        r.push(0);
        proof {
            assert(r@ =~= self.block(g));
        }
        r
    }
}

} // verus!
