use vstd::prelude::*;
use crate::field::{
    Blob, Grid, all_clear, blob_discs, center_disc, clear_field, field_holds, scatter_field, seed_field, ONE_BITS,
};
use crate::gradient::{gradient_block, gradient_words, stop_count, stop_count_of};
use crate::params::{SimParams, default_params};
use crate::view::{ViewState, clamp_pan, clamp_zoom, pan_of, zoom_of};

verus! {

/// Steps run per rendered frame unless changed.
pub const DEFAULT_STEPS_PER_FRAME: u32 = 8;

/// Number of blobs of a random scatter.
pub const BLOB_COUNT: usize = 15;

/// Smallest radius of a scattered blob.
pub const MIN_BLOB_RADIUS: u32 = 10;

/// Blob radii are drawn from `MIN_BLOB_RADIUS` up to, not including,
/// `MIN_BLOB_RADIUS + BLOB_RADIUS_SPAN`.
pub const BLOB_RADIUS_SPAN: u32 = 30;

/// Stops of the gradient an engine starts with.
pub const DEFAULT_GRADIENT_STOPS: usize = 6;

/// One of the two field buffers.
#[derive(Clone, Copy, Debug, PartialEq, Eq, Structural)]
pub enum Slot {
    A,
    B,
}

impl Slot {
    pub open spec fn other(self) -> Slot {
        match self {
            Slot::A => Slot::B,
            Slot::B => Slot::A,
        }
    }

    pub fn flipped(self) -> (r: Slot)
        ensures
            r == self.other(),
    {
        match self {
            Slot::A => Slot::B,
            Slot::B => Slot::A,
        }
    }
}

/// The active buffer after `n` mutations starting with `s` active.
pub open spec fn flip_n(s: Slot, n: nat) -> Slot
    decreases n,
{
    if n == 0 {
        s
    } else {
        flip_n(s, (n - 1) as nat).other()
    }
}

/// After `n` flips the active buffer is the one that was active before if and
/// only if `n` is even: a frame of `n` steps changes the active buffer exactly
/// when `n` is odd.
pub proof fn lemma_flip_parity(s: Slot, n: nat)
    ensures
        flip_n(s, n) == if n % 2 == 0 {
            s
        } else {
            s.other()
        },
        (flip_n(s, n) != s) == (n % 2 == 1),
    decreases n,
{
    if n > 0 {
        lemma_flip_parity(s, (n - 1) as nat);
    }
}

/// A whole-field replacement of one buffer.
pub struct FieldWrite {
    pub target: Slot,
    pub data: Vec<u32>,
}

/// One paint mutation: the paint block to upload (stamp center as `f32` bits)
/// and the buffer that the paint kernel reads; it writes the other one.
pub struct PaintDispatch {
    pub params: Vec<u32>,
    pub read: Slot,
}

/// The orchestration state of one simulation: parameter mirror, view, which
/// buffer is active, and the interaction state.
pub struct Engine {
    pub grid: Grid,
    pub params: SimParams,
    pub view: ViewState,
    pub gradient_stops: usize,
    pub active: Slot,
    pub paused: bool,
    pub mouse_down: bool,
    pub mouse_pos: Option<(u32, u32)>,
    pub steps_per_frame: u32,
    pub paint_target: Option<(u32, u32)>,
}

impl Engine {
    pub open spec fn wf(self) -> bool {
        &&& self.grid.wf()
        &&& self.view.wf()
        &&& self.view.boundary_mode == self.params.boundary_mode
        &&& self.gradient_stops <= 8
    }

    /// An engine on `grid` with default parameters and view, buffer A active.
    pub fn new(grid: Grid) -> (e: Engine)
        requires
            grid.wf(),
        ensures
            e.wf(),
            e.grid == grid,
            e.params == default_params(),
            e.view == (ViewState {
                color_palette: 0,
                emboss: true,
                boundary_mode: default_params().boundary_mode,
                zoom: ONE_BITS,
                pan_x: 0,
                pan_y: 0,
            }),
            e.gradient_stops == DEFAULT_GRADIENT_STOPS,
            e.active == Slot::A,
            !e.paused,
            !e.mouse_down,
            e.mouse_pos is None,
            e.steps_per_frame == DEFAULT_STEPS_PER_FRAME,
            e.paint_target is None,
    {
        let params = SimParams::new();
        Engine {
            grid,
            params,
            view: ViewState::new(params.boundary_mode),
            gradient_stops: DEFAULT_GRADIENT_STOPS,
            active: Slot::A,
            paused: false,
            mouse_down: false,
            mouse_pos: None,
            steps_per_frame: DEFAULT_STEPS_PER_FRAME,
            paint_target: None,
        }
    }

    /// The simulation block as it stands.
    pub fn sim_block(&self) -> (r: Vec<u32>)
        ensures
            r@ == self.params.block(self.grid),
    {
        self.params.to_words(self.grid)
    }

    /// The render block as it stands.
    pub fn render_block(&self) -> (r: Vec<u32>)
        ensures
            r@ == self.view.block(),
    {
        self.view.to_words()
    }

    fn store_params(&mut self, p: SimParams) -> (r: Vec<u32>)
        ensures
            *final(self) == (Engine { params: p, ..*old(self) }),
            r@ == p.block(old(self).grid),
    {
        self.params = p;
        self.params.to_words(self.grid)
    }

    fn store_view(&mut self, v: ViewState) -> (r: Vec<u32>)
        ensures
            *final(self) == (Engine { view: v, ..*old(self) }),
            r@ == v.block(),
    {
        self.view = v;
        self.view.to_words()
    }

    /// Sets the feed rate; returns the whole simulation block to upload.
    pub fn set_feed_rate(&mut self, value: u32) -> (r: Vec<u32>)
        requires
            old(self).wf(),
        ensures
            final(self).wf(),
            *final(self) == (Engine {
                params: SimParams { feed_rate: value, ..old(self).params },
                ..*old(self)
            }),
            r@ == final(self).params.block(final(self).grid),
    {
        let p = SimParams { feed_rate: value, ..self.params };
        self.store_params(p)
    }

    /// Sets the kill rate; returns the whole simulation block to upload.
    pub fn set_kill_rate(&mut self, value: u32) -> (r: Vec<u32>)
        requires
            old(self).wf(),
        ensures
            final(self).wf(),
            *final(self) == (Engine {
                params: SimParams { kill_rate: value, ..old(self).params },
                ..*old(self)
            }),
            r@ == final(self).params.block(final(self).grid),
    {
        let p = SimParams { kill_rate: value, ..self.params };
        self.store_params(p)
    }

    /// Sets feed and kill rate together; returns the whole simulation block.
    pub fn apply_preset(&mut self, feed: u32, kill: u32) -> (r: Vec<u32>)
        requires
            old(self).wf(),
        ensures
            final(self).wf(),
            *final(self) == (Engine {
                params: SimParams { feed_rate: feed, kill_rate: kill, ..old(self).params },
                ..*old(self)
            }),
            r@ == final(self).params.block(final(self).grid),
    {
        let p = SimParams { feed_rate: feed, kill_rate: kill, ..self.params };
        self.store_params(p)
    }

    /// Sets the diffusion coefficient of U; returns the whole simulation block.
    pub fn set_diffuse_u(&mut self, value: u32) -> (r: Vec<u32>)
        requires
            old(self).wf(),
        ensures
            final(self).wf(),
            *final(self) == (Engine {
                params: SimParams { diffuse_u: value, ..old(self).params },
                ..*old(self)
            }),
            r@ == final(self).params.block(final(self).grid),
    {
        let p = SimParams { diffuse_u: value, ..self.params };
        self.store_params(p)
    }

    /// Sets the diffusion coefficient of V; returns the whole simulation block.
    pub fn set_diffuse_v(&mut self, value: u32) -> (r: Vec<u32>)
        requires
            old(self).wf(),
        ensures
            final(self).wf(),
            *final(self) == (Engine {
                params: SimParams { diffuse_v: value, ..old(self).params },
                ..*old(self)
            }),
            r@ == final(self).params.block(final(self).grid),
    {
        let p = SimParams { diffuse_v: value, ..self.params };
        self.store_params(p)
    }

    /// The same as `set_diffuse_u`.
    pub fn set_diffusion_u(&mut self, value: u32) -> (r: Vec<u32>)
        requires
            old(self).wf(),
        ensures
            final(self).wf(),
            *final(self) == (Engine {
                params: SimParams { diffuse_u: value, ..old(self).params },
                ..*old(self)
            }),
            r@ == final(self).params.block(final(self).grid),
    {
        self.set_diffuse_u(value)
    }

    /// The same as `set_diffuse_v`.
    pub fn set_diffusion_v(&mut self, value: u32) -> (r: Vec<u32>)
        requires
            old(self).wf(),
        ensures
            final(self).wf(),
            *final(self) == (Engine {
                params: SimParams { diffuse_v: value, ..old(self).params },
                ..*old(self)
            }),
            r@ == final(self).params.block(final(self).grid),
    {
        self.set_diffuse_v(value)
    }

    /// Sets the time delta per step; returns the whole simulation block.
    pub fn set_delta_time(&mut self, value: u32) -> (r: Vec<u32>)
        requires
            old(self).wf(),
        ensures
            final(self).wf(),
            *final(self) == (Engine {
                params: SimParams { delta_time: value, ..old(self).params },
                ..*old(self)
            }),
            r@ == final(self).params.block(final(self).grid),
    {
        let p = SimParams { delta_time: value, ..self.params };
        self.store_params(p)
    }

    /// Sets the noise strength; returns the whole simulation block.
    pub fn set_noise(&mut self, value: u32) -> (r: Vec<u32>)
        requires
            old(self).wf(),
        ensures
            final(self).wf(),
            *final(self) == (Engine {
                params: SimParams { noise_strength: value, ..old(self).params },
                ..*old(self)
            }),
            r@ == final(self).params.block(final(self).grid),
    {
        let p = SimParams { noise_strength: value, ..self.params };
        self.store_params(p)
    }

    /// Sets the kernel stencil selector, passed through as given; returns the
    /// whole simulation block.
    pub fn set_kernel(&mut self, kernel: u32) -> (r: Vec<u32>)
        requires
            old(self).wf(),
        ensures
            final(self).wf(),
            *final(self) == (Engine {
                params: SimParams { kernel_type: kernel, ..old(self).params },
                ..*old(self)
            }),
            r@ == final(self).params.block(final(self).grid),
    {
        let p = SimParams { kernel_type: kernel, ..self.params };
        self.store_params(p)
    }

    /// Sets the reaction-model toggle; returns the whole simulation block.
    pub fn set_map_mode(&mut self, enabled: bool) -> (r: Vec<u32>)
        requires
            old(self).wf(),
        ensures
            final(self).wf(),
            *final(self) == (Engine {
                params: SimParams { map_mode: enabled, ..old(self).params },
                ..*old(self)
            }),
            r@ == final(self).params.block(final(self).grid),
    {
        let p = SimParams { map_mode: enabled, ..self.params };
        self.store_params(p)
    }

    /// Sets the boundary handling, passed through as given, in the simulation
    /// parameters and in the view alike; returns both blocks, simulation first.
    pub fn set_boundary(&mut self, boundary: u32) -> (r: (Vec<u32>, Vec<u32>))
        requires
            old(self).wf(),
        ensures
            final(self).wf(),
            *final(self) == (Engine {
                params: SimParams { boundary_mode: boundary, ..old(self).params },
                view: ViewState { boundary_mode: boundary, ..old(self).view },
                ..*old(self)
            }),
            r.0@ == final(self).params.block(final(self).grid),
            r.1@ == final(self).view.block(),
    {
        let p = SimParams { boundary_mode: boundary, ..self.params };
        let v = ViewState { boundary_mode: boundary, ..self.view };
        let a = self.store_params(p);
        let b = self.store_view(v);
        (a, b)
    }

    /// Selects the color palette; returns the whole render block.
    pub fn set_color_palette(&mut self, palette: u32) -> (r: Vec<u32>)
        requires
            old(self).wf(),
        ensures
            final(self).wf(),
            *final(self) == (Engine {
                view: ViewState { color_palette: palette, ..old(self).view },
                ..*old(self)
            }),
            r@ == final(self).view.block(),
    {
        let v = ViewState { color_palette: palette, ..self.view };
        self.store_view(v)
    }

    /// Turns relief shading on or off; returns the whole render block.
    pub fn set_emboss(&mut self, enabled: bool) -> (r: Vec<u32>)
        requires
            old(self).wf(),
        ensures
            final(self).wf(),
            *final(self) == (Engine {
                view: ViewState { emboss: enabled, ..old(self).view },
                ..*old(self)
            }),
            r@ == final(self).view.block(),
    {
        let v = ViewState { emboss: enabled, ..self.view };
        self.store_view(v)
    }

    /// Sets the zoom from `f32` bits, raised to 1.0 where below it (or NaN);
    /// returns the whole render block.
    pub fn set_zoom(&mut self, zoom: u32) -> (r: Vec<u32>)
        requires
            old(self).wf(),
        ensures
            final(self).wf(),
            *final(self) == (Engine {
                view: ViewState { zoom: clamp_zoom(zoom), ..old(self).view },
                ..*old(self)
            }),
            r@ == final(self).view.block(),
    {
        let v = ViewState { zoom: zoom_of(zoom), ..self.view };
        self.store_view(v)
    }

    /// Sets the pan offset from `f32` bits, each axis clamped to [-1.0, 1.0];
    /// returns the whole render block.
    pub fn set_pan(&mut self, x: u32, y: u32) -> (r: Vec<u32>)
        requires
            old(self).wf(),
        ensures
            final(self).wf(),
            *final(self) == (Engine {
                view: ViewState { pan_x: clamp_pan(x), pan_y: clamp_pan(y), ..old(self).view },
                ..*old(self)
            }),
            r@ == final(self).view.block(),
    {
        let v = ViewState { pan_x: pan_of(x), pan_y: pan_of(y), ..self.view };
        self.store_view(v)
    }

    /// Replaces the gradient with the stops given by parallel positions and RGBA
    /// components (`f32` bits); returns the whole gradient block.
    pub fn set_gradient(&mut self, positions: &Vec<u32>, colors: &Vec<u32>) -> (r: Vec<u32>)
        requires
            old(self).wf(),
        ensures
            final(self).wf(),
            *final(self) == (Engine {
                gradient_stops: stop_count(positions@.len() as int, colors@.len() as int) as usize,
                ..*old(self)
            }),
            r@ == gradient_block(positions@, colors@),
    {
        self.gradient_stops = stop_count_of(positions.len(), colors.len());
        gradient_words(positions, colors)
    }

    pub fn set_paused(&mut self, paused: bool)
        ensures
            *final(self) == (Engine { paused, ..*old(self) }),
    {
        self.paused = paused;
    }

    pub fn set_steps_per_frame(&mut self, steps: u32)
        ensures
            *final(self) == (Engine { steps_per_frame: steps, ..*old(self) }),
    {
        self.steps_per_frame = steps;
    }

    fn run_steps(&mut self, n: u32) -> (reads: Vec<Slot>)
        ensures
            reads@.len() == n,
            forall|k: int| 0 <= k < n ==> reads@[k] == flip_n(old(self).active, k as nat),
            *final(self) == (Engine { active: flip_n(old(self).active, n as nat), ..*old(self) }),
    {
        let ghost start = self.active;
        let mut cur = self.active;
        let mut reads: Vec<Slot> = Vec::new();
        let mut i: u32 = 0;
        while i < n
            invariant
                i <= n,
                reads@.len() == i,
                cur == flip_n(start, i as nat),
                forall|k: int| 0 <= k < i ==> reads@[k] == flip_n(start, k as nat),
            decreases n - i,
        {
            reads.push(cur);
            cur = cur.flipped();
            i += 1;
        }
        self.active = cur;
        reads
    }

    /// Schedules one frame's simulation steps: none while paused, else
    /// `steps_per_frame` of them. Step `k` reads the buffer returned at `k` and
    /// writes the other one, after which that one is active.
    pub fn run_frame(&mut self) -> (reads: Vec<Slot>)
        ensures
            old(self).paused ==> reads@.len() == 0 && *final(self) == *old(self),
            !old(self).paused ==> {
                &&& reads@.len() == old(self).steps_per_frame
                &&& forall|k: int|
                    0 <= k < reads@.len() ==> reads@[k] == flip_n(old(self).active, k as nat)
                &&& *final(self) == (Engine {
                    active: flip_n(old(self).active, old(self).steps_per_frame as nat),
                    ..*old(self)
                })
                &&& (final(self).active != old(self).active) == (old(self).steps_per_frame % 2
                    == 1)
            },
    {
        if self.paused {
            Vec::new()
        } else {
            let n = self.steps_per_frame;
            proof {
                lemma_flip_parity(self.active, n as nat);
            }
            self.run_steps(n)
        }
    }

    /// Records that of a frame begun with `first` active only the first `done`
    /// steps were carried out: the output of the last completed step is active,
    /// as if the frame had been `done` steps long.
    pub fn abort_frame(&mut self, first: Slot, done: u32)
        ensures
            *final(self) == (Engine { active: flip_n(first, done as nat), ..*old(self) }),
    {
        proof {
            lemma_flip_parity(first, done as nat);
        }
        self.active = if done % 2 == 0 {
            first
        } else {
            first.flipped()
        };
    }

    /// Schedules one frame's steps whether or not the simulation is paused.
    pub fn step_once(&mut self) -> (reads: Vec<Slot>)
        ensures
            reads@.len() == old(self).steps_per_frame,
            forall|k: int|
                0 <= k < reads@.len() ==> reads@[k] == flip_n(old(self).active, k as nat),
            *final(self) == (Engine {
                active: flip_n(old(self).active, old(self).steps_per_frame as nat),
                ..*old(self)
            }),
    {
        let n = self.steps_per_frame;
        self.run_steps(n)
    }

    /// One paint mutation centred on the texel whose coordinates, as `f32` bits,
    /// are `x` and `y`: it reads the active buffer, and the other becomes active.
    pub fn paint(&mut self, x: u32, y: u32) -> (r: PaintDispatch)
        ensures
            r.read == old(self).active,
            r.params@ == seq![x, y],
            *final(self) == (Engine {
                active: old(self).active.other(),
                paint_target: Some((x, y)),
                ..*old(self)
            }),
    {
        let mut params: Vec<u32> = Vec::new();
        params.push(x);
        params.push(y);
        proof {
            assert(params@ =~= seq![x, y]);
        }
        let read = self.active;
        self.paint_target = Some((x, y));
        self.active = read.flipped();
        PaintDispatch { params, read }
    }

    /// Pointer pressed over the texel `(x, y)` (`f32` bits): starts a drag and
    /// paints there.
    pub fn handle_mouse_down(&mut self, x: u32, y: u32) -> (r: PaintDispatch)
        ensures
            r.read == old(self).active,
            r.params@ == seq![x, y],
            *final(self) == (Engine {
                active: old(self).active.other(),
                paint_target: Some((x, y)),
                mouse_down: true,
                ..*old(self)
            }),
    {
        self.mouse_down = true;
        self.paint(x, y)
    }

    /// Pointer released: ends a drag.
    pub fn handle_mouse_up(&mut self)
        ensures
            *final(self) == (Engine { mouse_down: false, ..*old(self) }),
    {
        self.mouse_down = false;
    }

    /// Pointer moved to the screen position `(sx, sy)`, over the texel `(x, y)`
    /// (all `f32` bits): records the position, and paints there while a drag is
    /// on.
    pub fn handle_mouse_move(&mut self, sx: u32, sy: u32, x: u32, y: u32) -> (r: Option<
        PaintDispatch,
    >)
        ensures
            old(self).mouse_down ==> (r matches Some(d) && d.read == old(self).active
                && d.params@ == seq![x, y]),
            old(self).mouse_down ==> *final(self) == (Engine {
                active: old(self).active.other(),
                paint_target: Some((x, y)),
                mouse_pos: Some((sx, sy)),
                ..*old(self)
            }),
            !old(self).mouse_down ==> r is None && *final(self) == (Engine {
                mouse_pos: Some((sx, sy)),
                ..*old(self)
            }),
    {
        self.mouse_pos = Some((sx, sy));
        if self.mouse_down {
            Some(self.paint(x, y))
        } else {
            None
        }
    }

    /// Restores the default field: the seeded image goes to buffer A, which
    /// becomes active.
    pub fn reset(&mut self) -> (w: FieldWrite)
        requires
            old(self).wf(),
        ensures
            final(self).wf(),
            w.target == Slot::A,
            field_holds(w.data@, old(self).grid, seq![center_disc(old(self).grid)]),
            *final(self) == (Engine { active: Slot::A, ..*old(self) }),
    {
        let data = seed_field(self.grid);
        self.active = Slot::A;
        FieldWrite { target: Slot::A, data }
    }

    /// Clears the field: U=1, V=0 everywhere goes to buffer A, which becomes
    /// active.
    pub fn clear_canvas(&mut self) -> (w: FieldWrite)
        requires
            old(self).wf(),
        ensures
            final(self).wf(),
            w.target == Slot::A,
            w.target == final(self).active,
            w.data@.len() == old(self).grid.words(),
            all_clear(w.data@, old(self).grid),
            *final(self) == (Engine { active: Slot::A, ..*old(self) }),
    {
        let data = clear_field(self.grid);
        self.active = Slot::A;
        FieldWrite { target: Slot::A, data }
    }

    /// Scatters `blobs` over the base state; the image goes to buffer A, which
    /// becomes active. The blobs are drawn by the caller.
    pub fn add_random_blobs(&mut self, blobs: &Vec<Blob>) -> (w: FieldWrite)
        requires
            old(self).wf(),
        ensures
            final(self).wf(),
            w.target == Slot::A,
            field_holds(w.data@, old(self).grid, blob_discs(blobs@)),
            *final(self) == (Engine { active: Slot::A, ..*old(self) }),
    {
        let data = scatter_field(self.grid, blobs);
        self.active = Slot::A;
        FieldWrite { target: Slot::A, data }
    }
}

} // verus!
