use gray_scott::engine::{Engine, Slot, BLOB_COUNT, DEFAULT_STEPS_PER_FRAME};
use gray_scott::field::{clear_field, scatter_field, seed_field, Blob, Grid, ONE_BITS, ZERO_BITS};
use gray_scott::gradient::{default_gradient, gradient_words, stop_count_of};
use gray_scott::params::SimParams;
use gray_scott::view::{pan_of, zoom_of};

fn small() -> Grid {
    Grid { width: 64, height: 48 }
}

fn u_at(d: &[u32], g: Grid, x: u32, y: u32) -> u32 {
    d[(2 * (y * g.width + x)) as usize]
}

fn v_at(d: &[u32], g: Grid, x: u32, y: u32) -> u32 {
    d[(2 * (y * g.width + x) + 1) as usize]
}

fn bits(v: f32) -> u32 {
    v.to_bits()
}

#[test]
fn frame_of_even_steps_keeps_active_buffer() {
    let mut e = Engine::new(small());
    assert_eq!(e.steps_per_frame, DEFAULT_STEPS_PER_FRAME);
    let reads = e.run_frame();
    assert_eq!(reads.len(), 8);
    assert_eq!(reads, vec![Slot::A, Slot::B, Slot::A, Slot::B, Slot::A, Slot::B, Slot::A, Slot::B]);
    assert_eq!(e.active, Slot::A);
}

#[test]
fn frame_of_odd_steps_flips_active_buffer() {
    let mut e = Engine::new(small());
    e.set_steps_per_frame(3);
    let reads = e.run_frame();
    assert_eq!(reads, vec![Slot::A, Slot::B, Slot::A]);
    assert_eq!(e.active, Slot::B);
    let reads = e.run_frame();
    assert_eq!(reads, vec![Slot::B, Slot::A, Slot::B]);
    assert_eq!(e.active, Slot::A);
}

#[test]
fn paused_frame_runs_no_steps() {
    let mut e = Engine::new(small());
    e.set_steps_per_frame(5);
    e.set_paused(true);
    assert!(e.run_frame().is_empty());
    assert_eq!(e.active, Slot::A);
    let reads = e.step_once();
    assert_eq!(reads.len(), 5);
    assert_eq!(e.active, Slot::B);
    assert!(e.paused);
}

#[test]
fn zero_steps_per_frame_changes_nothing() {
    let mut e = Engine::new(small());
    e.set_steps_per_frame(0);
    assert!(e.run_frame().is_empty());
    assert_eq!(e.active, Slot::A);
}

#[test]
fn paint_reads_active_and_flips() {
    let mut e = Engine::new(small());
    let d = e.paint(bits(10.0), bits(20.0));
    assert_eq!(d.read, Slot::A);
    assert_eq!(d.params, vec![bits(10.0), bits(20.0)]);
    assert_eq!(e.active, Slot::B);
    assert_eq!(e.paint_target, Some((bits(10.0), bits(20.0))));
    let d = e.paint(bits(10.0), bits(20.0));
    assert_eq!(d.read, Slot::B);
    assert_eq!(d.params, vec![bits(10.0), bits(20.0)]);
    assert_eq!(e.active, Slot::A);
}

#[test]
fn drag_paints_only_while_pressed() {
    let mut e = Engine::new(small());
    assert_eq!(e.mouse_pos, None);
    assert!(e.handle_mouse_move(bits(0.1), bits(0.2), bits(1.0), bits(2.0)).is_none());
    assert_eq!(e.active, Slot::A);
    assert_eq!(e.mouse_pos, Some((bits(0.1), bits(0.2))));
    let d = e.handle_mouse_down(bits(3.0), bits(4.0));
    assert_eq!(d.read, Slot::A);
    assert!(e.mouse_down);
    let m = e.handle_mouse_move(bits(0.3), bits(0.4), bits(5.0), bits(6.0)).unwrap();
    assert_eq!(e.mouse_pos, Some((bits(0.3), bits(0.4))));
    assert_eq!(m.read, Slot::B);
    assert_eq!(m.params, vec![bits(5.0), bits(6.0)]);
    assert_eq!(e.active, Slot::A);
    e.handle_mouse_up();
    assert!(!e.mouse_down);
    assert!(e.handle_mouse_move(bits(0.5), bits(0.6), bits(7.0), bits(8.0)).is_none());
    assert_eq!(e.active, Slot::A);
}

#[test]
fn gradient_stop_count_is_bounded_by_colors_and_positions() {
    let mut e = Engine::new(small());
    let positions = vec![bits(0.0), bits(0.5), bits(1.0)];
    let colors: Vec<u32> = (0..16).map(|i| bits(i as f32 / 16.0)).collect();
    let block = e.set_gradient(&positions, &colors);
    assert_eq!(e.gradient_stops, 3);
    assert_eq!(block.len(), 72);
    assert_eq!(block[64], 3);
    assert_eq!(&block[0..8], &[positions[0], 0, 0, 0, colors[0], colors[1], colors[2], colors[3]]);
    assert_eq!(&block[16..24], &[positions[2], 0, 0, 0, colors[8], colors[9], colors[10], colors[11]]);
    assert_eq!(&block[24..32], &[0, 0, 0, 0, 0, 0, 0, 0]);
    assert_eq!(&block[65..72], &[0, 0, 0, 0, 0, 0, 0]);
}

#[test]
fn gradient_stop_count_cases() {
    assert_eq!(stop_count_of(3, 16), 3);
    assert_eq!(stop_count_of(10, 15), 3);
    assert_eq!(stop_count_of(20, 100), 8);
    assert_eq!(stop_count_of(0, 40), 0);
    let block = gradient_words(&vec![], &vec![]);
    assert_eq!(block[64], 0);
    for s in 0..8 {
        assert_eq!(&block[8 * s..8 * s + 8], &[0, 0, 0, 0, 0, 0, 0, 0]);
    }
}

#[test]
fn scatter_leaves_every_blob() {
    let g = small();
    let blobs: Vec<Blob> = (0..BLOB_COUNT as u32)
        .map(|k| Blob { cx: (k * 7) % 64, cy: (k * 11) % 48, radius: 10 + k % 30 })
        .collect();
    assert_eq!(blobs.len(), 15);
    let d = scatter_field(g, &blobs);
    assert_eq!(d.len(), 2 * 64 * 48);
    for b in &blobs {
        assert_eq!(v_at(&d, g, b.cx, b.cy), ONE_BITS);
    }
    for y in 0..48 {
        for x in 0..64 {
            let inside = blobs.iter().any(|b| {
                let dx = x as i64 - b.cx as i64;
                let dy = y as i64 - b.cy as i64;
                dx * dx + dy * dy <= (b.radius as i64) * (b.radius as i64)
            });
            assert_eq!(u_at(&d, g, x, y), ONE_BITS);
            assert_eq!(v_at(&d, g, x, y), if inside { ONE_BITS } else { ZERO_BITS });
        }
    }
}

#[test]
fn scatter_drops_texels_off_the_grid() {
    let g = Grid { width: 16, height: 16 };
    let d = scatter_field(g, &vec![Blob { cx: 0, cy: 0, radius: 2 }]);
    assert_eq!(v_at(&d, g, 0, 0), ONE_BITS);
    assert_eq!(v_at(&d, g, 2, 0), ONE_BITS);
    assert_eq!(v_at(&d, g, 3, 0), ZERO_BITS);
    assert_eq!(v_at(&d, g, 2, 2), ZERO_BITS);
    assert_eq!(v_at(&d, g, 15, 15), ZERO_BITS);
}

#[test]
fn add_random_blobs_writes_buffer_a() {
    let mut e = Engine::new(small());
    e.paint(bits(1.0), bits(1.0));
    assert_eq!(e.active, Slot::B);
    let w = e.add_random_blobs(&vec![Blob { cx: 30, cy: 20, radius: 12 }]);
    assert_eq!(w.target, Slot::A);
    assert_eq!(e.active, Slot::A);
    assert_eq!(v_at(&w.data, small(), 30, 20), ONE_BITS);
    assert_eq!(v_at(&w.data, small(), 0, 0), ZERO_BITS);
}

#[test]
fn zoom_is_raised_to_one() {
    let mut e = Engine::new(small());
    let block = e.set_zoom(bits(0.3));
    assert_eq!(f32::from_bits(e.view.zoom), 1.0);
    assert_eq!(block[4], bits(1.0));
    e.set_zoom(bits(5.0));
    assert_eq!(f32::from_bits(e.view.zoom), 5.0);
    assert_eq!(zoom_of(bits(-3.0)), bits(1.0));
    assert_eq!(zoom_of(bits(f32::NAN)), bits(1.0));
    assert_eq!(zoom_of(bits(1.0)), bits(1.0));
    assert_eq!(zoom_of(bits(f32::INFINITY)), bits(f32::INFINITY));
}

#[test]
fn pan_is_clamped_per_axis() {
    let mut e = Engine::new(small());
    let block = e.set_pan(bits(2.0), bits(-3.0));
    assert_eq!(f32::from_bits(e.view.pan_x), 1.0);
    assert_eq!(f32::from_bits(e.view.pan_y), -1.0);
    assert_eq!(&block[4..7], &[bits(1.0), bits(1.0), bits(-1.0)]);
    assert_eq!(pan_of(bits(0.25)), bits(0.25));
    assert_eq!(pan_of(bits(-0.75)), bits(-0.75));
    assert_eq!(pan_of(bits(-0.0)), bits(-0.0));
    assert_eq!(pan_of(bits(f32::NAN)), bits(-1.0));
    assert_eq!(pan_of(bits(f32::NEG_INFINITY)), bits(-1.0));
    assert_eq!(pan_of(bits(1.5)), bits(1.0));
}

#[test]
fn clear_wipes_the_seed() {
    let g = small();
    let seeded = seed_field(g);
    assert_eq!(v_at(&seeded, g, 32, 24), ONE_BITS);
    let mut e = Engine::new(g);
    e.paint(bits(2.0), bits(2.0));
    let w = e.clear_canvas();
    assert_eq!(w.target, Slot::A);
    assert_eq!(e.active, Slot::A);
    assert_eq!(w.data, clear_field(g));
    for y in 0..48 {
        for x in 0..64 {
            assert_eq!(u_at(&w.data, g, x, y), ONE_BITS);
            assert_eq!(v_at(&w.data, g, x, y), ZERO_BITS);
        }
    }
}

#[test]
fn default_seed_has_radius_below_twenty() {
    let g = Grid { width: 2048, height: 2048 };
    let mut e = Engine::new(g);
    let w = e.reset();
    assert_eq!(w.target, Slot::A);
    assert_eq!(w.data.len(), 2048 * 2048 * 2);
    assert_eq!(v_at(&w.data, g, 1024, 1024), ONE_BITS);
    assert_eq!(v_at(&w.data, g, 1024 + 19, 1024), ONE_BITS);
    assert_eq!(v_at(&w.data, g, 1024 - 20, 1024), ZERO_BITS);
    assert_eq!(v_at(&w.data, g, 1024 + 12, 1024 + 16), ZERO_BITS);
    assert_eq!(v_at(&w.data, g, 1024 + 11, 1024 + 16), ONE_BITS);
    assert_eq!(v_at(&w.data, g, 0, 0), ZERO_BITS);
    assert_eq!(u_at(&w.data, g, 1024, 1024), ONE_BITS);
}

#[test]
fn parameter_block_layout() {
    let g = small();
    let p = SimParams::new();
    assert_eq!(
        p.to_words(g),
        vec![bits(0.055), bits(0.062), bits(1.0), bits(0.5), bits(1.0), 0, 64, 48, 0, 2, 0, 0]
    );
    let mut e = Engine::new(g);
    let b = e.set_feed_rate(bits(0.03));
    assert_eq!(b[0], bits(0.03));
    let b = e.apply_preset(bits(0.04), bits(0.06));
    assert_eq!(&b[0..2], &[bits(0.04), bits(0.06)]);
    let b = e.set_kill_rate(bits(0.07));
    assert_eq!(b[1], bits(0.07));
    let b = e.set_diffuse_u(bits(0.9));
    assert_eq!(b[2], bits(0.9));
    let b = e.set_diffusion_v(bits(0.4));
    assert_eq!(b[3], bits(0.4));
    let b = e.set_diffusion_u(bits(0.8));
    assert_eq!(b[2], bits(0.8));
    let b = e.set_diffuse_v(bits(0.3));
    assert_eq!(b[3], bits(0.3));
    let b = e.set_delta_time(bits(0.5));
    assert_eq!(b[4], bits(0.5));
    let b = e.set_noise(bits(0.1));
    assert_eq!(b[5], bits(0.1));
    let b = e.set_kernel(7);
    assert_eq!(b[8], 7);
    let b = e.set_map_mode(true);
    assert_eq!(b[10], 1);
    assert_eq!(e.sim_block(), b);
}

#[test]
fn boundary_goes_to_both_blocks() {
    let mut e = Engine::new(small());
    assert_eq!(e.render_block(), vec![0, 1, 2, 0, bits(1.0), 0, 0]);
    let (sim, render) = e.set_boundary(1);
    assert_eq!(sim[9], 1);
    assert_eq!(render[2], 1);
    let r = e.set_color_palette(4);
    assert_eq!(r[0], 4);
    let r = e.set_emboss(false);
    assert_eq!(r, vec![4, 0, 1, 0, bits(1.0), 0, 0]);
}

#[test]
fn aborted_frame_keeps_last_completed_step() {
    let mut e = Engine::new(small());
    e.set_steps_per_frame(5);
    let reads = e.run_frame();
    assert_eq!(e.active, Slot::B);
    e.abort_frame(reads[0], 2);
    assert_eq!(e.active, Slot::A);
    e.abort_frame(reads[0], 3);
    assert_eq!(e.active, Slot::B);
    e.abort_frame(Slot::B, 0);
    assert_eq!(e.active, Slot::B);
}

#[test]
fn default_gradient_has_six_stops() {
    let block = default_gradient();
    assert_eq!(block.len(), 72);
    assert_eq!(block[64], 6);
    assert_eq!(&block[0..8], &[0, 0, 0, 0, bits(0.2), 0, bits(0.3), bits(1.0)]);
    assert_eq!(&block[8..16], &[bits(0.2), 0, 0, 0, bits(0.5), 0, bits(1.0), bits(1.0)]);
    assert_eq!(&block[40..48], &[bits(1.0), 0, 0, 0, bits(1.0), 0, 0, bits(1.0)]);
    assert_eq!(&block[48..56], &[0, 0, 0, 0, 0, 0, 0, 0]);
    assert_eq!(Engine::new(small()).gradient_stops, 6);
}
