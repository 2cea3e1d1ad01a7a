use quick_noise::math::random::Random;
use quick_noise::perlin::{
    AxisCells, CellSpan2D, CellSpan3D, Corners2D, Corners3D, Perlin, PerlinContainer2D,
    PerlinContainer3D,
};

fn cells(start: i32, ends: &[u32]) -> AxisCells {
    match AxisCells::new(start, ends.to_vec()) {
        Ok(cells) => cells,
        Err(_) => panic!("ends {:?} were refused", ends),
    }
}

/// A small generator of test inputs: the same sequence on every run.
struct Draw(u64);

impl Draw {
    fn next(&mut self) -> u64 {
        self.0 = self.0.wrapping_mul(6364136223846793005).wrapping_add(1442695040888963407);
        self.0 >> 33
    }

    fn ends(&mut self) -> Vec<u32> {
        let count = (self.next() % 9) as usize;
        let mut ends: Vec<u32> = (0..count).map(|_| (self.next() % 32) as u32).collect();
        ends.sort_unstable();
        ends.push(32);
        ends
    }

    fn start(&mut self) -> i32 {
        match self.next() % 4 {
            0 => i32::MAX - (self.next() % 3) as i32,
            1 => i32::MIN + (self.next() % 3) as i32,
            _ => (self.next() % 2001) as i32 - 1000,
        }
    }
}

fn shown_2d(window: &PerlinContainer2D, y: usize) -> Corners2D {
    Corners2D { tl: window.tl()[y], tr: window.tr()[y], bl: window.bl()[y], br: window.br()[y] }
}

fn shown_3d(window: &PerlinContainer3D, z: usize) -> Corners3D {
    Corners3D {
        tlf: window.tlf()[z],
        trf: window.trf()[z],
        tlb: window.tlb()[z],
        trb: window.trb()[z],
        blf: window.blf()[z],
        brf: window.brf()[z],
        blb: window.blb()[z],
        brb: window.brb()[z],
    }
}

#[test]
fn single_cell_scenario_of_the_plane() {
    // seed 0, channel 1, tile (0, 0), scale 64 on both axes: the whole tile
    // lies in the lattice cell (0, 0), and the scale sum is 128.
    let mut perlin = Perlin::new(0);
    let channel_seed = Random::static_mix_u64(1);
    let mut pass = perlin.single_octave_2d(cells(0, &[32]), cells(0, &[32]), channel_seed, 128);
    assert_eq!(perlin.channel(), 10_451_216_379_200_822_337);
    assert_eq!(perlin.seed(), 0);
    assert_eq!(pass.next_cell(), Some(CellSpan2D { x_start: 0, x_end: 32 }));
    for y in 0..32 {
        assert_eq!(shown_2d(pass.window(), y), Corners2D { tl: 6, tr: 12, bl: 14, br: 13 });
    }
    assert_eq!(pass.next_cell(), None);
}

#[test]
fn single_cell_scenario_of_space() {
    // seed 0, channel 1, tile (0, 0, 0), scale 64 on all axes: scale sum 192.
    let mut perlin = Perlin::new(0);
    let channel_seed = Random::static_mix_u64(1);
    let mut pass = perlin.single_octave_3d(
        cells(0, &[32]),
        cells(0, &[32]),
        cells(0, &[32]),
        channel_seed,
        192,
    );
    assert_eq!(perlin.channel(), channel_seed ^ 192);
    assert_eq!(
        pass.next_cell(),
        Some(CellSpan3D { x_start: 0, x_end: 32, y_start: 0, y_end: 32 })
    );
    let expected =
        Corners3D { tlf: 8, trf: 8, tlb: 8, trb: 7, blf: 6, brf: 5, blb: 7, brb: 2 };
    for z in 0..32 {
        assert_eq!(shown_3d(pass.window(), z), expected);
    }
    assert_eq!(pass.next_cell(), None);
}

#[test]
fn edges_follow_the_cells_of_the_fast_axis() {
    let mut perlin = Perlin::new(9);
    let x_cells = cells(-1, &[12, 32]);
    let y_cells = cells(i32::MAX, &[0, 7, 32]);
    let mut pass = perlin.single_octave_2d(x_cells, y_cells, 5, 3);
    assert_eq!(perlin.channel(), 6);

    let row = |near: u8, far: u8| {
        let mut row = [far; 32];
        for sample in row.iter_mut().take(7) {
            *sample = near;
        }
        row
    };
    assert_eq!(pass.next_cell(), Some(CellSpan2D { x_start: 0, x_end: 12 }));
    assert_eq!(pass.window().tl(), &row(1, 0));
    assert_eq!(pass.window().tr(), &row(0, 1));
    assert_eq!(pass.window().bl(), &row(11, 10));
    assert_eq!(pass.window().br(), &row(10, 7));
    assert_eq!(pass.next_cell(), Some(CellSpan2D { x_start: 12, x_end: 32 }));
    assert_eq!(pass.window().tl(), &row(11, 10));
    assert_eq!(pass.window().tr(), &row(10, 7));
    assert_eq!(pass.window().bl(), &row(0, 14));
    assert_eq!(pass.window().br(), &row(14, 6));
    assert_eq!(pass.next_cell(), None);
    assert_eq!(pass.window().tl(), &row(11, 10));
    assert_eq!(pass.window().br(), &row(14, 6));
}

#[test]
fn set_gradients_fills_both_rows() {
    let perlin = Perlin::new(9);
    let mut keyed = perlin;
    keyed.set_channel(6);
    let y_cells = cells(i32::MAX, &[0, 7, 32]);
    let mut left = [255u8; 32];
    let mut right = [255u8; 32];
    keyed.set_gradients_2d(&mut left, &mut right, -1, &y_cells);
    for k in 0..32 {
        assert_eq!(left[k], if k < 7 { 1 } else { 0 });
        assert_eq!(right[k], if k < 7 { 0 } else { 1 });
    }
}

#[test]
fn set_gradients_of_space_fills_four_rows() {
    let mut perlin = Perlin::new(21);
    perlin.set_channel(4);
    let z_cells = cells(-3, &[10, 32]);
    let mut rows = [[255u8; 32]; 4];
    {
        let [lf, rf, lb, rb] = &mut rows;
        perlin.set_gradients_3d(lf, rf, lb, rb, 7, -8, &z_cells);
    }
    for k in 0..32 {
        let z = if k < 10 { -3 } else { -2 };
        assert_eq!(rows[0][k], perlin.gradient_index_3d(7, -8, z));
        assert_eq!(rows[1][k], perlin.gradient_index_3d(7, -8, z + 1));
        assert_eq!(rows[2][k], perlin.gradient_index_3d(8, -8, z));
        assert_eq!(rows[3][k], perlin.gradient_index_3d(8, -8, z + 1));
    }
}

#[test]
fn window_of_the_plane_equals_per_sample_lookup() {
    let mut draw = Draw(1);
    for round in 0..60 {
        let x_ends = draw.ends();
        let y_ends = draw.ends();
        let x_start = draw.start();
        let y_start = draw.start();
        let channel_seed = draw.next();
        let scale_sum = draw.next();
        let mut perlin = Perlin::new(round);
        let mut pass = perlin.single_octave_2d(
            cells(x_start, &x_ends),
            cells(y_start, &y_ends),
            channel_seed,
            scale_sum,
        );
        let x_cells = cells(x_start, &x_ends);
        let y_cells = cells(y_start, &y_ends);
        let mut covered = [false; 32];
        let mut handed_out = 0;
        while let Some(cell) = pass.next_cell() {
            assert_eq!(cell.x_start, x_cells.begin(handed_out));
            assert_eq!(cell.x_end, x_cells.end(handed_out));
            for x in cell.x_start..cell.x_end {
                assert!(!covered[x]);
                covered[x] = true;
                for y in 0..32 {
                    assert_eq!(
                        shown_2d(pass.window(), y),
                        perlin.corners_at_2d(&x_cells, &y_cells, x, y)
                    );
                }
            }
            handed_out += 1;
        }
        assert_eq!(handed_out, x_cells.len());
        assert_eq!(covered, [true; 32]);
    }
}

#[test]
fn window_of_space_equals_per_sample_lookup() {
    let mut draw = Draw(2);
    for round in 0..12 {
        let x_ends = draw.ends();
        let y_ends = draw.ends();
        let z_ends = draw.ends();
        let x_start = draw.start();
        let y_start = draw.start();
        let z_start = draw.start();
        let channel_seed = draw.next();
        let scale_sum = draw.next();
        let mut perlin = Perlin::new(-round);
        let mut pass = perlin.single_octave_3d(
            cells(x_start, &x_ends),
            cells(y_start, &y_ends),
            cells(z_start, &z_ends),
            channel_seed,
            scale_sum,
        );
        let x_cells = cells(x_start, &x_ends);
        let y_cells = cells(y_start, &y_ends);
        let z_cells = cells(z_start, &z_ends);
        let mut covered = [[false; 32]; 32];
        let mut handed_out = 0;
        while let Some(cell) = pass.next_cell() {
            let i = handed_out / y_cells.len();
            let j = handed_out % y_cells.len();
            assert_eq!((cell.x_start, cell.x_end), (x_cells.begin(i), x_cells.end(i)));
            assert_eq!((cell.y_start, cell.y_end), (y_cells.begin(j), y_cells.end(j)));
            for x in cell.x_start..cell.x_end {
                for y in cell.y_start..cell.y_end {
                    assert!(!covered[x][y]);
                    covered[x][y] = true;
                    for z in 0..32 {
                        assert_eq!(
                            shown_3d(pass.window(), z),
                            perlin.corners_at_3d(&x_cells, &y_cells, &z_cells, x, y, z)
                        );
                    }
                }
            }
            handed_out += 1;
        }
        assert_eq!(handed_out, x_cells.len() * y_cells.len());
        assert_eq!(covered, [[true; 32]; 32]);
    }
}

#[test]
fn per_sample_lookup_hashes_the_four_lattice_points() {
    let mut perlin = Perlin::new(3);
    perlin.set_channel(8);
    let x_cells = cells(10, &[4, 32]);
    let y_cells = cells(-20, &[9, 32]);
    let corners = perlin.corners_at_2d(&x_cells, &y_cells, 3, 9);
    assert_eq!(
        corners,
        Corners2D {
            tl: perlin.gradient_index_2d(10, -19),
            tr: perlin.gradient_index_2d(10, -18),
            bl: perlin.gradient_index_2d(11, -19),
            br: perlin.gradient_index_2d(11, -18),
        }
    );
    let z_cells = cells(0, &[32]);
    let corners = perlin.corners_at_3d(&x_cells, &y_cells, &z_cells, 4, 8, 31);
    assert_eq!(
        corners,
        Corners3D {
            tlf: perlin.gradient_index_3d(11, -20, 0),
            trf: perlin.gradient_index_3d(11, -20, 1),
            tlb: perlin.gradient_index_3d(12, -20, 0),
            trb: perlin.gradient_index_3d(12, -20, 1),
            blf: perlin.gradient_index_3d(11, -19, 0),
            brf: perlin.gradient_index_3d(11, -19, 1),
            blb: perlin.gradient_index_3d(12, -19, 0),
            brb: perlin.gradient_index_3d(12, -19, 1),
        }
    );
}

#[test]
fn same_inputs_give_the_same_windows() {
    let run = || {
        let mut perlin = Perlin::new(77);
        let mut pass = perlin.single_octave_2d(
            cells(-5, &[3, 3, 20, 32]),
            cells(40, &[16, 32]),
            Random::static_mix_u64(2),
            96,
        );
        let mut seen = Vec::new();
        while let Some(cell) = pass.next_cell() {
            let window = pass.window();
            seen.push((cell, *window.tl(), *window.tr(), *window.bl(), *window.br()));
        }
        (perlin.channel(), seen)
    };
    let first = run();
    let second = run();
    assert_eq!(first.0, second.0);
    assert_eq!(first.1.len(), 4);
    assert_eq!(first.1, second.1);
}

#[test]
fn same_inputs_give_the_same_windows_in_space() {
    let run = || {
        let mut perlin = Perlin::new(-77);
        let mut pass = perlin.single_octave_3d(
            cells(-5, &[20, 32]),
            cells(40, &[16, 16, 32]),
            cells(0, &[1, 32]),
            Random::static_mix_u64(2),
            96,
        );
        let mut seen = Vec::new();
        while let Some(cell) = pass.next_cell() {
            let window = pass.window();
            seen.push((cell, *window.tlf(), *window.trb(), *window.blf(), *window.brb()));
        }
        seen
    };
    let first = run();
    assert_eq!(first.len(), 6);
    assert_eq!(first, run());
}

#[test]
fn channel_salt_of_an_octave_stays_in_effect() {
    let mut perlin = Perlin::new(1);
    let pass = perlin.single_octave_2d(cells(0, &[32]), cells(0, &[32]), 0xF0, 0x0F);
    assert_eq!(perlin.channel(), 0xFF);
    assert_eq!(perlin.seed(), 1);
    drop(pass);
    let pass = perlin.single_octave_3d(cells(0, &[32]), cells(0, &[32]), cells(0, &[32]), 1, 3);
    assert_eq!(perlin.channel(), 2);
    drop(pass);
}

#[test]
fn empty_cells_are_handed_out_too() {
    let mut perlin = Perlin::new(0);
    let mut pass = perlin.single_octave_2d(cells(0, &[0, 5, 5, 32]), cells(0, &[32]), 0, 0);
    assert_eq!(pass.next_cell(), Some(CellSpan2D { x_start: 0, x_end: 0 }));
    assert_eq!(pass.window().tl()[0], perlin.gradient_index_2d(0, 0));
    assert_eq!(pass.window().bl()[0], perlin.gradient_index_2d(1, 0));
    assert_eq!(pass.next_cell(), Some(CellSpan2D { x_start: 0, x_end: 5 }));
    assert_eq!(pass.window().tl()[0], perlin.gradient_index_2d(1, 0));
    assert_eq!(pass.next_cell(), Some(CellSpan2D { x_start: 5, x_end: 5 }));
    assert_eq!(pass.next_cell(), Some(CellSpan2D { x_start: 5, x_end: 32 }));
    assert_eq!(pass.window().tl()[31], perlin.gradient_index_2d(3, 0));
    assert_eq!(pass.window().tr()[31], perlin.gradient_index_2d(3, 1));
    assert_eq!(pass.window().bl()[31], perlin.gradient_index_2d(4, 0));
    assert_eq!(pass.window().br()[31], perlin.gradient_index_2d(4, 1));
    assert_eq!(pass.next_cell(), None);
}
