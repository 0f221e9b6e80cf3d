use bracket_noise::prelude::FastNoise;
use bracket_noise::prelude::FractalType;
use bracket_noise::prelude::NoiseType;
use roguemap::gamemap::generate;
use roguemap::gamemap::make_map;
use roguemap::gamemap::OutOfBounds;
use roguemap::tile::tile_for_sample;
use roguemap::tile::Tile;
use roguemap::MAP_HEIGHT;
use roguemap::MAP_WIDTH;
use roguemap::NOISE_SEED;

/// Sample the coherent-noise field exactly as the session does at startup:
/// seeded fractal Perlin noise, thresholded at zero, with the cell
/// coordinates stretched by the two scale factors.
fn noise_samples(width: usize, height: usize) -> Vec<Vec<bool>> {
    let mut noise = FastNoise::seeded(NOISE_SEED);
    noise.set_noise_type(NoiseType::PerlinFractal);
    noise.set_fractal_type(FractalType::FBM);
    noise.set_fractal_octaves(1);
    noise.set_fractal_gain(0.1);
    noise.set_fractal_lacunarity(1.0);
    noise.set_frequency(5.0);
    let mut cols = Vec::new();
    for x in 0..width {
        let mut col = Vec::new();
        for y in 0..height {
            let v = noise.get_noise((x as f32) / 160.0, (y as f32) / 100.0);
            col.push(v > 0.0);
        }
        cols.push(col);
    }
    cols
}

#[test]
fn scenario_small_map_golden_cells() {
    let samples = noise_samples(10, 10);
    let m = generate(10, 10, &samples);
    // Classification for seed 456 with the fixed scale factors: the origin
    // samples the field at exactly zero and so stays empty by the threshold
    // rule; the other corners and the center sample strictly positive values
    // and come out as walls.
    assert_eq!(m.tile_at(0, 0), Ok(Tile::empty()));
    assert_eq!(m.tile_at(0, 9), Ok(Tile::wall()));
    assert_eq!(m.tile_at(9, 0), Ok(Tile::wall()));
    assert_eq!(m.tile_at(9, 9), Ok(Tile::wall()));
    assert_eq!(m.tile_at(5, 5), Ok(Tile::wall()));
}

#[test]
fn generation_is_deterministic() {
    let samples = noise_samples(10, 10);
    let m1 = generate(10, 10, &samples);
    let m2 = generate(10, 10, &samples);
    assert_eq!(m1.width(), m2.width());
    assert_eq!(m1.height(), m2.height());
    for x in 0..10i64 {
        for y in 0..10i64 {
            assert_eq!(m1.tile_at(x, y), m2.tile_at(x, y));
        }
    }
}

#[test]
fn full_size_map_has_configured_bounds() {
    let samples = noise_samples(MAP_WIDTH as usize, MAP_HEIGHT as usize);
    let m = make_map(&samples);
    assert_eq!(m.width(), MAP_WIDTH as usize);
    assert_eq!(m.height(), MAP_HEIGHT as usize);
    let empty = Tile::empty();
    let wall = Tile::wall();
    for x in 0..MAP_WIDTH as i64 {
        for y in 0..MAP_HEIGHT as i64 {
            let t = m.tile_at(x, y).unwrap();
            assert!(t == empty || t == wall);
        }
    }
}

#[test]
fn threshold_rule_boundary_at_zero() {
    let boundary: f32 = 0.0;
    let above: f32 = 0.25;
    let below: f32 = -0.25;
    assert_eq!(tile_for_sample(boundary > 0.0), Tile::empty());
    assert_eq!(tile_for_sample(above > 0.0), Tile::wall());
    assert_eq!(tile_for_sample(below > 0.0), Tile::empty());
}

#[test]
fn tile_constructors_are_canonical() {
    let empty = Tile::empty();
    assert!(!empty.blocked);
    assert!(!empty.block_sight);
    let wall = Tile::wall();
    assert!(wall.blocked);
    assert!(wall.block_sight);
}

#[test]
fn tile_lookup_out_of_bounds_is_rejected() {
    let samples = vec![vec![false; 10]; 10];
    let m = generate(10, 10, &samples);
    assert_eq!(m.tile_at(-1, 0), Err(OutOfBounds));
    assert_eq!(m.tile_at(0, -1), Err(OutOfBounds));
    assert_eq!(m.tile_at(10, 0), Err(OutOfBounds));
    assert_eq!(m.tile_at(0, 10), Err(OutOfBounds));
    assert_eq!(m.tile_at(3, 7), Ok(Tile::empty()));
}
