use lattice_noise::config::{Engine, NoiseKind};
use lattice_noise::gradient::Gradient;
use lattice_noise::grid::IntensityGrid;
use lattice_noise::perlin::PerlinNoise;
use lattice_noise::simplex::{OpenSimplexNoise, Triangle};

fn fade(t: f64) -> f64 {
    t * t * t * (t * (t * 6.0 - 15.0) + 10.0)
}

fn lerp(t: f64, a: f64, b: f64) -> f64 {
    a + t * (b - a)
}

fn dot(hash: u8, dx: f64, dy: f64) -> f64 {
    let g = Gradient::from_hash(hash);
    f64::from(g.x) * dx + f64::from(g.y) * dy
}

fn perlin_value(engine: &PerlinNoise, x: f64, y: f64) -> f64 {
    let xi = x.floor() as i64;
    let yi = y.floor() as i64;
    let xf = x - xi as f64;
    let yf = y - yi as f64;
    let u = fade(xf);
    let v = fade(yf);
    let h = engine.corner_hashes(xi, yi);
    lerp(
        v,
        lerp(u, dot(h.h00, xf, yf), dot(h.h10, xf - 1.0, yf)),
        lerp(u, dot(h.h01, xf, yf - 1.0), dot(h.h11, xf - 1.0, yf - 1.0)),
    )
}

fn falloff(hash: u8, dx: f64, dy: f64) -> f64 {
    let t = 0.5 - dx * dx - dy * dy;
    if t < 0.0 {
        0.0
    } else {
        t * t * t * t * dot(hash, dx, dy)
    }
}

fn simplex_value(engine: &OpenSimplexNoise, x: f64, y: f64) -> f64 {
    let sqrt_3 = 3f64.sqrt();
    let f2 = 0.5 * (sqrt_3 - 1.0);
    let g2 = (3.0 - sqrt_3) / 6.0;
    let s = (x + y) * f2;
    let i = (x + s).floor() as i64;
    let j = (y + s).floor() as i64;
    let t = (i + j) as f64 * g2;
    let x0 = x - (i as f64 - t);
    let y0 = y - (j as f64 - t);
    let triangle = if x0 > y0 { Triangle::Lower } else { Triangle::Upper };
    let (i1, j1) = triangle.middle_step();
    let x1 = x0 - f64::from(i1) + g2;
    let y1 = y0 - f64::from(j1) + g2;
    let x2 = x0 - 1.0 + 2.0 * g2;
    let y2 = y0 - 1.0 + 2.0 * g2;
    let h = engine.corner_hashes(i, j, triangle);
    70.0 * (falloff(h.origin, x0, y0) + falloff(h.middle, x1, y1) + falloff(h.far, x2, y2))
}

fn intensity(value: f64) -> u8 {
    ((value + 1.0) * 0.5 * 255.0) as u8
}

fn render(size: usize, scale: f64, seed: usize, kind: NoiseKind) -> IntensityGrid {
    let engine = Engine::new(kind, seed);
    IntensityGrid::from_fn(size, |x, y| {
        let u = scale * (x as f64 / size as f64);
        let v = scale * (y as f64 / size as f64);
        intensity(match &engine {
            Engine::Perlin(perlin) => perlin_value(perlin, u, v),
            Engine::Simplex(simplex) => simplex_value(simplex, u - 1.0, v - 1.0),
        })
    })
}

fn bytes(grid: &IntensityGrid) -> Vec<u8> {
    let size = grid.size();
    (0..size * size).map(|k| grid.get(k % size, k / size)).collect()
}

#[test]
fn perlin_seed_42_renders_the_same_sixteen_bytes_again() {
    let kind = NoiseKind::parse("perlin").unwrap();
    let first = render(4, 2.0, 42, kind);
    let second = render(4, 2.0, 42, kind);
    assert_eq!(first.size(), 4);
    assert_eq!(bytes(&first).len(), 16);
    assert_eq!(bytes(&first), bytes(&second));
}

#[test]
fn seed_42_renders_the_recorded_bytes() {
    assert_eq!(
        bytes(&render(4, 2.0, 42, NoiseKind::Perlin)),
        [127, 223, 127, 95, 0, 63, 127, 191, 127, 31, 127, 159, 223, 63, 127, 159]
    );
    assert_eq!(
        bytes(&render(4, 2.0, 42, NoiseKind::Simplex)),
        [65, 182, 0, 133, 173, 244, 232, 191, 255, 51, 127, 255, 177, 127, 63, 88]
    );
}

#[test]
fn perlin_seed_43_renders_other_bytes_than_seed_42() {
    let a = render(4, 2.0, 42, NoiseKind::Perlin);
    let b = render(4, 2.0, 43, NoiseKind::Perlin);
    assert_ne!(bytes(&a), bytes(&b));
}

#[test]
fn perlin_is_mid_grey_on_lattice_points() {
    let grid = render(4, 2.0, 42, NoiseKind::Perlin);
    for (x, y) in [(0, 0), (2, 0), (0, 2), (2, 2)] {
        assert_eq!(grid.get(x, y), 127);
    }
}

#[test]
fn simplex_renders_are_reproducible() {
    let first = render(16, 2.0, 42, NoiseKind::Simplex);
    let second = render(16, 2.0, 42, NoiseKind::Simplex);
    assert_eq!(bytes(&first), bytes(&second));
    let other = render(16, 2.0, 43, NoiseKind::Simplex);
    assert_ne!(bytes(&first), bytes(&other));
}

#[test]
fn intensity_stays_in_the_byte_range() {
    assert_eq!(intensity(-1.0), 0);
    assert_eq!(intensity(0.0), 127);
    assert_eq!(intensity(1.0), 255);
    assert_eq!(intensity(-7.5), 0);
    assert_eq!(intensity(7.5), 255);
    assert_eq!(intensity(f64::NAN), 0);
    for kind in [NoiseKind::Perlin, NoiseKind::Simplex] {
        let engine = Engine::new(kind, 7);
        for x in -40..40 {
            for y in -40..40 {
                let (u, v) = (f64::from(x) * 0.37, f64::from(y) * 0.41);
                let value = match &engine {
                    Engine::Perlin(perlin) => perlin_value(perlin, u, v),
                    Engine::Simplex(simplex) => simplex_value(simplex, u, v),
                };
                let scaled = (value + 1.0) * 0.5 * 255.0;
                assert_eq!(f64::from(intensity(value)), scaled.clamp(0.0, 255.0).trunc());
            }
        }
    }
}

#[test]
fn perlin_is_continuous_across_small_steps() {
    let engine = PerlinNoise::new(42);
    let eps = 1e-4;
    for x in 0..60 {
        for y in 0..60 {
            let (u, v) = (f64::from(x) * 0.173 - 5.0, f64::from(y) * 0.291 - 5.0);
            let here = perlin_value(&engine, u, v);
            assert!((perlin_value(&engine, u + eps, v) - here).abs() < 100.0 * eps);
            assert!((perlin_value(&engine, u, v + eps) - here).abs() < 100.0 * eps);
        }
    }
}

#[test]
fn perlin_is_continuous_across_cell_borders() {
    let engine = PerlinNoise::new(42);
    let eps = 1e-4;
    for cell in -8..8 {
        for k in 0..20 {
            let border = f64::from(cell);
            let along = f64::from(k) * 0.37 - 3.0;
            let across_x = perlin_value(&engine, border + eps / 2.0, along)
                - perlin_value(&engine, border - eps / 2.0, along);
            let across_y = perlin_value(&engine, along, border + eps / 2.0)
                - perlin_value(&engine, along, border - eps / 2.0);
            assert!(across_x.abs() < 100.0 * eps);
            assert!(across_y.abs() < 100.0 * eps);
        }
    }
}

#[test]
fn simplex_is_finite_and_repeatable_on_lattice_points() {
    let engine = OpenSimplexNoise::new(42);
    let again = OpenSimplexNoise::new(42);
    for x in -100..=100 {
        for y in -100..=100 {
            let value = simplex_value(&engine, f64::from(x), f64::from(y));
            assert!(value.is_finite());
            assert_eq!(value.to_bits(), simplex_value(&again, f64::from(x), f64::from(y)).to_bits());
        }
    }
}
