use rusty_boids::ConfigError;
use rusty_boids::Point;
use rusty_boids::PointsSimulator;
use rusty_boids::Position;
use rusty_boids::Raster;
use rusty_boids::SimulationSpace;
use rusty_boids::Velocity;
use rusty_boids::WindowSizeInfo;

fn solid_raster(width: u32, height: u32, rgb: (u8, u8, u8)) -> Raster {
    let mut data = Vec::new();
    for _ in 0..(width * height) {
        data.push(rgb.0);
        data.push(rgb.1);
        data.push(rgb.2);
    }
    Raster::new(width, height, data).unwrap()
}

fn black_sim(viewport: u32, n: usize) -> PointsSimulator {
    let info = WindowSizeInfo { width: viewport, height: viewport };
    PointsSimulator::new(info, solid_raster(4, 4, (0, 0, 0)), n).unwrap()
}

#[test]
fn space_scales_pixels_to_milli_pixels() {
    let s = SimulationSpace::new(WindowSizeInfo { width: 640, height: 480 }).unwrap();
    assert_eq!(s.width(), 640_000);
    assert_eq!(s.height(), 480_000);
    assert_eq!(
        SimulationSpace::new(WindowSizeInfo { width: 0, height: 480 }).unwrap_err(),
        ConfigError::EmptySpace
    );
}

#[test]
fn construction_rejects_an_empty_viewport() {
    let img = solid_raster(2, 2, (0, 0, 0));
    let r = PointsSimulator::new(WindowSizeInfo { width: 0, height: 7 }, img, 10);
    assert_eq!(r.unwrap_err(), ConfigError::EmptySpace);
    let img = solid_raster(2, 2, (0, 0, 0));
    let r = PointsSimulator::new(WindowSizeInfo { width: 7, height: 0 }, img, 10);
    assert_eq!(r.unwrap_err(), ConfigError::EmptySpace);
}

#[test]
fn construction_seeds_the_requested_count() {
    let sim = black_sim(100, 1234);
    assert_eq!(sim.len(), 1234);
    assert_eq!(sim.points().len(), 1234);
}

#[test]
fn seeding_gives_zero_velocities_inside_the_domain() {
    let sim = black_sim(100, 5000);
    for p in sim.points() {
        assert_eq!(p.velocity, Velocity { x: 0, y: 0 });
        assert!(0 <= p.position.x && p.position.x <= 100_000);
        assert!(0 <= p.position.y && p.position.y <= 100_000);
    }
}

#[test]
fn seeding_is_roughly_uniform() {
    // With 20000 draws over [0, 100000] the empirical mean sits within
    // a few hundred milli-pixels of the middle; 5000 is far beyond any
    // plausible statistical excursion.
    let n = 20000;
    let sim = black_sim(100, n);
    let mean_x: i64 = sim.points().iter().map(|p| p.position.x).sum::<i64>() / (n as i64);
    let mean_y: i64 = sim.points().iter().map(|p| p.position.y).sum::<i64>() / (n as i64);
    assert!((mean_x - 50_000).abs() < 5_000, "mean x was {}", mean_x);
    assert!((mean_y - 50_000).abs() < 5_000, "mean y was {}", mean_y);
}

#[test]
fn reseeding_overwrites_all_particles() {
    let mut sim = black_sim(100, 300);
    for _ in 0..3 {
        sim.update();
    }
    sim.init_points();
    assert_eq!(sim.len(), 300);
    for p in sim.points() {
        assert_eq!(p.velocity, Velocity { x: 0, y: 0 });
        assert!(0 <= p.position.x && p.position.x <= 100_000);
        assert!(0 <= p.position.y && p.position.y <= 100_000);
    }
}

#[test]
fn update_keeps_the_particle_count() {
    let mut sim = black_sim(50, 777);
    for _ in 0..5 {
        sim.update();
        assert_eq!(sim.len(), 777);
    }
}

#[test]
fn update_keeps_every_particle_inside_the_domain() {
    let mut sim = black_sim(10, 2000);
    for _ in 0..20 {
        sim.update();
        for p in sim.points() {
            assert!(0 <= p.position.x && p.position.x <= 10_000);
            assert!(0 <= p.position.y && p.position.y <= 10_000);
        }
    }
}

#[test]
fn update_moves_particles_over_a_dark_background() {
    // Over pure black the speed scale is 1.2 and the drawn speed is
    // almost surely positive for some particle: the swarm cannot stay
    // perfectly still.
    let mut sim = black_sim(100, 200);
    let before: Vec<Point> = sim.points().clone();
    sim.update();
    let after = sim.points();
    assert!(before.iter().zip(after.iter()).any(|(b, a)| b.position != a.position));
}

#[test]
fn step_with_fixed_draws_is_exactly_reproducible() {
    // Angle 0, speed 10.0 over pure black: the rotated vector is
    // (0, 10000), the scale 1.2, the velocity (0, 12000) and the
    // displacement a fifth of it, 2400 milli-pixels straight down the
    // y axis.
    let sim = black_sim(100, 1);
    let p = Point { position: Position { x: 50_000, y: 50_000 }, velocity: Velocity { x: 0, y: 0 } };
    let q = sim.step_point(p, 0, 10_000);
    assert_eq!(q.velocity, Velocity { x: 0, y: 12_000 });
    assert_eq!(q.position, Position { x: 50_000, y: 52_400 });
    let q2 = sim.step_point(p, 0, 10_000);
    assert_eq!(q, q2);
}

#[test]
fn step_over_a_bright_background_is_slower() {
    // Over pure white the scale drops to the 0.2 floor: velocity
    // (0, 2000), displacement (0, 400).
    let info = WindowSizeInfo { width: 100, height: 100 };
    let sim = PointsSimulator::new(info, solid_raster(4, 4, (255, 255, 255)), 1).unwrap();
    let p = Point { position: Position { x: 50_000, y: 50_000 }, velocity: Velocity { x: 0, y: 0 } };
    let q = sim.step_point(p, 0, 10_000);
    assert_eq!(q.velocity, Velocity { x: 0, y: 2_000 });
    assert_eq!(q.position, Position { x: 50_000, y: 50_400 });
}

#[test]
fn step_steers_by_the_drawn_angle() {
    // At a full radian to the left over black: sine 842 and cosine 541
    // in the truncated milli-unit series, so the velocity is
    // (-10104, 6492) and the particle drifts left and down the axis.
    let sim = black_sim(100, 1);
    let p = Point { position: Position { x: 50_000, y: 50_000 }, velocity: Velocity { x: 0, y: 0 } };
    let q = sim.step_point(p, 1000, 10_000);
    assert_eq!(q.velocity, Velocity { x: -10_104, y: 6_492 });
    assert_eq!(q.position, Position { x: 50_000 - 2_020, y: 50_000 + 1_298 });
    let q = sim.step_point(p, -1000, 10_000);
    assert_eq!(q.velocity, Velocity { x: 10_104, y: 6_492 });
}

#[test]
fn periodize_folds_back_into_the_domain() {
    let sim = black_sim(10, 1);
    let r = sim.periodize_point(Position { x: -3_000, y: 25_000 });
    assert_eq!(r, Position { x: 7_000, y: 5_000 });
    let r = sim.periodize_point(Position { x: 0, y: 10_000 });
    assert_eq!(r, Position { x: 0, y: 10_000 });
    let r = sim.periodize_point(Position { x: 20_000, y: -10_001 });
    assert_eq!(r, Position { x: 10_000, y: 9_999 });
}

#[test]
fn periodize_is_idempotent() {
    let sim = black_sim(10, 1);
    let candidates = [
        Position { x: -3_000, y: 25_000 },
        Position { x: 123_456, y: -123_456 },
        Position { x: 0, y: 10_000 },
        Position { x: 5_000, y: 5_000 },
    ];
    for p in candidates {
        let once = sim.periodize_point(p);
        let twice = sim.periodize_point(once);
        assert_eq!(once, twice);
    }
}
