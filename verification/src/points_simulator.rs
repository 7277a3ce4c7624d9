//! The particle simulator: it owns the particle array, seeds it uniformly
//! at random over the domain, and advances every particle one step at a
//! time, steering each by an independent random draw scaled by the local
//! brightness of the background raster.

use vstd::prelude::*;
use vstd::arithmetic::div_mod::lemma_basic_div;
use vstd::arithmetic::div_mod::lemma_div_is_ordered;
use vstd::arithmetic::div_mod::lemma_div_multiples_vanish;
use vstd::arithmetic::div_mod::lemma_div_pos_is_pos;
use vstd::arithmetic::div_mod::lemma_multiply_divide_lt;
use crate::ConfigError;
use crate::fixed::spec_cos_milli;
use crate::fixed::spec_sin_milli;
use crate::fixed::cos_milli;
use crate::fixed::sin_milli;
use crate::glx::WindowSizeInfo;
use crate::particle::Point;
use crate::particle::Position;
use crate::particle::Velocity;
use crate::raster::RASTER_DIM_MAX;
use crate::raster::Raster;
use crate::raster::calculate_relative_brightness;
use crate::raster::spec_brightness;
use crate::rng::draw_in_range;
use crate::space::COORD_MAX;
use crate::space::SPACE_MAX;
use crate::space::SimulationSpace;
use crate::space::spec_wrap;
use crate::space::wrap_coord;

verus! {

/// The largest angle drawn for one steering step, in milliradians.
pub const ANGLE_MAX: i64 = 1000;

/// The largest speed drawn for one steering step, in milli-pixels.
pub const SPEED_MAX: i64 = 10000;

/// A particle lies inside the closed domain `[0, w] x [0, h]`.
pub open spec fn point_in_space(p: Point, w: int, h: int) -> bool {
    0 <= p.position.x <= w && 0 <= p.position.y <= h
}

/// A particle that stands still at the domain origin.
pub open spec fn zero_velocity(p: Point) -> bool {
    p.velocity.x == 0 && p.velocity.y == 0
}

/// Maps a simulation coordinate onto a raster axis: rescale by
/// `iw / w`, round toward zero, and clamp into `[0, iw - 1]`.
pub open spec fn spec_map_coord(x: int, w: int, iw: int) -> int {
    let t = x * iw / w;
    if t < 0 {
        0
    } else if t > iw - 1 {
        iw - 1
    } else {
        t
    }
}

/// The horizontal component of the steering velocity: the vector `(0, m)`
/// rotated by `a` milliradians, scaled by `(1.2 - brightness)`, with each
/// fixed-point product truncated as the step computes it.
pub open spec fn spec_velocity_x(a: int, m: int, b: int) -> int {
    let s = spec_sin_milli(a);
    let f = 1200 - b;
    let mag = (if s < 0 {
        -s
    } else {
        s
    }) * m / 1000 * f / 1000;
    if s < 0 {
        mag
    } else {
        -mag
    }
}

/// The vertical component of the steering velocity.
pub open spec fn spec_velocity_y(a: int, m: int, b: int) -> int {
    spec_cos_milli(a) * m / 1000 * f_scale(b) / 1000
}

/// The brightness modulation factor `1.2 - brightness`, in milli-units.
pub open spec fn f_scale(b: int) -> int {
    1200 - b
}

/// One fifth of a velocity component, rounded toward zero: the fixed
/// damping divisor applied to each displacement.
pub open spec fn spec_fifth(v: int) -> int {
    if v < 0 {
        -((-v) / 5)
    } else {
        v / 5
    }
}

/// Clamping of the coordinate mapping: everything at or below zero maps
/// onto the first raster column, everything at or beyond the domain edge
/// onto the last one.
pub proof fn lemma_map_coord_clamps(x: int, w: int, iw: int)
    requires
        0 < w,
        1 <= iw,
    ensures
        x <= 0 ==> spec_map_coord(x, w, iw) == 0,
        x >= w ==> spec_map_coord(x, w, iw) == iw - 1,
{
    if x <= 0 {
        assert(x * iw <= 0) by (nonlinear_arith)
            requires
                x <= 0,
                iw >= 1,
        {
        }
        lemma_div_is_ordered(x * iw, 0, w);
        lemma_basic_div(0, w);
    }
    if x >= w {
        assert(w * iw <= x * iw) by (nonlinear_arith)
            requires
                x >= w,
                iw >= 1,
        {
        }
        lemma_div_is_ordered(w * iw, x * iw, w);
        lemma_div_multiples_vanish(iw, w);
        assert(w * iw == w * (iw));
    }
}

/// `post` is `pre` advanced one step by some admissible pair of random
/// draws: a steering angle within the cone and a non-negative speed no
/// larger than the draw ceiling.
pub open spec fn stepped_from(post: Point, sim: PointsSimulator, pre: Point) -> bool {
    exists|a: int, m: int|
        -ANGLE_MAX <= a <= ANGLE_MAX && 0 <= m <= SPEED_MAX && post == #[trigger] sim.spec_step(
            pre,
            a,
            m,
        )
}

/// The particle-swarm simulator: the particle array it owns, the
/// background raster it samples, and the domain the particles live in.
#[derive(Debug)]
pub struct PointsSimulator {
    points: Vec<Point>,
    img: Raster,
    space_size: SimulationSpace,
}

impl PointsSimulator {
    #[verifier::type_invariant]
    spec fn wf(&self) -> bool {
        forall|i: int|
            0 <= i < self.points@.len() ==> point_in_space(
                #[trigger] self.points@[i],
                self.space_size.spec_width(),
                self.space_size.spec_height(),
            )
    }

    /// The particle array, as a sequence.
    pub closed spec fn spec_points(&self) -> Seq<Point> {
        self.points@
    }

    /// The simulation domain.
    pub closed spec fn spec_space(&self) -> SimulationSpace {
        self.space_size
    }

    /// The background raster.
    pub closed spec fn spec_img(&self) -> Raster {
        self.img
    }

    /// The domain width, in milli-pixels.
    pub open spec fn spec_width(&self) -> int {
        self.spec_space().spec_width()
    }

    /// The domain height, in milli-pixels.
    pub open spec fn spec_height(&self) -> int {
        self.spec_space().spec_height()
    }

    /// The brightness of the background under simulation coordinates
    /// `(x, y)`: the raster pixel found by rescaling and clamping each
    /// axis, put through the relative-brightness formula.
    pub open spec fn spec_sample(&self, x: int, y: int) -> int {
        let px = spec_map_coord(x, self.spec_width(), self.spec_img().spec_width());
        let py = spec_map_coord(y, self.spec_height(), self.spec_img().spec_height());
        let rgb = self.spec_img().spec_pixel(px, py);
        spec_brightness(rgb.0, rgb.1, rgb.2)
    }

    /// One particle advanced by one step, given the two random draws:
    /// the steering angle `a` and the speed `m`.  The new velocity fully
    /// replaces the old one; the new position is the old one displaced by
    /// a fifth of the velocity and wrapped into the domain.
    pub open spec fn spec_step(&self, p: Point, a: int, m: int) -> Point {
        let b = self.spec_sample(p.position.x as int, p.position.y as int);
        let vx = spec_velocity_x(a, m, b);
        let vy = spec_velocity_y(a, m, b);
        let nx = spec_wrap(p.position.x + spec_fifth(vx), self.spec_width());
        let ny = spec_wrap(p.position.y + spec_fifth(vy), self.spec_height());
        Point {
            position: Position { x: nx as i64, y: ny as i64 },
            velocity: Velocity { x: vx as i64, y: vy as i64 },
        }
    }

    /// Builds a simulator over the given viewport and background raster,
    /// owning exactly `n` particles seeded uniformly at random over the
    /// domain with zero velocity.  Fails exactly when the viewport has a
    /// zero edge.
    pub fn new(window_info: WindowSizeInfo, img: Raster, n: usize) -> (r: Result<
        PointsSimulator,
        ConfigError,
    >)
        ensures
            r is Ok <==> (window_info.width > 0 && window_info.height > 0),
            r is Err ==> r == Result::<PointsSimulator, ConfigError>::Err(ConfigError::EmptySpace),
            r matches Ok(sim) ==> {
                &&& sim.spec_points().len() == n
                &&& sim.spec_width() == 1000 * window_info.width
                &&& sim.spec_height() == 1000 * window_info.height
                &&& sim.spec_img() == img
                &&& forall|i: int|
                    0 <= i < n ==> zero_velocity(#[trigger] sim.spec_points()[i])
                &&& forall|i: int|
                    0 <= i < n ==> point_in_space(
                        #[trigger] sim.spec_points()[i],
                        sim.spec_width(),
                        sim.spec_height(),
                    )
            },
    {
        let space_size = match SimulationSpace::new(window_info) {
            Ok(s) => s,
            Err(e) => {
                return Err(e);
            },
        };
        let mut points: Vec<Point> = Vec::new();
        let mut i: usize = 0;
        while i < n
            invariant
                i <= n,
                points@.len() == i,
                forall|j: int|
                    0 <= j < i ==> #[trigger] points@[j] == (Point {
                        position: Position { x: 0, y: 0 },
                        velocity: Velocity { x: 0, y: 0 },
                    }),
            decreases n - i,
        {
            points.push(
                Point { position: Position { x: 0, y: 0 }, velocity: Velocity { x: 0, y: 0 } },
            );
            i = i + 1;
        }
        Self::internal_init_points(&space_size, &mut points);
        Ok(PointsSimulator { points, img, space_size })
    }

    /// Re-seeds every particle: positions drawn uniformly over the domain
    /// anew, velocities reset to zero.  The particle count, the domain and
    /// the raster are untouched.
    pub fn init_points(&mut self)
        ensures
            final(self).spec_points().len() == old(self).spec_points().len(),
            final(self).spec_space() == old(self).spec_space(),
            final(self).spec_img() == old(self).spec_img(),
            forall|i: int|
                0 <= i < final(self).spec_points().len() ==> zero_velocity(
                    #[trigger] final(self).spec_points()[i],
                ),
            forall|i: int|
                0 <= i < final(self).spec_points().len() ==> point_in_space(
                    #[trigger] final(self).spec_points()[i],
                    final(self).spec_width(),
                    final(self).spec_height(),
                ),
    {
        let mut pts: Vec<Point> = Vec::new();
        std::mem::swap(&mut pts, &mut self.points);
        Self::internal_init_points(&self.space_size, &mut pts);
        self.points = pts;
    }

    /// Overwrites every slot of `points` with a fresh particle: a position
    /// drawn uniformly over the domain, and a zero velocity.
    fn internal_init_points(space_size: &SimulationSpace, points: &mut Vec<Point>)
        ensures
            final(points)@.len() == old(points)@.len(),
            forall|i: int|
                0 <= i < final(points)@.len() ==> zero_velocity(#[trigger] final(points)@[i]),
            forall|i: int|
                0 <= i < final(points)@.len() ==> point_in_space(
                    #[trigger] final(points)@[i],
                    space_size.spec_width(),
                    space_size.spec_height(),
                ),
    {
        let w = space_size.width();
        let h = space_size.height();
        let n = points.len();
        let mut i: usize = 0;
        while i < n
            invariant
                i <= n,
                points@.len() == n,
                n == old(points)@.len(),
                0 < w == space_size.spec_width(),
                0 < h == space_size.spec_height(),
                forall|j: int| 0 <= j < i ==> zero_velocity(#[trigger] points@[j]),
                forall|j: int|
                    0 <= j < i ==> point_in_space(
                        #[trigger] points@[j],
                        space_size.spec_width(),
                        space_size.spec_height(),
                    ),
            decreases n - i,
        {
            let x = draw_in_range(0, w);
            let y = draw_in_range(0, h);
            points.set(
                i,
                Point { position: Position { x, y }, velocity: Velocity { x: 0, y: 0 } },
            );
            i = i + 1;
        }
    }

    /// How many particles the simulator owns.
    pub fn len(&self) -> (n: usize)
        ensures
            n == self.spec_points().len(),
    {
        self.points.len()
    }

    /// The particle array, read-only: what the renderer uploads each
    /// frame.  Whatever steps have been taken, every particle handed out
    /// lies inside the closed domain.
    pub fn points(&self) -> (r: &Vec<Point>)
        ensures
            r@ == self.spec_points(),
            forall|i: int|
                0 <= i < r@.len() ==> point_in_space(
                    #[trigger] r@[i],
                    self.spec_width(),
                    self.spec_height(),
                ),
    {
        proof {
            use_type_invariant(self);
        }
        &self.points
    }

    /// The brightness of the background under simulation coordinates
    /// `(x, y)`, in milli-units.  Total: out-of-domain coordinates are
    /// clamped onto the nearest raster edge, never rejected.
    pub fn get_pixel_brightness(&self, x: i64, y: i64) -> (b: i64)
        ensures
            b == self.spec_sample(x as int, y as int),
            0 <= b <= 1000,
    {
        let px = map_coord(x, self.space_size.width(), self.img.width());
        let py = map_coord(y, self.space_size.height(), self.img.height());
        let (r, g, bl) = self.img.pixel(px, py);
        calculate_relative_brightness(r, g, bl)
    }

    /// Out-of-domain coordinates sample as their nearest in-domain edge
    /// coordinate does: the sampler clamps, it never rejects.  The
    /// hypotheses only restate the validity that every constructed
    /// simulator has: a positive domain and a non-empty raster.
    pub proof fn lemma_sample_clamps(&self, x: int, y: int)
        requires
            0 < self.spec_width(),
            0 < self.spec_height(),
            1 <= self.spec_img().spec_width(),
            1 <= self.spec_img().spec_height(),
        ensures
            x <= 0 ==> self.spec_sample(x, y) == self.spec_sample(0, y),
            x >= self.spec_width() ==> self.spec_sample(x, y) == self.spec_sample(
                self.spec_width(),
                y,
            ),
            y <= 0 ==> self.spec_sample(x, y) == self.spec_sample(x, 0),
            y >= self.spec_height() ==> self.spec_sample(x, y) == self.spec_sample(
                x,
                self.spec_height(),
            ),
    {
        let w = self.spec_width();
        let h = self.spec_height();
        let iw = self.spec_img().spec_width();
        let ih = self.spec_img().spec_height();
        lemma_map_coord_clamps(x, w, iw);
        lemma_map_coord_clamps(0, w, iw);
        lemma_map_coord_clamps(w, w, iw);
        lemma_map_coord_clamps(y, h, ih);
        lemma_map_coord_clamps(0, h, ih);
        lemma_map_coord_clamps(h, h, ih);
    }

    /// Folds a position back into the domain, one axis at a time, by
    /// repeatedly adding or subtracting the domain edge.
    pub fn periodize_point(&self, p: Position) -> (r: Position)
        requires
            -COORD_MAX <= p.x <= COORD_MAX,
            -COORD_MAX <= p.y <= COORD_MAX,
        ensures
            r.x == spec_wrap(p.x as int, self.spec_width()),
            r.y == spec_wrap(p.y as int, self.spec_height()),
            0 <= r.x <= self.spec_width(),
            0 <= r.y <= self.spec_height(),
    {
        Position {
            x: wrap_coord(p.x, self.space_size.width()),
            y: wrap_coord(p.y, self.space_size.height()),
        }
    }

    /// Advances one particle a single step, the two random draws being
    /// given: the result is a pure function of the simulator's raster and
    /// domain, the particle, the steering angle `a` and the speed `m`.
    pub fn step_point(&self, p: Point, a: i64, m: i64) -> (q: Point)
        requires
            -ANGLE_MAX <= a <= ANGLE_MAX,
            0 <= m <= SPEED_MAX,
            point_in_space(p, self.spec_width(), self.spec_height()),
        ensures
            q == self.spec_step(p, a as int, m as int),
            point_in_space(q, self.spec_width(), self.spec_height()),
    {
        let b = self.get_pixel_brightness(p.position.x, p.position.y);
        let s = sin_milli(a);
        let c = cos_milli(a);
        let f: i64 = 1200 - b;
        let mu: u64 = m as u64;
        let fu: u64 = f as u64;
        let sm: u64 = if s < 0 {
            (-s) as u64
        } else {
            s as u64
        };
        assert(sm * mu <= 10090000 && c as int * mu <= 10410000) by (nonlinear_arith)
            requires
                sm <= 1009,
                0 <= c <= 1041,
                mu <= 10000,
        {
        }
        let q1: u64 = sm * mu / 1000;
        proof {
            lemma_div_pos_is_pos(sm as int * mu as int, 1000);
            lemma_div_is_ordered(sm as int * mu as int, 10090000, 1000);
            assert(10090000int / 1000int == 10090);
        }
        assert(q1 * fu <= 12108000) by (nonlinear_arith)
            requires
                q1 <= 10090,
                fu <= 1200,
        {
        }
        let q2: u64 = q1 * fu / 1000;
        proof {
            lemma_div_pos_is_pos(q1 as int * fu as int, 1000);
            lemma_div_is_ordered(q1 as int * fu as int, 12108000, 1000);
            assert(12108000int / 1000int == 12108);
        }
        let vx: i64 = if s < 0 {
            q2 as i64
        } else {
            -(q2 as i64)
        };
        let q3: u64 = (c as u64) * mu / 1000;
        proof {
            lemma_div_pos_is_pos(c as int * mu as int, 1000);
            lemma_div_is_ordered(c as int * mu as int, 10410000, 1000);
            assert(10410000int / 1000int == 10410);
        }
        assert(q3 * fu <= 12492000) by (nonlinear_arith)
            requires
                q3 <= 10410,
                fu <= 1200,
        {
        }
        let vy64: u64 = q3 * fu / 1000;
        proof {
            lemma_div_pos_is_pos(q3 as int * fu as int, 1000);
            lemma_div_is_ordered(q3 as int * fu as int, 12492000, 1000);
            assert(12492000int / 1000int == 12492);
        }
        let vy: i64 = vy64 as i64;
        let dmx: u64 = q2 / 5;
        let dmy: u64 = vy64 / 5;
        proof {
            lemma_div_is_ordered(q2 as int, 12108, 5);
            lemma_div_is_ordered(vy64 as int, 12492, 5);
            lemma_div_pos_is_pos(q2 as int, 5);
            lemma_div_pos_is_pos(vy64 as int, 5);
            assert(12108int / 5int == 2421);
            assert(12492int / 5int == 2498);
        }
        let dx: i64 = if s < 0 {
            dmx as i64
        } else {
            -(dmx as i64)
        };
        let dy: i64 = dmy as i64;
        assert(dx == spec_fifth(vx as int));
        assert(dy == spec_fifth(vy as int));
        let w = self.space_size.width();
        let h = self.space_size.height();
        let nx = wrap_coord(p.position.x + dx, w);
        let ny = wrap_coord(p.position.y + dy, h);
        Point { position: Position { x: nx, y: ny }, velocity: Velocity { x: vx, y: vy } }
    }

    /// Advances every particle one step, each steered by its own two
    /// fresh random draws and by the brightness under its previous
    /// position.  No particle is added or removed, and no particle reads
    /// another's state; afterwards every particle again lies inside the
    /// domain.
    pub fn update(&mut self)
        ensures
            final(self).spec_points().len() == old(self).spec_points().len(),
            final(self).spec_space() == old(self).spec_space(),
            final(self).spec_img() == old(self).spec_img(),
            forall|i: int|
                0 <= i < final(self).spec_points().len() ==> point_in_space(
                    #[trigger] final(self).spec_points()[i],
                    final(self).spec_width(),
                    final(self).spec_height(),
                ),
            forall|i: int|
                0 <= i < final(self).spec_points().len() ==> stepped_from(
                    #[trigger] final(self).spec_points()[i],
                    *old(self),
                    old(self).spec_points()[i],
                ),
    {
        proof {
            use_type_invariant(&*self);
        }
        let n = self.points.len();
        let mut out: Vec<Point> = Vec::new();
        let mut i: usize = 0;
        while i < n
            invariant
                i <= n,
                n == self.points@.len(),
                *self == *old(self),
                out@.len() == i,
                forall|j: int|
                    0 <= j < n ==> point_in_space(
                        #[trigger] self.points@[j],
                        self.spec_width(),
                        self.spec_height(),
                    ),
                forall|j: int|
                    0 <= j < i ==> point_in_space(
                        #[trigger] out@[j],
                        self.spec_width(),
                        self.spec_height(),
                    ),
                forall|j: int|
                    0 <= j < i ==> stepped_from(
                        #[trigger] out@[j],
                        *old(self),
                        old(self).spec_points()[j],
                    ),
            decreases n - i,
        {
            let p = self.points[i];
            let a = draw_in_range(-ANGLE_MAX, ANGLE_MAX);
            let m = draw_in_range(0, SPEED_MAX);
            let q = self.step_point(p, a, m);
            proof {
                assert(q == old(self).spec_step(old(self).spec_points()[i as int], a as int, m as int));
                assert(stepped_from(q, *old(self), old(self).spec_points()[i as int])) by {
                    assert(-ANGLE_MAX <= a as int <= ANGLE_MAX && 0 <= m as int <= SPEED_MAX && q
                        == old(self).spec_step(old(self).spec_points()[i as int], a as int, m as int));
                }
            }
            out.push(q);
            i = i + 1;
        }
        self.points = out;
    }
}

/// Rescales one simulation coordinate onto a raster axis and clamps it
/// into the raster, exactly as `spec_map_coord` describes.
fn map_coord(x: i64, w: i64, iw: u32) -> (r: u32)
    requires
        0 < w <= SPACE_MAX,
        1 <= iw <= RASTER_DIM_MAX,
    ensures
        r == spec_map_coord(x as int, w as int, iw as int),
        r < iw,
{
    if x <= 0 {
        proof {
            assert(x * iw <= 0) by (nonlinear_arith)
                requires
                    x <= 0,
                    iw >= 1,
            {
            }
            lemma_div_is_ordered(x as int * iw as int, 0, w as int);
            lemma_basic_div(0, w as int);
        }
        0
    } else if x >= w {
        proof {
            assert(w * iw <= x * iw) by (nonlinear_arith)
                requires
                    x >= w,
                    iw >= 1,
            {
            }
            lemma_div_is_ordered(w as int * iw as int, x as int * iw as int, w as int);
            lemma_div_multiples_vanish(iw as int, w as int);
            assert(w as int * iw as int == w as int * (iw as int));
        }
        iw - 1
    } else {
        proof {
            assert(0 < x * iw && x * iw < w * iw && x * iw <= SPACE_MAX as int * 10000)
                by (nonlinear_arith)
                requires
                    0 < x < w <= SPACE_MAX,
                    1 <= iw <= 10000,
            {
            }
            lemma_div_pos_is_pos(x as int * iw as int, w as int);
            lemma_multiply_divide_lt(x as int * iw as int, w as int, iw as int);
        }
        let t: u64 = (x as u64) * (iw as u64) / (w as u64);
        t as u32
    }
}

} // verus!
