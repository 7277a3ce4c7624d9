//! The toroidal simulation domain: a positive width and height in
//! milli-pixels, and the wrap-around that folds a coordinate back into it.

use vstd::prelude::*;
use crate::ConfigError;
use crate::fixed::MILLI;
use crate::glx::WindowSizeInfo;

verus! {

/// The widest domain edge, in milli-pixels: a full `u32` viewport edge
/// scaled by 1000.
pub const SPACE_MAX: i64 = 4_294_967_295_000;

/// How far out of the domain a coordinate may start and still be wrapped
/// without any risk of overflow.
pub const COORD_MAX: i64 = 4_600_000_000_000_000_000;

/// The immutable, per-run simulation domain, in milli-pixels.
#[derive(Debug, Clone, Copy)]
pub struct SimulationSpace {
    width: i64,
    height: i64,
}

/// One axis of the wrap-around: while the coordinate is below zero add the
/// domain edge, then while it is above the edge subtract it.  A coordinate
/// already inside `[0, w]` (both ends included) is left as it is.
pub open spec fn spec_wrap(x: int, w: int) -> int
    recommends
        w > 0,
    decreases (if x < 0 { w - x } else { x }) when w > 0
{
    if x < 0 {
        spec_wrap(x + w, w)
    } else if x > w {
        spec_wrap(x - w, w)
    } else {
        x
    }
}

/// The wrapped coordinate always lands inside the closed domain interval.
pub proof fn lemma_wrap_in_range(x: int, w: int)
    requires
        w > 0,
    ensures
        0 <= spec_wrap(x, w) <= w,
    decreases (if x < 0 { w - x } else { x }),
{
    if x < 0 {
        lemma_wrap_in_range(x + w, w);
    } else if x > w {
        lemma_wrap_in_range(x - w, w);
    }
}

/// Wrapping is idempotent: a coordinate already folded into the domain is
/// left unchanged by a second fold.
pub proof fn lemma_wrap_idempotent(x: int, w: int)
    requires
        w > 0,
    ensures
        spec_wrap(spec_wrap(x, w), w) == spec_wrap(x, w),
{
    lemma_wrap_in_range(x, w);
}

impl SimulationSpace {
    #[verifier::type_invariant]
    spec fn wf(&self) -> bool {
        0 < self.width <= SPACE_MAX && 0 < self.height <= SPACE_MAX
    }

    /// The domain width, in milli-pixels.
    pub closed spec fn spec_width(&self) -> int {
        self.width as int
    }

    /// The domain height, in milli-pixels.
    pub closed spec fn spec_height(&self) -> int {
        self.height as int
    }

    /// Derives the domain from the viewport size, scaling pixels to
    /// milli-pixels.  A viewport with a zero edge is rejected: the domain
    /// must have a positive area.
    pub fn new(info: WindowSizeInfo) -> (r: Result<SimulationSpace, ConfigError>)
        ensures
            r is Ok <==> (info.width > 0 && info.height > 0),
            r matches Ok(s) ==> s.spec_width() == 1000 * info.width && s.spec_height() == 1000
                * info.height,
            r is Err ==> r == Result::<SimulationSpace, ConfigError>::Err(ConfigError::EmptySpace),
    {
        if info.width == 0 || info.height == 0 {
            return Err(ConfigError::EmptySpace);
        }
        Ok(
            SimulationSpace {
                width: MILLI * (info.width as i64),
                height: MILLI * (info.height as i64),
            },
        )
    }

    /// The domain width, in milli-pixels.
    pub fn width(&self) -> (w: i64)
        ensures
            w == self.spec_width(),
            0 < w <= SPACE_MAX,
    {
        proof {
            use_type_invariant(self);
        }
        self.width
    }

    /// The domain height, in milli-pixels.
    pub fn height(&self) -> (h: i64)
        ensures
            h == self.spec_height(),
            0 < h <= SPACE_MAX,
    {
        proof {
            use_type_invariant(self);
        }
        self.height
    }
}

/// Folds one coordinate into `[0, w]` by repeatedly adding or subtracting
/// the domain edge, exactly as `spec_wrap` describes.
pub fn wrap_coord(x: i64, w: i64) -> (r: i64)
    requires
        0 < w <= SPACE_MAX,
        -COORD_MAX <= x <= COORD_MAX,
    ensures
        r == spec_wrap(x as int, w as int),
        0 <= r <= w,
{
    let mut c: i64 = x;
    while c < 0
        invariant
            0 < w <= SPACE_MAX,
            -COORD_MAX <= c <= COORD_MAX,
            spec_wrap(c as int, w as int) == spec_wrap(x as int, w as int),
        decreases w - c,
    {
        c = c + w;
    }
    while c > w
        invariant
            0 < w <= SPACE_MAX,
            0 <= c <= COORD_MAX,
            spec_wrap(c as int, w as int) == spec_wrap(x as int, w as int),
        decreases c,
    {
        c = c - w;
    }
    c
}

} // verus!
