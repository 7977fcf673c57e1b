use vstd::prelude::*;

use crate::rng::SimRng;

verus! {

/// The motion capability shared by every entity of the arena.
pub trait Moveable: Sized {
    /// The bounds under which the entity's per-tick arithmetic is exact.
    spec fn mv_wf(&self) -> bool;

    fn get_position(&self) -> (p: Point);

    fn get_radius(self) -> (r: i64);

    fn get_speed(self) -> (s: i64);

    /// One tick of the entity's own boundary policy and motion.
    fn move_being(&mut self, width: i64, height: i64)
        requires
            old(self).mv_wf(),
            0 <= width <= MAX_DIM,
            0 <= height <= MAX_DIM,
        ensures
            final(self).mv_wf(),
    ;
}

/// Arena dimensions are kept within this bound so that every wrap-around
/// coordinate (`width + radius`) stays far from the integer limits.
pub const MAX_DIM: i64 = 1_000_000;

/// Largest radius an entity may have.
pub const MAX_RADIUS: i64 = 1_000_000;

/// Largest speed an entity may have (units per tick).
pub const MAX_SPEED: i64 = 1_000_000;

/// Velocity components are fixed-point numbers in units of 1/VEL_SCALE,
/// so a unit vector has components in [-VEL_SCALE, VEL_SCALE].
pub const VEL_SCALE: i64 = 1000;

/// Centers stay within this bound: large enough for any position an entity
/// can reach in one tick from inside an arena, small enough that squared
/// distances fit comfortably in an i64.
pub const MAX_COORD: i64 = 4_000_000;

/// A point of the arena plane, in whole units.
#[derive(Clone, Copy, Debug, PartialEq, Eq, Structural)]
pub struct Point {
    pub x: i64,
    pub y: i64,
}

/// Classification of a center+radius against the arena rectangle.
#[derive(Clone, Copy, Debug, PartialEq, Eq, Structural)]
pub enum Zone {
    LeftBorder,
    RightBorder,
    UpBorder,
    BottomBorder,
    Inside,
}

/// Position, radius, velocity and speed of one entity.  Velocity is a
/// unit-ish vector in 1/VEL_SCALE units; one tick displaces the center by
/// speed * velocity / VEL_SCALE (truncated toward zero).
#[derive(Clone, Copy, Debug, PartialEq, Eq, Structural)]
pub struct EntityParams {
    pub cx: i64,
    pub cy: i64,
    pub radius: i64,
    pub vx: i64,
    pub vy: i64,
    pub speed: i64,
}

/// The edge tests, in the fixed order the simulation checks them:
/// left, right, bottom, top, else inside.
pub open spec fn zone_of(cx: int, cy: int, r: int, width: int, height: int) -> Zone {
    if cx + r < 0 {
        Zone::LeftBorder
    } else if cx - r > width {
        Zone::RightBorder
    } else if cy - r > height {
        Zone::BottomBorder
    } else if cy + r < 0 {
        Zone::UpBorder
    } else {
        Zone::Inside
    }
}

/// Truncated-toward-zero division by VEL_SCALE of the product speed * v:
/// the displacement of one tick along one axis.
pub open spec fn spec_disp(speed: int, v: int) -> int {
    if speed * v >= 0 {
        (speed * v) / (VEL_SCALE as int)
    } else {
        -((-(speed * v)) / (VEL_SCALE as int))
    }
}

impl EntityParams {
    /// Bounds under which every tick's arithmetic stays exact.
    pub open spec fn wf(self) -> bool {
        &&& 0 <= self.radius <= MAX_RADIUS
        &&& 0 <= self.speed <= MAX_SPEED
        &&& -VEL_SCALE <= self.vx <= VEL_SCALE
        &&& -VEL_SCALE <= self.vy <= VEL_SCALE
        &&& -MAX_COORD <= self.cx <= MAX_COORD
        &&& -MAX_COORD <= self.cy <= MAX_COORD
    }

    /// The state after one tick of motion: center displaced by
    /// speed * velocity, everything else kept.
    pub open spec fn spec_move_step(self) -> EntityParams {
        EntityParams {
            cx: (self.cx + spec_disp(self.speed as int, self.vx as int)) as i64,
            cy: (self.cy + spec_disp(self.speed as int, self.vy as int)) as i64,
            ..self
        }
    }

    pub fn new(c: Point, r: i64, vx: i64, vy: i64, s: i64) -> (e: EntityParams)
        ensures
            e == (EntityParams { cx: c.x, cy: c.y, radius: r, vx: vx, vy: vy, speed: s }),
    {
        EntityParams { cx: c.x, cy: c.y, radius: r, vx, vy, speed: s }
    }

    pub fn get_center(self) -> (p: Point)
        ensures
            p.x == self.cx,
            p.y == self.cy,
    {
        Point { x: self.cx, y: self.cy }
    }

    pub fn get_radius(self) -> (r: i64)
        ensures
            r == self.radius,
    {
        self.radius
    }

    pub fn get_speed(self) -> (s: i64)
        ensures
            s == self.speed,
    {
        self.speed
    }

    pub fn set_velocity(&mut self, vx: i64, vy: i64)
        ensures
            *final(self) == (EntityParams { vx: vx, vy: vy, ..*old(self) }),
    {
        self.vx = vx;
        self.vy = vy;
    }

    /// Reverses the heading in place, used for the return leg of a trip.
    pub fn come_back(&mut self)
        requires
            old(self).vx > i64::MIN,
            old(self).vy > i64::MIN,
        ensures
            *final(self) == (EntityParams {
                vx: (-old(self).vx) as i64,
                vy: (-old(self).vy) as i64,
                ..*old(self)
            }),
    {
        self.vx = -self.vx;
        self.vy = -self.vy;
    }

    pub fn set_cx(&mut self, x: i64)
        ensures
            *final(self) == (EntityParams { cx: x, ..*old(self) }),
    {
        self.cx = x;
    }

    pub fn set_cy(&mut self, y: i64)
        ensures
            *final(self) == (EntityParams { cy: y, ..*old(self) }),
    {
        self.cy = y;
    }

    pub fn set_speed(&mut self, s: i64)
        ensures
            *final(self) == (EntityParams { speed: s, ..*old(self) }),
    {
        self.speed = s;
    }

    /// Freezes the entity in place.
    pub fn stop(&mut self)
        ensures
            *final(self) == (EntityParams { speed: 0, ..*old(self) }),
    {
        self.speed = 0;
    }

    /// Pure classification of this entity against the arena rectangle;
    /// total over all centers, radii and arena sizes.
    pub fn where_is(self, width: i64, height: i64) -> (z: Zone)
        ensures
            z == zone_of(self.cx as int, self.cy as int, self.radius as int, width as int, height as int),
    {
        let x = self.cx as i128;
        let y = self.cy as i128;
        let r = self.radius as i128;
        if x + r < 0 {
            return Zone::LeftBorder;
        }
        if x - r > width as i128 {
            return Zone::RightBorder;
        }
        if y - r > height as i128 {
            return Zone::BottomBorder;
        }
        if y + r < 0 {
            return Zone::UpBorder;
        }
        Zone::Inside
    }

    /// One tick of motion; zero speed (or a zero heading) produces no
    /// displacement.
    pub fn move_step(&mut self)
        requires
            old(self).wf(),
        ensures
            *final(self) == old(self).spec_move_step(),
            final(self).cx - old(self).cx == spec_disp(old(self).speed as int, old(self).vx as int),
            final(self).cy - old(self).cy == spec_disp(old(self).speed as int, old(self).vy as int),
            -MAX_SPEED <= spec_disp(old(self).speed as int, old(self).vx as int) <= MAX_SPEED,
            -MAX_SPEED <= spec_disp(old(self).speed as int, old(self).vy as int) <= MAX_SPEED,
    {
        let dx = scaled_product(self.speed, self.vx);
        let dy = scaled_product(self.speed, self.vy);
        self.cx = self.cx + dx;
        self.cy = self.cy + dy;
    }
}

/// Exactly one zone holds, decided by the fixed check order: the left test
/// first, then right, then bottom, then top, with `Inside` exactly when the
/// bounding circle crosses none of the four edges.
pub proof fn lemma_zone_characterization(cx: int, cy: int, r: int, width: int, height: int)
    ensures
        zone_of(cx, cy, r, width, height) is LeftBorder <==> cx + r < 0,
        zone_of(cx, cy, r, width, height) is RightBorder <==> (cx + r >= 0 && cx - r > width),
        zone_of(cx, cy, r, width, height) is BottomBorder
            <==> (cx + r >= 0 && cx - r <= width && cy - r > height),
        zone_of(cx, cy, r, width, height) is UpBorder
            <==> (cx + r >= 0 && cx - r <= width && cy - r <= height && cy + r < 0),
        zone_of(cx, cy, r, width, height) is Inside
            <==> (cx + r >= 0 && cx - r <= width && cy - r <= height && cy + r >= 0),
{
}

/// speed * v / VEL_SCALE, truncated toward zero, computed without signed
/// division.
fn scaled_product(speed: i64, v: i64) -> (d: i64)
    requires
        0 <= speed <= MAX_SPEED,
        -VEL_SCALE <= v <= VEL_SCALE,
    ensures
        d == spec_disp(speed as int, v as int),
        -MAX_SPEED <= d <= MAX_SPEED,
{
    if v >= 0 {
        assert(speed * v <= MAX_SPEED * VEL_SCALE) by (nonlinear_arith)
            requires 0 <= speed <= MAX_SPEED && 0 <= v <= VEL_SCALE;
        let p = (speed as u64) * (v as u64);
        let q = p / (VEL_SCALE as u64);
        assert(q <= MAX_SPEED) by {
            assert((speed * v) / (VEL_SCALE as int) <= (MAX_SPEED * VEL_SCALE) / (VEL_SCALE as int)) by {
                vstd::arithmetic::div_mod::lemma_div_is_ordered(speed * v, MAX_SPEED * VEL_SCALE, VEL_SCALE as int);
            }
        }
        q as i64
    } else {
        assert(speed * (-v) <= MAX_SPEED * VEL_SCALE) by (nonlinear_arith)
            requires 0 <= speed <= MAX_SPEED && 0 <= -v <= VEL_SCALE;
        let p = (speed as u64) * ((-v) as u64);
        let q = p / (VEL_SCALE as u64);
        assert(q <= MAX_SPEED) by {
            assert((speed * (-v)) / (VEL_SCALE as int) <= (MAX_SPEED * VEL_SCALE) / (VEL_SCALE as int)) by {
                vstd::arithmetic::div_mod::lemma_div_is_ordered(speed * (-v), MAX_SPEED * VEL_SCALE, VEL_SCALE as int);
            }
        }
        assert(speed * (-v) == -(speed * v)) by (nonlinear_arith);
        -(q as i64)
    }
}

/// Squared Euclidean distance between two points.
pub open spec fn spec_dist_sq(ax: int, ay: int, bx: int, by: int) -> int {
    (ax - bx) * (ax - bx) + (ay - by) * (ay - by)
}

/// Squared distance between two points whose coordinates are within twice
/// the center bound; comparing squares stands in for comparing distances.
pub fn dist_sq(a: Point, b: Point) -> (d: i64)
    requires
        -2 * MAX_COORD <= a.x <= 2 * MAX_COORD,
        -2 * MAX_COORD <= a.y <= 2 * MAX_COORD,
        -2 * MAX_COORD <= b.x <= 2 * MAX_COORD,
        -2 * MAX_COORD <= b.y <= 2 * MAX_COORD,
    ensures
        d == spec_dist_sq(a.x as int, a.y as int, b.x as int, b.y as int),
        0 <= d <= 512_000_000_000_000,
{
    let dx = a.x - b.x;
    let dy = a.y - b.y;
    assert(0 <= dx * dx <= 256_000_000_000_000) by (nonlinear_arith)
        requires -16_000_000 <= dx <= 16_000_000;
    assert(0 <= dy * dy <= 256_000_000_000_000) by (nonlinear_arith)
        requires -16_000_000 <= dy <= 16_000_000;
    dx * dx + dy * dy
}

/// The integer square root, defined by counting up.
pub open spec fn sqrt_floor(n: nat) -> nat
    decreases n,
{
    if n == 0 {
        0
    } else {
        let r = sqrt_floor((n - 1) as nat);
        if (r + 1) * (r + 1) <= n {
            r + 1
        } else {
            r
        }
    }
}

/// sqrt_floor(n) is the greatest integer whose square does not exceed n.
pub proof fn lemma_sqrt_floor_correct(n: nat)
    ensures
        sqrt_floor(n) * sqrt_floor(n) <= n,
        n < (sqrt_floor(n) + 1) * (sqrt_floor(n) + 1),
    decreases n,
{
    if n == 0 {
        let s = sqrt_floor(n);
        assert(s == 0);
        assert((s + 1) * (s + 1) == 1) by (nonlinear_arith)
            requires s == 0;
    } else {
        lemma_sqrt_floor_correct((n - 1) as nat);
        let r = sqrt_floor((n - 1) as nat);
        if (r + 1) * (r + 1) <= n {
            assert(sqrt_floor(n) == r + 1);
            assert((r + 1) * (r + 1) < (r + 2) * (r + 2)) by (nonlinear_arith);
        } else {
            assert(sqrt_floor(n) == r);
        }
    }
}

/// No two integers satisfy the square-root bracketing for the same n.
pub proof fn lemma_sqrt_floor_unique(n: nat, r: nat)
    requires
        r * r <= n,
        n < (r + 1) * (r + 1),
    ensures
        r == sqrt_floor(n),
{
    lemma_sqrt_floor_correct(n);
    let s = sqrt_floor(n);
    assert(r < s + 1 && s < r + 1) by (nonlinear_arith)
        requires
            r * r <= n < (r + 1) * (r + 1),
            s * s <= n < (s + 1) * (s + 1);
}

/// Binary-search integer square root.
pub fn isqrt(n: u64) -> (r: u64)
    requires
        n < 0x4000_0000_0000_0000,
    ensures
        r == sqrt_floor(n as nat),
        r * r <= n,
        n < (r + 1) * (r + 1),
{
    let mut lo: u64 = 0;
    let mut hi: u64 = 0x8000_0000;
    assert(hi * hi == 0x4000_0000_0000_0000) by (nonlinear_arith)
        requires hi == 0x8000_0000u64;
    while hi - lo > 1
        invariant
            0 <= lo < hi <= 0x8000_0000,
            lo * lo <= n,
            n < hi * hi,
        decreases hi - lo,
    {
        let mid = lo + (hi - lo) / 2;
        assert(lo < mid < hi);
        assert(mid * mid < 0x4000_0000_0000_0000) by (nonlinear_arith)
            requires 0 < mid < 0x8000_0000;
        if mid * mid <= n {
            lo = mid;
        } else {
            hi = mid;
        }
    }
    proof {
        lemma_sqrt_floor_unique(n as nat, lo as nat);
    }
    lo
}

/// Division truncated toward zero, for a positive divisor.
pub open spec fn trunc_div(a: int, b: int) -> int {
    if a >= 0 {
        a / b
    } else {
        -((-a) / b)
    }
}

/// The x component of the unit-ish heading of the vector (dx, dy), in
/// 1/VEL_SCALE units; the zero vector keeps a zero heading.
pub open spec fn spec_dir_x(dx: int, dy: int) -> int {
    let len = sqrt_floor((dx * dx + dy * dy) as nat);
    if len == 0 {
        0
    } else {
        trunc_div(dx * VEL_SCALE, len as int)
    }
}

/// The y component of the unit-ish heading of the vector (dx, dy).
pub open spec fn spec_dir_y(dx: int, dy: int) -> int {
    let len = sqrt_floor((dx * dx + dy * dy) as nat);
    if len == 0 {
        0
    } else {
        trunc_div(dy * VEL_SCALE, len as int)
    }
}

/// a * VEL_SCALE / len truncated toward zero, with |a| <= len: a heading
/// component, always within [-VEL_SCALE, VEL_SCALE].
fn dir_component(a: i64, len: u64) -> (v: i64)
    requires
        0 < len <= 33_000_000,
        -(len as int) <= a <= len as int,
    ensures
        v == trunc_div(a * VEL_SCALE, len as int),
        -VEL_SCALE <= v <= VEL_SCALE,
{
    if a >= 0 {
        let p = (a as u64) * 1000;
        let q = p / len;
        assert(q <= 1000) by {
            assert(a * 1000 <= len * 1000) by (nonlinear_arith)
                requires 0 <= a <= len;
            vstd::arithmetic::div_mod::lemma_div_is_ordered(a * 1000, len as int * 1000, len as int);
            assert((len as int * 1000) / (len as int) == 1000) by (nonlinear_arith)
                requires 1 <= len;
        }
        q as i64
    } else {
        let p = ((-a) as u64) * 1000;
        let q = p / len;
        assert(q <= 1000) by {
            assert((-a) * 1000 <= len * 1000) by (nonlinear_arith)
                requires 0 <= -a <= len;
            vstd::arithmetic::div_mod::lemma_div_is_ordered((-a) * 1000, len as int * 1000, len as int);
            assert((len as int * 1000) / (len as int) == 1000) by (nonlinear_arith)
                requires 1 <= len;
        }
        assert((-a) * 1000 == -(a * 1000)) by (nonlinear_arith);
        -(q as i64)
    }
}

/// The unit-ish heading from one point toward another, in 1/VEL_SCALE
/// units; two equal points give the zero heading.
pub fn unit_toward(from: Point, to: Point) -> (v: (i64, i64))
    requires
        -2 * MAX_COORD <= from.x <= 2 * MAX_COORD,
        -2 * MAX_COORD <= from.y <= 2 * MAX_COORD,
        -2 * MAX_COORD <= to.x <= 2 * MAX_COORD,
        -2 * MAX_COORD <= to.y <= 2 * MAX_COORD,
    ensures
        v.0 == spec_dir_x(to.x - from.x, to.y - from.y),
        v.1 == spec_dir_y(to.x - from.x, to.y - from.y),
        -VEL_SCALE <= v.0 <= VEL_SCALE,
        -VEL_SCALE <= v.1 <= VEL_SCALE,
{
    let dx = to.x - from.x;
    let dy = to.y - from.y;
    let d = dist_sq(to, from);
    assert(d == dx * dx + dy * dy);
    let len = isqrt(d as u64);
    assert(len <= 33_000_000) by {
        assert(len <= 33_000_000) by (nonlinear_arith)
            requires len * len <= 512_000_000_000_000;
    }
    if len == 0 {
        (0, 0)
    } else {
        proof {
            assert(dx * dx <= d && dy * dy <= d) by (nonlinear_arith)
                requires d == dx * dx + dy * dy;
            assert(-(len as int) <= dx <= len as int && -(len as int) <= dy <= len as int)
                by (nonlinear_arith)
                requires
                    dx * dx <= d,
                    dy * dy <= d,
                    (d as nat) < (len + 1) * (len + 1),
                    len >= 1;
        }
        let vx = dir_component(dx, len);
        let vy = dir_component(dy, len);
        (vx, vy)
    }
}

/// A unit-ish heading: its squared length never exceeds a unit vector's
/// and falls at most a rounding step short of one; in particular it is
/// never the zero vector.
pub open spec fn unit_norm(vx: int, vy: int) -> bool {
    &&& vx * vx + vy * vy <= VEL_SCALE * VEL_SCALE
    &&& vx * vx + vy * vy > VEL_SCALE * VEL_SCALE - 2 * VEL_SCALE - 1
}

/// One of the four borders, drawn uniformly.
pub fn random_zone(rng: &mut SimRng) -> (z: Zone)
    ensures
        !(z is Inside),
{
    let k = rng.gen_range_i64(0, 4);
    match k {
        0 => Zone::LeftBorder,
        1 => Zone::RightBorder,
        2 => Zone::UpBorder,
        _ => Zone::BottomBorder,
    }
}

/// A random unit-ish heading, so a wanderer never freezes.
pub fn random_heading(rng: &mut SimRng) -> (v: (i64, i64))
    ensures
        -VEL_SCALE <= v.0 <= VEL_SCALE,
        -VEL_SCALE <= v.1 <= VEL_SCALE,
        unit_norm(v.0 as int, v.1 as int),
{
    let vx = rng.gen_range_i64(-VEL_SCALE, VEL_SCALE + 1);
    assert(0 <= vx * vx <= 1_000_000) by (nonlinear_arith)
        requires -1000 <= vx <= 1000;
    let m = (VEL_SCALE * VEL_SCALE - vx * vx) as u64;
    let ay = isqrt(m);
    proof {
        assert(ay <= 1000) by (nonlinear_arith)
            requires ay * ay <= 1_000_000;
        assert(m < (ay + 1) * (ay + 1));
        assert((ay + 1) * (ay + 1) == ay * ay + 2 * ay + 1) by (nonlinear_arith);
    }
    let vy = if rng.gen_range_i64(0, 2) == 0 {
        ay as i64
    } else {
        -(ay as i64)
    };
    assert(vy * vy == ay * ay) by (nonlinear_arith)
        requires vy == ay || vy == -(ay as int);
    (vx, vy)
}

impl EntityParams {
    /// A fresh wanderer: a random position inside the arena, the default
    /// radius and speed, and a random unit-ish heading.
    pub fn random(size: (i64, i64), rng: &mut SimRng) -> (e: EntityParams)
        requires
            0 < size.0 <= MAX_DIM,
            0 < size.1 <= MAX_DIM,
        ensures
            e.wf(),
            0 <= e.cx < size.0,
            0 <= e.cy < size.1,
            e.radius == 20,
            e.speed == 5,
            unit_norm(e.vx as int, e.vy as int),
    {
        let cx = rng.gen_range_i64(0, size.0);
        let cy = rng.gen_range_i64(0, size.1);
        let v = random_heading(rng);
        EntityParams { cx, cy, radius: 20, vx: v.0, vy: v.1, speed: 5 }
    }
}

} // verus!

