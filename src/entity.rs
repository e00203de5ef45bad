use vstd::prelude::*;
use crate::tier::{EnemyDirection, EnemySize, size_of, speed_of};

verus! {

/// Milli-pixels in one pixel.
pub const MILLI: i64 = 1000;

/// How far outside the play area, in milli-pixels, a fish enters and leaves.
pub const EXIT_MARGIN: i64 = 50_000;

/// Milli-pixels of display extent per hundredth of size (30 pixels per size unit).
pub const EXTENT_PER_SIZE: u64 = 300;

/// A pair of integer coordinates: a position in milli-pixels or a velocity in
/// pixels per second.
#[derive(Clone, Copy, PartialEq, Eq, Debug, Structural)]
pub struct Vec2 {
    pub x: i64,
    pub y: i64,
}

impl Vec2 {
    pub fn new(x: i64, y: i64) -> (r: Vec2)
        ensures
            r == (Vec2 { x, y }),
    {
        Vec2 { x, y }
    }
}

/// A value kept within the range of `i64`.
pub open spec fn sat(v: int) -> int {
    if v > i64::MAX {
        i64::MAX as int
    } else if v < i64::MIN {
        i64::MIN as int
    } else {
        v
    }
}

/// Where a coordinate `p` (milli-pixels) lands after `dt` milliseconds at `v`
/// pixels per second.
pub open spec fn moved(p: int, v: int, dt: int) -> int {
    sat(p + v * dt)
}

/// Moves one coordinate, saturating at the ends of `i64`.
pub fn advance(p: i64, v: i64, dt: u32) -> (r: i64)
    ensures
        r == moved(p as int, v as int, dt as int),
{
    assert(-0x8000_0000_0000_0000 * 0x1_0000_0000 <= v * dt <= 0x8000_0000_0000_0000 * 0x1_0000_0000)
        by (nonlinear_arith)
        requires
            i64::MIN <= v <= i64::MAX,
            0 <= dt <= u32::MAX,
    ;
    let step: i128 = (v as i128) * (dt as i128);
    let sum: i128 = p as i128 + step;
    if sum > i64::MAX as i128 {
        i64::MAX
    } else if sum < i64::MIN as i128 {
        i64::MIN
    } else {
        sum as i64
    }
}

/// Two bodies touch when the distance between their centres is less than half
/// the sum of their display extents.
pub open spec fn touches(a: Vec2, b: Vec2, extent_sum: int) -> bool {
    let dx = a.x - b.x;
    let dy = a.y - b.y;
    4 * (dx * dx + dy * dy) < extent_sum * extent_sum
}

/// Decides `touches` without overflow.
pub fn bodies_touch(a: Vec2, b: Vec2, extent_sum: u64) -> (r: bool)
    requires
        extent_sum < 0x100_0000_0000_0000,
    ensures
        r == touches(a, b, extent_sum as int),
{
    let dx: i128 = a.x as i128 - b.x as i128;
    let dy: i128 = a.y as i128 - b.y as i128;
    let adx: i128 = if dx < 0 { -dx } else { dx };
    let ady: i128 = if dy < 0 { -dy } else { dy };
    let s: i128 = extent_sum as i128;
    assert(adx * adx == dx * dx && ady * ady == dy * dy) by (nonlinear_arith)
        requires
            adx == dx || adx == -dx,
            ady == dy || ady == -dy,
    ;
    if 2 * adx >= s || 2 * ady >= s {
        assert(4 * (dx * dx + dy * dy) >= s * s) by (nonlinear_arith)
            requires
                2 * adx >= s || 2 * ady >= s,
                adx * adx == dx * dx,
                ady * ady == dy * dy,
                adx >= 0,
                ady >= 0,
                s >= 0,
        ;
        false
    } else {
        assert(4 * (adx * adx + ady * ady) < 0x1_0000_0000_0000_0000_0000_0000_0000 * 8) by (nonlinear_arith)
            requires
                0 <= 2 * adx < s,
                0 <= 2 * ady < s,
                s < 0x100_0000_0000_0000,
        ;
        assert(s * s < 0x1_0000_0000_0000_0000_0000_0000_0000) by (nonlinear_arith)
            requires
                0 <= s < 0x100_0000_0000_0000,
        ;
        4 * (adx * adx + ady * ady) < s * s
    }
}

/// Largest display extent, in milli-pixels, of a size that fits in `u32`.
pub const MAX_EXTENT: u64 = 1_288_490_188_500;

/// Display extent in milli-pixels of a body of `size` hundredths.
pub open spec fn extent_of(size: int) -> int {
    size * 300
}

/// `c` is the speed along each axis of a diagonal move at speed `s`: the largest
/// whole number with `2 c^2 <= s^2`.
pub open spec fn is_diagonal_component(s: int, c: int) -> bool {
    0 <= c && 2 * c * c <= s * s && s * s < 2 * (c + 1) * (c + 1)
}

/// The per-axis speed of a diagonal move at speed `s` (speed divided by the
/// square root of two, rounded down).
pub open spec fn diagonal_of(s: int) -> int {
    choose|c: int| is_diagonal_component(s, c)
}

proof fn lemma_diagonal_unique(s: int, c: int, d: int)
    requires
        is_diagonal_component(s, c),
        is_diagonal_component(s, d),
    ensures
        c == d,
{
    if c < d {
        assert(2 * (c + 1) * (c + 1) <= 2 * d * d) by (nonlinear_arith)
            requires
                0 <= c + 1 <= d,
        ;
    } else if d < c {
        assert(2 * (d + 1) * (d + 1) <= 2 * c * c) by (nonlinear_arith)
            requires
                0 <= d + 1 <= c,
        ;
    }
}

/// Per-axis speed of a diagonal move at speed `s`.
pub fn diagonal_component(s: u16) -> (c: u16)
    ensures
        c == diagonal_of(s as int),
        is_diagonal_component(s as int, c as int),
{
    assert(s * s <= 0xffff * 0xffff) by (nonlinear_arith)
        requires
            0 <= s <= 0xffff,
    ;
    let s2: u64 = s as u64 * s as u64;
    let mut lo: u64 = 0;
    let mut hi: u64 = s as u64 + 1;
    assert(s2 < 2 * hi * hi) by (nonlinear_arith)
        requires
            s2 == s * s,
            hi == s + 1,
            s >= 0,
    ;
    while lo + 1 < hi
        invariant
            s2 == s as int * s as int,
            s <= 0xffff,
            2 * lo * lo <= s2,
            s2 < 2 * hi * hi,
            lo < hi <= s as int + 1,
        decreases hi - lo,
    {
        let mid: u64 = lo + (hi - lo) / 2;
        assert(2 * mid * mid <= 2 * 0x10000 * 0x10000) by (nonlinear_arith)
            requires
                0 <= mid <= 0x10000,
        ;
        if 2 * mid * mid <= s2 {
            lo = mid;
        } else {
            hi = mid;
        }
    }
    proof {
        assert(is_diagonal_component(s as int, lo as int));
        lemma_diagonal_unique(s as int, lo as int, diagonal_of(s as int));
    }
    lo as u16
}

/// The four movement intents of one step.
#[derive(Clone, Copy, PartialEq, Eq, Debug, Structural)]
pub struct PlayerInput {
    pub move_up: bool,
    pub move_down: bool,
    pub move_left: bool,
    pub move_right: bool,
}

impl Default for PlayerInput {
    fn default() -> (r: PlayerInput)
        ensures
            !r.move_up && !r.move_down && !r.move_left && !r.move_right,
    {
        PlayerInput { move_up: false, move_down: false, move_left: false, move_right: false }
    }
}

/// Direction of movement along one axis: -1, 0 or 1.
pub open spec fn axis(neg: bool, pos: bool) -> int {
    (if pos { 1int } else { 0int }) - (if neg { 1int } else { 0int })
}

/// The velocity that `input` asks for at speed `speed`: axis moves go at full
/// speed and diagonal moves at `diagonal_of(speed)` on each axis.
pub open spec fn intended_velocity(input: PlayerInput, speed: int) -> Vec2 {
    let mx = axis(input.move_left, input.move_right);
    let my = axis(input.move_up, input.move_down);
    let k = if mx != 0 && my != 0 { diagonal_of(speed) } else { speed };
    Vec2 { x: (mx * k) as i64, y: (my * k) as i64 }
}

/// The controlled fish.
#[derive(Clone, Copy, PartialEq, Eq, Debug, Structural)]
pub struct PlayerFish {
    /// Centre, in milli-pixels.
    pub position: Vec2,
    /// Pixels per second.
    pub velocity: Vec2,
    /// Hundredths of a size unit.
    pub size: u32,
    pub health: i32,
    /// Base movement speed, pixels per second.
    pub speed: u16,
    /// Milliseconds before the next damage may apply.
    pub collision_cooldown: i64,
    pub facing_right: bool,
}

/// Starting size of the controlled fish (0.25).
pub const START_SIZE: u32 = 25;

/// Starting vitality of the controlled fish.
pub const START_HEALTH: i32 = 100;

/// Base movement speed of the controlled fish, pixels per second.
pub const PLAYER_SPEED: u16 = 300;

/// Cooldown after one step of `dt` milliseconds: it only counts down while
/// positive.
pub open spec fn cooled(c: int, dt: int) -> int {
    if c > 0 {
        c - dt
    } else {
        c
    }
}

/// The controlled fish after `dt` milliseconds under `input`: the cooldown
/// counts down, the velocity follows the input, the facing follows the sign of
/// the horizontal velocity (kept when it is zero) and the fish moves.
pub open spec fn player_after(f: PlayerFish, dt: int, input: PlayerInput) -> PlayerFish {
    let v = intended_velocity(input, f.speed as int);
    PlayerFish {
        position: Vec2 {
            x: moved(f.position.x as int, v.x as int, dt) as i64,
            y: moved(f.position.y as int, v.y as int, dt) as i64,
        },
        velocity: v,
        collision_cooldown: cooled(f.collision_cooldown as int, dt) as i64,
        facing_right: if v.x > 0 {
            true
        } else if v.x < 0 {
            false
        } else {
            f.facing_right
        },
        ..f
    }
}

impl PlayerFish {
    /// A fresh controlled fish at `(x, y)` milli-pixels.
    pub fn new(x: i64, y: i64) -> (r: PlayerFish)
        ensures
            r.position == (Vec2 { x, y }),
            r.velocity == (Vec2 { x: 0, y: 0 }),
            r.size == START_SIZE,
            r.health == START_HEALTH,
            r.speed == PLAYER_SPEED,
            r.collision_cooldown == 0,
            r.facing_right,
    {
        PlayerFish {
            position: Vec2 { x, y },
            velocity: Vec2 { x: 0, y: 0 },
            size: START_SIZE,
            health: START_HEALTH,
            speed: PLAYER_SPEED,
            collision_cooldown: 0,
            facing_right: true,
        }
    }

    /// Advances the fish by `delta_time` milliseconds under `input`.
    pub fn update(&mut self, delta_time: u32, input: &PlayerInput)
        ensures
            *final(self) == player_after(*old(self), delta_time as int, *input),
    {
        if self.collision_cooldown > 0 {
            self.collision_cooldown = self.collision_cooldown - delta_time as i64;
        }
        let mx: i64 = (if input.move_right { 1i64 } else { 0i64 }) - (if input.move_left { 1i64 } else { 0i64 });
        let my: i64 = (if input.move_down { 1i64 } else { 0i64 }) - (if input.move_up { 1i64 } else { 0i64 });
        let k: i64 = if mx != 0 && my != 0 {
            diagonal_component(self.speed) as i64
        } else {
            self.speed as i64
        };
        assert(-0xffff <= mx * k <= 0xffff && -0xffff <= my * k <= 0xffff) by (nonlinear_arith)
            requires
                -1 <= mx <= 1,
                -1 <= my <= 1,
                0 <= k <= 0xffff,
        ;
        self.velocity = Vec2 { x: mx * k, y: my * k };
        if self.velocity.x > 0 {
            self.facing_right = true;
        } else if self.velocity.x < 0 {
            self.facing_right = false;
        }
        self.position = Vec2 {
            x: advance(self.position.x, self.velocity.x, delta_time),
            y: advance(self.position.y, self.velocity.y, delta_time),
        };
    }
}

/// A population fish.
#[derive(Clone, Copy, PartialEq, Eq, Debug, Structural)]
pub struct EnemyFish {
    /// Centre, in milli-pixels.
    pub position: Vec2,
    /// Pixels per second.
    pub velocity: Vec2,
    pub size_type: EnemySize,
    pub direction: EnemyDirection,
    pub is_alive: bool,
}

/// Horizontal start of a fish entering on the side opposite its direction.
pub open spec fn entry_x(direction: EnemyDirection, screen_width: int) -> int {
    match direction {
        EnemyDirection::LeftToRight => -EXIT_MARGIN,
        EnemyDirection::RightToLeft => screen_width * MILLI + EXIT_MARGIN,
    }
}

/// Whether a fish at horizontal position `x` has left the play area in its
/// direction of travel.
pub open spec fn has_left(direction: EnemyDirection, x: int, screen_width: int) -> bool {
    match direction {
        EnemyDirection::LeftToRight => x > screen_width * MILLI + EXIT_MARGIN,
        EnemyDirection::RightToLeft => x < -EXIT_MARGIN,
    }
}

/// Velocity of a fish of tier `t` travelling in `direction`.
pub open spec fn travel_velocity(t: EnemySize, direction: EnemyDirection) -> Vec2 {
    Vec2 {
        x: (match direction {
            EnemyDirection::LeftToRight => speed_of(t),
            EnemyDirection::RightToLeft => -speed_of(t),
        }) as i64,
        y: 0,
    }
}

/// A live fish of tier `t` entering at height `y` on the side opposite
/// `direction` of a play area `screen_width` pixels wide.
pub open spec fn entering(t: EnemySize, direction: EnemyDirection, y: i64, screen_width: int) -> EnemyFish {
    EnemyFish {
        position: Vec2 { x: entry_x(direction, screen_width) as i64, y },
        velocity: travel_velocity(t, direction),
        size_type: t,
        direction,
        is_alive: true,
    }
}

/// A fish after `dt` milliseconds: a live one moves by its velocity, a dead
/// one stays.
pub open spec fn drifted(e: EnemyFish, dt: int) -> EnemyFish {
    if e.is_alive {
        EnemyFish {
            position: Vec2 {
                x: moved(e.position.x as int, e.velocity.x as int, dt) as i64,
                y: moved(e.position.y as int, e.velocity.y as int, dt) as i64,
            },
            ..e
        }
    } else {
        e
    }
}

impl EnemyFish {
    /// A live fish of `size_type` entering at height `start_y` (milli-pixels) on
    /// the side opposite `direction`; `screen_width` is in pixels.
    pub fn new(size_type: EnemySize, direction: EnemyDirection, start_y: i64, screen_width: u32) -> (r: EnemyFish)
        ensures
            r == entering(size_type, direction, start_y, screen_width as int),
    {
        let speed = size_type.get_speed() as i64;
        let (vx, start_x) = match direction {
            EnemyDirection::LeftToRight => (speed, -EXIT_MARGIN),
            EnemyDirection::RightToLeft => (-speed, screen_width as i64 * MILLI + EXIT_MARGIN),
        };
        EnemyFish {
            position: Vec2 { x: start_x, y: start_y },
            velocity: Vec2 { x: vx, y: 0 },
            size_type,
            direction,
            is_alive: true,
        }
    }

    /// Moves a live fish by its velocity over `delta_time` milliseconds.
    pub fn update(&mut self, delta_time: u32)
        ensures
            *final(self) == drifted(*old(self), delta_time as int),
    {
        if self.is_alive {
            self.position = Vec2 {
                x: advance(self.position.x, self.velocity.x, delta_time),
                y: advance(self.position.y, self.velocity.y, delta_time),
            };
        }
    }

    /// Whether the fish has fully left the play area (`screen_width` pixels wide).
    pub fn is_out_of_bounds(&self, screen_width: u32) -> (r: bool)
        ensures
            r == has_left(self.direction, self.position.x as int, screen_width as int),
    {
        match self.direction {
            EnemyDirection::LeftToRight => self.position.x > screen_width as i64 * MILLI + EXIT_MARGIN,
            EnemyDirection::RightToLeft => self.position.x < -EXIT_MARGIN,
        }
    }

    /// Centre and display extent (milli-pixels) of the fish.
    pub fn get_bounds(&self) -> (r: (Vec2, u64))
        ensures
            r.0 == self.position,
            r.1 == extent_of(size_of(self.size_type)),
    {
        (self.position, self.size_type.get_size() as u64 * EXTENT_PER_SIZE)
    }

    /// Whether this fish, if alive, touches the controlled fish centred at
    /// `player_pos` with display extent `player_extent`.
    pub fn check_collision_with_player(&self, player_pos: Vec2, player_extent: u64) -> (r: bool)
        requires
            player_extent <= MAX_EXTENT,
        ensures
            r == (self.is_alive && touches(
                self.position,
                player_pos,
                extent_of(size_of(self.size_type)) + player_extent,
            )),
    {
        if !self.is_alive {
            return false;
        }
        let (pos, extent) = self.get_bounds();
        bodies_touch(pos, player_pos, extent + player_extent)
    }

    /// Marks the fish as eaten.
    pub fn be_eaten(&mut self)
        ensures
            *final(self) == (EnemyFish { is_alive: false, ..*old(self) }),
    {
        self.is_alive = false;
    }
}

} // verus!
