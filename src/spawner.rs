use vstd::prelude::*;
use crate::tier::{EnemyDirection, EnemySize, size_of, tier_order, weight_of};
use crate::entity::{EnemyFish, entering, has_left};

verus! {

/// The seeded generator of `fastrand`, carried through as an opaque value.
#[verifier::external_type_specification]
#[verifier::external_body]
pub struct ExRng(fastrand::Rng);

/// Relies on `fastrand::Rng::u64` over the range `..n`: a value below `n`
/// (it panics only on an empty range, which `n > 0` rules out).
#[verifier::external_body]
fn draw_below(rng: &mut fastrand::Rng, n: u64) -> (r: u64)
    requires
        n > 0,
    ensures
        r < n,
{
    rng.u64(..n)
}

/// Relies on `fastrand::Rng::bool`: a fair coin.
#[verifier::external_body]
fn coin_flip(rng: &mut fastrand::Rng) -> (r: bool) {
    rng.bool()
}

/// Tiers strictly smaller than a controlled fish of size `p`, in order.
pub open spec fn edible_tiers(p: int) -> Seq<EnemySize> {
    tier_order().filter(|t: EnemySize| size_of(t) < p)
}

/// Tiers strictly larger than a controlled fish of size `p`, in order.
pub open spec fn threat_tiers(p: int) -> Seq<EnemySize> {
    tier_order().filter(|t: EnemySize| size_of(t) > p)
}

/// The tiers the spawner may choose from for a controlled fish of size `p`:
/// the edible ones, then the threatening ones; Tiny alone if there are none.
pub open spec fn candidates(p: int) -> Seq<EnemySize> {
    let c = edible_tiers(p) + threat_tiers(p);
    if c.len() == 0 {
        seq![EnemySize::Tiny]
    } else {
        c
    }
}

/// Sum of the spawn weights of `c`.
pub open spec fn total_weight(c: Seq<EnemySize>) -> int
    decreases c.len(),
{
    if c.len() == 0 {
        0
    } else {
        total_weight(c.drop_last()) + weight_of(c.last())
    }
}

/// The lottery walk: starting at index `i` with `d` left of the draw, the first
/// candidate whose weight exceeds what is left of the draw.
pub open spec fn pick_from(c: Seq<EnemySize>, i: int, d: int) -> Option<EnemySize>
    decreases c.len() - i,
{
    if i < 0 || i >= c.len() {
        None
    } else if d < weight_of(c[i]) {
        Some(c[i])
    } else {
        pick_from(c, i + 1, d - weight_of(c[i]))
    }
}

/// The tier that draw `d` selects from `c`; the first candidate if the draw
/// runs past the end.
pub open spec fn weighted_choice(c: Seq<EnemySize>, d: int) -> EnemySize {
    match pick_from(c, 0, d) {
        Some(t) => t,
        None => c[0],
    }
}

/// Chance in percent of a second fish of the same tier: 60 for Tiny, 40 for
/// Small, none for the others.
pub open spec fn extra_percent(t: EnemySize) -> int {
    match t {
        EnemySize::Tiny => 60,
        EnemySize::Small => 40,
        _ => 0,
    }
}

proof fn lemma_total_weight_bound(c: Seq<EnemySize>)
    ensures
        total_weight(c) <= 10 * c.len(),
        c.len() > 0 ==> total_weight(c) > 0,
    decreases c.len(),
{
    if c.len() > 0 {
        lemma_total_weight_bound(c.drop_last());
    }
}

proof fn lemma_prefix_weight_step(c: Seq<EnemySize>, i: int)
    requires
        0 <= i < c.len(),
    ensures
        total_weight(c.take(i + 1)) == total_weight(c.take(i)) + weight_of(c[i]),
{
    assert(c.take(i + 1).drop_last() =~= c.take(i));
}

proof fn lemma_prefix_weight_monotone(c: Seq<EnemySize>, i: int, k: int)
    requires
        0 <= i <= k <= c.len(),
    ensures
        total_weight(c.take(i)) <= total_weight(c.take(k)),
    decreases k - i,
{
    if i < k {
        lemma_prefix_weight_step(c, k - 1);
        lemma_prefix_weight_monotone(c, i, k - 1);
    }
}

proof fn lemma_walk(c: Seq<EnemySize>, i: int, k: int, d: int)
    requires
        0 <= i <= k < c.len(),
        total_weight(c.take(k)) <= d < total_weight(c.take(k + 1)),
    ensures
        pick_from(c, i, d - total_weight(c.take(i))) == Some(c[k]),
    decreases k - i,
{
    lemma_prefix_weight_step(c, i);
    if i < k {
        lemma_prefix_weight_monotone(c, i + 1, k);
        lemma_walk(c, i + 1, k, d);
    } else {
        lemma_prefix_weight_step(c, k);
    }
}

/// The draws that select the candidate at position `k` are exactly those from
/// the sum of the weights before it up to that sum plus its own weight: of the
/// `total_weight(c)` equally likely draws, `weight_of(c[k])` select it.
pub proof fn lemma_weighted_spans(c: Seq<EnemySize>, k: int, d: int)
    requires
        0 <= k < c.len(),
        total_weight(c.take(k)) <= d < total_weight(c.take(k + 1)),
    ensures
        weighted_choice(c, d) == c[k],
        total_weight(c.take(k + 1)) - total_weight(c.take(k)) == weight_of(c[k]),
        total_weight(c.take(k + 1)) <= total_weight(c),
{
    assert(c.take(0) =~= Seq::<EnemySize>::empty());
    lemma_walk(c, 0, k, d);
    lemma_prefix_weight_step(c, k);
    lemma_prefix_weight_monotone(c, k + 1, c.len() as int);
    assert(c.take(c.len() as int) =~= c);
}

/// Builds the candidate tiers for a controlled fish of size `player_size`.
pub fn candidate_tiers(player_size: u32) -> (r: Vec<EnemySize>)
    ensures
        r@ == candidates(player_size as int),
        0 < r.len() <= 20,
{
    let all = EnemySize::all();
    let p = player_size as u64;
    let mut edible: Vec<EnemySize> = Vec::new();
    let mut i: usize = 0;
    while i < all.len()
        invariant
            all@ == tier_order(),
            p == player_size,
            0 <= i <= all.len(),
            edible@ == all@.take(i as int).filter(|t: EnemySize| size_of(t) < p),
        decreases all.len() - i,
    {
        let t = all[i];
        proof {
            assert(all@.take(i as int + 1).drop_last() =~= all@.take(i as int));
            reveal(Seq::filter);
        }
        if (t.get_size() as u64) < p {
            edible.push(t);
        }
        i = i + 1;
    }
    let mut threats: Vec<EnemySize> = Vec::new();
    let mut j: usize = 0;
    while j < all.len()
        invariant
            all@ == tier_order(),
            p == player_size,
            0 <= j <= all.len(),
            threats@ == all@.take(j as int).filter(|t: EnemySize| size_of(t) > p),
        decreases all.len() - j,
    {
        let t = all[j];
        proof {
            assert(all@.take(j as int + 1).drop_last() =~= all@.take(j as int));
            reveal(Seq::filter);
        }
        if (t.get_size() as u64) > p {
            threats.push(t);
        }
        j = j + 1;
    }
    proof {
        assert(all@.take(10) =~= all@);
        all@.lemma_filter_len(|t: EnemySize| size_of(t) < p);
        all@.lemma_filter_len(|t: EnemySize| size_of(t) > p);
    }
    let mut r = edible;
    r.append(&mut threats);
    if r.len() == 0 {
        r.push(EnemySize::Tiny);
        assert(r@ =~= seq![EnemySize::Tiny]);
    }
    r
}

/// A total kept below the end of `u64`.
pub open spec fn cap_u64(v: int) -> int {
    if v > u64::MAX {
        u64::MAX as int
    } else {
        v
    }
}

/// Sums the spawn weights of `c`, stopping at the end of `u64`.
pub fn sum_weights(c: &Vec<EnemySize>) -> (r: u64)
    ensures
        r == cap_u64(total_weight(c@)),
{
    let mut sum: u64 = 0;
    let mut i: usize = 0;
    while i < c.len()
        invariant
            0 <= i <= c.len(),
            sum == cap_u64(total_weight(c@.take(i as int))),
        decreases c.len() - i,
    {
        proof {
            assert(c@.take(i as int + 1).drop_last() =~= c@.take(i as int));
        }
        sum = sum.saturating_add(c[i].spawn_weight() as u64);
        i = i + 1;
    }
    assert(c@.take(c.len() as int) =~= c@);
    sum
}

/// The tier that `draw` selects from `c` by the weighted lottery: walking the
/// candidates in order, the first whose weight exceeds what is left of the
/// draw after subtracting the weights before it.
pub fn weighted_pick(c: &Vec<EnemySize>, draw: u64) -> (r: EnemySize)
    requires
        c.len() > 0,
    ensures
        r == weighted_choice(c@, draw as int),
{
    let mut rem: u64 = draw;
    let mut i: usize = 0;
    while i < c.len()
        invariant
            0 <= i <= c.len(),
            c.len() > 0,
            pick_from(c@, 0, draw as int) == pick_from(c@, i as int, rem as int),
        decreases c.len() - i,
    {
        let w = c[i].spawn_weight() as u64;
        if rem < w {
            return c[i];
        }
        rem = rem - w;
        i = i + 1;
    }
    c[0]
}

/// Lowest spawn height (milli-pixels) of tier `t` in a screen `h` pixels high:
/// the top of the play band (an eighth down) plus half the fish's extent.
pub open spec fn band_low(t: EnemySize, h: int) -> int {
    h * 125 + size_of(t) * 150
}

/// Bound above the spawn heights of tier `t`: the bottom of the play band
/// (seven eighths down) less half the fish's extent.
pub open spec fn band_high(t: EnemySize, h: int) -> int {
    h * 875 - size_of(t) * 150
}

/// Middle of the play band of a screen `h` pixels high.
pub open spec fn band_mid(h: int) -> int {
    h * 500
}

/// Spawn height of tier `t` for a draw `d` below the band's width; the band's
/// middle when the band is too narrow for the fish.
pub open spec fn spawn_height(t: EnemySize, h: int, d: int) -> int {
    if band_low(t, h) < band_high(t, h) {
        band_low(t, h) + d
    } else {
        band_mid(h)
    }
}

/// Whether `e` is a fresh fish of tier `t`, entering a play area `w` by `h`
/// pixels at a height inside its spawn band.
pub open spec fn fresh_spawn(e: EnemyFish, t: EnemySize, w: int, h: int) -> bool {
    &&& e == entering(t, e.direction, e.position.y, w)
    &&& if band_low(t, h) < band_high(t, h) {
        band_low(t, h) <= e.position.y < band_high(t, h)
    } else {
        e.position.y == band_mid(h)
    }
}

/// Whether a fish stays in the population at a cleanup: it is alive and has
/// not left the play area `w` pixels wide.
pub open spec fn stays(e: EnemyFish, w: int) -> bool {
    e.is_alive && !has_left(e.direction, e.position.x as int, w)
}

/// The population after a cleanup.
pub open spec fn survivors(s: Seq<EnemyFish>, w: int) -> Seq<EnemyFish> {
    s.filter(|e: EnemyFish| stays(e, w))
}

/// The spawn height of tier `t` in a screen `screen_height` pixels high for the
/// draw `draw` (below the band's width when the band is open).
pub fn spawn_y(t: EnemySize, screen_height: u32, draw: u64) -> (r: i64)
    requires
        band_low(t, screen_height as int) < band_high(t, screen_height as int) ==> draw
            < band_high(t, screen_height as int) - band_low(t, screen_height as int),
    ensures
        r == spawn_height(t, screen_height as int, draw as int),
{
    let h = screen_height as i64;
    let half = t.get_size() as i64 * 150;
    let low = h * 125 + half;
    let high = h * 875 - half;
    if low < high {
        low + draw as i64
    } else {
        h * 500
    }
}

/// A fresh fish of tier `t` with a random direction and height.
fn spawn_one(t: EnemySize, screen_width: u32, screen_height: u32, rng: &mut fastrand::Rng) -> (r: EnemyFish)
    ensures
        fresh_spawn(r, t, screen_width as int, screen_height as int),
{
    let direction = if coin_flip(rng) {
        EnemyDirection::LeftToRight
    } else {
        EnemyDirection::RightToLeft
    };
    let h = screen_height as i64;
    let half = t.get_size() as i64 * 150;
    let low = h * 125 + half;
    let high = h * 875 - half;
    let draw: u64 = if low < high {
        draw_below(rng, (high - low) as u64)
    } else {
        0
    };
    let y = spawn_y(t, screen_height, draw);
    EnemyFish::new(t, direction, y, screen_width)
}

/// Times and bounds the arrival of new fish.
#[derive(Clone, Copy, PartialEq, Eq, Debug, Structural)]
pub struct EnemySpawner {
    /// Milliseconds since the last spawn.
    pub spawn_timer: u64,
    /// Milliseconds between spawns.
    pub spawn_interval: u64,
    pub max_enemies: usize,
}

/// Milliseconds between spawns.
pub const SPAWN_INTERVAL: u64 = 1000;

/// Largest population.
pub const MAX_ENEMIES: usize = 14;

impl Default for EnemySpawner {
    fn default() -> (r: EnemySpawner)
        ensures
            r == (EnemySpawner { spawn_timer: 0, spawn_interval: SPAWN_INTERVAL, max_enemies: MAX_ENEMIES }),
    {
        EnemySpawner { spawn_timer: 0, spawn_interval: SPAWN_INTERVAL, max_enemies: MAX_ENEMIES }
    }
}

/// Timer after adding `dt` milliseconds, saturating at the end of `u64`.
pub open spec fn timer_after(timer: int, dt: int) -> int {
    if timer + dt > u64::MAX {
        u64::MAX as int
    } else {
        timer + dt
    }
}

/// Whether a second fish of tier `t` follows the first: there is `room` for
/// it and the percentile `roll` falls below the tier's extra chance.
pub open spec fn second_due(t: EnemySize, room: bool, roll: int) -> bool {
    room && roll < extra_percent(t)
}

/// Decides `second_due` for a roll below 100.
pub fn extra_spawn_due(t: EnemySize, room: bool, roll: u64) -> (r: bool)
    ensures
        r == second_due(t, room, roll as int),
{
    let percent: u64 = match t {
        EnemySize::Tiny => 60,
        EnemySize::Small => 40,
        _ => 0,
    };
    room && roll < percent
}

/// Whether `out`, holding the first spawned fish at `n`, holds a second one
/// exactly when `roll` makes it due, with room left after the first.
pub open spec fn second_decided(out: Seq<EnemyFish>, n: int, max: int, roll: int) -> bool {
    (out.len() == n + 2) == second_due(out[n].size_type, n + 1 < max, roll)
}

/// Whether `out` is `base` with one spawn added for a controlled fish of size
/// `p` in a play area `w` by `h` pixels holding at most `max` fish: a fresh fish
/// of the tier that some draw below the total weight selects, then, exactly
/// when some percentile roll makes `second_due` hold with room left after the
/// first, a second fresh fish of the same tier.
pub open spec fn spawned_onto(base: Seq<EnemyFish>, out: Seq<EnemyFish>, max: int, w: int, h: int, p: int) -> bool {
    let n = base.len() as int;
    &&& out.len() == n + 1 || out.len() == n + 2
    &&& out.take(n) == base
    &&& exists|d: int|
        0 <= d < total_weight(candidates(p)) && out[n].size_type == #[trigger] weighted_choice(candidates(p), d)
    &&& fresh_spawn(out[n], out[n].size_type, w, h)
    &&& exists|roll: int| 0 <= roll < 100 && #[trigger] second_decided(out, n, max, roll)
    &&& out.len() == n + 2 ==> fresh_spawn(out[n + 1], out[n].size_type, w, h)
}

/// One step of the spawner of `dt` milliseconds, from population `es` and
/// spawner `sp` to population `out` and spawner `sp2`, for a controlled fish of
/// size `p` in a play area `w` by `h` pixels: the survivors of the cleanup stay;
/// when there is room and the timer, advanced by `dt`, has reached the
/// interval, a spawn is added and the timer restarts; otherwise the timer just
/// advances.
pub open spec fn spawner_step(
    es: Seq<EnemyFish>,
    sp: EnemySpawner,
    out: Seq<EnemyFish>,
    sp2: EnemySpawner,
    dt: int,
    w: int,
    h: int,
    p: int,
) -> bool {
    let kept = survivors(es, w);
    let timer = timer_after(sp.spawn_timer as int, dt);
    &&& sp2.spawn_interval == sp.spawn_interval
    &&& sp2.max_enemies == sp.max_enemies
    &&& if kept.len() < sp.max_enemies && timer >= sp.spawn_interval {
        sp2.spawn_timer == 0 && spawned_onto(kept, out, sp.max_enemies as int, w, h, p)
    } else {
        out == kept && sp2.spawn_timer == timer
    }
}

impl EnemySpawner {
    /// Removes the dead fish and those that have left the play area.
    pub fn clean_up(enemies: &mut Vec<EnemyFish>, screen_width: u32)
        ensures
            final(enemies)@ == survivors(old(enemies)@, screen_width as int),
    {
        let ghost w = screen_width as int;
        let mut kept: Vec<EnemyFish> = Vec::new();
        let mut i: usize = 0;
        while i < enemies.len()
            invariant
                0 <= i <= enemies.len(),
                enemies@ == old(enemies)@,
                w == screen_width,
                kept@ == enemies@.take(i as int).filter(|e: EnemyFish| stays(e, w)),
            decreases enemies.len() - i,
        {
            let e = enemies[i];
            proof {
                assert(enemies@.take(i as int + 1).drop_last() =~= enemies@.take(i as int));
                reveal(Seq::filter);
            }
            if e.is_alive && !e.is_out_of_bounds(screen_width) {
                kept.push(e);
            }
            i = i + 1;
        }
        assert(enemies@.take(enemies.len() as int) =~= enemies@);
        *enemies = kept;
    }

    /// Adds one fish of a tier drawn from the candidates for a controlled fish of
    /// size `player_size`, and, while there is room, rolls for a second one of
    /// the same tier.
    fn spawn_enemy(
        &self,
        enemies: &mut Vec<EnemyFish>,
        screen_width: u32,
        screen_height: u32,
        player_size: u32,
        rng: &mut fastrand::Rng,
    )
        requires
            old(enemies).len() < self.max_enemies,
        ensures
            spawned_onto(
                old(enemies)@,
                final(enemies)@,
                self.max_enemies as int,
                screen_width as int,
                screen_height as int,
                player_size as int,
            ),
    {
        let cands = candidate_tiers(player_size);
        let total = sum_weights(&cands);
        proof {
            lemma_total_weight_bound(cands@);
            assert(total == total_weight(cands@));
        }
        let draw = draw_below(rng, total);
        let t = weighted_pick(&cands, draw);
        let first = spawn_one(t, screen_width, screen_height, rng);
        enemies.push(first);
        assert(enemies@.take(old(enemies).len() as int) =~= old(enemies)@);
        let room = enemies.len() < self.max_enemies;
        let roll: u64 = if room {
            draw_below(rng, 100)
        } else {
            0
        };
        if extra_spawn_due(t, room, roll) {
            let second = spawn_one(t, screen_width, screen_height, rng);
            enemies.push(second);
            assert(enemies@.take(old(enemies).len() as int) =~= old(enemies)@);
        }
        proof {
            let n = old(enemies).len() as int;
            assert(second_decided(enemies@, n, self.max_enemies as int, roll as int));
        }
    }

    /// One step of `delta_time` milliseconds: cleans up the population, advances
    /// the timer and, when the population has room and the interval has passed,
    /// spawns and restarts the timer (see `spawner_step`).
    pub fn update(
        &mut self,
        delta_time: u32,
        enemies: &mut Vec<EnemyFish>,
        screen_width: u32,
        screen_height: u32,
        player_size: u32,
        rng: &mut fastrand::Rng,
    )
        ensures
            spawner_step(
                old(enemies)@,
                *old(self),
                final(enemies)@,
                *final(self),
                delta_time as int,
                screen_width as int,
                screen_height as int,
                player_size as int,
            ),
            final(enemies).len() <= old(self).max_enemies || final(enemies).len() <= old(enemies).len(),
            old(enemies).len() <= old(self).max_enemies ==> final(enemies).len() <= old(self).max_enemies,
    {
        self.spawn_timer = self.spawn_timer.saturating_add(delta_time as u64);
        Self::clean_up(enemies, screen_width);
        proof {
            old(enemies)@.lemma_filter_len(|e: EnemyFish| stays(e, screen_width as int));
        }
        if enemies.len() < self.max_enemies && self.spawn_timer >= self.spawn_interval {
            self.spawn_enemy(enemies, screen_width, screen_height, player_size, rng);
            self.spawn_timer = 0;
        }
    }
}

} // verus!
