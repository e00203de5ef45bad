use vstd::prelude::*;
use crate::tier::{growth_of, score_of, size_of};
use crate::entity::{
    EnemyFish, cooled, drifted, player_after, PlayerFish, PlayerInput, Vec2, EXTENT_PER_SIZE, MAX_EXTENT, MILLI, extent_of, sat,
    touches,
};
use crate::spawner::{EnemySpawner, spawner_step};
use crate::ledger::{GameDatabase, next_after};

verus! {

/// Size (hundredths) beyond which the controlled fish has won: above the
/// largest tier.
pub const VICTORY_SIZE: u32 = 120;

/// Vitality lost in one hit by a fish at least as large.
pub const HIT_DAMAGE: i32 = 50;

/// Milliseconds during which no further hit applies.
pub const HIT_COOLDOWN: i64 = 1000;

/// A value kept within the range of `i32`.
pub open spec fn cap_i32(v: int) -> i32 {
    if v > i32::MAX {
        i32::MAX
    } else if v < i32::MIN {
        i32::MIN
    } else {
        v as i32
    }
}

/// A value kept below the end of `u32`.
pub open spec fn cap_u32(v: int) -> u32 {
    if v > u32::MAX {
        u32::MAX
    } else {
        v as u32
    }
}

fn add_i32_capped(a: i32, b: i32) -> (r: i32)
    ensures
        r == cap_i32(a + b),
{
    let s: i64 = a as i64 + b as i64;
    if s > i32::MAX as i64 {
        i32::MAX
    } else if s < i32::MIN as i64 {
        i32::MIN
    } else {
        s as i32
    }
}

/// The totals that collisions change during one step, and the score and size
/// at the moment of a defeat, if one happened.
#[derive(Clone, Copy, Debug)]
pub struct Tally {
    pub score: i32,
    pub size: u32,
    pub health: i32,
    pub cooldown: i64,
    pub defeat: Option<(i32, u32)>,
}

/// The controlled fish, of size `p` and display extent `reach` at `pos`, eats `e`:
/// they touch and it is strictly larger than the tier.
pub open spec fn eats(e: EnemyFish, p: int, reach: int, pos: Vec2) -> bool {
    e.is_alive && touches(e.position, pos, extent_of(size_of(e.size_type)) + reach) && p > size_of(
        e.size_type,
    )
}

/// `e` touches the controlled fish and is at least as large.
pub open spec fn threatens(e: EnemyFish, p: int, reach: int, pos: Vec2) -> bool {
    e.is_alive && touches(e.position, pos, extent_of(size_of(e.size_type)) + reach) && p <= size_of(
        e.size_type,
    )
}

/// Totals after meeting `e`: eating adds the tier's score and growth; a hit,
/// only once the cooldown has run out, costs vitality and restarts the
/// cooldown, and a hit that leaves no vitality is a defeat.
pub open spec fn meet(t: Tally, e: EnemyFish, p: int, reach: int, pos: Vec2) -> Tally {
    if eats(e, p, reach, pos) {
        Tally {
            score: cap_i32(t.score + score_of(e.size_type)),
            size: cap_u32(t.size + growth_of(e.size_type)),
            ..t
        }
    } else if threatens(e, p, reach, pos) && t.cooldown <= 0 {
        let h = cap_i32(t.health - HIT_DAMAGE);
        Tally {
            health: h,
            cooldown: HIT_COOLDOWN,
            defeat: if h <= 0 {
                Some((t.score, t.size))
            } else {
                t.defeat
            },
            ..t
        }
    } else {
        t
    }
}

/// Totals after meeting each fish of `es` in order.
pub open spec fn meet_all(es: Seq<EnemyFish>, t: Tally, p: int, reach: int, pos: Vec2) -> Tally
    decreases es.len(),
{
    if es.len() == 0 {
        t
    } else {
        meet(meet_all(es.drop_last(), t, p, reach, pos), es.last(), p, reach, pos)
    }
}

/// Collisions never shrink the controlled fish nor lower the score.
pub proof fn lemma_meet_all_grows(es: Seq<EnemyFish>, t: Tally, p: int, reach: int, pos: Vec2)
    ensures
        meet_all(es, t, p, reach, pos).size >= t.size,
        meet_all(es, t, p, reach, pos).score >= t.score,
    decreases es.len(),
{
    if es.len() > 0 {
        lemma_meet_all_grows(es.drop_last(), t, p, reach, pos);
    }
}

/// Within one step the controlled fish takes at most one hit: its vitality and
/// cooldown either stay, or, if the cooldown had run out, lose `HIT_DAMAGE` and
/// restart at `HIT_COOLDOWN`; and when the cooldown had run out and some fish
/// threatens it, that one hit does land.
pub proof fn lemma_meet_all_one_hit(es: Seq<EnemyFish>, t: Tally, p: int, reach: int, pos: Vec2)
    ensures
        ({
            let r = meet_all(es, t, p, reach, pos);
            (r.health == t.health && r.cooldown == t.cooldown) || (t.cooldown <= 0 && r.health == cap_i32(
                t.health - HIT_DAMAGE,
            ) && r.cooldown == HIT_COOLDOWN)
        }),
        t.cooldown <= 0 && (exists|j: int| 0 <= j < es.len() && #[trigger] threatens(es[j], p, reach, pos))
            ==> meet_all(es, t, p, reach, pos).health == cap_i32(t.health - HIT_DAMAGE) && meet_all(
            es,
            t,
            p,
            reach,
            pos,
        ).cooldown == HIT_COOLDOWN,
    decreases es.len(),
{
    if es.len() > 0 {
        let rest = es.drop_last();
        lemma_meet_all_one_hit(rest, t, p, reach, pos);
        if t.cooldown <= 0 && (exists|j: int| 0 <= j < es.len() && #[trigger] threatens(es[j], p, reach, pos)) {
            let j = choose|j: int| 0 <= j < es.len() && #[trigger] threatens(es[j], p, reach, pos);
            if j < es.len() - 1 {
                assert(threatens(rest[j], p, reach, pos));
            }
        }
    }
}

/// Total score of the fish of `es` that the controlled fish eats.
pub open spec fn eaten_score(es: Seq<EnemyFish>, p: int, reach: int, pos: Vec2) -> int
    decreases es.len(),
{
    if es.len() == 0 {
        0
    } else {
        eaten_score(es.drop_last(), p, reach, pos) + if eats(es.last(), p, reach, pos) {
            score_of(es.last().size_type)
        } else {
            0
        }
    }
}

/// Total growth from the fish of `es` that the controlled fish eats.
pub open spec fn eaten_growth(es: Seq<EnemyFish>, p: int, reach: int, pos: Vec2) -> int
    decreases es.len(),
{
    if es.len() == 0 {
        0
    } else {
        eaten_growth(es.drop_last(), p, reach, pos) + if eats(es.last(), p, reach, pos) {
            growth_of(es.last().size_type)
        } else {
            0
        }
    }
}

proof fn lemma_eaten_nonneg(es: Seq<EnemyFish>, p: int, reach: int, pos: Vec2)
    ensures
        eaten_score(es, p, reach, pos) >= 0,
        eaten_growth(es, p, reach, pos) >= 0,
    decreases es.len(),
{
    if es.len() > 0 {
        lemma_eaten_nonneg(es.drop_last(), p, reach, pos);
    }
}

/// Over a whole step, the score and size grow by exactly the scores and
/// growths of the fish eaten, while the totals fit their types.
pub proof fn lemma_meet_all_sums(es: Seq<EnemyFish>, t: Tally, p: int, reach: int, pos: Vec2)
    requires
        t.score + eaten_score(es, p, reach, pos) <= i32::MAX,
        t.size + eaten_growth(es, p, reach, pos) <= u32::MAX,
    ensures
        meet_all(es, t, p, reach, pos).score == t.score + eaten_score(es, p, reach, pos),
        meet_all(es, t, p, reach, pos).size == t.size + eaten_growth(es, p, reach, pos),
    decreases es.len(),
{
    if es.len() > 0 {
        let rest = es.drop_last();
        lemma_eaten_nonneg(rest, p, reach, pos);
        lemma_meet_all_sums(rest, t, p, reach, pos);
    }
}

/// Starting alive and undefeated, a step ends in defeat exactly when the
/// controlled fish is left with no vitality.
pub proof fn lemma_meet_all_defeat(es: Seq<EnemyFish>, t: Tally, p: int, reach: int, pos: Vec2)
    requires
        t.defeat is None,
        t.health > 0,
    ensures
        meet_all(es, t, p, reach, pos).defeat is Some <==> meet_all(es, t, p, reach, pos).health <= 0,
    decreases es.len(),
{
    if es.len() > 0 {
        lemma_meet_all_defeat(es.drop_last(), t, p, reach, pos);
    }
}

/// Eating a fish of tier `T` adds exactly `T`'s score and growth (while they
/// fit their types), and a fish whose tier is at least as large as the
/// controlled fish is never eaten.
pub proof fn lemma_consume(t: Tally, e: EnemyFish, p: int, reach: int, pos: Vec2)
    requires
        e.is_alive,
        touches(e.position, pos, extent_of(size_of(e.size_type)) + reach),
    ensures
        p > size_of(e.size_type) && t.score + score_of(e.size_type) <= i32::MAX && t.size + growth_of(
            e.size_type,
        ) <= u32::MAX ==> {
            &&& meet(t, e, p, reach, pos).score == t.score + score_of(e.size_type)
            &&& meet(t, e, p, reach, pos).size == t.size + growth_of(e.size_type)
            &&& !bitten(e, p, reach, pos).is_alive
        },
        p <= size_of(e.size_type) ==> {
            &&& meet(t, e, p, reach, pos).score == t.score
            &&& meet(t, e, p, reach, pos).size == t.size
            &&& bitten(e, p, reach, pos) == e
        },
{
}

/// A hit lands only once the cooldown has run out; it then costs
/// `HIT_DAMAGE` and sets the cooldown to `HIT_COOLDOWN`.
pub proof fn lemma_hit(t: Tally, e: EnemyFish, p: int, reach: int, pos: Vec2)
    requires
        threatens(e, p, reach, pos),
    ensures
        t.cooldown > 0 ==> meet(t, e, p, reach, pos) == t,
        t.cooldown <= 0 && t.health - HIT_DAMAGE >= i32::MIN ==> {
            &&& meet(t, e, p, reach, pos).health == t.health - HIT_DAMAGE
            &&& meet(t, e, p, reach, pos).cooldown == HIT_COOLDOWN
        },
{
}

/// The cooldown after steps of the given lengths (milliseconds).
pub open spec fn cooled_all(c: int, steps: Seq<u32>) -> int
    decreases steps.len(),
{
    if steps.len() == 0 {
        c
    } else {
        cooled(cooled_all(c, steps.drop_last()), steps.last() as int)
    }
}

/// Total length of the steps.
pub open spec fn elapsed(steps: Seq<u32>) -> int
    decreases steps.len(),
{
    if steps.len() == 0 {
        0
    } else {
        elapsed(steps.drop_last()) + steps.last()
    }
}

/// After a hit, steps that add up to less than `HIT_COOLDOWN` leave the
/// cooldown running, so a further collision in that time does no damage.
pub proof fn lemma_cooldown_shields(steps: Seq<u32>, t: Tally, e: EnemyFish, p: int, reach: int, pos: Vec2)
    requires
        elapsed(steps) < HIT_COOLDOWN,
    ensures
        elapsed(steps) >= 0,
        cooled_all(HIT_COOLDOWN as int, steps) == HIT_COOLDOWN - elapsed(steps),
        cooled_all(HIT_COOLDOWN as int, steps) > 0,
        meet(Tally { cooldown: cooled_all(HIT_COOLDOWN as int, steps) as i64, ..t }, e, p, reach, pos).health
            == t.health,
    decreases steps.len(),
{
    if steps.len() > 0 {
        lemma_cooldown_shields(steps.drop_last(), t, e, p, reach, pos);
    }
    let c = cooled_all(HIT_COOLDOWN as int, steps);
    assert(0 < c <= HIT_COOLDOWN);
    assert(c as i64 == c);
}

/// A collision ends the session in defeat exactly when it is a hit that leaves
/// no vitality; the size of the controlled fish plays no part.
pub proof fn lemma_defeat(t: Tally, e: EnemyFish, p: int, reach: int, pos: Vec2)
    requires
        t.defeat is None,
    ensures
        meet(t, e, p, reach, pos).defeat is Some <==> (threatens(e, p, reach, pos) && t.cooldown <= 0
            && meet(t, e, p, reach, pos).health <= 0),
{
}

/// A fish after the step's collisions: eaten if the controlled fish eats it.
pub open spec fn bitten(e: EnemyFish, p: int, reach: int, pos: Vec2) -> EnemyFish {
    if eats(e, p, reach, pos) {
        EnemyFish { is_alive: false, ..e }
    } else {
        e
    }
}

/// Meets each fish of `enemies` in order, starting from `t`; the controlled
/// fish has size `p`, display extent `reach` and centre `pos` throughout.
pub fn meet_enemies(enemies: &mut Vec<EnemyFish>, t: Tally, p: u32, reach: u64, pos: Vec2) -> (r: Tally)
    requires
        reach <= MAX_EXTENT,
        t.defeat is Some ==> t.cooldown > 0,
    ensures
        r == meet_all(old(enemies)@, t, p as int, reach as int, pos),
        final(enemies).len() == old(enemies).len(),
        forall|j: int|
            0 <= j < old(enemies).len() ==> final(enemies)@[j] == bitten(
                old(enemies)@[j],
                p as int,
                reach as int,
                pos,
            ),
        r.defeat is Some ==> r.cooldown > 0,
{
    let mut acc = t;
    let mut i: usize = 0;
    while i < enemies.len()
        invariant
            0 <= i <= enemies.len(),
            reach <= MAX_EXTENT,
            enemies.len() == old(enemies).len(),
            acc == meet_all(old(enemies)@.take(i as int), t, p as int, reach as int, pos),
            acc.defeat is Some ==> acc.cooldown > 0,
            forall|j: int|
                0 <= j < i ==> enemies@[j] == bitten(old(enemies)@[j], p as int, reach as int, pos),
            forall|j: int| i <= j < enemies.len() ==> enemies@[j] == old(enemies)@[j],
        decreases enemies.len() - i,
    {
        let e = enemies[i];
        proof {
            assert(old(enemies)@.take(i as int + 1).drop_last() =~= old(enemies)@.take(i as int));
        }
        if e.check_collision_with_player(pos, reach) {
            if p > e.size_type.get_size() {
                acc.score = add_i32_capped(acc.score, e.size_type.get_score());
                acc.size = acc.size.saturating_add(e.size_type.growth_increment());
                let mut eaten = e;
                eaten.be_eaten();
                enemies.set(i, eaten);
            } else if acc.cooldown <= 0 {
                acc.health = add_i32_capped(acc.health, -HIT_DAMAGE);
                acc.cooldown = HIT_COOLDOWN;
                if acc.health <= 0 {
                    acc.defeat = Some((acc.score, acc.size));
                }
            }
        }
        i = i + 1;
    }
    assert(old(enemies)@.take(old(enemies).len() as int) =~= old(enemies)@);
    acc
}

/// The screens and phases of the application.
#[derive(Clone, Copy, PartialEq, Eq, Debug, Structural)]
pub enum AppState {
    Home,
    Settings,
    History,
    Game,
    GamePaused,
    GameOver,
}

/// Everything a running session holds.
#[derive(Clone, Debug)]
pub struct GameState {
    /// Vitality shown to the player, mirrored from the controlled fish.
    pub health: i32,
    /// Size shown to the player, mirrored from the controlled fish.
    pub size: u32,
    pub score: i32,
    pub player_fish: PlayerFish,
    pub input: PlayerInput,
    pub enemies: Vec<EnemyFish>,
    pub enemy_spawner: EnemySpawner,
    /// Whether the session ended by outgrowing every tier.
    pub is_victory: bool,
}

/// Where a fresh controlled fish starts, in milli-pixels.
pub const START_X: i64 = 400_000;
pub const START_Y: i64 = 300_000;

/// Whether `g` is a session as it starts.
pub open spec fn is_fresh(g: GameState) -> bool {
    &&& g.health == 100
    &&& g.size == 25
    &&& g.score == 0
    &&& g.player_fish == PlayerFish {
        position: Vec2 { x: START_X, y: START_Y },
        velocity: Vec2 { x: 0, y: 0 },
        size: 25,
        health: 100,
        speed: 300,
        collision_cooldown: 0,
        facing_right: true,
    }
    &&& g.input == PlayerInput { move_up: false, move_down: false, move_left: false, move_right: false }
    &&& g.enemies@ == Seq::<EnemyFish>::empty()
    &&& g.enemy_spawner == EnemySpawner { spawn_timer: 0, spawn_interval: 1000, max_enemies: 14 }
    &&& !g.is_victory
}

impl Default for GameState {
    fn default() -> (r: GameState)
        ensures
            is_fresh(r),
    {
        GameState {
            health: 100,
            size: 25,
            score: 0,
            player_fish: PlayerFish::new(START_X, START_Y),
            input: PlayerInput::default(),
            enemies: Vec::new(),
            enemy_spawner: EnemySpawner::default(),
            is_victory: false,
        }
    }
}

/// Whether `db` is `old` with one more record of `score` and `size`.
pub open spec fn recorded(old: GameDatabase, db: GameDatabase, score: i32, size: u32) -> bool {
    &&& db.records.len() == old.records.len() + 1
    &&& db.records@.drop_last() == old.records@
    &&& db.records@.last().id == old.next_id
    &&& db.records@.last().score == score
    &&& db.records@.last().player_size == size
    &&& db.next_id == next_after(old.next_id)
}

/// One coordinate and its velocity after the walls at `lo` and `hi` (milli-pixels)
/// for a body reaching `half` from its centre: pushed back inside, with the
/// velocity stopped, first against the low wall and then against the high one.
pub open spec fn wall_clamp(p: int, v: int, lo: int, hi: int, half: int) -> (int, int) {
    let (p1, v1) = if p - half < lo {
        (sat(lo + half), 0)
    } else {
        (p, v)
    };
    if p1 + half > hi {
        (sat(hi - half), 0)
    } else {
        (p1, v1)
    }
}

fn clamp_axis(p: i64, v: i64, lo: i64, hi: i64, half: i64) -> (r: (i64, i64))
    ensures
        r.0 == wall_clamp(p as int, v as int, lo as int, hi as int, half as int).0,
        r.1 == wall_clamp(p as int, v as int, lo as int, hi as int, half as int).1,
{
    let mut p1: i128 = p as i128;
    let mut v1: i64 = v;
    if p1 - (half as i128) < lo as i128 {
        let q: i128 = lo as i128 + half as i128;
        p1 = if q > i64::MAX as i128 {
            i64::MAX as i128
        } else if q < i64::MIN as i128 {
            i64::MIN as i128
        } else {
            q
        };
        v1 = 0;
    }
    if p1 + (half as i128) > hi as i128 {
        let q: i128 = hi as i128 - half as i128;
        p1 = if q > i64::MAX as i128 {
            i64::MAX as i128
        } else if q < i64::MIN as i128 {
            i64::MIN as i128
        } else {
            q
        };
        v1 = 0;
    }
    (p1 as i64, v1)
}

/// What the caller persists after a frame of play.
#[derive(Clone, Copy, PartialEq, Eq, Debug, Structural)]
pub enum FrameOutcome {
    /// The session goes on; nothing to persist.
    Continue,
    /// The session was paused: its snapshot is to be saved.
    Paused,
    /// The session ended: the ledger is to be saved and the snapshot discarded.
    Ended,
}

/// Whether a body reaching `half` from its centre at `p` lies between the walls
/// `lo` and `hi`.
pub open spec fn inside(p: int, lo: int, hi: int, half: int) -> bool {
    lo + half <= p <= hi - half
}

/// Clamping leaves a body inside walls that are far enough apart for it.
pub proof fn lemma_wall_clamp_inside(p: int, v: int, lo: int, hi: int, half: int)
    requires
        half >= 0,
        hi - lo >= 2 * half,
        i64::MIN <= lo + half,
        hi - half <= i64::MAX,
    ensures
        inside(wall_clamp(p, v, lo, hi, half).0, lo, hi, half),
{
}

/// The keys held down during a frame.
#[derive(Clone, Copy, PartialEq, Eq, Debug, Structural)]
pub struct KeysDown {
    pub w: bool,
    pub a: bool,
    pub s: bool,
    pub d: bool,
    pub arrow_up: bool,
    pub arrow_left: bool,
    pub arrow_down: bool,
    pub arrow_right: bool,
    pub escape: bool,
}

/// Turns held keys into movement intents and a pause request.
#[derive(Clone, Copy, PartialEq, Eq, Debug, Structural)]
pub struct InputHandler;

impl InputHandler {
    /// Sets the session's movement intents from `keys` (W or Up, S or Down, A or
    /// Left, D or Right) and tells whether Escape asks for a pause.
    pub fn handle_input(&self, keys: &KeysDown, game_state: &mut GameState) -> (r: bool)
        ensures
            r == keys.escape,
            final(game_state).input == (PlayerInput {
                move_up: keys.w || keys.arrow_up,
                move_down: keys.s || keys.arrow_down,
                move_left: keys.a || keys.arrow_left,
                move_right: keys.d || keys.arrow_right,
            }),
            *final(game_state) == (GameState { input: final(game_state).input, ..*old(game_state) }),
    {
        game_state.input = PlayerInput {
            move_up: keys.w || keys.arrow_up,
            move_down: keys.s || keys.arrow_down,
            move_left: keys.a || keys.arrow_left,
            move_right: keys.d || keys.arrow_right,
        };
        keys.escape
    }
}

/// The application: its current screen, the session and the ledger.
#[derive(Clone, Debug)]
pub struct BigFishApp {
    pub current_state: AppState,
    pub game_state: GameState,
    pub database: GameDatabase,
}

/// The relation of `check_collisions`, from application `a` to `b`. A
/// controlled fish larger than `VICTORY_SIZE` wins at once, whatever its
/// vitality: the victory flag is set, a record is added and the session ends.
/// Otherwise each fish is met in order (see `meet`), with the size and position
/// of the controlled fish as they were at the start; the totals and the eaten
/// fish follow, and a defeat adds a record of the score and size at that
/// moment and ends the session.
pub open spec fn collided(a: BigFishApp, b: BigFishApp) -> bool {
                let g = a.game_state;
                let f = g.player_fish;
                let reach = extent_of(f.size as int);
                let t0 = Tally {
                    score: g.score,
                    size: f.size,
                    health: f.health,
                    cooldown: f.collision_cooldown,
                    defeat: None,
                };
                let t = meet_all(g.enemies@, t0, f.size as int, reach, f.position);
                let h = b.game_state;
                if f.size > VICTORY_SIZE {
                    &&& h == GameState { is_victory: true, ..g }
                    &&& recorded(a.database, b.database, g.score, f.size)
                    &&& b.current_state == AppState::GameOver
                } else {
                    &&& h.score == t.score
                    &&& h.player_fish == PlayerFish {
                        size: t.size,
                        health: t.health,
                        collision_cooldown: t.cooldown,
                        ..f
                    }
                    &&& h.size == t.size
                    &&& h.health == t.health
                    &&& h.enemies.len() == g.enemies.len()
                    &&& forall|j: int|
                        0 <= j < g.enemies.len() ==> h.enemies@[j] == bitten(
                            g.enemies@[j],
                            f.size as int,
                            reach,
                            f.position,
                        )
                    &&& h.input == g.input
                    &&& h.enemy_spawner == g.enemy_spawner
                    &&& h.is_victory == g.is_victory
                    &&& match t.defeat {
                        Some((score, size)) => {
                            &&& recorded(a.database, b.database, score, size)
                            &&& b.current_state == AppState::GameOver
                        },
                        None => {
                            &&& b.database == a.database
                            &&& b.current_state == a.current_state
                        },
                    }
                }
}

/// Victory comes exactly when the controlled fish is larger than
/// `VICTORY_SIZE`, whatever its vitality; below that, a session in play with
/// vitality left ends exactly when the collisions leave it none, and a defeat
/// is never a victory. A session that ends gains exactly one record, with the
/// next identifier (the score and size as they stood, for a victory); one
/// that goes on leaves the ledger as it was.
pub proof fn lemma_collision_outcome(a: BigFishApp, b: BigFishApp)
    requires
        collided(a, b),
        !a.game_state.is_victory,
        a.current_state == AppState::Game,
    ensures
        b.game_state.is_victory <==> a.game_state.player_fish.size > VICTORY_SIZE,
        a.game_state.player_fish.size <= VICTORY_SIZE && a.game_state.player_fish.health > 0 ==> ((
        b.current_state == AppState::GameOver) <==> b.game_state.player_fish.health <= 0),
        b.current_state == AppState::GameOver && a.database.next_id < u32::MAX ==> {
            &&& b.database.records.len() == a.database.records.len() + 1
            &&& b.database.records@.drop_last() == a.database.records@
            &&& b.database.records@.last().id == a.database.next_id
            &&& b.database.next_id == a.database.next_id + 1
        },
        b.current_state != AppState::GameOver ==> b.database == a.database,
        a.game_state.player_fish.size > VICTORY_SIZE ==> b.database.records@.last().score == a.game_state.score
            && b.database.records@.last().player_size == a.game_state.player_fish.size,
{
    let g = a.game_state;
    let f = g.player_fish;
    if f.size <= VICTORY_SIZE && f.health > 0 {
        lemma_meet_all_defeat(
            g.enemies@,
            Tally { score: g.score, size: f.size, health: f.health, cooldown: f.collision_cooldown, defeat: None },
            f.size as int,
            extent_of(f.size as int),
            f.position,
        );
    }
}

/// Below the victory size, one call of `check_collisions` adds to the score and
/// size exactly the scores and growths of the fish eaten (while the totals fit
/// their types) and marks those fish eaten; and when the cooldown had run out
/// and some fish at least as large touches the controlled fish, exactly one hit
/// of `HIT_DAMAGE` lands and the cooldown restarts at `HIT_COOLDOWN`.
pub proof fn lemma_collision_totals(a: BigFishApp, b: BigFishApp)
    requires
        collided(a, b),
        a.game_state.player_fish.size <= VICTORY_SIZE,
    ensures
        ({
            let g = a.game_state;
            let f = g.player_fish;
            let reach = extent_of(f.size as int);
            let es = g.enemies@;
            &&& g.score + eaten_score(es, f.size as int, reach, f.position) <= i32::MAX && f.size
                + eaten_growth(es, f.size as int, reach, f.position) <= u32::MAX ==> {
                &&& b.game_state.score == g.score + eaten_score(es, f.size as int, reach, f.position)
                &&& b.game_state.player_fish.size == f.size + eaten_growth(es, f.size as int, reach, f.position)
            }
            &&& forall|j: int|
                0 <= j < es.len() && eats(es[j], f.size as int, reach, f.position)
                    ==> !b.game_state.enemies@[j].is_alive
            &&& f.collision_cooldown <= 0 && f.health - HIT_DAMAGE >= i32::MIN && (exists|j: int|
                0 <= j < es.len() && #[trigger] threatens(es[j], f.size as int, reach, f.position)) ==> {
                &&& b.game_state.player_fish.health == f.health - HIT_DAMAGE
                &&& b.game_state.health == b.game_state.player_fish.health
                &&& b.game_state.player_fish.collision_cooldown == HIT_COOLDOWN
            }
        }),
{
    let g = a.game_state;
    let f = g.player_fish;
    let reach = extent_of(f.size as int);
    let t0 = Tally { score: g.score, size: f.size, health: f.health, cooldown: f.collision_cooldown, defeat: None };
    lemma_meet_all_one_hit(g.enemies@, t0, f.size as int, reach, f.position);
    if g.score + eaten_score(g.enemies@, f.size as int, reach, f.position) <= i32::MAX && f.size + eaten_growth(
        g.enemies@,
        f.size as int,
        reach,
        f.position,
    ) <= u32::MAX {
        lemma_meet_all_sums(g.enemies@, t0, f.size as int, reach, f.position);
    }
}

/// Application `a` with the controlled fish clamped between the walls: the
/// horizontal ones at `left` and `right`, the vertical ones at `top` and
/// `bottom` (milli-pixels), for its display extent.
pub open spec fn clamp_app(a: BigFishApp, top: int, bottom: int, left: int, right: int) -> BigFishApp {
    let f = a.game_state.player_fish;
    let half = extent_of(f.size as int);
    let cx = wall_clamp(f.position.x as int, f.velocity.x as int, left, right, half);
    let cy = wall_clamp(f.position.y as int, f.velocity.y as int, top, bottom, half);
    BigFishApp {
        game_state: GameState {
            player_fish: PlayerFish {
                position: Vec2 { x: cx.0 as i64, y: cy.0 as i64 },
                velocity: Vec2 { x: cx.1 as i64, y: cy.1 as i64 },
                ..f
            },
            ..a.game_state
        },
        ..a
    }
}

/// Application `a` with the controlled fish moved for `dt` milliseconds under
/// the session's intents.
pub open spec fn moved_app(a: BigFishApp, dt: int) -> BigFishApp {
    BigFishApp {
        game_state: GameState {
            player_fish: player_after(a.game_state.player_fish, dt, a.game_state.input),
            ..a.game_state
        },
        ..a
    }
}

/// The relation of `update_enemies`, from `a` to `b`: the spawner takes one
/// step (see `spawner_step`) for the controlled fish's size, every fish of the
/// resulting population then drifts for `dt` milliseconds, and nothing else
/// changes.
pub open spec fn enemies_stepped(a: BigFishApp, b: BigFishApp, dt: int, w: int, h: int) -> bool {
    &&& exists|s: Seq<EnemyFish>|
        #[trigger] spawner_step(
            a.game_state.enemies@,
            a.game_state.enemy_spawner,
            s,
            b.game_state.enemy_spawner,
            dt,
            w,
            h,
            a.game_state.player_fish.size as int,
        ) && b.game_state.enemies@ == s.map_values(|e: EnemyFish| drifted(e, dt))
    &&& b == BigFishApp {
        game_state: GameState {
            enemies: b.game_state.enemies,
            enemy_spawner: b.game_state.enemy_spawner,
            ..a.game_state
        },
        ..a
    }
}

/// Application `a` with the shown vitality and size taken from the fish.
pub open spec fn synced(a: BigFishApp) -> BigFishApp {
    BigFishApp {
        game_state: GameState {
            health: a.game_state.player_fish.health,
            size: a.game_state.player_fish.size,
            ..a.game_state
        },
        ..a
    }
}

/// One simulation step from `a` to `b` of `dt` milliseconds on a screen `w` by
/// `h` pixels: the controlled fish moves, the population is renewed and moves,
/// collisions are resolved, the controlled fish is clamped to the play band
/// (an eighth of the height is left at top and bottom) and the shown vitality
/// and size follow the fish.
pub open spec fn stepped(a: BigFishApp, b: BigFishApp, dt: int, w: int, h: int) -> bool {
    exists|a2: BigFishApp, a3: BigFishApp|
        #[trigger] enemies_stepped(moved_app(a, dt), a2, dt, w, h) && #[trigger] collided(a2, a3) && b
            == synced(clamp_app(a3, h * 125, h * 875, 0, w * MILLI))
}


impl BigFishApp {
    /// The application on its home screen with a fresh session and `database`.
    pub fn new(database: GameDatabase) -> (r: BigFishApp)
        ensures
            r.current_state == AppState::Home,
            is_fresh(r.game_state),
            r.database == database,
    {
        BigFishApp { current_state: AppState::Home, game_state: GameState::default(), database }
    }

    /// Resolves the step's collisions. A controlled fish larger than
    /// `VICTORY_SIZE` wins at once, whatever its vitality: the victory flag is
    /// set, a record is added and the session ends. Otherwise each fish is met
    /// in order (see `meet`), with the size and position of the controlled fish
    /// as they were at the start; a defeat adds a record of the score and size
    /// at that moment and ends the session.
    pub fn check_collisions(&mut self)
        ensures
            collided(*old(self), *final(self)),
    {
        let f = self.game_state.player_fish;
        if f.size > VICTORY_SIZE {
            self.game_state.is_victory = true;
            self.database.add_record(self.game_state.score, f.size);
            self.current_state = AppState::GameOver;
            return;
        }
        let reach = f.size as u64 * EXTENT_PER_SIZE;
        let t0 = Tally {
            score: self.game_state.score,
            size: f.size,
            health: f.health,
            cooldown: f.collision_cooldown,
            defeat: None,
        };
        let t = meet_enemies(&mut self.game_state.enemies, t0, f.size, reach, f.position);
        self.game_state.score = t.score;
        self.game_state.player_fish.size = t.size;
        self.game_state.player_fish.health = t.health;
        self.game_state.player_fish.collision_cooldown = t.cooldown;
        self.game_state.size = t.size;
        self.game_state.health = t.health;
        match t.defeat {
            Some((score, size)) => {
                self.database.add_record(score, size);
                self.current_state = AppState::GameOver;
            },
            None => {},
        }
    }

    /// Keeps the controlled fish inside the play rectangle (milli-pixels), its
    /// display extent included, stopping its velocity on each clamped axis.
    pub fn check_game_area_boundary_collision(&mut self, top: i64, bottom: i64, left: i64, right: i64)
        ensures
            *final(self) == clamp_app(*old(self), top as int, bottom as int, left as int, right as int),
    {
        let f = self.game_state.player_fish;
        let half = (f.size as u64 * EXTENT_PER_SIZE) as i64;
        let (x, vx) = clamp_axis(f.position.x, f.velocity.x, left, right, half);
        let (y, vy) = clamp_axis(f.position.y, f.velocity.y, top, bottom, half);
        self.game_state.player_fish.position = Vec2 { x, y };
        self.game_state.player_fish.velocity = Vec2 { x: vx, y: vy };
    }
}

impl BigFishApp {
    /// Runs the spawner for a controlled fish of the current size, then moves
    /// every fish.
    pub fn update_enemies(&mut self, delta_time: u32, screen_width: u32, screen_height: u32, rng: &mut fastrand::Rng)
        ensures
            enemies_stepped(*old(self), *final(self), delta_time as int, screen_width as int, screen_height as int),
            final(self).game_state.enemies.len() <= old(self).game_state.enemy_spawner.max_enemies
                || final(self).game_state.enemies.len() <= old(self).game_state.enemies.len(),
    {
        let size = self.game_state.player_fish.size;
        self.game_state.enemy_spawner.update(
            delta_time,
            &mut self.game_state.enemies,
            screen_width,
            screen_height,
            size,
            rng,
        );
        let ghost spawned = self.game_state.enemies@;
        let ghost spawner = self.game_state.enemy_spawner;
        let mut i: usize = 0;
        while i < self.game_state.enemies.len()
            invariant
                0 <= i <= self.game_state.enemies.len(),
                self.game_state.enemy_spawner == spawner,
                self.game_state.enemies.len() == spawned.len(),
                forall|j: int| 0 <= j < i ==> self.game_state.enemies@[j] == drifted(spawned[j], delta_time as int),
                forall|j: int| i <= j < spawned.len() ==> self.game_state.enemies@[j] == spawned[j],
                self.game_state.player_fish == old(self).game_state.player_fish,
                self.game_state.score == old(self).game_state.score,
                self.game_state.is_victory == old(self).game_state.is_victory,
                self.game_state.health == old(self).game_state.health,
                self.game_state.size == old(self).game_state.size,
                self.game_state.input == old(self).game_state.input,
                self.game_state.enemy_spawner.max_enemies == old(self).game_state.enemy_spawner.max_enemies,
                self.game_state.enemy_spawner.spawn_interval == old(self).game_state.enemy_spawner.spawn_interval,
                self.current_state == old(self).current_state,
                self.database == old(self).database,
            decreases spawned.len() - i,
        {
            let mut e = self.game_state.enemies[i];
            e.update(delta_time);
            self.game_state.enemies.set(i, e);
            i = i + 1;
        }
        assert(self.game_state.enemies@ =~= spawned.map_values(|e: EnemyFish| drifted(e, delta_time as int)));
    }

    /// Home or game over to a fresh session in play.
    pub fn start_new_game(&mut self)
        ensures
            final(self).current_state == AppState::Game,
            is_fresh(final(self).game_state),
            final(self).database == old(self).database,
    {
        self.game_state = GameState::default();
        self.current_state = AppState::Game;
    }

    /// Continues a saved session if there is one; otherwise stays where it is
    /// and returns false.
    pub fn continue_game(&mut self, saved: Option<GameState>) -> (r: bool)
        ensures
            r == saved is Some,
            r ==> final(self).current_state == AppState::Game && final(self).game_state == saved->0,
            !r ==> final(self).current_state == old(self).current_state && final(self).game_state
                == old(self).game_state,
            final(self).database == old(self).database,
    {
        match saved {
            Some(g) => {
                self.game_state = g;
                self.current_state = AppState::Game;
                true
            },
            None => false,
        }
    }

    /// Opens the settings screen.
    pub fn open_settings(&mut self)
        ensures
            *final(self) == (BigFishApp { current_state: AppState::Settings, ..*old(self) }),
    {
        self.current_state = AppState::Settings;
    }

    /// Opens the ledger screen.
    pub fn open_history(&mut self)
        ensures
            *final(self) == (BigFishApp { current_state: AppState::History, ..*old(self) }),
    {
        self.current_state = AppState::History;
    }

    /// Returns to the home screen; the session is kept.
    pub fn go_home(&mut self)
        ensures
            *final(self) == (BigFishApp { current_state: AppState::Home, ..*old(self) }),
    {
        self.current_state = AppState::Home;
    }

    /// Pauses a session in play.
    pub fn pause(&mut self)
        ensures
            old(self).current_state == AppState::Game ==> *final(self) == (BigFishApp {
                current_state: AppState::GamePaused,
                ..*old(self)
            }),
            old(self).current_state != AppState::Game ==> *final(self) == *old(self),
    {
        if self.current_state == AppState::Game {
            self.current_state = AppState::GamePaused;
        }
    }

    /// Resumes a paused session from memory.
    pub fn resume(&mut self)
        ensures
            old(self).current_state == AppState::GamePaused ==> *final(self) == (BigFishApp {
                current_state: AppState::Game,
                ..*old(self)
            }),
            old(self).current_state != AppState::GamePaused ==> *final(self) == *old(self),
    {
        if self.current_state == AppState::GamePaused {
            self.current_state = AppState::Game;
        }
    }

    /// Starts over after a session has ended.
    pub fn restart(&mut self)
        ensures
            old(self).current_state == AppState::GameOver ==> final(self).current_state == AppState::Game
                && is_fresh(final(self).game_state) && final(self).database == old(self).database,
            old(self).current_state != AppState::GameOver ==> *final(self) == *old(self),
    {
        if self.current_state == AppState::GameOver {
            self.start_new_game();
        }
    }

    /// One frame while in play: a pause request pauses; otherwise the session
    /// takes one step. Tells the caller what to persist.
    pub fn play_frame(
        &mut self,
        pause_requested: bool,
        delta_time: u32,
        screen_width: u32,
        screen_height: u32,
        rng: &mut fastrand::Rng,
    ) -> (r: FrameOutcome)
        requires
            old(self).current_state == AppState::Game,
        ensures
            pause_requested ==> r == FrameOutcome::Paused && *final(self) == (BigFishApp {
                current_state: AppState::GamePaused,
                ..*old(self)
            }),
            !pause_requested ==> stepped(
                *old(self),
                *final(self),
                delta_time as int,
                screen_width as int,
                screen_height as int,
            ),
            !pause_requested ==> (r == FrameOutcome::Ended) == (final(self).current_state
                == AppState::GameOver),
            !pause_requested ==> r != FrameOutcome::Paused,
            !pause_requested && old(self).game_state.player_fish.size > VICTORY_SIZE ==> r
                == FrameOutcome::Ended && final(self).game_state.is_victory,
            !pause_requested && r == FrameOutcome::Continue ==> final(self).current_state == AppState::Game
                && final(self).database == old(self).database,
    {
        if pause_requested {
            self.pause();
            return FrameOutcome::Paused;
        }
        self.update_game_state(delta_time, screen_width, screen_height, rng);
        if self.current_state == AppState::GameOver {
            FrameOutcome::Ended
        } else {
            FrameOutcome::Continue
        }
    }

    /// One simulation step of `delta_time` milliseconds on a screen of
    /// `screen_width` by `screen_height` pixels: the controlled fish moves, the
    /// population is renewed and moves, collisions are resolved, the controlled
    /// fish is kept inside the play band (an eighth of the height is left at top
    /// and bottom) and the shown vitality and size follow the fish.
    pub fn update_game_state(&mut self, delta_time: u32, screen_width: u32, screen_height: u32, rng: &mut fastrand::Rng)
        ensures
            stepped(*old(self), *final(self), delta_time as int, screen_width as int, screen_height as int),
            ({
                let g = old(self).game_state;
                let h = final(self).game_state;
                let half = extent_of(h.player_fish.size as int);
                &&& h.player_fish.health == g.player_fish.health || h.player_fish.health == cap_i32(
                    g.player_fish.health - HIT_DAMAGE,
                )
                &&& old(self).game_state.enemies.len() <= g.enemy_spawner.max_enemies ==> h.enemies.len()
                    <= g.enemy_spawner.max_enemies
                &&& h.enemy_spawner.max_enemies == g.enemy_spawner.max_enemies
                &&& final(self).current_state != AppState::GameOver ==> final(self).database == old(
                    self,
                ).database && final(self).current_state == old(self).current_state
                &&& h.size == h.player_fish.size
                &&& h.health == h.player_fish.health
                &&& h.player_fish.speed == g.player_fish.speed
                &&& h.player_fish.facing_right == player_after(
                    g.player_fish,
                    delta_time as int,
                    g.input,
                ).facing_right
                &&& g.player_fish.size > VICTORY_SIZE ==> {
                    &&& h.is_victory
                    &&& h.score == g.score
                    &&& h.player_fish.size == g.player_fish.size
                    &&& recorded(old(self).database, final(self).database, g.score, g.player_fish.size)
                    &&& final(self).current_state == AppState::GameOver
                }
                &&& g.player_fish.size <= VICTORY_SIZE ==> {
                    &&& h.is_victory == g.is_victory
                    &&& h.player_fish.size >= g.player_fish.size
                    &&& h.score >= g.score
                    &&& (final(self).current_state == old(self).current_state || final(self).current_state
                        == AppState::GameOver)
                }
                &&& screen_width as int * MILLI >= 2 * half && screen_height as int * 750 >= 2 * half
                    ==> inside(h.player_fish.position.x as int, 0, screen_width as int * MILLI, half)
                    && inside(h.player_fish.position.y as int, screen_height as int * 125, screen_height as int * 875, half)
            }),
    {
        let input = self.game_state.input;
        self.game_state.player_fish.update(delta_time, &input);
        assert(*self == moved_app(*old(self), delta_time as int));
        self.update_enemies(delta_time, screen_width, screen_height, rng);
        let ghost a2 = *self;
        let ghost before = self.game_state;
        self.check_collisions();
        let ghost a3 = *self;
        proof {
            lemma_meet_all_one_hit(before.enemies@, Tally {
                score: before.score,
                size: before.player_fish.size,
                health: before.player_fish.health,
                cooldown: before.player_fish.collision_cooldown,
                defeat: None,
            }, before.player_fish.size as int, extent_of(before.player_fish.size as int), before.player_fish.position);
            let f = before.player_fish;
            let t0 = Tally {
                score: before.score,
                size: f.size,
                health: f.health,
                cooldown: f.collision_cooldown,
                defeat: None,
            };
            lemma_meet_all_grows(before.enemies@, t0, f.size as int, extent_of(f.size as int), f.position);
        }
        let ghost placed = self.game_state.player_fish;
        let h = screen_height as i64;
        self.check_game_area_boundary_collision(h * 125, h * 875, 0, screen_width as i64 * MILLI);
        proof {
            let half = extent_of(placed.size as int);
            if screen_width as int * MILLI >= 2 * half && screen_height as int * 750 >= 2 * half {
                lemma_wall_clamp_inside(
                    placed.position.x as int,
                    placed.velocity.x as int,
                    0,
                    screen_width as int * MILLI,
                    half,
                );
                lemma_wall_clamp_inside(
                    placed.position.y as int,
                    placed.velocity.y as int,
                    screen_height as int * 125,
                    screen_height as int * 875,
                    half,
                );
            }
        }
        self.game_state.health = self.game_state.player_fish.health;
        self.game_state.size = self.game_state.player_fish.size;
        proof {
            assert(enemies_stepped(
                moved_app(*old(self), delta_time as int),
                a2,
                delta_time as int,
                screen_width as int,
                screen_height as int,
            ));
            assert(collided(a2, a3));
            assert(*self == synced(clamp_app(
                a3,
                screen_height as int * 125,
                screen_height as int * 875,
                0,
                screen_width as int * MILLI,
            )));
        }
    }
}

} // verus!
