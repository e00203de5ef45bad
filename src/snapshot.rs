use vstd::prelude::*;
use crate::tier::{EnemyDirection, EnemySize, rank};
use crate::entity::{EnemyFish, PlayerFish, PlayerInput, Vec2};
use crate::spawner::EnemySpawner;
use crate::session::GameState;

verus! {

/// Words before the population in a snapshot.
pub const HEADER_LEN: usize = 20;

/// Words per fish of the population in a snapshot.
pub const ENEMY_LEN: usize = 7;

/// A flag as a word.
pub open spec fn bit(b: bool) -> i64 {
    if b {
        1
    } else {
        0
    }
}

/// The words of a snapshot before the population: the shown vitality, size and
/// score, the controlled fish, the intents, the spawner and the victory flag.
/// The unsigned counters are stored by their bits.
pub open spec fn header_of(g: GameState) -> Seq<i64> {
    let f = g.player_fish;
    seq![
        g.health as i64,
        g.size as i64,
        g.score as i64,
        f.position.x,
        f.position.y,
        f.velocity.x,
        f.velocity.y,
        f.size as i64,
        f.health as i64,
        f.speed as i64,
        f.collision_cooldown,
        bit(f.facing_right),
        bit(g.input.move_up),
        bit(g.input.move_down),
        bit(g.input.move_left),
        bit(g.input.move_right),
        g.enemy_spawner.spawn_timer as i64,
        g.enemy_spawner.spawn_interval as i64,
        (g.enemy_spawner.max_enemies as u64) as i64,
        bit(g.is_victory),
    ]
}

/// The words of one fish: position, velocity, tier rank, direction, alive flag.
pub open spec fn enemy_words(e: EnemyFish) -> Seq<i64> {
    seq![
        e.position.x,
        e.position.y,
        e.velocity.x,
        e.velocity.y,
        rank(e.size_type) as i64,
        bit(e.direction == EnemyDirection::RightToLeft),
        bit(e.is_alive),
    ]
}

/// The words of a population, fish after fish.
pub open spec fn enemies_words(es: Seq<EnemyFish>) -> Seq<i64>
    decreases es.len(),
{
    if es.len() == 0 {
        Seq::empty()
    } else {
        enemies_words(es.drop_last()) + enemy_words(es.last())
    }
}

/// The snapshot of a session.
pub open spec fn snapshot_of(g: GameState) -> Seq<i64> {
    header_of(g) + enemies_words(g.enemies@)
}

/// Two sessions equal in every field.
pub open spec fn same_state(a: GameState, b: GameState) -> bool {
    &&& a.health == b.health
    &&& a.size == b.size
    &&& a.score == b.score
    &&& a.player_fish == b.player_fish
    &&& a.input == b.input
    &&& a.enemies@ == b.enemies@
    &&& a.enemy_spawner == b.enemy_spawner
    &&& a.is_victory == b.is_victory
}

pub open spec fn is_flag(w: i64) -> bool {
    w == 0 || w == 1
}

/// Whether the words of one fish are well formed.
pub open spec fn valid_enemy_words(w: Seq<i64>) -> bool {
    &&& w.len() == ENEMY_LEN
    &&& 1 <= w[4] <= 10
    &&& is_flag(w[5])
    &&& is_flag(w[6])
}

/// Whether `v` is a well-formed snapshot: every word in the range of its field
/// and as many fish words as the count says.
pub open spec fn valid_snapshot(v: Seq<i64>) -> bool {
    &&& v.len() >= HEADER_LEN
    &&& (v.len() - HEADER_LEN) % ENEMY_LEN as int == 0
    &&& i32::MIN <= v[0] <= i32::MAX
    &&& 0 <= v[1] <= u32::MAX
    &&& i32::MIN <= v[2] <= i32::MAX
    &&& 0 <= v[7] <= u32::MAX
    &&& i32::MIN <= v[8] <= i32::MAX
    &&& 0 <= v[9] <= u16::MAX
    &&& is_flag(v[11])
    &&& is_flag(v[12])
    &&& is_flag(v[13])
    &&& is_flag(v[14])
    &&& is_flag(v[15])
    &&& (v[18] as u64) <= usize::MAX
    &&& is_flag(v[19])
    &&& forall|k: int|
        0 <= k < (v.len() - HEADER_LEN) / ENEMY_LEN as int ==> #[trigger] valid_enemy_words(
            v.subrange(HEADER_LEN + ENEMY_LEN * k, HEADER_LEN + ENEMY_LEN * k + ENEMY_LEN),
        )
}

proof fn lemma_enemies_words_len(es: Seq<EnemyFish>)
    ensures
        enemies_words(es).len() == ENEMY_LEN * es.len(),
    decreases es.len(),
{
    if es.len() > 0 {
        lemma_enemies_words_len(es.drop_last());
    }
}

proof fn lemma_enemies_words_at(es: Seq<EnemyFish>, k: int)
    requires
        0 <= k < es.len(),
    ensures
        enemies_words(es).subrange(ENEMY_LEN * k, ENEMY_LEN * k + ENEMY_LEN) == enemy_words(es[k]),
    decreases es.len(),
{
    lemma_enemies_words_len(es.drop_last());
    if k == es.len() - 1 {
        assert(enemies_words(es).subrange(ENEMY_LEN * k, ENEMY_LEN * k + ENEMY_LEN) =~= enemy_words(
            es[k],
        ));
    } else {
        lemma_enemies_words_at(es.drop_last(), k);
        assert(enemies_words(es).subrange(ENEMY_LEN * k, ENEMY_LEN * k + ENEMY_LEN) =~= enemies_words(
            es.drop_last(),
        ).subrange(ENEMY_LEN * k, ENEMY_LEN * k + ENEMY_LEN));
    }
}

proof fn lemma_u64_word(a: u64, b: u64)
    ensures
        (a as i64) as u64 == a,
        (a as i64) == (b as i64) ==> a == b,
{
    assert((a as i64) as u64 == a) by (bit_vector);
    assert((b as i64) as u64 == b) by (bit_vector);
}

proof fn lemma_usize_word(a: usize, b: usize)
    ensures
        (((a as u64) as i64) as u64) as usize == a,
        ((a as u64) as i64) == ((b as u64) as i64) ==> a == b,
{
    let x = a as u64;
    let y = b as u64;
    assert(((x as i64) as u64) == x) by (bit_vector);
    assert(((y as i64) as u64) == y) by (bit_vector);
}

proof fn lemma_enemy_words_injective(a: EnemyFish, b: EnemyFish)
    requires
        enemy_words(a) == enemy_words(b),
    ensures
        a == b,
{
    assert(enemy_words(a)[4] == enemy_words(b)[4]);
    assert(enemy_words(a)[5] == enemy_words(b)[5]);
    assert(enemy_words(a)[6] == enemy_words(b)[6]);
    assert(enemy_words(a)[0] == enemy_words(b)[0]);
    assert(enemy_words(a)[1] == enemy_words(b)[1]);
    assert(enemy_words(a)[2] == enemy_words(b)[2]);
    assert(enemy_words(a)[3] == enemy_words(b)[3]);
}

/// Saving a session and loading it back gives a session equal in every field:
/// the snapshot of a session is well formed, and any session with the same
/// snapshot is the same session.
pub proof fn lemma_snapshot_round_trip(a: GameState, b: GameState)
    requires
        snapshot_of(b) == snapshot_of(a),
    ensures
        valid_snapshot(snapshot_of(a)),
        same_state(a, b),
{
    let v = snapshot_of(a);
    lemma_enemies_words_len(a.enemies@);
    lemma_enemies_words_len(b.enemies@);
    assert(v.subrange(0, 20) =~= header_of(a));
    assert(v.subrange(0, 20) =~= header_of(b));
    assert(v.subrange(20, v.len() as int) =~= enemies_words(a.enemies@));
    assert(v.subrange(20, v.len() as int) =~= enemies_words(b.enemies@));
    let ha = header_of(a);
    let hb = header_of(b);
    assert(ha[16] == hb[16]);
    assert(ha[17] == hb[17]);
    assert(ha[18] == hb[18]);
    lemma_usize_word(a.enemy_spawner.max_enemies, b.enemy_spawner.max_enemies);
    lemma_u64_word(a.enemy_spawner.spawn_timer, b.enemy_spawner.spawn_timer);
    lemma_u64_word(a.enemy_spawner.spawn_interval, b.enemy_spawner.spawn_interval);
    assert(forall|i: int| 0 <= i < 20 ==> ha[i] == hb[i]);
    assert(a.enemies.len() == b.enemies.len());
    assert forall|k: int| 0 <= k < a.enemies.len() implies a.enemies@[k] == b.enemies@[k] by {
        lemma_enemies_words_at(a.enemies@, k);
        lemma_enemies_words_at(b.enemies@, k);
        lemma_enemy_words_injective(a.enemies@[k], b.enemies@[k]);
    }
    assert(a.enemies@ =~= b.enemies@);
    assert(a.player_fish == b.player_fish);
    assert(a.input == b.input);
    assert(a.enemy_spawner == b.enemy_spawner);
    assert forall|k: int| 0 <= k < (v.len() - HEADER_LEN) / ENEMY_LEN as int implies #[trigger] valid_enemy_words(
        v.subrange(HEADER_LEN + ENEMY_LEN * k, HEADER_LEN + ENEMY_LEN * k + ENEMY_LEN),
    ) by {
        lemma_enemies_words_at(a.enemies@, k);
        assert(v.subrange(HEADER_LEN + ENEMY_LEN * k, HEADER_LEN + ENEMY_LEN * k + ENEMY_LEN)
            =~= enemies_words(a.enemies@).subrange(ENEMY_LEN * k, ENEMY_LEN * k + ENEMY_LEN));
    }
}

proof fn lemma_word_u64(w: i64)
    ensures
        ((w as u64) as i64) == w,
{
    assert(((w as u64) as i64) == w) by (bit_vector);
}

fn flag(b: bool) -> (r: i64)
    ensures
        r == bit(b),
{
    if b {
        1
    } else {
        0
    }
}

/// The tier of rank `n`, if `n` is a rank.
pub fn tier_of_rank(n: i64) -> (r: Option<EnemySize>)
    ensures
        r is Some <==> 1 <= n <= 10,
        r matches Some(t) ==> rank(t) == n,
{
    match n {
        1 => Some(EnemySize::Tiny),
        2 => Some(EnemySize::Small),
        3 => Some(EnemySize::Medium),
        4 => Some(EnemySize::Large),
        5 => Some(EnemySize::Huge),
        6 => Some(EnemySize::Giant),
        7 => Some(EnemySize::Massive),
        8 => Some(EnemySize::Colossal),
        9 => Some(EnemySize::Titanic),
        10 => Some(EnemySize::Legendary),
        _ => None,
    }
}

fn push_enemy(r: &mut Vec<i64>, e: EnemyFish)
    ensures
        final(r)@ == old(r)@ + enemy_words(e),
{
    let n: i64 = match e.size_type {
        EnemySize::Tiny => 1,
        EnemySize::Small => 2,
        EnemySize::Medium => 3,
        EnemySize::Large => 4,
        EnemySize::Huge => 5,
        EnemySize::Giant => 6,
        EnemySize::Massive => 7,
        EnemySize::Colossal => 8,
        EnemySize::Titanic => 9,
        EnemySize::Legendary => 10,
    };
    r.push(e.position.x);
    r.push(e.position.y);
    r.push(e.velocity.x);
    r.push(e.velocity.y);
    r.push(n);
    r.push(flag(e.direction == EnemyDirection::RightToLeft));
    r.push(flag(e.is_alive));
    assert(r@ =~= old(r)@ + enemy_words(e));
}

/// The snapshot of a session, to be saved while it is paused.
pub fn encode_snapshot(g: &GameState) -> (r: Vec<i64>)
    ensures
        r@ == snapshot_of(*g),
{
    let f = g.player_fish;
    let mut r: Vec<i64> = vec![
        g.health as i64,
        g.size as i64,
        g.score as i64,
        f.position.x,
        f.position.y,
        f.velocity.x,
        f.velocity.y,
        f.size as i64,
        f.health as i64,
        f.speed as i64,
        f.collision_cooldown,
        flag(f.facing_right),
        flag(g.input.move_up),
        flag(g.input.move_down),
        flag(g.input.move_left),
        flag(g.input.move_right),
        g.enemy_spawner.spawn_timer as i64,
        g.enemy_spawner.spawn_interval as i64,
        g.enemy_spawner.max_enemies as u64 as i64,
        flag(g.is_victory),
    ];
    assert(r@ =~= header_of(*g));
    let mut i: usize = 0;
    while i < g.enemies.len()
        invariant
            0 <= i <= g.enemies.len(),
            r@ == header_of(*g) + enemies_words(g.enemies@.take(i as int)),
        decreases g.enemies.len() - i,
    {
        push_enemy(&mut r, g.enemies[i]);
        proof {
            assert(g.enemies@.take(i as int + 1).drop_last() =~= g.enemies@.take(i as int));
            assert(r@ =~= header_of(*g) + enemies_words(g.enemies@.take(i as int + 1)));
        }
        i = i + 1;
    }
    assert(g.enemies@.take(g.enemies.len() as int) =~= g.enemies@);
    r
}

/// The fish whose words start at `at` in `v`, if they are well formed.
fn decode_enemy(v: &Vec<i64>, at: usize) -> (r: Option<EnemyFish>)
    requires
        at + ENEMY_LEN <= v.len(),
    ensures
        r is Some <==> valid_enemy_words(v@.subrange(at as int, at + ENEMY_LEN)),
        r matches Some(e) ==> enemy_words(e) == v@.subrange(at as int, at + ENEMY_LEN),
{
    let t = tier_of_rank(v[at + 4]);
    let d = v[at + 5];
    let alive = v[at + 6];
    match t {
        Some(size_type) => {
            if (d == 0 || d == 1) && (alive == 0 || alive == 1) {
                let e = EnemyFish {
                    position: Vec2 { x: v[at], y: v[at + 1] },
                    velocity: Vec2 { x: v[at + 2], y: v[at + 3] },
                    size_type,
                    direction: if d == 1 {
                        EnemyDirection::RightToLeft
                    } else {
                        EnemyDirection::LeftToRight
                    },
                    is_alive: alive == 1,
                };
                assert(enemy_words(e) =~= v@.subrange(at as int, at + ENEMY_LEN));
                Some(e)
            } else {
                None
            }
        },
        None => None,
    }
}

/// The session saved in `v`, or nothing if `v` is not a well-formed snapshot.
pub fn decode_snapshot(v: &Vec<i64>) -> (r: Option<GameState>)
    ensures
        r is Some <==> valid_snapshot(v@),
        r matches Some(g) ==> snapshot_of(g) == v@,
{
    if v.len() < HEADER_LEN {
        return None;
    }
    let rest = v.len() - HEADER_LEN;
    if rest % ENEMY_LEN != 0 {
        return None;
    }
    let n = rest / ENEMY_LEN;
    let in_i32 = |w: i64| -> (b: bool)
        ensures
            b == (i32::MIN <= w <= i32::MAX),
        { i32::MIN as i64 <= w && w <= i32::MAX as i64 };
    let is_bit = |w: i64| -> (b: bool)
        ensures
            b == is_flag(w),
        { w == 0 || w == 1 };
    if !(in_i32(v[0]) && 0 <= v[1] && v[1] <= u32::MAX as i64 && in_i32(v[2]) && 0 <= v[7] && v[7]
        <= u32::MAX as i64 && in_i32(v[8]) && 0 <= v[9] && v[9] <= u16::MAX as i64 && is_bit(v[11])
        && is_bit(v[12]) && is_bit(v[13]) && is_bit(v[14]) && is_bit(v[15]) && (v[18] as u64 as u128)
        <= (usize::MAX as u128) && is_bit(v[19])) {
        return None;
    }
    let mut enemies: Vec<EnemyFish> = Vec::new();
    let mut k: usize = 0;
    while k < n
        invariant
            0 <= k <= n,
            v.len() == HEADER_LEN + ENEMY_LEN * n,
            n == (v.len() - HEADER_LEN) / ENEMY_LEN as int,
            enemies.len() == k,
            enemies_words(enemies@) == v@.subrange(HEADER_LEN as int, HEADER_LEN + ENEMY_LEN * k),
            forall|j: int|
                0 <= j < k ==> #[trigger] valid_enemy_words(
                    v@.subrange(HEADER_LEN + ENEMY_LEN * j, HEADER_LEN + ENEMY_LEN * j + ENEMY_LEN),
                ),
        decreases n - k,
    {
        let at = HEADER_LEN + ENEMY_LEN * k;
        match decode_enemy(v, at) {
            Some(e) => {
                proof {
                    assert(enemies@.push(e).drop_last() =~= enemies@);
                    assert(v@.subrange(HEADER_LEN as int, HEADER_LEN + ENEMY_LEN * (k + 1)) =~= v@.subrange(
                        HEADER_LEN as int,
                        HEADER_LEN + ENEMY_LEN * k,
                    ) + v@.subrange(at as int, at + ENEMY_LEN));
                }
                enemies.push(e);
            },
            None => {
                return None;
            },
        }
        k = k + 1;
    }
    let g = GameState {
        health: v[0] as i32,
        size: v[1] as u32,
        score: v[2] as i32,
        player_fish: PlayerFish {
            position: Vec2 { x: v[3], y: v[4] },
            velocity: Vec2 { x: v[5], y: v[6] },
            size: v[7] as u32,
            health: v[8] as i32,
            speed: v[9] as u16,
            collision_cooldown: v[10],
            facing_right: v[11] == 1,
        },
        input: PlayerInput {
            move_up: v[12] == 1,
            move_down: v[13] == 1,
            move_left: v[14] == 1,
            move_right: v[15] == 1,
        },
        enemies,
        enemy_spawner: EnemySpawner {
            spawn_timer: #[verifier::truncate] (v[16] as u64),
            spawn_interval: #[verifier::truncate] (v[17] as u64),
            max_enemies: #[verifier::truncate] (v[18] as u64 as usize),
        },
        is_victory: v[19] == 1,
    };
    proof {
        lemma_word_u64(v@[16]);
        lemma_word_u64(v@[17]);
        lemma_word_u64(v@[18]);
        assert(header_of(g) =~= v@.subrange(0, HEADER_LEN as int));
        assert(snapshot_of(g) =~= v@);
    }
    Some(g)
}

} // verus!
