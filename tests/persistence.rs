use big_fish::snapshot::tier_of_rank;
use big_fish::{
    decode_snapshot, encode_snapshot, EnemyDirection, EnemyFish, EnemySize, GameDatabase, GameState, Vec2,
};

fn sample_state() -> GameState {
    let mut g = GameState::default();
    g.score = 17;
    g.health = 50;
    g.size = 33;
    g.player_fish.size = 33;
    g.player_fish.health = 50;
    g.player_fish.position = Vec2::new(-5, 123_456);
    g.player_fish.velocity = Vec2::new(-212, 212);
    g.player_fish.collision_cooldown = -16;
    g.player_fish.facing_right = false;
    g.input.move_down = true;
    g.enemy_spawner.spawn_timer = u64::MAX;
    g.enemies.push(EnemyFish::new(EnemySize::Giant, EnemyDirection::RightToLeft, 99_000, 800));
    let mut dead = EnemyFish::new(EnemySize::Legendary, EnemyDirection::LeftToRight, 1, 800);
    dead.be_eaten();
    g.enemies.push(dead);
    g.is_victory = true;
    g
}

#[test]
fn snapshot_round_trip() {
    let g = sample_state();
    let words = encode_snapshot(&g);
    assert_eq!(words.len(), 20 + 2 * 7);
    let back = decode_snapshot(&words).expect("well formed");
    assert_eq!(back.health, g.health);
    assert_eq!(back.size, g.size);
    assert_eq!(back.score, g.score);
    assert_eq!(back.player_fish, g.player_fish);
    assert_eq!(back.input, g.input);
    assert_eq!(back.enemies, g.enemies);
    assert_eq!(back.enemy_spawner, g.enemy_spawner);
    assert_eq!(back.is_victory, g.is_victory);
}

#[test]
fn snapshot_keeps_large_counters() {
    let mut g = GameState::default();
    g.enemy_spawner.max_enemies = usize::MAX;
    g.enemy_spawner.spawn_interval = u64::MAX - 1;
    let back = decode_snapshot(&encode_snapshot(&g)).expect("well formed");
    assert_eq!(back.enemy_spawner, g.enemy_spawner);
    assert!(back.enemies.is_empty());
}

#[test]
fn corrupt_snapshots_are_refused() {
    let words = encode_snapshot(&sample_state());
    assert!(decode_snapshot(&Vec::new()).is_none());
    let mut short = words.clone();
    short.pop();
    assert!(decode_snapshot(&short).is_none());
    let mut bad_flag = words.clone();
    bad_flag[11] = 2;
    assert!(decode_snapshot(&bad_flag).is_none());
    let mut bad_tier = words.clone();
    bad_tier[20 + 4] = 11;
    assert!(decode_snapshot(&bad_tier).is_none());
    let mut bad_health = words.clone();
    bad_health[0] = i64::from(i32::MAX) + 1;
    assert!(decode_snapshot(&bad_health).is_none());
    let mut extra_word = words;
    extra_word.push(0);
    assert!(decode_snapshot(&extra_word).is_none());
}

#[test]
fn ranks_name_tiers() {
    assert_eq!(tier_of_rank(1), Some(EnemySize::Tiny));
    assert_eq!(tier_of_rank(10), Some(EnemySize::Legendary));
    assert_eq!(tier_of_rank(0), None);
    assert_eq!(tier_of_rank(11), None);
}

#[test]
fn ledger_add_and_delete() {
    let mut db = GameDatabase::new();
    assert_eq!(db.next_id, 1);
    db.add_record_at(10, 30, 1_000);
    db.add_record_at(20, 40, 2_000);
    db.add_record(30, 50);
    assert_eq!(db.get_records().len(), 3);
    let ids: Vec<u32> = db.get_records().iter().map(|r| r.id).collect();
    assert_eq!(ids, vec![1, 2, 3]);
    assert_eq!(db.next_id, 4);
    assert!(db.delete_record(2));
    assert_eq!(db.get_records().len(), 2);
    let ids: Vec<u32> = db.get_records().iter().map(|r| r.id).collect();
    assert_eq!(ids, vec![1, 3]);
    assert!(!db.delete_record(2));
    assert_eq!(db.get_records().len(), 2);
    assert!(!db.delete_record(99));
    assert_eq!(db.next_id, 4);
    db.add_record_at(1, 1, 5);
    assert_eq!(db.get_records()[2].id, 4);
}

#[test]
fn ledger_delete_first_match_only() {
    let mut db = GameDatabase::new();
    db.add_record_at(1, 20, 10);
    db.next_id = 1;
    db.add_record_at(2, 30, 20);
    assert!(db.delete_record(1));
    assert_eq!(db.get_records().len(), 1);
    assert_eq!(db.get_records()[0].score, 2);
}

#[test]
fn ledger_counter_stops_at_the_end() {
    let mut db = GameDatabase::new();
    db.next_id = u32::MAX;
    db.add_record_at(1, 20, 10);
    assert_eq!(db.next_id, u32::MAX);
    assert_eq!(db.get_records()[0].id, u32::MAX);
}
