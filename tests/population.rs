use big_fish::spawner::{candidate_tiers, extra_spawn_due, spawn_y, sum_weights, weighted_pick};
use big_fish::{EnemyDirection, EnemyFish, EnemySize, EnemySpawner};

#[test]
fn candidates_for_a_starting_fish() {
    let c = candidate_tiers(25);
    assert_eq!(c, vec![EnemySize::Tiny, EnemySize::Small, EnemySize::Medium, EnemySize::Large, EnemySize::Huge, EnemySize::Giant, EnemySize::Massive, EnemySize::Colossal, EnemySize::Titanic, EnemySize::Legendary]);
    assert_eq!(sum_weights(&c), 42);
}

#[test]
fn candidates_leave_out_an_equal_tier() {
    let c = candidate_tiers(30);
    assert_eq!(c, vec![EnemySize::Tiny, EnemySize::Medium, EnemySize::Large, EnemySize::Huge, EnemySize::Giant, EnemySize::Massive, EnemySize::Colossal, EnemySize::Titanic, EnemySize::Legendary]);
    let small = candidate_tiers(10);
    assert_eq!(small.len(), 10);
    assert_eq!(small[0], EnemySize::Tiny);
    let big = candidate_tiers(115);
    assert_eq!(big.len(), 10);
    assert_eq!(big[9], EnemySize::Legendary);
    let edge = candidate_tiers(110);
    assert_eq!(edge, vec![EnemySize::Tiny, EnemySize::Small, EnemySize::Medium, EnemySize::Large, EnemySize::Huge, EnemySize::Giant, EnemySize::Massive, EnemySize::Colossal, EnemySize::Titanic]);
}

#[test]
fn lottery_spans() {
    let c = candidate_tiers(25);
    assert_eq!(weighted_pick(&c, 0), EnemySize::Tiny);
    assert_eq!(weighted_pick(&c, 9), EnemySize::Tiny);
    assert_eq!(weighted_pick(&c, 10), EnemySize::Small);
    assert_eq!(weighted_pick(&c, 17), EnemySize::Small);
    assert_eq!(weighted_pick(&c, 18), EnemySize::Medium);
    assert_eq!(weighted_pick(&c, 40), EnemySize::Titanic);
    assert_eq!(weighted_pick(&c, 41), EnemySize::Legendary);
    let mut counts = vec![0u32; 10];
    for d in 0..42u64 {
        let t = weighted_pick(&c, d);
        let i = c.iter().position(|x| *x == t).unwrap();
        counts[i] += 1;
    }
    let weights: Vec<u32> = c.iter().map(|t| t.spawn_weight()).collect();
    assert_eq!(counts, weights);
}

#[test]
fn lottery_frequencies_converge() {
    let c = candidate_tiers(25);
    let total = sum_weights(&c);
    let mut rng = fastrand::Rng::with_seed(2024);
    let n = 200_000u64;
    let mut counts = vec![0u64; c.len()];
    for _ in 0..n {
        let t = weighted_pick(&c, rng.u64(..total));
        let i = c.iter().position(|x| *x == t).unwrap();
        counts[i] += 1;
    }
    for (i, t) in c.iter().enumerate() {
        let expected = n as f64 * t.spawn_weight() as f64 / total as f64;
        let got = counts[i] as f64;
        assert!((got - expected).abs() < expected * 0.05 + 50.0, "tier {:?}: {} vs {}", t, got, expected);
    }
}

#[test]
fn spawn_heights() {
    // 600 pixels high: band from 75_000 to 525_000 milli-pixels.
    assert_eq!(spawn_y(EnemySize::Tiny, 600, 0), 75_000 + 3_000);
    assert_eq!(spawn_y(EnemySize::Legendary, 600, 10), 75_000 + 16_500 + 10);
    // 40 pixels high: band of 30 pixels, too narrow for a Legendary fish.
    assert_eq!(spawn_y(EnemySize::Legendary, 40, 0), 20_000);
}

#[test]
fn spawner_respects_interval_and_bound() {
    let mut s = EnemySpawner::default();
    assert_eq!(s.spawn_interval, 1000);
    assert_eq!(s.max_enemies, 14);
    let mut enemies: Vec<EnemyFish> = Vec::new();
    let mut rng = fastrand::Rng::with_seed(5);
    s.update(999, &mut enemies, 800, 600, 25, &mut rng);
    assert!(enemies.is_empty());
    assert_eq!(s.spawn_timer, 999);
    s.update(1, &mut enemies, 800, 600, 25, &mut rng);
    assert!(enemies.len() == 1 || enemies.len() == 2);
    assert_eq!(s.spawn_timer, 0);
    for _ in 0..500 {
        s.update(1000, &mut enemies, 800, 600, 25, &mut rng);
        assert!(enemies.len() <= 14);
    }
    assert_eq!(enemies.len(), 14);
    for e in &enemies {
        assert!(e.is_alive);
        let half = e.size_type.get_size() as i64 * 150;
        assert!(e.position.y >= 75_000 + half && e.position.y < 525_000 - half);
        match e.direction {
            EnemyDirection::LeftToRight => assert_eq!(e.position.x, -50_000),
            EnemyDirection::RightToLeft => assert_eq!(e.position.x, 850_000),
        }
    }
}

#[test]
fn spawner_draws_vary() {
    let mut s = EnemySpawner::default();
    let mut rng = fastrand::Rng::with_seed(99);
    let mut seen = std::collections::HashSet::new();
    let mut dirs = std::collections::HashSet::new();
    for _ in 0..300 {
        let mut enemies: Vec<EnemyFish> = Vec::new();
        s.update(1000, &mut enemies, 800, 600, 25, &mut rng);
        seen.insert(format!("{:?}", enemies[0].size_type));
        dirs.insert(format!("{:?}", enemies[0].direction));
    }
    assert!(seen.len() >= 5);
    assert_eq!(dirs.len(), 2);
}

#[test]
fn cleanup_removes_dead_and_departed() {
    let mut a = EnemyFish::new(EnemySize::Tiny, EnemyDirection::LeftToRight, 100_000, 800);
    let b = EnemyFish::new(EnemySize::Small, EnemyDirection::RightToLeft, 100_000, 800);
    let mut c = EnemyFish::new(EnemySize::Medium, EnemyDirection::RightToLeft, 100_000, 800);
    let mut d = EnemyFish::new(EnemySize::Large, EnemyDirection::LeftToRight, 100_000, 800);
    a.be_eaten();
    c.position.x = -60_000;
    d.position.x = 400_000;
    let mut enemies = vec![a, b, c, d];
    EnemySpawner::clean_up(&mut enemies, 800);
    assert_eq!(enemies, vec![b, d]);
}

#[test]
fn over_full_population_only_shrinks() {
    let mut s = EnemySpawner { spawn_timer: 0, spawn_interval: 1000, max_enemies: 2 };
    let e = EnemyFish::new(EnemySize::Tiny, EnemyDirection::LeftToRight, 100_000, 800);
    let mut enemies = vec![e, e, e];
    let mut rng = fastrand::Rng::with_seed(1);
    s.update(5000, &mut enemies, 800, 600, 25, &mut rng);
    assert_eq!(enemies.len(), 3);
    assert_eq!(s.spawn_timer, 5000);
}

#[test]
fn second_fish_rolls() {
    assert!(extra_spawn_due(EnemySize::Tiny, true, 59));
    assert!(!extra_spawn_due(EnemySize::Tiny, true, 60));
    assert!(extra_spawn_due(EnemySize::Small, true, 39));
    assert!(!extra_spawn_due(EnemySize::Small, true, 40));
    assert!(!extra_spawn_due(EnemySize::Medium, true, 0));
    assert!(!extra_spawn_due(EnemySize::Tiny, false, 0));
}

#[test]
fn second_fish_needs_room() {
    let mut rng = fastrand::Rng::with_seed(8);
    for _ in 0..200 {
        let mut s = EnemySpawner { spawn_timer: 0, spawn_interval: 1000, max_enemies: 1 };
        let mut enemies: Vec<EnemyFish> = Vec::new();
        s.update(1000, &mut enemies, 800, 600, 25, &mut rng);
        assert_eq!(enemies.len(), 1);
    }
}
