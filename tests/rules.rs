use big_fish::entity::{bodies_touch, diagonal_component, advance};
use big_fish::session::{HIT_COOLDOWN, VICTORY_SIZE};
use big_fish::{
    AppState, BigFishApp, EnemyDirection, EnemyFish, EnemySize, FrameOutcome, GameDatabase, GameState,
    InputHandler, KeysDown, PlayerFish, PlayerInput, Vec2,
};

fn app_with(enemies: Vec<EnemyFish>) -> BigFishApp {
    let mut app = BigFishApp::new(GameDatabase::new());
    app.current_state = AppState::Game;
    app.game_state.enemies = enemies;
    app
}

fn fish_at(t: EnemySize, pos: Vec2) -> EnemyFish {
    let mut e = EnemyFish::new(t, EnemyDirection::LeftToRight, pos.y, 800);
    e.position = pos;
    e
}

#[test]
fn tier_tables() {
    let all = EnemySize::all();
    let scores: Vec<i32> = all.iter().map(|t| t.get_score()).collect();
    assert_eq!(scores, vec![1, 2, 3, 4, 5, 6, 7, 8, 9, 10]);
    let sizes: Vec<u32> = all.iter().map(|t| t.get_size()).collect();
    assert_eq!(sizes, vec![20, 30, 40, 50, 60, 70, 80, 90, 100, 110]);
    let speeds: Vec<i32> = all.iter().map(|t| t.get_speed()).collect();
    assert_eq!(speeds, vec![150, 140, 130, 120, 110, 100, 90, 80, 70, 60]);
    let growth: Vec<u32> = all.iter().map(|t| t.growth_increment()).collect();
    assert_eq!(growth, vec![1, 2, 3, 4, 5, 6, 7, 8, 9, 10]);
    let weights: Vec<u32> = all.iter().map(|t| t.spawn_weight()).collect();
    assert_eq!(weights, vec![10, 8, 6, 5, 4, 3, 2, 2, 1, 1]);
}

#[test]
fn eating_a_tiny_fish() {
    let start = GameState::default().player_fish.position;
    let mut app = app_with(vec![fish_at(EnemySize::Tiny, start)]);
    assert_eq!(app.game_state.player_fish.size, 25);
    app.check_collisions();
    assert_eq!(app.game_state.score, 1);
    assert_eq!(app.game_state.player_fish.size, 26);
    assert_eq!(app.game_state.size, 26);
    assert!(!app.game_state.enemies[0].is_alive);
    assert_eq!(app.game_state.player_fish.health, 100);
    assert_eq!(app.current_state, AppState::Game);
}

#[test]
fn hit_by_a_legendary_fish() {
    let start = GameState::default().player_fish.position;
    let mut app = app_with(vec![fish_at(EnemySize::Legendary, start)]);
    assert_eq!(app.game_state.player_fish.collision_cooldown, 0);
    app.check_collisions();
    assert_eq!(app.game_state.player_fish.health, 50);
    assert_eq!(app.game_state.health, 50);
    assert_eq!(app.game_state.player_fish.collision_cooldown, HIT_COOLDOWN);
    assert_eq!(app.game_state.score, 0);
    assert!(app.game_state.enemies[0].is_alive);
    assert_eq!(app.current_state, AppState::Game);
}

#[test]
fn equal_size_is_not_edible() {
    let start = GameState::default().player_fish.position;
    let mut app = app_with(vec![fish_at(EnemySize::Small, start)]);
    app.game_state.player_fish.size = 30;
    app.check_collisions();
    assert_eq!(app.game_state.score, 0);
    assert_eq!(app.game_state.player_fish.size, 30);
    assert_eq!(app.game_state.player_fish.health, 50);
}

#[test]
fn cooldown_shields_for_a_second() {
    let start = GameState::default().player_fish.position;
    let mut app = app_with(vec![fish_at(EnemySize::Legendary, start)]);
    app.check_collisions();
    assert_eq!(app.game_state.player_fish.health, 50);
    app.check_collisions();
    assert_eq!(app.game_state.player_fish.health, 50);
    let still = PlayerInput::default();
    app.game_state.player_fish.update(999, &still);
    assert_eq!(app.game_state.player_fish.collision_cooldown, 1);
    app.check_collisions();
    assert_eq!(app.game_state.player_fish.health, 50);
    app.game_state.player_fish.update(1, &still);
    assert_eq!(app.game_state.player_fish.collision_cooldown, 0);
    app.check_collisions();
    assert_eq!(app.game_state.player_fish.health, 0);
    assert_eq!(app.current_state, AppState::GameOver);
}

#[test]
fn victory_past_the_largest_tier() {
    let mut app = app_with(vec![]);
    app.game_state.player_fish.size = 121;
    app.game_state.score = 42;
    app.check_collisions();
    assert!(app.game_state.is_victory);
    assert_eq!(app.current_state, AppState::GameOver);
    let records = app.database.get_records();
    assert_eq!(records.len(), 1);
    assert_eq!(records[0].id, 1);
    assert_eq!(records[0].score, 42);
    assert_eq!(records[0].player_size, 121);
    assert!(records[0].timestamp > 0);
    assert_eq!(app.database.next_id, 2);
}

#[test]
fn victory_ignores_vitality() {
    let mut app = app_with(vec![]);
    app.game_state.player_fish.size = VICTORY_SIZE + 1;
    app.game_state.player_fish.health = -20;
    app.check_collisions();
    assert!(app.game_state.is_victory);
    assert_eq!(app.current_state, AppState::GameOver);
}

#[test]
fn exactly_victory_size_is_no_victory() {
    let mut app = app_with(vec![]);
    app.game_state.player_fish.size = VICTORY_SIZE;
    app.check_collisions();
    assert!(!app.game_state.is_victory);
    assert_eq!(app.current_state, AppState::Game);
    assert_eq!(app.database.get_records().len(), 0);
}

#[test]
fn defeat_when_vitality_runs_out() {
    let start = GameState::default().player_fish.position;
    let mut app = app_with(vec![fish_at(EnemySize::Titanic, start)]);
    app.game_state.player_fish.size = 90;
    app.game_state.player_fish.health = 50;
    app.game_state.score = 7;
    app.check_collisions();
    assert_eq!(app.game_state.player_fish.health, 0);
    assert!(!app.game_state.is_victory);
    assert_eq!(app.current_state, AppState::GameOver);
    let records = app.database.get_records();
    assert_eq!(records.len(), 1);
    assert_eq!(records[0].score, 7);
    assert_eq!(records[0].player_size, 90);
}

#[test]
fn no_collision_out_of_reach() {
    let start = GameState::default().player_fish.position;
    // Extents: Tiny 6000, controlled 7500; they touch below 6750 milli-pixels.
    let mut app = app_with(vec![fish_at(EnemySize::Tiny, Vec2::new(start.x + 6750, start.y))]);
    app.check_collisions();
    assert_eq!(app.game_state.score, 0);
    app.game_state.enemies[0].position.x = start.x + 6749;
    app.check_collisions();
    assert_eq!(app.game_state.score, 1);
}

#[test]
fn dead_fish_do_not_collide() {
    let start = GameState::default().player_fish.position;
    let mut e = fish_at(EnemySize::Legendary, start);
    e.be_eaten();
    let mut app = app_with(vec![e]);
    app.check_collisions();
    assert_eq!(app.game_state.player_fish.health, 100);
}

#[test]
fn touching_is_strict() {
    let a = Vec2::new(0, 0);
    assert!(!bodies_touch(a, Vec2::new(3000, 4000), 10000));
    assert!(bodies_touch(a, Vec2::new(3000, 3999), 10000));
    assert!(!bodies_touch(a, Vec2::new(i64::MAX, i64::MIN), 10000));
}

#[test]
fn diagonal_speed() {
    assert_eq!(diagonal_component(300), 212);
    assert_eq!(diagonal_component(0), 0);
    assert_eq!(diagonal_component(1), 0);
    assert_eq!(diagonal_component(2), 1);
    assert_eq!(diagonal_component(65535), 46340);
}

#[test]
fn player_moves_and_faces() {
    let mut f = PlayerFish::new(400_000, 300_000);
    let right = PlayerInput { move_up: false, move_down: false, move_left: false, move_right: true };
    f.update(100, &right);
    assert_eq!(f.velocity, Vec2::new(300, 0));
    assert_eq!(f.position, Vec2::new(430_000, 300_000));
    assert!(f.facing_right);
    let up_left = PlayerInput { move_up: true, move_down: false, move_left: true, move_right: false };
    f.update(1000, &up_left);
    assert_eq!(f.velocity, Vec2::new(-212, -212));
    assert_eq!(f.position, Vec2::new(218_000, 88_000));
    assert!(!f.facing_right);
    let up = PlayerInput { move_up: true, move_down: false, move_left: false, move_right: false };
    f.update(10, &up);
    assert_eq!(f.velocity, Vec2::new(0, -300));
    assert!(!f.facing_right);
    let both = PlayerInput { move_up: true, move_down: true, move_left: true, move_right: true };
    f.update(10, &both);
    assert_eq!(f.velocity, Vec2::new(0, 0));
}

#[test]
fn movement_saturates() {
    assert_eq!(advance(i64::MAX - 5, 300, 10), i64::MAX);
    assert_eq!(advance(i64::MIN + 5, -300, 10), i64::MIN);
    assert_eq!(advance(100, -1, 50), 50);
}

#[test]
fn enemy_entry_and_exit() {
    let l = EnemyFish::new(EnemySize::Medium, EnemyDirection::LeftToRight, 200_000, 800);
    assert_eq!(l.position, Vec2::new(-50_000, 200_000));
    assert_eq!(l.velocity, Vec2::new(130, 0));
    let mut r = EnemyFish::new(EnemySize::Medium, EnemyDirection::RightToLeft, 200_000, 800);
    assert_eq!(r.position, Vec2::new(850_000, 200_000));
    assert_eq!(r.velocity, Vec2::new(-130, 0));
    assert!(!r.is_out_of_bounds(800));
    r.update(1000);
    assert_eq!(r.position.x, 720_000);
    r.position.x = -50_000;
    assert!(!r.is_out_of_bounds(800));
    r.position.x = -50_001;
    assert!(r.is_out_of_bounds(800));
    let mut l2 = l;
    l2.position.x = 850_001;
    assert!(l2.is_out_of_bounds(800));
    l2.be_eaten();
    let before = l2.position;
    l2.update(1000);
    assert_eq!(l2.position, before);
    assert_eq!(l.get_bounds(), (Vec2::new(-50_000, 200_000), 12_000));
}

#[test]
fn boundary_clamp_stops_motion() {
    let mut app = app_with(vec![]);
    app.game_state.player_fish.position = Vec2::new(-10, 900_000);
    app.game_state.player_fish.velocity = Vec2::new(-300, 300);
    app.check_game_area_boundary_collision(75_000, 525_000, 0, 800_000);
    assert_eq!(app.game_state.player_fish.position, Vec2::new(7_500, 517_500));
    assert_eq!(app.game_state.player_fish.velocity, Vec2::new(0, 0));
    app.game_state.player_fish.velocity = Vec2::new(5, 5);
    app.check_game_area_boundary_collision(75_000, 525_000, 0, 800_000);
    assert_eq!(app.game_state.player_fish.velocity, Vec2::new(5, 5));
}

#[test]
fn input_keys() {
    let mut g = GameState::default();
    let keys = KeysDown {
        w: false,
        a: true,
        s: false,
        d: false,
        arrow_up: true,
        arrow_left: false,
        arrow_down: false,
        arrow_right: false,
        escape: false,
    };
    assert!(!InputHandler.handle_input(&keys, &mut g));
    assert!(g.input.move_up && g.input.move_left && !g.input.move_down && !g.input.move_right);
    let esc = KeysDown { escape: true, a: false, arrow_up: false, ..keys };
    assert!(InputHandler.handle_input(&esc, &mut g));
    assert!(!g.input.move_up && !g.input.move_left);
}

#[test]
fn session_transitions() {
    let mut app = BigFishApp::new(GameDatabase::new());
    assert_eq!(app.current_state, AppState::Home);
    assert!(!app.continue_game(None));
    assert_eq!(app.current_state, AppState::Home);
    app.open_settings();
    assert_eq!(app.current_state, AppState::Settings);
    app.go_home();
    app.open_history();
    assert_eq!(app.current_state, AppState::History);
    app.go_home();
    app.start_new_game();
    assert_eq!(app.current_state, AppState::Game);
    app.game_state.score = 5;
    let mut rng = fastrand::Rng::with_seed(3);
    assert_eq!(app.play_frame(true, 16, 800, 600, &mut rng), FrameOutcome::Paused);
    assert_eq!(app.current_state, AppState::GamePaused);
    app.resume();
    assert_eq!(app.current_state, AppState::Game);
    assert_eq!(app.game_state.score, 5);
    app.restart();
    assert_eq!(app.game_state.score, 5);
    app.game_state.player_fish.size = 130;
    assert_eq!(app.play_frame(false, 16, 800, 600, &mut rng), FrameOutcome::Ended);
    assert_eq!(app.current_state, AppState::GameOver);
    assert!(app.game_state.is_victory);
    assert_eq!(app.database.get_records().len(), 1);
    assert_eq!(app.database.get_records()[0].score, 5);
    app.restart();
    assert_eq!(app.current_state, AppState::Game);
    assert_eq!(app.game_state.score, 0);
    assert_eq!(app.game_state.player_fish.size, 25);
    let mut saved = GameState::default();
    saved.score = 9;
    app.go_home();
    assert!(app.continue_game(Some(saved)));
    assert_eq!(app.current_state, AppState::Game);
    assert_eq!(app.game_state.score, 9);
}

#[test]
fn steps_keep_the_fish_in_the_band() {
    let mut app = app_with(vec![]);
    let mut rng = fastrand::Rng::with_seed(11);
    app.game_state.input.move_up = true;
    app.game_state.input.move_left = true;
    for _ in 0..200 {
        if app.play_frame(false, 16, 800, 600, &mut rng) != FrameOutcome::Continue {
            break;
        }
        let f = app.game_state.player_fish;
        let half = f.size as i64 * 300;
        assert!(f.position.x >= half && f.position.x <= 800_000 - half);
        assert!(f.position.y >= 75_000 + half && f.position.y <= 525_000 - half);
        assert_eq!(app.game_state.size, f.size);
        assert_eq!(app.game_state.health, f.health);
        assert!(app.game_state.enemies.len() <= 14);
    }
}
