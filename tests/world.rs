use gravity::{
    accumulate_forces, App, Direction, Enemy, GameObject, Key, Player, Vector2, ENEMY_MASS,
    PLAYER_MASS, PLAYER_THRUST, SPAWN_BATCH,
};

fn world(player: Player, enemies: Vec<Enemy>) -> App {
    App { player, enemies, debug_mode: false }
}

#[test]
fn new_app_centers_the_player() {
    let app = App::new(1_280_000_000, 720_000_000);
    assert_eq!(app.player.physical_object.position, Vector2::new(640_000_000, 360_000_000));
    assert_eq!(app.player.physical_object.mass, PLAYER_MASS);
    assert!(app.enemies.is_empty());
    assert!(!app.debug_mode);
}

#[test]
fn arrow_keys_steer_the_player() {
    let mut app = App::new(1000, 1000);
    app.input(Key::Up, true);
    assert_eq!(app.player.move_offset, Vector2::new(0, -PLAYER_THRUST));
    app.input(Key::Right, true);
    assert_eq!(app.player.move_offset, Vector2::new(PLAYER_THRUST, -PLAYER_THRUST));
    app.input(Key::Up, false);
    assert_eq!(app.player.move_offset, Vector2::new(PLAYER_THRUST, 0));
    app.input(Key::Left, true);
    assert_eq!(app.player.move_offset, Vector2::new(-PLAYER_THRUST, 0));
    app.input(Key::Down, true);
    assert_eq!(app.player.move_offset, Vector2::new(-PLAYER_THRUST, PLAYER_THRUST));
    app.input(Key::Right, false);
    app.input(Key::Down, false);
    assert_eq!(app.player.move_offset, Vector2::new(0, 0));
}

#[test]
fn d_toggles_debug_on_press_only() {
    let mut app = App::new(1000, 1000);
    app.input(Key::D, true);
    assert!(app.debug_mode);
    app.input(Key::D, false);
    assert!(app.debug_mode);
    app.input(Key::D, true);
    assert!(!app.debug_mode);
    app.input(Key::Return, true);
    app.input(Key::Other, true);
    assert!(!app.debug_mode);
    assert_eq!(app.player.move_offset, Vector2::new(0, 0));
}

#[test]
fn empty_world_spawns_a_batch_inside_the_arena() {
    let mut app = App::new(1_280_000_000, 720_000_000);
    app.spawn_if_empty(1_280_000_000, 720_000_000);
    assert_eq!(app.enemies.len(), SPAWN_BATCH);
    assert_eq!(SPAWN_BATCH, 10);
    for e in app.enemies.iter() {
        let p = e.physical_object.position;
        assert!(0 <= p.x && p.x < 1_280_000_000);
        assert!(0 <= p.y && p.y < 720_000_000);
        assert_eq!(e.physical_object.mass, ENEMY_MASS);
    }
}

#[test]
fn populated_world_spawns_nothing() {
    let mut app = world(Player::new(0, 0), vec![Enemy::new(5, 5)]);
    app.spawn_if_empty(1000, 1000);
    assert_eq!(app.enemies.len(), 1);
    assert_eq!(app.enemies[0].physical_object.position, Vector2::new(5, 5));
}

#[test]
fn update_spawns_then_steps() {
    let mut app = App::new(1_280_000_000, 720_000_000);
    app.update(16, 1_280_000_000, 720_000_000);
    assert_eq!(app.enemies.len(), SPAWN_BATCH);
    app.update(16, 1_280_000_000, 720_000_000);
    assert_eq!(app.enemies.len(), SPAWN_BATCH);
}

#[test]
fn accumulation_visits_every_ordered_pair_once() {
    let enemies = vec![
        Enemy::new(0, 0),
        Enemy::new(30_000_000, 0),
        Enemy::new(0, 40_000_000),
        Enemy::new(-20_000_000, -10_000_000),
    ];
    let (forces, pairs) = accumulate_forces(&enemies);
    assert_eq!(pairs, 4 * 3);
    assert_eq!(forces.len(), 4);
    for i in 0..4 {
        let mut sum = Vector2::new(0, 0);
        for j in 0..4 {
            if i != j {
                let f = enemies[i].physical_object.calculate_interaction(&enemies[j].physical_object);
                sum.add(&f);
            }
        }
        assert_eq!(forces[i], sum);
    }
    assert_ne!(forces[0], Vector2::new(0, 0));
}

#[test]
fn accumulation_on_few_enemies() {
    let (none, pairs0) = accumulate_forces(&Vec::new());
    assert!(none.is_empty());
    assert_eq!(pairs0, 0);
    let (one, pairs1) = accumulate_forces(&vec![Enemy::new(1, 1)]);
    assert_eq!(one, vec![Vector2::new(0, 0)]);
    assert_eq!(pairs1, 0);
    let (two, pairs2) = accumulate_forces(&vec![Enemy::new(0, 0), Enemy::new(0, 10_000)]);
    assert_eq!(pairs2, 2);
    // 667_400_000 * 1e18 / 10_000^2
    assert_eq!(
        two,
        vec![Vector2::new(0, 6_674_000_000_000_000_000), Vector2::new(0, -6_674_000_000_000_000_000)]
    );
}

#[test]
fn step_follows_the_tick_order() {
    let (w, h) = (1_000_000_000, 1_000_000_000);
    let mut player = Player::new(500_000_000, 500_000_000);
    player.start_move(Direction::EAST);
    let enemies = vec![
        Enemy::new(400_000_000, 500_000_000),
        Enemy::new(500_000_000, 300_000_000),
        Enemy::new(700_000_000, 700_000_000),
    ];
    let mut app = world(player, enemies.clone());

    // The same tick, done by hand.
    let dt = 16;
    let mut p = player;
    let mut es = enemies;
    for e in es.iter_mut() {
        gravity::interact(&mut p, dt, e);
    }
    let (forces, _) = accumulate_forces(&es);
    for (e, f) in es.iter_mut().zip(forces.iter()) {
        e.physical_object.apply(dt, f);
    }
    p.update(dt, w, h);
    for e in es.iter_mut() {
        e.update(dt, w, h);
    }

    app.step(dt, w, h);
    assert_eq!(app.player.physical_object, p.physical_object);
    for (a, b) in app.enemies.iter().zip(es.iter()) {
        assert_eq!(a.physical_object, b.physical_object);
    }
    assert!(app.player.physical_object.velocity.x != 0);
    assert!(app.enemies[1].physical_object.velocity.y > 0);
}

#[test]
fn collisions_are_reported_without_effect() {
    let mut app = world(
        Player::new(100_000_000, 100_000_000),
        vec![Enemy::new(100_000_000, 101_500_000), Enemy::new(300_000_000, 300_000_000)],
    );
    let hits = app.collisions();
    assert_eq!(hits, vec![true, false]);
    assert!(gravity::collides(&app.player, &app.enemies[0]));
    assert_eq!(app.enemies[0].radius(), app.player.radius());
    app.step(1, 1_000_000_000, 1_000_000_000);
    assert_eq!(app.enemies.len(), 2);
}
