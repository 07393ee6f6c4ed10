use gravity::{
    Direction, Enemy, Player, Vector2, DEFAULT_RADIUS, ENEMY_MASS, ENEMY_RADIUS, PLAYER_MASS,
    PLAYER_SIZE, PLAYER_THRUST,
};

#[test]
fn player_starts_resting() {
    let p = Player::new(640_000_000, 360_000_000);
    assert_eq!(p.physical_object.mass, PLAYER_MASS);
    assert_eq!(p.physical_object.position, Vector2::new(640_000_000, 360_000_000));
    assert_eq!(p.physical_object.velocity, Vector2::new(0, 0));
    assert_eq!(p.move_offset, Vector2::new(0, 0));
    assert_eq!(p.size, PLAYER_SIZE);
    assert_eq!(p.drift_ttl, 0);
}

#[test]
fn start_move_sets_one_axis() {
    let mut p = Player::new(0, 0);
    p.start_move(Direction::WEST);
    assert_eq!(p.move_offset, Vector2::new(-PLAYER_THRUST, 0));
    p.start_move(Direction::SOUTH);
    assert_eq!(p.move_offset, Vector2::new(-PLAYER_THRUST, PLAYER_THRUST));
    p.start_move(Direction::EAST);
    assert_eq!(p.move_offset, Vector2::new(PLAYER_THRUST, PLAYER_THRUST));
    p.start_move(Direction::NORTH);
    assert_eq!(p.move_offset, Vector2::new(PLAYER_THRUST, -PLAYER_THRUST));
}

#[test]
fn stop_move_clears_the_axis() {
    let mut p = Player::new(0, 0);
    p.start_move(Direction::EAST);
    p.start_move(Direction::NORTH);
    p.stop_move(Direction::WEST);
    assert_eq!(p.move_offset, Vector2::new(0, -PLAYER_THRUST));
    p.stop_move(Direction::SOUTH);
    assert_eq!(p.move_offset, Vector2::new(0, 0));
}

#[test]
fn player_update_applies_thrust_then_moves() {
    let mut p = Player::new(640_000_000, 360_000_000);
    p.start_move(Direction::EAST);
    p.update(16, 1_280_000_000, 720_000_000);
    // 200_000_000 * 16 / 1_000_000
    assert_eq!(p.physical_object.velocity, Vector2::new(3200, 0));
    assert_eq!(p.physical_object.position, Vector2::new(640_051_200, 360_000_000));
}

#[test]
fn thrust_east_then_drift_after_release() {
    let (w, h) = (1_280_000_000, 720_000_000);
    let mut p = Player::new(w / 2, h / 2);
    p.start_move(Direction::EAST);
    let mut last_x = p.physical_object.position.x;
    let mut elapsed = 0;
    while elapsed < 200 {
        p.update(16, w, h);
        let x = p.physical_object.position.x;
        assert!(x > last_x);
        assert_eq!(p.physical_object.position.y, h / 2);
        last_x = x;
        elapsed += 16;
    }
    p.stop_move(Direction::EAST);
    let v = p.physical_object.velocity;
    assert!(v.x > 0);
    p.update(16, w, h);
    assert_eq!(p.physical_object.velocity, v);
    assert_eq!(p.physical_object.position.x, last_x + v.x * 16);
}

#[test]
fn player_is_clamped_to_arena_but_keeps_velocity() {
    let mut p = Player::new(500, 500);
    p.start_move(Direction::WEST);
    p.start_move(Direction::NORTH);
    p.update(1000, 100_000_000, 100_000_000);
    assert_eq!(p.physical_object.position, Vector2::new(DEFAULT_RADIUS, DEFAULT_RADIUS));
    assert_eq!(p.physical_object.velocity, Vector2::new(-200_000, -200_000));
}

#[test]
fn enemy_starts_resting() {
    let e = Enemy::new(10, 20);
    assert_eq!(e.physical_object.mass, ENEMY_MASS);
    assert_eq!(e.physical_object.position, Vector2::new(10, 20));
    assert_eq!(e.physical_object.velocity, Vector2::new(0, 0));
    assert_eq!(e.size, ENEMY_RADIUS * 2);
}

#[test]
fn random_enemies_land_inside_the_range() {
    for _ in 0..200 {
        let e = Enemy::new_rand(1_280_000_000, 720_000_000);
        let p = e.physical_object.position;
        assert!(0 <= p.x && p.x < 1_280_000_000);
        assert!(0 <= p.y && p.y < 720_000_000);
        assert_eq!(e.physical_object.velocity, Vector2::new(0, 0));
    }
    for _ in 0..20 {
        let e = Enemy::new_rand(1, 1);
        assert_eq!(e.physical_object.position, Vector2::new(0, 0));
    }
}

#[test]
fn random_enemies_are_spread_out() {
    let first = Enemy::new_rand(1_000_000_000, 1_000_000_000).physical_object.position;
    let mut differs = false;
    for _ in 0..20 {
        let p = Enemy::new_rand(1_000_000_000, 1_000_000_000).physical_object.position;
        if p != first {
            differs = true;
        }
    }
    assert!(differs);
}

#[test]
fn enemy_update_moves_without_force() {
    let mut e = Enemy::new(50_000_000, 50_000_000);
    e.physical_object.apply(1, &Vector2::new(7_000_000_000, -3_000_000_000));
    assert_eq!(e.physical_object.velocity, Vector2::new(7, -3));
    e.update(100, 100_000_000, 100_000_000);
    assert_eq!(e.physical_object.position, Vector2::new(50_000_700, 49_999_700));
    assert_eq!(e.physical_object.velocity, Vector2::new(7, -3));
}

#[test]
fn enemy_update_clamps_to_arena() {
    let mut e = Enemy::new(99_500_000, 50_000_000);
    e.physical_object.apply(1, &Vector2::new(7_000_000_000, 0));
    e.update(1000, 100_000_000, 100_000_000);
    assert_eq!(e.physical_object.position, Vector2::new(100_000_000 - DEFAULT_RADIUS, 50_000_000));
}
