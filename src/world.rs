use vstd::prelude::*;

use crate::enemy::{ENEMY_MASS, ENEMY_RADIUS, Enemy};
use crate::geom::{Direction, Vector2};
use crate::physics::{
    MAX_COORD, MAX_DT, MAX_FORCE, MAX_PAIR_FORCE, PhysicalObject, arena_ok, circles_collide,
    gravity_force,
};
use crate::object::collides;
use crate::player::{PLAYER_MASS, Player, thrust_started, thrust_stopped};

verus! {

/// How many enemies appear when none are left.
pub const SPAWN_BATCH: usize = 10;

/// Most enemies a world may hold; keeps the summed forces in range.
pub const MAX_ENEMIES: usize = 256;

/// The keys the game reacts to.
#[derive(Clone, Copy, Debug, PartialEq, Eq, Structural)]
pub enum Key {
    Up,
    Down,
    Left,
    Right,
    D,
    Return,
    Other,
}

/// The whole simulation: one player and the enemies around it.
pub struct App {
    pub player: Player,
    pub enemies: Vec<Enemy>,
    pub debug_mode: bool,
}

/// The physical objects of a row of enemies.
pub open spec fn bodies(es: Seq<Enemy>) -> Seq<PhysicalObject> {
    es.map_values(|e: Enemy| e.physical_object)
}

/// The first `n` components (x when `on_x`, else y) of the pull that the
/// other bodies exert on body `i`, summed.
pub open spec fn net_force(bs: Seq<PhysicalObject>, i: int, n: int, on_x: bool) -> int
    decreases n,
{
    if n <= 0 {
        0
    } else {
        net_force(bs, i, n - 1, on_x) + if n - 1 == i {
            0
        } else if on_x {
            gravity_force(bs[i], bs[n - 1]).x as int
        } else {
            gravity_force(bs[i], bs[n - 1]).y as int
        }
    }
}

/// The pull of all other bodies on body `i`.
pub open spec fn net_force_on(bs: Seq<PhysicalObject>, i: int) -> Vector2 {
    Vector2 {
        x: net_force(bs, i, bs.len() as int, true) as i128,
        y: net_force(bs, i, bs.len() as int, false) as i128,
    }
}

/// The player after attracting, in order, the first `k` of the bodies.
pub open spec fn player_after_pulls(p: PhysicalObject, es: Seq<PhysicalObject>, dt: int, k: int) -> PhysicalObject
    decreases k,
{
    if k <= 0 {
        p
    } else {
        let q = player_after_pulls(p, es, dt, k - 1);
        q.applied(dt, gravity_force(q, es[k - 1]))
    }
}

/// Enemy `i` after its mutual attraction with the player.
pub open spec fn enemy_after_pull(p: PhysicalObject, es: Seq<PhysicalObject>, dt: int, i: int) -> PhysicalObject {
    es[i].applied(dt, gravity_force(es[i], player_after_pulls(p, es, dt, i)))
}

/// The enemies after their mutual attraction with the player.
pub open spec fn enemies_after_pull(p: PhysicalObject, es: Seq<PhysicalObject>, dt: int) -> Seq<PhysicalObject> {
    Seq::new(es.len(), |i: int| enemy_after_pull(p, es, dt, i))
}

/// The player's physical object after one tick.
pub open spec fn stepped_player(p: Player, es: Seq<PhysicalObject>, dt: int, w: int, h: int) -> PhysicalObject {
    player_after_pulls(p.physical_object, es, dt, es.len() as int).applied(
        dt,
        p.move_offset,
    ).integrated(dt).clamped(w, h)
}

/// Enemy `i`'s physical object after one tick.
pub open spec fn stepped_enemy(p: PhysicalObject, es: Seq<PhysicalObject>, dt: int, w: int, h: int, i: int) -> PhysicalObject {
    let pulled = enemies_after_pull(p, es, dt);
    pulled[i].applied(dt, net_force_on(pulled, i)).integrated(dt).clamped(w, h)
}

/// The direction an arrow key steers toward.
pub open spec fn key_direction(k: Key) -> Option<Direction> {
    match k {
        Key::Up => Some(Direction::NORTH),
        Key::Down => Some(Direction::SOUTH),
        Key::Left => Some(Direction::WEST),
        Key::Right => Some(Direction::EAST),
        _ => None,
    }
}

/// A freshly spawned enemy inside `[0, w) x [0, h)`.
pub open spec fn fresh_enemy(e: Enemy, w: int, h: int) -> bool {
    &&& 0 <= e.physical_object.position.x < w
    &&& 0 <= e.physical_object.position.y < h
    &&& e.physical_object == PhysicalObject::resting(ENEMY_MASS as int, e.physical_object.position)
    &&& e.size == ENEMY_RADIUS * 2
}

pub open spec fn all_wf(es: Seq<Enemy>) -> bool {
    forall|i: int| 0 <= i < es.len() ==> (#[trigger] es[i]).wf()
}

/// Sums, for every enemy, the pull of all the others. Each ordered pair of
/// distinct enemies is visited once; the second result counts the visits.
pub fn accumulate_forces(enemies: &Vec<Enemy>) -> (r: (Vec<Vector2>, usize))
    requires
        enemies.len() <= MAX_ENEMIES,
        all_wf(enemies@),
    ensures
        r.0.len() == enemies.len(),
        forall|i: int|
            0 <= i < enemies.len() ==> #[trigger] r.0@[i] == net_force_on(bodies(enemies@), i),
        forall|i: int| 0 <= i < enemies.len() ==> -MAX_FORCE <= (#[trigger] r.0@[i]).x <= MAX_FORCE
            && -MAX_FORCE <= r.0@[i].y <= MAX_FORCE,
        r.1 == enemies.len() * (enemies.len() - 1),
{
    let n = enemies.len();
    let ghost bs = bodies(enemies@);
    let mut forces: Vec<Vector2> = Vec::new();
    let mut pairs: usize = 0;
    let mut i: usize = 0;
    while i < n
        invariant
            n == enemies.len(),
            n <= MAX_ENEMIES,
            all_wf(enemies@),
            bs == bodies(enemies@),
            0 <= i <= n,
            forces.len() == i,
            forall|k: int| 0 <= k < i ==> #[trigger] forces@[k] == net_force_on(bs, k),
            forall|k: int| 0 <= k < i ==> -MAX_FORCE <= (#[trigger] forces@[k]).x <= MAX_FORCE
                && -MAX_FORCE <= forces@[k].y <= MAX_FORCE,
            pairs == i * (n - 1),
        decreases n - i,
    {
        let mut acc = Vector2::new(0, 0);
        let mut j: usize = 0;
        let mut seen: usize = 0;
        while j < n
            invariant
                n == enemies.len(),
                n <= MAX_ENEMIES,
                all_wf(enemies@),
                bs == bodies(enemies@),
                0 <= i < n,
                0 <= j <= n,
                acc.x == net_force(bs, i as int, j as int, true),
                acc.y == net_force(bs, i as int, j as int, false),
                -(j * MAX_PAIR_FORCE) <= acc.x <= j * MAX_PAIR_FORCE,
                -(j * MAX_PAIR_FORCE) <= acc.y <= j * MAX_PAIR_FORCE,
                seen == if j > i { j - 1 } else { j as int },
            decreases n - j,
        {
            if i != j {
                assert(enemies@[i as int].wf());
                assert(enemies@[j as int].wf());
                let f = enemies[i].physical_object.calculate_interaction(&enemies[j].physical_object);
                assert(bs[i as int] == enemies@[i as int].physical_object);
                assert(bs[j as int] == enemies@[j as int].physical_object);
                assert((j + 1) * MAX_PAIR_FORCE == j * MAX_PAIR_FORCE + MAX_PAIR_FORCE)
                    by (nonlinear_arith);
                acc.add(&f);
                seen = seen + 1;
            }
            j = j + 1;
        }
        assert(n * MAX_PAIR_FORCE <= MAX_FORCE) by (nonlinear_arith)
            requires
                n <= MAX_ENEMIES,
        ;
        assert(bs.len() == n);
        forces.push(acc);
        assert(seen == n - 1);
        assert((i + 1) * (n - 1) == i * (n - 1) + (n - 1)) by (nonlinear_arith);
        assert(i * (n - 1) + (n - 1) <= n * (n - 1)) by (nonlinear_arith)
            requires
                i < n,
        ;
        assert(n * (n - 1) <= MAX_ENEMIES * (MAX_ENEMIES - 1)) by (nonlinear_arith)
            requires
                n <= MAX_ENEMIES,
        ;
        pairs = pairs + seen;
        i = i + 1;
    }
    (forces, pairs)
}

/// The player attracts each enemy in turn, and is attracted back.
fn pull_player(player: &mut Player, enemies: &mut Vec<Enemy>, dt: u64)
    requires
        old(player).wf(),
        all_wf(old(enemies)@),
        dt <= MAX_DT,
    ensures
        final(player).wf(),
        all_wf(final(enemies)@),
        final(player).physical_object == player_after_pulls(
            old(player).physical_object,
            bodies(old(enemies)@),
            dt as int,
            old(enemies).len() as int,
        ),
        final(player).move_offset == old(player).move_offset,
        final(player).size == old(player).size,
        final(player).drift_ttl == old(player).drift_ttl,
        final(enemies).len() == old(enemies).len(),
        forall|i: int|
            0 <= i < old(enemies).len() ==> (#[trigger] final(enemies)@[i]).physical_object
                == enemy_after_pull(
                old(player).physical_object,
                bodies(old(enemies)@),
                dt as int,
                i,
            ) && final(enemies)@[i].size == old(enemies)@[i].size,
{
    let ghost pb = player.physical_object;
    let ghost eb = enemies@;
    let ghost es = bodies(enemies@);
    let n = enemies.len();
    let mut k: usize = 0;
    while k < n
        invariant
            n == enemies.len(),
            n == eb.len(),
            es == bodies(eb),
            dt <= MAX_DT,
            0 <= k <= n,
            player.wf(),
            all_wf(enemies@),
            player.physical_object == player_after_pulls(pb, es, dt as int, k as int),
            player.move_offset == old(player).move_offset,
            player.size == old(player).size,
            player.drift_ttl == old(player).drift_ttl,
            forall|i: int|
                0 <= i < k ==> (#[trigger] enemies@[i]).physical_object == enemy_after_pull(
                    pb,
                    es,
                    dt as int,
                    i,
                ) && enemies@[i].size == eb[i].size,
            forall|i: int| k <= i < n ==> #[trigger] enemies@[i] == eb[i],
        decreases n - k,
    {
        let mut e = enemies[k];
        assert(enemies@[k as int].wf());
        assert(es[k as int] == e.physical_object);
        player.physical_object.interact(dt, &mut e.physical_object);
        enemies[k] = e;
        k = k + 1;
    }
}

/// Each enemy receives the force summed for it.
fn push_enemies(enemies: &mut Vec<Enemy>, forces: &Vec<Vector2>, dt: u64)
    requires
        all_wf(old(enemies)@),
        forces.len() == old(enemies).len(),
        forall|i: int| 0 <= i < forces.len() ==> -MAX_FORCE <= (#[trigger] forces@[i]).x <= MAX_FORCE
            && -MAX_FORCE <= forces@[i].y <= MAX_FORCE,
        dt <= MAX_DT,
    ensures
        all_wf(final(enemies)@),
        final(enemies).len() == old(enemies).len(),
        forall|i: int|
            0 <= i < old(enemies).len() ==> (#[trigger] final(enemies)@[i]).physical_object
                == old(enemies)@[i].physical_object.applied(dt as int, forces@[i])
                && final(enemies)@[i].size == old(enemies)@[i].size,
{
    let ghost eb = enemies@;
    let n = enemies.len();
    let mut k: usize = 0;
    while k < n
        invariant
            n == enemies.len(),
            n == eb.len(),
            n == forces.len(),
            forall|i: int| 0 <= i < forces.len() ==> -MAX_FORCE <= (#[trigger] forces@[i]).x <= MAX_FORCE
                && -MAX_FORCE <= forces@[i].y <= MAX_FORCE,
            dt <= MAX_DT,
            0 <= k <= n,
            all_wf(enemies@),
            forall|i: int|
                0 <= i < k ==> (#[trigger] enemies@[i]).physical_object
                    == eb[i].physical_object.applied(dt as int, forces@[i]) && enemies@[i].size
                    == eb[i].size,
            forall|i: int| k <= i < n ==> #[trigger] enemies@[i] == eb[i],
        decreases n - k,
    {
        let mut e = enemies[k];
        assert(enemies@[k as int].wf());
        assert(-MAX_FORCE <= forces@[k as int].x <= MAX_FORCE);
        e.physical_object.apply(dt, &forces[k]);
        enemies[k] = e;
        k = k + 1;
    }
}

/// Each enemy moves for `dt` and is kept inside the arena.
fn move_enemies(enemies: &mut Vec<Enemy>, dt: u64, width: i128, height: i128)
    requires
        all_wf(old(enemies)@),
        dt <= MAX_DT,
        arena_ok(width as int, height as int),
    ensures
        all_wf(final(enemies)@),
        final(enemies).len() == old(enemies).len(),
        forall|i: int|
            0 <= i < old(enemies).len() ==> (#[trigger] final(enemies)@[i]).physical_object
                == old(enemies)@[i].physical_object.integrated(dt as int).clamped(
                width as int,
                height as int,
            ) && final(enemies)@[i].size == old(enemies)@[i].size,
{
    let ghost eb = enemies@;
    let n = enemies.len();
    let mut k: usize = 0;
    while k < n
        invariant
            n == enemies.len(),
            n == eb.len(),
            dt <= MAX_DT,
            arena_ok(width as int, height as int),
            0 <= k <= n,
            all_wf(enemies@),
            forall|i: int|
                0 <= i < k ==> (#[trigger] enemies@[i]).physical_object
                    == eb[i].physical_object.integrated(dt as int).clamped(
                    width as int,
                    height as int,
                ) && enemies@[i].size == eb[i].size,
            forall|i: int| k <= i < n ==> #[trigger] enemies@[i] == eb[i],
        decreases n - k,
    {
        let mut e = enemies[k];
        assert(enemies@[k as int].wf());
        e.update(dt, width, height);
        enemies[k] = e;
        k = k + 1;
    }
}

/// What one tick makes of the player `pb` and the enemies `eb` (before):
/// `pa` and `ea` (after).
pub open spec fn stepped(
    pb: Player,
    eb: Seq<Enemy>,
    pa: Player,
    ea: Seq<Enemy>,
    dt: int,
    w: int,
    h: int,
) -> bool {
    &&& pa.physical_object == stepped_player(pb, bodies(eb), dt, w, h)
    &&& pa.move_offset == pb.move_offset
    &&& pa.size == pb.size
    &&& pa.drift_ttl == pb.drift_ttl
    &&& ea.len() == eb.len()
    &&& forall|i: int|
        0 <= i < eb.len() ==> (#[trigger] ea[i]).physical_object == stepped_enemy(
            pb.physical_object,
            bodies(eb),
            dt,
            w,
            h,
            i,
        ) && ea[i].size == eb[i].size
}

/// The enemies before and after the spawning check: a batch of fresh enemies
/// appears when none are left, otherwise nothing changes.
pub open spec fn spawned(before: Seq<Enemy>, after: Seq<Enemy>, w: int, h: int) -> bool {
    if before.len() == 0 {
        &&& after.len() == SPAWN_BATCH
        &&& forall|i: int| 0 <= i < after.len() ==> fresh_enemy(#[trigger] after[i], w, h)
    } else {
        after == before
    }
}

impl App {
    pub open spec fn wf(&self) -> bool {
        &&& self.player.wf()
        &&& self.enemies.len() <= MAX_ENEMIES
        &&& all_wf(self.enemies@)
    }

    /// A world with the player resting at the center of the arena and no
    /// enemies yet.
    pub fn new(width: i128, height: i128) -> (r: App)
        requires
            arena_ok(width as int, height as int),
        ensures
            r.wf(),
            r.player.physical_object == PhysicalObject::resting(
                PLAYER_MASS as int,
                Vector2 { x: (width / 2) as i128, y: (height / 2) as i128 },
            ),
            r.player.move_offset == (Vector2 { x: 0, y: 0 }),
            r.enemies.len() == 0,
            !r.debug_mode,
    {
        let player = Player::new(width / 2, height / 2);
        App { player, enemies: Vec::new(), debug_mode: false }
    }

    /// Reacts to a key being pressed (`is_press`) or released. Arrow keys
    /// start or stop the player's thrust; pressing D toggles debug mode.
    pub fn input(&mut self, key: Key, is_press: bool)
        requires
            old(self).wf(),
        ensures
            final(self).wf(),
            final(self).player.move_offset == match key_direction(key) {
                Some(d) => if is_press {
                    thrust_started(old(self).player.move_offset, d)
                } else {
                    thrust_stopped(old(self).player.move_offset, d)
                },
                None => old(self).player.move_offset,
            },
            final(self).debug_mode == if is_press && key == Key::D {
                !old(self).debug_mode
            } else {
                old(self).debug_mode
            },
            final(self).player.physical_object == old(self).player.physical_object,
            final(self).player.size == old(self).player.size,
            final(self).player.drift_ttl == old(self).player.drift_ttl,
            final(self).enemies@ == old(self).enemies@,
    {
        if is_press {
            match key {
                Key::Up => self.player.start_move(Direction::NORTH),
                Key::Down => self.player.start_move(Direction::SOUTH),
                Key::Left => self.player.start_move(Direction::WEST),
                Key::Right => self.player.start_move(Direction::EAST),
                Key::D => {
                    self.debug_mode = !self.debug_mode;
                },
                Key::Return => {},
                Key::Other => {},
            }
        } else {
            match key {
                Key::Up => self.player.stop_move(Direction::NORTH),
                Key::Down => self.player.stop_move(Direction::SOUTH),
                Key::Left => self.player.stop_move(Direction::WEST),
                Key::Right => self.player.stop_move(Direction::EAST),
                _ => {},
            }
        }
    }

    /// When no enemy is left, spawns a batch at random places in
    /// `[0, width) x [0, height)`.
    pub fn spawn_if_empty(&mut self, width: i128, height: i128)
        requires
            old(self).wf(),
            0 < width <= MAX_COORD,
            0 < height <= MAX_COORD,
        ensures
            final(self).wf(),
            spawned(old(self).enemies@, final(self).enemies@, width as int, height as int),
            final(self).player == old(self).player,
            final(self).debug_mode == old(self).debug_mode,
    {
        if self.enemies.len() == 0 {
            let mut k: usize = 0;
            while k < SPAWN_BATCH
                invariant
                    0 <= k <= SPAWN_BATCH,
                    self.enemies.len() == k,
                    0 < width <= MAX_COORD,
                    0 < height <= MAX_COORD,
                    all_wf(self.enemies@),
                    forall|i: int|
                        0 <= i < k ==> fresh_enemy(#[trigger] self.enemies@[i], width as int, height as int),
                    self.player == old(self).player,
                    self.debug_mode == old(self).debug_mode,
                decreases SPAWN_BATCH - k,
            {
                let e = Enemy::new_rand(width, height);
                self.enemies.push(e);
                k = k + 1;
            }
        }
    }

    /// Advances the world by `dt` in an arena of the given size: the player
    /// and each enemy attract each other in turn; every enemy then receives
    /// the summed pull of all the others; the player thrusts; everyone moves
    /// and is kept inside the arena.
    pub fn step(&mut self, dt: u64, width: i128, height: i128)
        requires
            old(self).wf(),
            dt <= MAX_DT,
            arena_ok(width as int, height as int),
        ensures
            final(self).wf(),
            stepped(
                old(self).player,
                old(self).enemies@,
                final(self).player,
                final(self).enemies@,
                dt as int,
                width as int,
                height as int,
            ),
            final(self).debug_mode == old(self).debug_mode,
    {
        let ghost pb = self.player;
        let ghost eb = self.enemies@;
        pull_player(&mut self.player, &mut self.enemies, dt);
        let ghost pulled = bodies(self.enemies@);
        assert(pulled =~= enemies_after_pull(pb.physical_object, bodies(eb), dt as int));
        let (forces, _) = accumulate_forces(&self.enemies);
        push_enemies(&mut self.enemies, &forces, dt);
        self.player.update(dt, width, height);
        move_enemies(&mut self.enemies, dt, width, height);
    }

    /// One tick of the game: spawns enemies when none are left, then steps
    /// the world.
    pub fn update(&mut self, dt: u64, width: i128, height: i128)
        requires
            old(self).wf(),
            dt <= MAX_DT,
            0 < width <= MAX_COORD,
            0 < height <= MAX_COORD,
        ensures
            final(self).wf(),
            exists|mid: Seq<Enemy>|
                spawned(old(self).enemies@, mid, width as int, height as int) && stepped(
                    old(self).player,
                    mid,
                    final(self).player,
                    final(self).enemies@,
                    dt as int,
                    width as int,
                    height as int,
                ),
            final(self).debug_mode == old(self).debug_mode,
    {
        self.spawn_if_empty(width, height);
        let ghost mid = self.enemies@;
        self.step(dt, width, height);
        assert(spawned(old(self).enemies@, mid, width as int, height as int));
    }

    /// For each enemy, whether it touches the player. Nothing else follows
    /// from a collision: what it means is for the game's rules to decide.
    pub fn collisions(&self) -> (r: Vec<bool>)
        requires
            self.wf(),
        ensures
            r.len() == self.enemies.len(),
            forall|i: int|
                0 <= i < r.len() ==> #[trigger] r@[i] == circles_collide(
                    self.player.physical_object,
                    self.enemies@[i].physical_object,
                ),
    {
        let mut r: Vec<bool> = Vec::new();
        let mut k: usize = 0;
        while k < self.enemies.len()
            invariant
                self.wf(),
                0 <= k <= self.enemies.len(),
                r.len() == k,
                forall|i: int|
                    0 <= i < k ==> #[trigger] r@[i] == circles_collide(
                        self.player.physical_object,
                        self.enemies@[i].physical_object,
                    ),
            decreases self.enemies.len() - k,
        {
            assert(self.enemies@[k as int].wf());
            r.push(collides(&self.player, &self.enemies[k]));
            k = k + 1;
        }
        r
    }
}

} // verus!
