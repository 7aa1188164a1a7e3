//! The enemies: when and where they appear, how they fly and fire, and how
//! the ship's bullets bring them down.

use crate::bullet::{Bullet, BulletRes, BulletSpawn, BulletTimer, HitBox};
use crate::collision::{collide, outside_bounds, overlaps, DestroyOutsideScreen, Screen, Window};
use crate::math::{aim, aimed, clamp_i32, dist_sq, saturate, Vec2};
use crate::random::random_range;
use crate::score::{interp_value, lemma_interp_ends, lemma_interp_monotonic, Score};
use crate::timer::{Timer, TimerView};
use vstd::prelude::*;

verus! {

/// Width of an enemy.
pub const SIZE_X: i32 = 150_000;

/// Height of an enemy.
pub const SIZE_Y: i32 = 150_000;

/// Half the width of the part of an enemy that can be hit: a quarter of the
/// width of its drawing.
pub const HIT_X: i32 = 37_500;

/// Half the height of the part of an enemy that can be hit.
pub const HIT_Y: i32 = 37_500;

/// An enemy closer to the ship than this holds its fire.
pub const MIN_DISTANCE_TO_SHOOT: i32 = 500_000;

/// Speed of the enemies' bullets, per second.
pub const BULLET_SPEED: i32 = 1_000_000;

/// How far above or below the ship an enemy may aim.
pub const MAX_AIM_OFFSET: i32 = 250_000;

/// The largest angle, in millionths of a radian, by which an enemy's course
/// deviates from the straight line to the ship.
pub const MAX_COURSE_ANGLE: i32 = 300_000;

/// The lowest place at which an enemy appears.
pub const MIN_SPAWN_Y: i32 = 100_000;

/// Enemies appear below this height.
pub const MAX_SPAWN_Y: i32 = 1_000_000;

/// The score from which on the game gets no harder.
pub const MAX_DIFFICULTY_SCORE: u32 = 200;

/// Nanoseconds between two enemies at the start of a session.
pub const FIRST_SPAWN_PERIOD: u64 = 500_000_000;

/// Nanoseconds between two enemies at score zero.
pub const EASY_SPAWN_PERIOD: i64 = 600_000_000;

/// Nanoseconds between two enemies at full difficulty.
pub const HARD_SPAWN_PERIOD: i64 = 300_000_000;

/// Speed of an enemy at score zero, per second.
pub const EASY_SPEED: i64 = 500_000;

/// Speed of an enemy at full difficulty, per second.
pub const HARD_SPEED: i64 = 2_000_000;

/// Nanoseconds between two shots of an enemy at score zero.
pub const EASY_BULLET_PERIOD: i64 = 3_000_000_000;

/// Nanoseconds between two shots of an enemy at full difficulty.
pub const HARD_BULLET_PERIOD: i64 = 1_500_000_000;

/// An enemy in flight.
#[derive(Debug, Clone, Copy, PartialEq, Eq, Structural)]
pub struct Enemy {
    /// Its velocity, which never changes.
    pub speed: Vec2,
}

/// The source of the enemies.
#[derive(Debug, Clone, Copy)]
pub struct EnemySpawn {
    /// Completes whenever an enemy is due.
    pub timer: Timer,
}

impl EnemySpawn {
    /// A source that lets `FIRST_SPAWN_PERIOD` pass before the first enemy.
    pub fn new() -> (r: EnemySpawn)
        ensures
            r.timer@ == TimerView::fresh(FIRST_SPAWN_PERIOD as nat, true),
    {
        EnemySpawn { timer: Timer::new(FIRST_SPAWN_PERIOD, true) }
    }
}

/// All that a new enemy consists of.
#[derive(Debug, Clone, Copy)]
pub struct EnemyPlan {
    pub position: Vec2,
    /// The velocity that would take the enemy straight to the ship.
    pub heading: Vec2,
    /// The angle, in millionths of a radian, by which the enemy's velocity is
    /// turned away from `heading`.
    pub angle: i32,
    pub hit_box: HitBox,
    pub destroy: DestroyOutsideScreen,
    pub bullet_timer: BulletTimer,
}

/// How fast enemies fly at a score.
pub open spec fn enemy_speed(score: nat) -> int {
    interp_value(score, EASY_SPEED as int, HARD_SPEED as int, MAX_DIFFICULTY_SCORE as nat)
}

/// How many nanoseconds pass between two shots of an enemy at a score.
pub open spec fn bullet_period(score: nat) -> int {
    interp_value(
        score,
        EASY_BULLET_PERIOD as int,
        HARD_BULLET_PERIOD as int,
        MAX_DIFFICULTY_SCORE as nat,
    )
}

/// How many nanoseconds pass between two enemies at a score.
pub open spec fn spawn_period(score: nat) -> int {
    interp_value(
        score,
        EASY_SPAWN_PERIOD as int,
        HARD_SPAWN_PERIOD as int,
        MAX_DIFFICULTY_SCORE as nat,
    )
}

/// Whether `plan` is the enemy that appears at height `y` while the ship is
/// at `player_pos`: just beyond the right edge of the field, headed for the
/// ship at the speed that the score asks for, with half of its drawing as hit
/// box, and with a gun whose first shot is due after `bullet_delay`.
pub open spec fn is_plan(
    plan: EnemyPlan,
    field_width: int,
    player_pos: Vec2,
    score: nat,
    y: i32,
    angle: i32,
    bullet_delay: nat,
) -> bool {
    &&& plan.position == (Vec2 {
        x: outside_bounds(field_width, Vec2 { x: SIZE_X, y: SIZE_Y }).right,
        y,
    })
    &&& plan.heading == aimed(plan.position, player_pos, enemy_speed(score))
    &&& plan.angle == angle
    &&& plan.hit_box == HitBox(Vec2 { x: HIT_X, y: HIT_Y })
    &&& plan.destroy.size == (Vec2 { x: SIZE_X, y: SIZE_Y })
    &&& plan.bullet_timer.timer@ == TimerView::fresh(bullet_period(score) as nat, true).tick(
        if bullet_delay <= bullet_period(score) {
            (bullet_period(score) - bullet_delay) as nat
        } else {
            0
        },
    )
    &&& plan.bullet_timer.can_shoot == plan.bullet_timer.timer@.just_finished
}

/// Whether `plan` is the enemy of `is_plan` for a height, an angle and a delay
/// that can be drawn: a height between `MIN_SPAWN_Y` and `MAX_SPAWN_Y`, an
/// angle of less than `MAX_COURSE_ANGLE` to either side, and a delay shorter
/// than the time between two shots.
pub open spec fn is_drawn_plan(
    plan: EnemyPlan,
    field_width: int,
    player_pos: Vec2,
    score: nat,
    y: i32,
    angle: i32,
    bullet_delay: nat,
) -> bool {
    &&& MIN_SPAWN_Y <= y < MAX_SPAWN_Y
    &&& -MAX_COURSE_ANGLE <= angle < MAX_COURSE_ANGLE
    &&& bullet_delay < bullet_period(score)
    &&& is_plan(plan, field_width, player_pos, score, y, angle, bullet_delay)
}

/// Whether `plan` is the enemy of `is_plan` for some height, angle and delay
/// that can be drawn.
pub open spec fn is_some_plan(plan: EnemyPlan, field_width: int, player_pos: Vec2, score: nat) -> bool {
    exists|y: i32, angle: i32, bullet_delay: nat|
        is_drawn_plan(plan, field_width, player_pos, score, y, angle, bullet_delay)
}

/// The difficulty stays within its two ends at every score.
pub proof fn lemma_difficulty_range(score: nat)
    ensures
        EASY_SPEED <= enemy_speed(score) <= HARD_SPEED,
        HARD_BULLET_PERIOD <= bullet_period(score) <= EASY_BULLET_PERIOD,
        HARD_SPAWN_PERIOD <= spawn_period(score) <= EASY_SPAWN_PERIOD,
{
    lemma_interp_ends(score, EASY_SPEED as int, HARD_SPEED as int, MAX_DIFFICULTY_SCORE as nat);
    lemma_interp_ends(
        score,
        EASY_BULLET_PERIOD as int,
        HARD_BULLET_PERIOD as int,
        MAX_DIFFICULTY_SCORE as nat,
    );
    lemma_interp_ends(
        score,
        EASY_SPAWN_PERIOD as int,
        HARD_SPAWN_PERIOD as int,
        MAX_DIFFICULTY_SCORE as nat,
    );
}

/// The game gets no easier as the score grows: enemies get no slower, and
/// neither they nor their shots come more rarely.
pub proof fn lemma_difficulty_grows(low: nat, high: nat)
    requires
        low <= high,
    ensures
        enemy_speed(low) <= enemy_speed(high),
        bullet_period(low) >= bullet_period(high),
        spawn_period(low) >= spawn_period(high),
{
    lemma_interp_monotonic(
        low,
        high,
        EASY_SPEED as int,
        HARD_SPEED as int,
        MAX_DIFFICULTY_SCORE as nat,
    );
    lemma_interp_monotonic(
        low,
        high,
        EASY_BULLET_PERIOD as int,
        HARD_BULLET_PERIOD as int,
        MAX_DIFFICULTY_SCORE as nat,
    );
    lemma_interp_monotonic(
        low,
        high,
        EASY_SPAWN_PERIOD as int,
        HARD_SPAWN_PERIOD as int,
        MAX_DIFFICULTY_SCORE as nat,
    );
}

/// Puts together the enemy that appears at height `y`, flies at an angle of
/// `angle` to the straight line to the ship, and first fires after
/// `bullet_delay` nanoseconds.
pub fn spawn(
    win: &Window,
    player_pos: Vec2,
    score: &Score,
    y: i32,
    angle: i32,
    bullet_delay: u64,
) -> (plan: EnemyPlan)
    ensures
        is_plan(plan, win.width(), player_pos, score.score as nat, y, angle, bullet_delay as nat),
{
    proof {
        lemma_difficulty_range(score.score as nat);
    }
    let bounds = win.bounds_box_outside(Vec2 { x: SIZE_X, y: SIZE_Y });
    let position = Vec2 { x: bounds.right, y };
    let speed = score.interp(EASY_SPEED, HARD_SPEED, MAX_DIFFICULTY_SCORE);
    let period = score.interp(EASY_BULLET_PERIOD, HARD_BULLET_PERIOD, MAX_DIFFICULTY_SCORE);
    EnemyPlan {
        position,
        heading: aim(position, player_pos, speed as i32),
        angle,
        hit_box: HitBox(Vec2 { x: HIT_X, y: HIT_Y }),
        destroy: DestroyOutsideScreen { size: Vec2 { x: SIZE_X, y: SIZE_Y } },
        bullet_timer: BulletTimer::new_delayed(period as u64, bullet_delay),
    }
}

/// One tick of the source of enemies. Whenever its timer completes while
/// there is a ship, an enemy appears, and the time to the next one is set
/// anew from the score. The height at which the enemy appears, the angle of
/// its course and the delay of its first shot are drawn at random.
pub fn process_spawn(
    spawner: &mut EnemySpawn,
    score: &Score,
    player: Option<Vec2>,
    delta: u64,
    win: &Window,
) -> (plan: Option<EnemyPlan>)
    ensures
        plan.is_some() == (old(spawner).timer@.tick(delta as nat).just_finished
            && player.is_some()),
        plan.is_none() ==> final(spawner).timer@ == old(spawner).timer@.tick(delta as nat),
        plan.is_some() ==> {
            &&& final(spawner).timer@ == (TimerView {
                duration: spawn_period(score.score as nat) as nat,
                ..old(spawner).timer@.tick(delta as nat)
            })
            &&& is_some_plan(plan.unwrap(), win.width(), player.unwrap(), score.score as nat)
        },
{
    spawner.timer.tick(delta);
    if !spawner.timer.just_finished() {
        return None;
    }
    match player {
        None => None,
        Some(player_pos) => {
            proof {
                lemma_difficulty_range(score.score as nat);
            }
            let y = random_range(MIN_SPAWN_Y as i64, MAX_SPAWN_Y as i64) as i32;
            let angle = random_range(-(MAX_COURSE_ANGLE as i64), MAX_COURSE_ANGLE as i64) as i32;
            let period = score.interp(EASY_BULLET_PERIOD, HARD_BULLET_PERIOD, MAX_DIFFICULTY_SCORE);
            let bullet_delay = random_range(0, period) as u64;
            let plan = spawn(win, player_pos, score, y, angle, bullet_delay);
            let next = score.interp(EASY_SPAWN_PERIOD, HARD_SPAWN_PERIOD, MAX_DIFFICULTY_SCORE);
            spawner.timer.set_duration(next as u64);
            assert(is_drawn_plan(
                plan,
                win.width(),
                player.unwrap(),
                score.score as nat,
                y,
                angle,
                bullet_delay as nat,
            ));
            assert(is_some_plan(plan, win.width(), player_pos, score.score as nat));
            Some(plan)
        },
    }
}

/// Moves every enemy by its velocity times `delta` nanoseconds.
pub fn movement(enemies: &mut Vec<(Enemy, Vec2)>, delta: u64)
    ensures
        final(enemies).len() == old(enemies).len(),
        forall|i: int|
            0 <= i < old(enemies).len() ==> final(enemies)[i].0 == old(enemies)[i].0 && final(enemies)[i].1
                == old(enemies)[i].1.moved(old(enemies)[i].0.speed, delta as nat),
{
    let mut i: usize = 0;
    while i < enemies.len()
        invariant
            i <= enemies.len(),
            enemies.len() == old(enemies).len(),
            forall|k: int|
                0 <= k < i ==> enemies[k].0 == old(enemies)[k].0 && enemies[k].1 == old(enemies)[k].1.moved(
                    old(enemies)[k].0.speed,
                    delta as nat,
                ),
            forall|k: int| i <= k < enemies.len() ==> enemies[k] == old(enemies)[k],
        decreases enemies.len() - i,
    {
        let (enemy, position) = enemies[i];
        enemies.set(i, (enemy, position.advance(enemy.speed, delta)));
        i += 1;
    }
}

/// Whether an enemy at `enemy_pos` has the ship at `player_pos` in its
/// sights: the enemy is to the right of the ship and more than
/// `MIN_DISTANCE_TO_SHOOT` away from it.
pub open spec fn in_sights(enemy_pos: Vec2, player_pos: Vec2) -> bool {
    &&& enemy_pos.x > player_pos.x
    &&& dist_sq(enemy_pos, player_pos) > MIN_DISTANCE_TO_SHOOT * MIN_DISTANCE_TO_SHOOT
}

/// The point an enemy aims at: the ship, missed by `jitter` along the y axis.
pub open spec fn aim_point(player_pos: Vec2, jitter: i32) -> Vec2 {
    Vec2 { x: player_pos.x, y: clamp_i32(player_pos.y + jitter) as i32 }
}

/// Whether `after` and `shot` are what one tick makes of an enemy at
/// `enemy_pos` whose gun was in the state `before`. The cooldown runs. An
/// enemy whose cooldown is over fires as soon as it has the ship in its
/// sights, at a point that misses the ship by `jitter`, and the cooldown
/// starts again.
pub open spec fn is_attack(
    enemy_pos: Vec2,
    before: BulletTimer,
    after: BulletTimer,
    shot: Option<BulletSpawn>,
    player_pos: Vec2,
    delta: nat,
    jitter: i32,
    bullet_res: BulletRes,
) -> bool {
    let ready = before.can_shoot || before.timer@.tick(delta).just_finished;
    &&& after.timer@ == before.timer_after(delta)
    &&& shot.is_some() == (ready && in_sights(enemy_pos, player_pos))
    &&& after.can_shoot == (ready && shot.is_none())
    &&& shot.is_some() ==> {
        &&& shot.unwrap().position == enemy_pos
        &&& shot.unwrap().bullet.speed == aimed(
            enemy_pos,
            aim_point(player_pos, jitter),
            BULLET_SPEED as int,
        )
        &&& shot.unwrap().hit_box == HitBox::around(bullet_res.enemy.collision_size)
        &&& shot.unwrap().destroy.size == bullet_res.enemy.sprite_size
    }
}

/// Whether `after` and `shot` are what one tick makes of an enemy for a miss
/// that can be drawn: one of less than `MAX_AIM_OFFSET` to either side.
pub open spec fn is_drawn_attack(
    enemy_pos: Vec2,
    before: BulletTimer,
    after: BulletTimer,
    shot: Option<BulletSpawn>,
    player_pos: Vec2,
    delta: nat,
    jitter: i32,
    bullet_res: BulletRes,
) -> bool {
    &&& -MAX_AIM_OFFSET <= jitter < MAX_AIM_OFFSET
    &&& is_attack(enemy_pos, before, after, shot, player_pos, delta, jitter, bullet_res)
}

/// Whether `after` and `shot` are what one tick makes of an enemy for some
/// miss that can be drawn.
pub open spec fn is_some_attack(
    enemy_pos: Vec2,
    before: BulletTimer,
    after: BulletTimer,
    shot: Option<BulletSpawn>,
    player_pos: Vec2,
    delta: nat,
    bullet_res: BulletRes,
) -> bool {
    exists|jitter: i32|
        is_drawn_attack(enemy_pos, before, after, shot, player_pos, delta, jitter, bullet_res)
}

/// One tick of one enemy's gun, for a shot that misses the ship by `jitter`.
pub fn attack_one(
    enemy_pos: Vec2,
    bullet_timer: &mut BulletTimer,
    player_pos: Vec2,
    delta: u64,
    jitter: i32,
    bullet_res: &BulletRes,
) -> (shot: Option<BulletSpawn>)
    ensures
        is_attack(
            enemy_pos,
            *old(bullet_timer),
            *final(bullet_timer),
            shot,
            player_pos,
            delta as nat,
            jitter,
            *bullet_res,
        ),
{
    bullet_timer.process(delta);
    if bullet_timer.can_shoot && enemy_pos.x > player_pos.x {
        let reach: u128 = (MIN_DISTANCE_TO_SHOOT as u128) * (MIN_DISTANCE_TO_SHOOT as u128);
        if enemy_pos.distance_sq(player_pos) > reach {
            let target = Vec2 {
                x: player_pos.x,
                y: saturate(player_pos.y as i128 + jitter as i128),
            };
            let bullet = Bullet::spawn(&bullet_res.enemy, enemy_pos, target, BULLET_SPEED);
            bullet_timer.shoot();
            return Some(bullet);
        }
    }
    None
}

/// One tick of the guns of all enemies, each given by its position and its
/// cooldown. Without a ship nothing happens: no cooldown runs and nobody
/// fires. With a ship each enemy does what `is_attack` says, for a miss drawn
/// at random. The result holds, for each enemy, the bullet it has fired.
pub fn attack(
    enemies: &mut Vec<(Vec2, BulletTimer)>,
    player: Option<Vec2>,
    delta: u64,
    bullet_res: &BulletRes,
) -> (shots: Vec<Option<BulletSpawn>>)
    ensures
        final(enemies).len() == old(enemies).len(),
        shots.len() == old(enemies).len(),
        forall|i: int| 0 <= i < old(enemies).len() ==> final(enemies)[i].0 == old(enemies)[i].0,
        player.is_none() ==> forall|i: int|
            0 <= i < old(enemies).len() ==> final(enemies)[i].1 == old(enemies)[i].1
                && shots[i].is_none(),
        player.is_some() ==> forall|i: int|
            0 <= i < old(enemies).len() ==> #[trigger] is_some_attack(
                old(enemies)[i].0,
                old(enemies)[i].1,
                final(enemies)[i].1,
                shots[i],
                player.unwrap(),
                delta as nat,
                *bullet_res,
            ),
{
    let mut shots: Vec<Option<BulletSpawn>> = Vec::new();
    let mut i: usize = 0;
    while i < enemies.len()
        invariant
            i <= enemies.len(),
            enemies.len() == old(enemies).len(),
            shots.len() == i,
            forall|k: int| 0 <= k < enemies.len() ==> enemies[k].0 == old(enemies)[k].0,
            forall|k: int| i <= k < enemies.len() ==> enemies[k] == old(enemies)[k],
            player.is_none() ==> forall|k: int|
                0 <= k < i ==> enemies[k].1 == old(enemies)[k].1 && shots[k].is_none(),
            player.is_some() ==> forall|k: int|
                0 <= k < i ==> #[trigger] is_some_attack(
                    old(enemies)[k].0,
                    old(enemies)[k].1,
                    enemies[k].1,
                    shots[k],
                    player.unwrap(),
                    delta as nat,
                    *bullet_res,
                ),
        decreases enemies.len() - i,
    {
        match player {
            None => {
                shots.push(None);
            },
            Some(player_pos) => {
                let (enemy_pos, mut bullet_timer) = enemies[i];
                let jitter = random_range(-(MAX_AIM_OFFSET as i64), MAX_AIM_OFFSET as i64) as i32;
                let shot = attack_one(
                    enemy_pos,
                    &mut bullet_timer,
                    player_pos,
                    delta,
                    jitter,
                    bullet_res,
                );
                enemies.set(i, (enemy_pos, bullet_timer));
                shots.push(shot);
                assert(is_drawn_attack(
                    old(enemies)[i as int].0,
                    old(enemies)[i as int].1,
                    enemies[i as int].1,
                    shots[i as int],
                    player.unwrap(),
                    delta as nat,
                    jitter,
                    *bullet_res,
                ));
                assert(is_some_attack(
                    old(enemies)[i as int].0,
                    old(enemies)[i as int].1,
                    enemies[i as int].1,
                    shots[i as int],
                    player.unwrap(),
                    delta as nat,
                    *bullet_res,
                ));
            },
        }
        i += 1;
    }
    shots
}

/// Whether bullet `bullet` has brought down one of the first `enemy` enemies.
pub open spec fn taken_before(hits: Seq<Option<usize>>, enemy: int, bullet: usize) -> bool {
    exists|k: int| 0 <= k < enemy && k < hits.len() && #[trigger] hits[k] == Some(bullet)
}

/// Whether `hits[enemy]` names the bullet that brings the enemy down: the
/// first bullet that overlaps it and has not brought down an enemy before it;
/// or nothing, where no such bullet is left.
pub open spec fn is_hit_of(
    enemies: Seq<(Vec2, HitBox)>,
    bullets: Seq<(Vec2, HitBox)>,
    hits: Seq<Option<usize>>,
    enemy: int,
) -> bool {
    let (pos, hit_box) = enemies[enemy];
    match hits[enemy] {
        Some(j) => {
            &&& j < bullets.len()
            &&& overlaps(pos, hit_box.0, bullets[j as int].0, bullets[j as int].1.0)
            &&& !taken_before(hits, enemy, j)
            &&& forall|k: usize|
                k < j ==> !overlaps(pos, hit_box.0, bullets[k as int].0, bullets[k as int].1.0)
                    || #[trigger] taken_before(hits, enemy, k)
        },
        None => forall|k: usize|
            k < bullets.len() ==> !overlaps(pos, hit_box.0, bullets[k as int].0, bullets[k as int].1.0)
                || #[trigger] taken_before(hits, enemy, k),
    }
}

/// How many enemies were brought down.
pub open spec fn count_hits(hits: Seq<Option<usize>>) -> nat
    decreases hits.len(),
{
    if hits.len() == 0 {
        0
    } else {
        count_hits(hits.drop_last()) + if hits.last().is_some() {
            1nat
        } else {
            0nat
        }
    }
}

/// The score after `hits` more points, which stops at the largest number it
/// can hold.
pub open spec fn score_after(score: u32, hits: nat) -> int {
    if score + hits <= u32::MAX {
        score + hits
    } else {
        u32::MAX as int
    }
}

/// No bullet brings down two enemies: where the hits are as `is_hit_of` says,
/// two enemies that are both brought down are brought down by different
/// bullets.
pub proof fn lemma_no_bullet_spent_twice(
    enemies: Seq<(Vec2, HitBox)>,
    bullets: Seq<(Vec2, HitBox)>,
    hits: Seq<Option<usize>>,
    first: int,
    second: int,
)
    requires
        hits.len() == enemies.len(),
        forall|i: int| 0 <= i < enemies.len() ==> is_hit_of(enemies, bullets, hits, i),
        0 <= first < second < enemies.len(),
        hits[first].is_some(),
        hits[second].is_some(),
    ensures
        hits[first] != hits[second],
{
    assert(is_hit_of(enemies, bullets, hits, second));
    let bullet = hits[second].unwrap();
    if hits[first] == Some(bullet) {
        assert(taken_before(hits, second, bullet));
    }
}

/// Finds the enemies that the ship's bullets have hit. Enemies are looked at
/// in order. Each is brought down by the first bullet that overlaps it and is
/// not already spent on an enemy before it; enemy and bullet are destroyed
/// together, the enemy explodes where it is, and the score goes up by one. The
/// result holds, for each enemy, the bullet that brought it down.
pub fn bullet_hit(
    enemies: &Vec<(Vec2, HitBox)>,
    player_bullets: &Vec<(Vec2, HitBox)>,
    score: &mut Score,
) -> (hits: Vec<Option<usize>>)
    ensures
        hits.len() == enemies.len(),
        forall|i: int| 0 <= i < enemies.len() ==> is_hit_of(enemies@, player_bullets@, hits@, i),
        final(score).score == score_after(old(score).score, count_hits(hits@)),
{
    let mut hits: Vec<Option<usize>> = Vec::new();
    let mut spent: Vec<bool> = Vec::new();
    let mut j: usize = 0;
    while j < player_bullets.len()
        invariant
            j <= player_bullets.len(),
            spent.len() == j,
            forall|k: int| 0 <= k < j ==> !spent[k],
        decreases player_bullets.len() - j,
    {
        spent.push(false);
        j += 1;
    }
    let mut i: usize = 0;
    while i < enemies.len()
        invariant
            i <= enemies.len(),
            hits.len() == i,
            spent.len() == player_bullets.len(),
            forall|k: usize|
                k < player_bullets.len() ==> spent[k as int] == #[trigger] taken_before(
                    hits@,
                    i as int,
                    k,
                ),
            forall|e: int| 0 <= e < i ==> is_hit_of(enemies@, player_bullets@, hits@, e),
            score.score == score_after(old(score).score, count_hits(hits@)),
        decreases enemies.len() - i,
    {
        let (pos, hit_box) = enemies[i];
        let ghost before = hits@;
        let mut found: Option<usize> = None;
        let mut j: usize = 0;
        while j < player_bullets.len() && found.is_none()
            invariant
                j <= player_bullets.len(),
                spent.len() == player_bullets.len(),
                hits@ == before,
                forall|k: usize|
                    k < player_bullets.len() ==> spent[k as int] == #[trigger] taken_before(
                        hits@,
                        i as int,
                        k,
                    ),
                match found {
                    Some(f) => {
                        &&& f < player_bullets.len()
                        &&& j == f + 1
                        &&& !spent[f as int]
                        &&& overlaps(pos, hit_box.0, player_bullets[f as int].0, player_bullets[f as int].1.0)
                        &&& forall|k: usize|
                            k < f ==> !overlaps(
                                pos,
                                hit_box.0,
                                player_bullets[k as int].0,
                                player_bullets[k as int].1.0,
                            ) || #[trigger] taken_before(hits@, i as int, k)
                    },
                    None => forall|k: usize|
                        k < j ==> !overlaps(
                            pos,
                            hit_box.0,
                            player_bullets[k as int].0,
                            player_bullets[k as int].1.0,
                        ) || #[trigger] taken_before(hits@, i as int, k),
                },
            decreases player_bullets.len() - j + if found.is_none() { 1nat } else { 0nat },
        {
            if !spent[j] && collide(pos, hit_box.0, player_bullets[j].0, player_bullets[j].1.0) {
                found = Some(j);
            }
            j += 1;
        }
        match found {
            Some(f) => {
                spent.set(f, true);
                score.inc();
            },
            None => {},
        }
        hits.push(found);
        proof {
            let now = hits@;
            assert(now.drop_last() == before);
            assert forall|k: usize| k < player_bullets.len() implies spent[k as int]
                == #[trigger] taken_before(now, i + 1, k) by {
                if taken_before(before, i as int, k) {
                    let w = choose|w: int| 0 <= w < i && w < before.len() && before[w] == Some(k);
                    assert(now[w] == Some(k));
                }
                if found == Some(k) {
                    assert(now[i as int] == Some(k));
                }
                if taken_before(now, i + 1, k) {
                    let w = choose|w: int| 0 <= w < i + 1 && w < now.len() && now[w] == Some(k);
                    if w < i {
                        assert(before[w] == Some(k));
                    }
                }
            }
            assert forall|e: int| 0 <= e <= i implies is_hit_of(
                enemies@,
                player_bullets@,
                now,
                e,
            ) by {
                assert forall|k: usize| taken_before(now, e, k) == taken_before(before, e, k) by {
                    if taken_before(now, e, k) {
                        let w = choose|w: int| 0 <= w < e && w < now.len() && now[w] == Some(k);
                        assert(before[w] == Some(k));
                    }
                    if taken_before(before, e, k) {
                        let w = choose|w: int|
                            0 <= w < e && w < before.len() && before[w] == Some(k);
                        assert(now[w] == Some(k));
                    }
                }
                if e < i {
                    assert(is_hit_of(enemies@, player_bullets@, before, e));
                    assert(now[e] == before[e]);
                }
            }
        }
        i += 1;
    }
    hits
}

} // verus!
