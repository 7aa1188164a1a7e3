//! The player's ship: steering, the heat of its gun, and its end.

use crate::bullet::{Bullet, BulletRes, BulletSpawn, BulletTimer, HitBox};
use crate::collision::{first_overlap, inside_bounds, is_first_overlap, Bounds, Screen, Window};
use crate::math::{
    clamp, clamp_i32, displacement, div_toward_zero, isqrt, lemma_aim_along_x,
    lemma_product_bound, lemma_sqrt_floor, lemma_sqrt_reaches, quotient, saturate, sqrt_floor, travelled, Vec2, UNIT,
};
use crate::state::{Flow, FlowView, GameState, Trigger};
use crate::timer::NANOS_PER_SEC;
use vstd::prelude::*;

verus! {

/// Width of the ship.
pub const SIZE_X: i32 = 150_000;

/// Height of the ship.
pub const SIZE_Y: i32 = 81_907;

/// Speed of the ship at full throttle, per second.
pub const SPEED: i32 = 1_000_000;

/// How much the throttle can change in a second.
pub const SPEED_CHANGE: i32 = 4_500_000;

/// Each component of a diagonal of length `UNIT`.
pub const DIAGONAL: i32 = 707_107;

/// The keys that steer the ship, as held down during one tick.
#[derive(Debug, Clone, Copy, PartialEq, Eq, Structural)]
pub struct Steering {
    pub left: bool,
    pub right: bool,
    pub up: bool,
    pub down: bool,
    /// Halves the speed.
    pub slow: bool,
}

/// The ship's own state.
#[derive(Debug, Clone, Copy, PartialEq, Eq, Structural)]
pub struct Player {
    /// The throttle: the direction the ship moves in, with `UNIT` as full speed.
    pub cur_speed_vec: Vec2,
    /// How hot the gun is; at `UNIT` it stops firing.
    pub heat: i32,
    /// How fast the gun cools, per second.
    pub heat_recovery: i32,
}

/// How much slower than at full throttle the ship slides into the field.
pub const SLIDE_OUT_SLOWDOWN: i32 = 5;

/// Speed of the ship's bullets, per second.
pub const BULLET_SPEED: i32 = 2_000_000;

/// The cooldown of the ship's gun, in nanoseconds.
pub const BULLET_PERIOD: u64 = 100_000_000;

/// How far in front of the centre of the ship the muzzle is.
pub const MUZZLE_X: i32 = 30_000;

/// How far above the centre of the ship the muzzle is: it is below.
pub const MUZZLE_Y: i32 = -25_000;

/// By how much one shot heats the gun.
pub const BULLET_HEAT: i32 = 50_000;

/// How fast the gun cools right after a shot, per second.
pub const MIN_HEAT_RECOVERY: i32 = 250_000;

/// How fast the gun cools at most, per second.
pub const MAX_HEAT_RECOVERY: i32 = 500_000;

/// By how much the cooling speeds up in a second without a shot.
pub const HEAT_RECOVERY_INCREASE: i32 = 100_000;

impl Player {
    /// A ship at rest with a cold gun.
    pub fn new() -> (r: Player)
        ensures
            r == (Player { cur_speed_vec: Vec2 { x: 0, y: 0 }, heat: 0, heat_recovery: 0 }),
    {
        Player { cur_speed_vec: Vec2 { x: 0, y: 0 }, heat: 0, heat_recovery: 0 }
    }

    /// The ship after a shot: the gun is hotter by `BULLET_HEAT`, and cools at
    /// the slowest rate again.
    pub open spec fn heated(self) -> Player {
        Player {
            heat: clamp_i32(self.heat + BULLET_HEAT) as i32,
            heat_recovery: MIN_HEAT_RECOVERY,
            ..self
        }
    }

    /// How fast the gun cools after `delta` nanoseconds without a shot.
    pub open spec fn recovery_after(self, delta: nat) -> int {
        clamp(
            self.heat_recovery + travelled(HEAT_RECOVERY_INCREASE as int, delta),
            i32::MIN as int,
            MAX_HEAT_RECOVERY as int,
        )
    }

    /// The ship after `delta` nanoseconds without a shot: the cooling has sped
    /// up, though not beyond `MAX_HEAT_RECOVERY`, and the gun has cooled at
    /// the new rate, though not below zero.
    pub open spec fn cooled(self, delta: nat) -> Player {
        Player {
            heat: clamp(
                self.heat - travelled(self.recovery_after(delta), delta),
                0,
                i32::MAX as int,
            ) as i32,
            heat_recovery: self.recovery_after(delta) as i32,
            ..self
        }
    }

    /// Accounts for one shot.
    pub fn increase_heat(&mut self)
        ensures
            *final(self) == old(self).heated(),
    {
        self.heat = saturate(self.heat as i128 + BULLET_HEAT as i128);
        self.heat_recovery = MIN_HEAT_RECOVERY;
    }

    /// Accounts for `delta` nanoseconds without a shot.
    pub fn cooldown(&mut self, delta: u64)
        ensures
            *final(self) == old(self).cooled(delta as nat),
    {
        let faster: i128 = self.heat_recovery as i128 + displacement(
            HEAT_RECOVERY_INCREASE,
            delta,
        );
        if faster > MAX_HEAT_RECOVERY as i128 {
            self.heat_recovery = MAX_HEAT_RECOVERY;
        } else {
            self.heat_recovery = saturate(faster);
        }
        let cooler: i128 = self.heat as i128 - displacement(self.heat_recovery, delta);
        if cooler < 0 {
            self.heat = 0;
        } else {
            self.heat = saturate(cooler);
        }
    }
}

/// A gun left alone cools: its heat drops, though not below zero, and the rate
/// at which it cools grows, though not beyond `MAX_HEAT_RECOVERY`.
pub proof fn lemma_gun_cools(player: Player, delta: nat)
    requires
        0 <= player.heat,
        0 <= player.heat_recovery <= MAX_HEAT_RECOVERY,
    ensures
        0 <= player.cooled(delta).heat <= player.heat,
        player.heat_recovery <= player.cooled(delta).heat_recovery <= MAX_HEAT_RECOVERY,
{
    assert(HEAT_RECOVERY_INCREASE * delta >= 0) by (nonlinear_arith)
        requires
            delta >= 0,
    ;
    vstd::arithmetic::div_mod::lemma_div_pos_is_pos(
        HEAT_RECOVERY_INCREASE * delta,
        NANOS_PER_SEC as int,
    );
    let rate = player.recovery_after(delta);
    assert(rate * delta >= 0) by (nonlinear_arith)
        requires
            rate >= 0,
            delta >= 0,
    ;
    vstd::arithmetic::div_mod::lemma_div_pos_is_pos(rate * delta, NANOS_PER_SEC as int);
}

/// All that a new ship consists of.
#[derive(Debug, Clone, Copy)]
pub struct PlayerSpawn {
    pub position: Vec2,
    pub player: Player,
    pub bullet_timer: BulletTimer,
    pub hit_box: HitBox,
}

/// A new ship: at rest, just left of the field and a little above its middle,
/// with a gun that may fire at once and a hit box of nine tenths of the ship.
pub fn spawn() -> (r: PlayerSpawn)
    ensures
        r.position.x == -SIZE_X,
        r.position.y == UNIT / 2 + SIZE_Y / 2,
        r.player == (Player { cur_speed_vec: Vec2 { x: 0, y: 0 }, heat: 0, heat_recovery: 0 }),
        r.bullet_timer.can_shoot,
        r.bullet_timer.timer@ == crate::timer::TimerView::fresh(BULLET_PERIOD as nat, true),
        r.hit_box == HitBox(Vec2 { x: 67_500, y: 36_858 }),
{
    PlayerSpawn {
        position: Vec2 { x: -SIZE_X, y: UNIT / 2 + SIZE_Y / 2 },
        player: Player::new(),
        bullet_timer: BulletTimer::new(BULLET_PERIOD),
        hit_box: HitBox(Vec2 { x: 67_500, y: 36_858 }),
    }
}

/// A bullet that the ship fires.
#[derive(Debug, Clone, Copy, PartialEq, Eq, Structural)]
pub struct Shot {
    pub bullet: BulletSpawn,
    /// How blue the bullet is, from `UNIT` for a cold gun down to nothing for
    /// a gun about to overheat.
    pub blue: i32,
}

/// Where the bullet of a ship at `position` starts.
pub open spec fn muzzle(position: Vec2) -> Vec2 {
    Vec2 {
        x: clamp_i32(position.x + MUZZLE_X) as i32,
        y: clamp_i32(position.y + MUZZLE_Y) as i32,
    }
}

/// Whether the ship fires in a tick: the trigger is held, the cooldown is over
/// or ends with this tick, and the gun has not overheated.
pub open spec fn fires(bullet_timer: BulletTimer, player: Player, trigger: bool, delta: nat) -> bool {
    &&& trigger
    &&& bullet_timer.can_shoot || bullet_timer.timer@.tick(delta).just_finished
    &&& player.heat < UNIT
}

/// One tick of the ship's gun. Where the ship fires, a bullet leaves the
/// muzzle straight ahead, the cooldown starts, and the gun heats up. Where it
/// does not, the gun cools.
pub fn attack(
    position: Vec2,
    bullet_timer: &mut BulletTimer,
    player: &mut Player,
    trigger: bool,
    delta: u64,
    bullet_res: &BulletRes,
) -> (shot: Option<Shot>)
    ensures
        final(bullet_timer).timer@ == old(bullet_timer).timer_after(delta as nat),
        shot.is_some() == fires(*old(bullet_timer), *old(player), trigger, delta as nat),
        shot.is_some() ==> {
            &&& !final(bullet_timer).can_shoot
            &&& *final(player) == old(player).heated()
            &&& shot.unwrap().blue == clamp_i32(UNIT - old(player).heat)
            &&& shot.unwrap().bullet.position == muzzle(position)
            &&& shot.unwrap().bullet.bullet.speed == (Vec2 { x: BULLET_SPEED, y: 0 })
            &&& shot.unwrap().bullet.hit_box == HitBox::around(bullet_res.player.collision_size)
            &&& shot.unwrap().bullet.destroy.size == bullet_res.player.sprite_size
        },
        shot.is_none() ==> {
            &&& final(bullet_timer).can_shoot == (old(bullet_timer).can_shoot || old(bullet_timer).timer@.tick(delta as nat).just_finished)
            &&& *final(player) == old(player).cooled(delta as nat)
        },
{
    bullet_timer.process(delta);
    if trigger && bullet_timer.can_shoot && player.heat < UNIT {
        let starting_point = Vec2 {
            x: saturate(position.x as i128 + MUZZLE_X as i128),
            y: saturate(position.y as i128 + MUZZLE_Y as i128),
        };
        let ahead = Vec2 {
            x: saturate(starting_point.x as i128 + UNIT as i128),
            y: starting_point.y,
        };
        proof {
            lemma_aim_along_x(starting_point, ahead, BULLET_SPEED as int);
        }
        let blue: i32 = saturate(UNIT as i128 - player.heat as i128);
        let bullet = Bullet::spawn(&bullet_res.player, starting_point, ahead, BULLET_SPEED);
        bullet_timer.shoot();
        player.increase_heat();
        Some(Shot { bullet, blue })
    } else {
        player.cooldown(delta);
        None
    }
}

/// What a collision of the ship leaves behind.
#[derive(Debug, Clone, Copy, PartialEq, Eq, Structural)]
pub struct Crash {
    /// Which of the others the ship ran into; it is destroyed with the ship.
    pub other: usize,
    /// Where the ship explodes.
    pub explosion: Vec2,
    /// Where the other explodes, if it does.
    pub other_explosion: Option<Vec2>,
}

/// Looks for an enemy that the ship has run into. This happens only while the
/// game is on. The first enemy that overlaps the ship is destroyed with it,
/// both explode, and the game is over.
pub fn collision_with_enemy(
    flow: &mut Flow,
    player_pos: Vec2,
    player_box: HitBox,
    enemies: &Vec<(Vec2, HitBox)>,
) -> (crash: Option<Crash>)
    ensures
        !old(flow)@.in_phase(GameState::Game) ==> crash.is_none() && final(flow)@ == old(flow)@,
        old(flow)@.in_phase(GameState::Game) ==> {
            &&& is_first_overlap(
                player_pos,
                player_box,
                enemies@,
                match crash {
                    Some(c) => Some(c.other),
                    None => None,
                },
            )
            &&& final(flow)@ == if crash.is_some() {
                FlowView { state: GameState::GameOver, moved: true }
            } else {
                old(flow)@
            }
        },
        crash.is_some() ==> crash.unwrap().explosion == player_pos && crash.unwrap().other_explosion
            == Some(enemies[crash.unwrap().other as int].0),
{
    if !flow.in_phase(GameState::Game) {
        return None;
    }
    match first_overlap(player_pos, player_box, enemies) {
        Some(other) => {
            flow.fire(Trigger::PlayerDestroyed);
            Some(Crash { other, explosion: player_pos, other_explosion: Some(enemies[other].0) })
        },
        None => None,
    }
}

/// Looks for an enemy bullet that has hit the ship. This happens only while
/// the game is on. The first bullet that overlaps the ship is destroyed with
/// it, the ship explodes, and the game is over.
pub fn collision_with_bullet(
    flow: &mut Flow,
    player_pos: Vec2,
    player_box: HitBox,
    enemy_bullets: &Vec<(Vec2, HitBox)>,
) -> (crash: Option<Crash>)
    ensures
        !old(flow)@.in_phase(GameState::Game) ==> crash.is_none() && final(flow)@ == old(flow)@,
        old(flow)@.in_phase(GameState::Game) ==> {
            &&& is_first_overlap(
                player_pos,
                player_box,
                enemy_bullets@,
                match crash {
                    Some(c) => Some(c.other),
                    None => None,
                },
            )
            &&& final(flow)@ == if crash.is_some() {
                FlowView { state: GameState::GameOver, moved: true }
            } else {
                old(flow)@
            }
        },
        crash.is_some() ==> crash.unwrap().explosion == player_pos && crash.unwrap().other_explosion
            == None::<Vec2>,
{
    if !flow.in_phase(GameState::Game) {
        return None;
    }
    match first_overlap(player_pos, player_box, enemy_bullets) {
        Some(other) => {
            flow.fire(Trigger::PlayerDestroyed);
            Some(Crash { other, explosion: player_pos, other_explosion: None })
        },
        None => None,
    }
}

/// How far the ship slides in `delta` nanoseconds on its way into the field.
pub open spec fn slide(delta: nat) -> int {
    travelled((SPEED / SLIDE_OUT_SLOWDOWN) as int, delta)
}

/// One tick of the ship's slide into the field, which happens only in the
/// phase of that name: the ship moves to the right, and the game starts once
/// its centre is more than half its width into the field.
pub fn slide_out(flow: &mut Flow, position: &mut Vec2, delta: u64)
    ensures
        !old(flow)@.in_phase(GameState::PlayerSlideOut) ==> final(flow)@ == old(flow)@ && *final(position) == *old(position),
        old(flow)@.in_phase(GameState::PlayerSlideOut) ==> {
            &&& final(position).x == clamp_i32(old(position).x + slide(delta as nat))
            &&& final(position).y == old(position).y
            &&& final(flow)@ == if final(position).x > SIZE_X / 2 {
                FlowView { state: GameState::Game, moved: true }
            } else {
                old(flow)@
            }
        },
{
    if !flow.in_phase(GameState::PlayerSlideOut) {
        return ;
    }
    position.x = saturate(position.x as i128 + displacement(SPEED / SLIDE_OUT_SLOWDOWN, delta));
    if position.x > SIZE_X / 2 {
        flow.fire(Trigger::PlayerInField);
    }
}

/// `-1`, `0` or `1`: where a pair of opposite keys pulls.
pub open spec fn pull(negative: bool, positive: bool) -> int {
    if positive && !negative {
        1
    } else if negative && !positive {
        -1
    } else {
        0
    }
}

/// The throttle the keys ask for: of length `UNIT` in the direction they
/// pull, or zero where they pull nowhere.
pub open spec fn target_direction(keys: Steering) -> Vec2 {
    let x = pull(keys.left, keys.right);
    let y = pull(keys.down, keys.up);
    if x != 0 && y != 0 {
        Vec2 { x: (x * DIAGONAL) as i32, y: (y * DIAGONAL) as i32 }
    } else {
        Vec2 { x: (x * UNIT) as i32, y: (y * UNIT) as i32 }
    }
}

/// The throttle after `delta` nanoseconds of easing from `cur` towards
/// `target`. It changes by `SPEED_CHANGE` per second along the straight line
/// to the target, and is the target itself once less than one tick's change
/// is missing.
pub open spec fn eased(cur: Vec2, target: Vec2, delta: nat) -> Vec2 {
    let dx = target.x - cur.x;
    let dy = target.y - cur.y;
    let missing_sq = dx * dx + dy * dy;
    let change = travelled(SPEED_CHANGE as int, delta);
    if missing_sq == 0 || missing_sq < change * change {
        target
    } else {
        let missing = sqrt_floor(missing_sq as nat) as int;
        Vec2 {
            x: (cur.x + quotient(dx * change, missing)) as i32,
            y: (cur.y + quotient(dy * change, missing)) as i32,
        }
    }
}

/// How far the ship gets along one axis in `delta` nanoseconds with the
/// throttle at `throttle`.
pub open spec fn ship_travel(throttle: int, slow: bool, delta: nat) -> int {
    let speed = if slow {
        SPEED / 2
    } else {
        SPEED as int
    };
    quotient(throttle * speed * delta, UNIT * NANOS_PER_SEC)
}

/// Where the ship ends up along one axis when it wants to be at `next` and
/// may be between `low` and `high`.
pub open spec fn held_in(next: int, low: int, high: int) -> int {
    if next < low {
        low
    } else if next > high {
        high
    } else {
        next
    }
}

/// The ship's position and throttle after a tick, given the throttle that the
/// easing has produced. A ship at rest stays where it is. A moving ship is
/// kept within `bounds`, and loses its throttle along an axis on which it was
/// held back.
pub open spec fn steered(position: Vec2, throttle: Vec2, slow: bool, delta: nat, bounds: Bounds) -> (
    Vec2,
    Vec2,
) {
    if throttle.x == 0 && throttle.y == 0 {
        (position, throttle)
    } else {
        let next_x = position.x + ship_travel(throttle.x as int, slow, delta);
        let next_y = position.y + ship_travel(throttle.y as int, slow, delta);
        (
            Vec2 {
                x: held_in(next_x, bounds.left as int, bounds.right as int) as i32,
                y: held_in(next_y, bounds.bottom as int, bounds.top as int) as i32,
            },
            Vec2 {
                x: if bounds.left <= next_x <= bounds.right {
                    throttle.x
                } else {
                    0
                },
                y: if bounds.bottom <= next_y <= bounds.top {
                    throttle.y
                } else {
                    0
                },
            },
        )
    }
}

/// The ship's position and throttle after one tick of steering: the throttle
/// eases towards what the keys ask for, and the ship moves with it.
pub open spec fn after_tick(
    position: Vec2,
    throttle: Vec2,
    keys: Steering,
    delta: nat,
    bounds: Bounds,
) -> (Vec2, Vec2) {
    steered(
        position,
        eased(throttle, target_direction(keys), delta),
        keys.slow,
        delta,
        bounds,
    )
}

/// The ship's position and throttle after the ticks `ticks`, first to last,
/// each given by the keys held and its length in nanoseconds.
pub open spec fn after_ticks(
    position: Vec2,
    throttle: Vec2,
    ticks: Seq<(Steering, nat)>,
    bounds: Bounds,
) -> (Vec2, Vec2)
    decreases ticks.len(),
{
    if ticks.len() == 0 {
        (position, throttle)
    } else {
        let next = after_tick(position, throttle, ticks[0].0, ticks[0].1, bounds);
        after_ticks(next.0, next.1, ticks.skip(1), bounds)
    }
}

/// Where a pair of opposite keys pulls.
fn pull_of(negative: bool, positive: bool) -> (r: i32)
    ensures
        r == pull(negative, positive),
{
    if positive && !negative {
        1
    } else if negative && !positive {
        -1
    } else {
        0
    }
}

/// The throttle the keys ask for.
pub fn target_speed_vector(keys: &Steering) -> (r: Vec2)
    ensures
        r == target_direction(*keys),
        -UNIT <= r.x <= UNIT,
        -UNIT <= r.y <= UNIT,
{
    let x = pull_of(keys.left, keys.right);
    let y = pull_of(keys.down, keys.up);
    if x != 0 && y != 0 {
        Vec2 { x: x * DIAGONAL, y: y * DIAGONAL }
    } else {
        Vec2 { x: x * UNIT, y: y * UNIT }
    }
}

/// A step of `change` along a line of length `missing` moves each coordinate
/// towards the target and not beyond it.
proof fn lemma_step_within(d: int, change: int, missing: int)
    requires
        0 <= change <= missing,
        0 < missing,
    ensures
        d >= 0 ==> 0 <= quotient(d * change, missing) <= d,
        d <= 0 ==> d <= quotient(d * change, missing) <= 0,
{
    if d >= 0 {
        assert(0 <= d * change <= d * missing) by (nonlinear_arith)
            requires
                0 <= d,
                0 <= change <= missing,
        ;
        assert(0 <= (d * change) / missing <= d) by (nonlinear_arith)
            requires
                0 <= d * change <= d * missing,
                0 < missing,
        ;
    } else {
        let e = -d;
        assert(0 <= e * change <= e * missing && e * change == -(d * change))
            by (nonlinear_arith)
            requires
                0 <= e,
                e == -d,
                0 <= change <= missing,
        ;
        assert(0 <= (e * change) / missing <= e) by (nonlinear_arith)
            requires
                0 <= e * change <= e * missing,
                0 < missing,
        ;
        if d * change == 0 {
            assert(0int / missing == 0) by (nonlinear_arith)
                requires
                    0 < missing,
            ;
        }
    }
}

/// Eases the throttle `cur` towards `target` for `delta` nanoseconds. The
/// result lies between the two in each coordinate.
pub fn ease(cur: Vec2, target: Vec2, delta: u64) -> (r: Vec2)
    ensures
        r == eased(cur, target, delta as nat),
        cur.x <= target.x ==> cur.x <= r.x <= target.x,
        cur.x >= target.x ==> cur.x >= r.x >= target.x,
        cur.y <= target.y ==> cur.y <= r.y <= target.y,
        cur.y >= target.y ==> cur.y >= r.y >= target.y,
{
    let dx: i128 = target.x as i128 - cur.x as i128;
    let dy: i128 = target.y as i128 - cur.y as i128;
    let missing_sq: u128 = target.distance_sq(cur);
    let change: i128 = displacement(SPEED_CHANGE, delta);
    if missing_sq == 0 {
        return target;
    }
    // A change this large exceeds the distance between any two throttles.
    if change >= 0x2_0000_0000 {
        assert(missing_sq < change * change) by (nonlinear_arith)
            requires
                change >= 0x2_0000_0000,
                missing_sq <= 0x2_0000_0000_0000_0000,
        ;
        return target;
    }
    assert(0 <= change * change <= 0x2_0000_0000 * 0x2_0000_0000) by (nonlinear_arith)
        requires
            0 <= change <= 0x2_0000_0000,
    ;
    if missing_sq < (change * change) as u128 {
        return target;
    }
    let missing: i128 = isqrt(missing_sq) as i128;
    proof {
        lemma_sqrt_floor(missing_sq as nat);
        lemma_sqrt_reaches(missing_sq as nat, change as nat);
        assert((missing + 1) * (missing + 1) == 1 || missing >= 1) by (nonlinear_arith)
            requires
                missing >= 0,
        ;
        lemma_step_within(dx as int, change as int, missing as int);
        lemma_step_within(dy as int, change as int, missing as int);
        lemma_product_bound(dx as int, change as int, 0xffff_ffff, 0x2_0000_0000);
        lemma_product_bound(dy as int, change as int, 0xffff_ffff, 0x2_0000_0000);
    }
    Vec2 {
        x: (cur.x as i128 + div_toward_zero(dx * change, missing)) as i32,
        y: (cur.y as i128 + div_toward_zero(dy * change, missing)) as i32,
    }
}

/// How far the ship gets along one axis in `delta` nanoseconds.
fn ship_displacement(throttle: i32, slow: bool, delta: u64) -> (r: i128)
    ensures
        r == ship_travel(throttle as int, slow, delta as nat),
        -0x0100_0000_0000_0000_0000_0000_0000_0000 <= r <= 0x0100_0000_0000_0000_0000_0000_0000_0000,
{
    let speed: i128 = if slow {
        (SPEED / 2) as i128
    } else {
        SPEED as i128
    };
    proof {
        lemma_product_bound(throttle as int, speed as int, 0x8000_0000, 1_000_000);
        lemma_product_bound(
            throttle * speed,
            delta as int,
            0x8000_0000int * 1_000_000int,
            0x1_0000_0000_0000_0000,
        );
    }
    let product: i128 = throttle as i128 * speed * delta as i128;
    div_toward_zero(product, UNIT as i128 * NANOS_PER_SEC as i128)
}

/// One tick of steering: eases the throttle towards what the keys ask for,
/// moves the ship, and keeps it where all of it is on the field.
pub fn movement(
    position: &mut Vec2,
    player: &mut Player,
    keys: &Steering,
    delta: u64,
    win: &Window,
)
    ensures
        (*final(position), final(player).cur_speed_vec) == after_tick(
            *old(position),
            old(player).cur_speed_vec,
            *keys,
            delta as nat,
            inside_bounds(win.width(), Vec2 { x: SIZE_X, y: SIZE_Y }),
        ),
        final(player).heat == old(player).heat,
        final(player).heat_recovery == old(player).heat_recovery,
{
    let bounds = win.bounds_box_inside(Vec2 { x: SIZE_X, y: SIZE_Y });
    let target = target_speed_vector(keys);
    let mut throttle = ease(player.cur_speed_vec, target, delta);
    if throttle.x != 0 || throttle.y != 0 {
        let next_x: i128 = position.x as i128 + ship_displacement(throttle.x, keys.slow, delta);
        let next_y: i128 = position.y as i128 + ship_displacement(throttle.y, keys.slow, delta);
        let mut next = *position;
        if next_x < bounds.left as i128 {
            next.x = bounds.left;
            throttle.x = 0;
        } else if next_x > bounds.right as i128 {
            next.x = bounds.right;
            throttle.x = 0;
        } else {
            next.x = next_x as i32;
        }
        if next_y < bounds.bottom as i128 {
            next.y = bounds.bottom;
            throttle.y = 0;
        } else if next_y > bounds.top as i128 {
            next.y = bounds.top;
            throttle.y = 0;
        } else {
            next.y = next_y as i32;
        }
        *position = next;
    }
    player.cur_speed_vec = throttle;
}

/// A ship that moves, or that was on its part of the field before, is on its
/// part of the field after the tick, whatever the keys and however long the
/// tick.
pub proof fn lemma_ship_stays_inside(
    position: Vec2,
    throttle: Vec2,
    slow: bool,
    delta: nat,
    bounds: Bounds,
)
    requires
        bounds.well_formed(),
        bounds.contains(position) || throttle != (Vec2 { x: 0, y: 0 }),
    ensures
        bounds.contains(steered(position, throttle, slow, delta, bounds).0),
{
}

/// A ship that is on its part of the field stays there for good, whatever
/// keys are held from tick to tick and however long the ticks are.
pub proof fn lemma_ship_stays_inside_for_good(
    position: Vec2,
    throttle: Vec2,
    ticks: Seq<(Steering, nat)>,
    bounds: Bounds,
)
    requires
        bounds.well_formed(),
        bounds.contains(position),
    ensures
        bounds.contains(after_ticks(position, throttle, ticks, bounds).0),
    decreases ticks.len(),
{
    if ticks.len() > 0 {
        let next = after_tick(position, throttle, ticks[0].0, ticks[0].1, bounds);
        lemma_ship_stays_inside(
            position,
            eased(throttle, target_direction(ticks[0].0), ticks[0].1),
            ticks[0].0.slow,
            ticks[0].1,
            bounds,
        );
        lemma_ship_stays_inside_for_good(next.0, next.1, ticks.skip(1), bounds);
    }
}

/// The part of the field that the ship may be on is not empty as long as the
/// field is at least as wide as the ship.
pub proof fn lemma_ship_has_room(field_width: int)
    requires
        SIZE_X <= field_width,
    ensures
        inside_bounds(field_width, Vec2 { x: SIZE_X, y: SIZE_Y }).well_formed(),
{
}

/// A throttle of at most full speed along each axis stays so.
pub proof fn lemma_throttle_bounded(cur: Vec2, keys: Steering, delta: nat)
    requires
        -UNIT <= cur.x <= UNIT,
        -UNIT <= cur.y <= UNIT,
    ensures
        -UNIT <= eased(cur, target_direction(keys), delta).x <= UNIT,
        -UNIT <= eased(cur, target_direction(keys), delta).y <= UNIT,
{
    let target = target_direction(keys);
    let dx = target.x - cur.x;
    let dy = target.y - cur.y;
    let missing_sq = dx * dx + dy * dy;
    let change = travelled(SPEED_CHANGE as int, delta);
    assert(dx * dx >= 0 && dy * dy >= 0) by (nonlinear_arith);
    vstd::arithmetic::div_mod::lemma_div_pos_is_pos(SPEED_CHANGE * delta, NANOS_PER_SEC as int);
    assert(SPEED_CHANGE * delta >= 0) by (nonlinear_arith)
        requires
            delta >= 0,
    ;
    if !(missing_sq == 0 || missing_sq < change * change) {
        lemma_sqrt_floor(missing_sq as nat);
        lemma_sqrt_reaches(missing_sq as nat, change as nat);
        let missing = sqrt_floor(missing_sq as nat) as int;
        assert((missing + 1) * (missing + 1) == 1 || missing >= 1) by (nonlinear_arith)
            requires
                missing >= 0,
        ;
        lemma_step_within(dx, change, missing);
        lemma_step_within(dy, change, missing);
    }
}

} // verus!
