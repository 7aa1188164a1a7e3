//! Projectiles: how they are launched, how they fly, and the cooldown between
//! two shots of one shooter.

use crate::collision::{half, DestroyOutsideScreen};
use crate::math::{aim, aimed, div_toward_zero, Vec2};
use crate::timer::{Timer, TimerView};
use vstd::prelude::*;

verus! {

/// The measures of one sort of bullet.
#[derive(Debug, Clone, Copy, PartialEq, Eq, Structural)]
pub struct BulletResInfo {
    /// The size the bullet is drawn at.
    pub sprite_size: Vec2,
    /// The size of the part of it that hits.
    pub collision_size: Vec2,
}

/// The two sorts of bullet in the game.
#[derive(Debug, Clone, Copy, PartialEq, Eq, Structural)]
pub struct BulletRes {
    pub player: BulletResInfo,
    pub enemy: BulletResInfo,
}

impl BulletRes {
    /// The bullets as the game ships them: the ship's shots are drawn larger
    /// than those of the enemies, and a tenth of either drawing hits.
    pub fn new() -> (r: BulletRes)
        ensures
            r.player.sprite_size == (Vec2 { x: 150_000, y: 137_234 }),
            r.player.collision_size == (Vec2 { x: 15_000, y: 13_723 }),
            r.enemy.sprite_size == (Vec2 { x: 108_461, y: 99_230 }),
            r.enemy.collision_size == (Vec2 { x: 10_846, y: 9_923 }),
    {
        BulletRes {
            player: BulletResInfo {
                sprite_size: Vec2 { x: 150_000, y: 137_234 },
                collision_size: Vec2 { x: 15_000, y: 13_723 },
            },
            enemy: BulletResInfo {
                sprite_size: Vec2 { x: 108_461, y: 99_230 },
                collision_size: Vec2 { x: 10_846, y: 9_923 },
            },
        }
    }
}

/// The half extents of what can be hit, around the position of its owner.
#[derive(Debug, Clone, Copy, PartialEq, Eq, Structural)]
pub struct HitBox(pub Vec2);

impl HitBox {
    /// The hit box of something whose hitting part has the size `size`.
    pub open spec fn around(size: Vec2) -> HitBox {
        HitBox(Vec2 { x: half(size.x as int) as i32, y: half(size.y as int) as i32 })
    }

    /// The hit box of something whose hitting part has the size `size`.
    pub fn from_size(size: Vec2) -> (r: HitBox)
        ensures
            r == HitBox::around(size),
    {
        HitBox(
            Vec2 {
                x: div_toward_zero(size.x as i128, 2) as i32,
                y: div_toward_zero(size.y as i128, 2) as i32,
            },
        )
    }
}

/// A projectile in flight.
#[derive(Debug, Clone, Copy, PartialEq, Eq, Structural)]
pub struct Bullet {
    /// Its velocity, which never changes.
    pub speed: Vec2,
}

/// All that a new bullet consists of.
#[derive(Debug, Clone, Copy, PartialEq, Eq, Structural)]
pub struct BulletSpawn {
    pub position: Vec2,
    pub bullet: Bullet,
    pub hit_box: HitBox,
    pub destroy: DestroyOutsideScreen,
}

impl Bullet {
    /// Launches a bullet from `starting_point` towards `target_point` at
    /// `speed`. It flies in a straight line, hits with the collision size of its
    /// sort, and is removed once its drawing has left the field. A bullet aimed
    /// at its own starting point flies along the x axis.
    pub fn spawn(
        res_info: &BulletResInfo,
        starting_point: Vec2,
        target_point: Vec2,
        speed: i32,
    ) -> (r: BulletSpawn)
        ensures
            r.position == starting_point,
            r.bullet.speed == aimed(starting_point, target_point, speed as int),
            r.hit_box == HitBox::around(res_info.collision_size),
            r.destroy.size == res_info.sprite_size,
    {
        BulletSpawn {
            position: starting_point,
            bullet: Bullet { speed: aim(starting_point, target_point, speed) },
            hit_box: HitBox::from_size(res_info.collision_size),
            destroy: DestroyOutsideScreen { size: res_info.sprite_size },
        }
    }
}

/// Moves every bullet by its velocity times `delta` nanoseconds.
pub fn movement(bullets: &mut Vec<(Bullet, Vec2)>, delta: u64)
    ensures
        final(bullets).len() == old(bullets).len(),
        forall|i: int|
            0 <= i < old(bullets).len() ==> final(bullets)[i].0 == old(bullets)[i].0 && final(bullets)[i].1 == old(bullets)[i].1.moved(old(bullets)[i].0.speed, delta as nat),
{
    let mut i: usize = 0;
    while i < bullets.len()
        invariant
            i <= bullets.len(),
            bullets.len() == old(bullets).len(),
            forall|k: int|
                0 <= k < i ==> bullets[k].0 == old(bullets)[k].0 && bullets[k].1 == old(bullets)[k].1.moved(old(bullets)[k].0.speed, delta as nat),
            forall|k: int| i <= k < bullets.len() ==> bullets[k] == old(bullets)[k],
        decreases bullets.len() - i,
    {
        let (bullet, position) = bullets[i];
        bullets.set(i, (bullet, position.advance(bullet.speed, delta)));
        i += 1;
    }
}

/// The cooldown of one shooter: a repeating timer and the permission to fire.
#[derive(Debug, Clone, Copy)]
pub struct BulletTimer {
    /// Paces the cooldown.
    pub timer: Timer,
    /// Whether the shooter may fire now.
    pub can_shoot: bool,
}

impl BulletTimer {
    /// What `process` makes of the timer: nothing while the shooter may fire,
    /// one tick otherwise.
    pub open spec fn timer_after(&self, delta: nat) -> TimerView {
        if self.can_shoot {
            self.timer@
        } else {
            self.timer@.tick(delta)
        }
    }

    /// A cooldown of `period` nanoseconds for a shooter that may fire at once.
    pub fn new(period: u64) -> (r: BulletTimer)
        requires
            period > 0,
        ensures
            r.can_shoot,
            r.timer@ == TimerView::fresh(period as nat, true),
    {
        BulletTimer { timer: Timer::new(period, true), can_shoot: true }
    }

    /// A cooldown of `period` nanoseconds for a shooter whose first shot is
    /// due after `delay`: the timer starts out advanced by what the delay
    /// leaves of the period.
    pub fn new_delayed(period: u64, delay: u64) -> (r: BulletTimer)
        requires
            period > 0,
        ensures
            r.timer@ == TimerView::fresh(period as nat, true).tick(
                if delay <= period {
                    (period - delay) as nat
                } else {
                    0
                },
            ),
            r.can_shoot == r.timer@.just_finished,
    {
        let mut timer = BulletTimer { timer: Timer::new(period, true), can_shoot: false };
        let head_start: u64 = if delay <= period {
            period - delay
        } else {
            0
        };
        timer.process(head_start);
        timer
    }

    /// Uses up the permission to fire.
    pub fn shoot(&mut self)
        ensures
            !final(self).can_shoot,
            final(self).timer@ == old(self).timer@,
    {
        self.can_shoot = false;
    }

    /// Lets `delta` nanoseconds pass. While the shooter may fire the timer
    /// stands still; otherwise it runs, and the tick on which it completes
    /// gives the permission back.
    pub fn process(&mut self, delta: u64)
        ensures
            final(self).timer@ == old(self).timer_after(delta as nat),
            final(self).can_shoot == (old(self).can_shoot || old(self).timer@.tick(
                delta as nat,
            ).just_finished),
    {
        if self.can_shoot {
            return ;
        }
        self.timer.tick(delta);
        if self.timer.just_finished() {
            self.can_shoot = true;
        }
    }
}

/// A shooter that has fired gets the permission back exactly on the tick on
/// which the running time of its timer reaches the period: never in the middle
/// of the cooldown, and no later than at its end.
pub proof fn lemma_no_shot_mid_cooldown(shooter: BulletTimer, delta: nat)
    requires
        !shooter.can_shoot,
        shooter.timer@.duration > 0,
        shooter.timer@.repeating,
        !shooter.timer@.paused,
    ensures
        (shooter.can_shoot || shooter.timer@.tick(delta).just_finished) <==> shooter.timer@.elapsed
            + delta >= shooter.timer@.duration,
{
}

} // verus!
