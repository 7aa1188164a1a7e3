use bevy::math::{Vec2 as FloatVec2, Vec3 as FloatVec3};
use bevy::sprite::collide_aabb::collide as engine_collide;
use fly_and_shoot::collision::{collide, Screen, Window};
use fly_and_shoot::math::{aim, Vec2};
use fly_and_shoot::player::{movement, Player, Steering};
use fly_and_shoot::score::Score;
use fly_and_shoot::timer::Timer;
use std::time::Duration;

fn v(x: i32, y: i32) -> Vec2 {
    Vec2::new(x, y)
}

struct Dice(u64);

impl Dice {
    fn roll(&mut self) -> u64 {
        self.0 = self.0.wrapping_mul(6_364_136_223_846_793_005).wrapping_add(1_442_695_040_888_963_407);
        self.0 >> 33
    }
}

#[test]
fn timer_agrees_with_the_engine_timer_on_whatever_happens() {
    let mut dice = Dice(2022);
    for run in 0..40u64 {
        let repeating = run % 2 == 0;
        let duration = 1 + dice.roll() % 2_000_000_000;
        let mut ours = Timer::new(duration, repeating);
        let mut theirs = bevy::time::Timer::new(Duration::from_nanos(duration), repeating);
        for _ in 0..500 {
            match dice.roll() % 16 {
                0 => {
                    ours.pause();
                    theirs.pause();
                }
                1 | 2 => {
                    ours.unpause();
                    theirs.unpause();
                }
                3 => {
                    let next = 1 + dice.roll() % 2_000_000_000;
                    ours.set_duration(next);
                    theirs.set_duration(Duration::from_nanos(next));
                }
                4 => {
                    let elapsed = dice.roll() % 3_000_000_000;
                    ours.set_elapsed(elapsed);
                    theirs.set_elapsed(Duration::from_nanos(elapsed));
                }
                5 => {
                    ours.reset();
                    theirs.reset();
                }
                _ => {
                    let delta = dice.roll() % 700_000_000;
                    ours.tick(delta);
                    theirs.tick(Duration::from_nanos(delta));
                }
            }
            assert_eq!(ours.elapsed() as u128, theirs.elapsed().as_nanos());
            assert_eq!(ours.duration() as u128, theirs.duration().as_nanos());
            assert_eq!(ours.just_finished(), theirs.just_finished());
            assert_eq!(ours.finished(), theirs.finished());
            assert_eq!(ours.paused(), theirs.paused());
        }
    }
}

#[test]
fn collide_agrees_with_the_engine_on_boxes_of_twice_the_half_extents() {
    let places = [-7, -3, -1, 0, 1, 2, 5, 8];
    let halves = [0, 1, 2, 4];
    let mut hits = 0;
    let mut misses = 0;
    for bx in places {
        for by in places {
            for ah in halves {
                for bh in halves {
                    let ours = collide(v(1, -1), v(ah, ah + 1), v(bx, by), v(bh + 1, bh));
                    let theirs = engine_collide(
                        FloatVec3::new(1.0, -1.0, 0.0),
                        FloatVec2::new(2.0 * ah as f32, 2.0 * (ah + 1) as f32),
                        FloatVec3::new(bx as f32, by as f32, 5.0),
                        FloatVec2::new(2.0 * (bh + 1) as f32, 2.0 * bh as f32),
                    )
                    .is_some();
                    assert_eq!(ours, theirs);
                    if ours {
                        hits += 1;
                    } else {
                        misses += 1;
                    }
                }
            }
        }
    }
    assert!(hits > 100);
    assert!(misses > 100);
}

#[test]
fn aim_agrees_with_normalising_in_floating_point() {
    let mut dice = Dice(7);
    for _ in 0..2_000 {
        let from = v((dice.roll() % 2_000_000) as i32, (dice.roll() % 1_000_000) as i32);
        let to = v((dice.roll() % 2_000_000) as i32, (dice.roll() % 1_000_000) as i32);
        if from.distance_sq(to) < 1_000_000 {
            continue;
        }
        let speed = 500_000 + (dice.roll() % 1_500_000) as i32;
        let ours = aim(from, to, speed);
        let direction = FloatVec2::new((to.x - from.x) as f32, (to.y - from.y) as f32).normalize();
        let theirs = direction * speed as f32;
        assert!((ours.x as f32 - theirs.x).abs() < 8.0);
        assert!((ours.y as f32 - theirs.y).abs() < 8.0);
    }
}

#[test]
fn interp_agrees_with_the_line_in_floating_point() {
    let lines = [
        (0.6f32, 0.3f32, 600_000_000i64, 300_000_000i64, 1e9f32),
        (0.5, 2.0, 500_000, 2_000_000, 1e6),
        (3.0, 1.5, 3_000_000_000, 1_500_000_000, 1e9),
    ];
    for (start, end, whole_start, whole_end, scale) in lines {
        for score in 0..=260u32 {
            let raw = start + (score as f32) / 200.0 * (end - start);
            let floating = if start < end {
                raw.clamp(start, end)
            } else {
                raw.clamp(end, start)
            };
            let whole = Score { score }.interp(whole_start, whole_end, 200);
            assert!((whole as f32 / scale - floating).abs() < 1e-5);
        }
    }
}

struct FloatShip {
    position: FloatVec2,
    throttle: FloatVec2,
}

fn float_tick(ship: &mut FloatShip, keys: &Steering, seconds: f32, win: &Window) {
    let left = 0.075;
    let right = win.max_x() as f32 / 1e6 - 0.075;
    let bottom = 0.040_953;
    let top = 1.0 - 0.040_953;
    let speed = if keys.slow { 0.5 } else { 1.0 };
    let mut target = FloatVec2::ZERO;
    if keys.left {
        target -= FloatVec2::X;
    }
    if keys.right {
        target += FloatVec2::X;
    }
    if keys.up {
        target += FloatVec2::Y;
    }
    if keys.down {
        target -= FloatVec2::Y;
    }
    let target = target.normalize_or_zero();
    let change = target - ship.throttle;
    let direction = change.normalize_or_zero();
    if direction == FloatVec2::ZERO || change.length() < 4.5 * seconds {
        ship.throttle = target;
    } else {
        ship.throttle += direction * 4.5 * seconds;
    }
    if ship.throttle != FloatVec2::ZERO {
        let mut next = ship.position + speed * seconds * ship.throttle;
        if next.x < left {
            next.x = left;
            ship.throttle.x = 0.0;
        } else if next.x > right {
            next.x = right;
            ship.throttle.x = 0.0;
        }
        if next.y < bottom {
            next.y = bottom;
            ship.throttle.y = 0.0;
        } else if next.y > top {
            next.y = top;
            ship.throttle.y = 0.0;
        }
        ship.position = next;
    }
}

#[test]
fn steering_agrees_with_the_same_rule_in_floating_point() {
    let win = Window::new(1920, 1080).unwrap();
    let mut dice = Dice(99);
    let mut position = v(888_888, 500_000);
    let mut player = Player::new();
    let mut floating = FloatShip {
        position: FloatVec2::new(0.888_888, 0.5),
        throttle: FloatVec2::ZERO,
    };
    let mut keys = Steering { left: false, right: false, up: false, down: false, slow: false };
    for frame in 0..3_000 {
        if frame % 20 == 0 {
            let bits = dice.roll();
            keys = Steering {
                left: bits & 1 != 0,
                right: bits & 2 != 0,
                up: bits & 4 != 0,
                down: bits & 8 != 0,
                slow: bits & 16 != 0,
            };
        }
        movement(&mut position, &mut player, &keys, 16_666_667, &win);
        float_tick(&mut floating, &keys, 16_666_667.0 / 1e9, &win);
        assert!((position.x as f32 / 1e6 - floating.position.x).abs() < 0.01);
        assert!((position.y as f32 / 1e6 - floating.position.y).abs() < 0.01);
        assert!((player.cur_speed_vec.x as f32 / 1e6 - floating.throttle.x).abs() < 0.08);
        assert!((player.cur_speed_vec.y as f32 / 1e6 - floating.throttle.y).abs() < 0.08);
    }
}
