use fly_and_shoot::bullet::{movement, Bullet, BulletRes, BulletTimer, HitBox};
use fly_and_shoot::collision::{
    collide, destroy_outside_screen, first_overlap, Bounds, DestroyOutsideScreen, Screen, Window,
};
use fly_and_shoot::math::{aim, displacement, div_toward_zero, isqrt, saturate, Vec2, UNIT};

fn v(x: i32, y: i32) -> Vec2 {
    Vec2::new(x, y)
}

fn full_hd() -> Window {
    Window::new(1920, 1080).unwrap()
}

#[test]
fn isqrt_is_the_floor_of_the_root() {
    assert_eq!(isqrt(0), 0);
    assert_eq!(isqrt(1), 1);
    assert_eq!(isqrt(3), 1);
    assert_eq!(isqrt(4), 2);
    assert_eq!(isqrt(15), 3);
    assert_eq!(isqrt(16), 4);
    assert_eq!(isqrt(17), 4);
    assert_eq!(isqrt(1_000_000_000_000), 1_000_000);
    assert_eq!(isqrt(999_999_999_999), 999_999);
    assert_eq!(isqrt(u128::MAX), u64::MAX);
}

#[test]
fn division_rounds_towards_zero() {
    assert_eq!(div_toward_zero(7, 2), 3);
    assert_eq!(div_toward_zero(-7, 2), -3);
    assert_eq!(div_toward_zero(-1, 2), 0);
    assert_eq!(div_toward_zero(0, 5), 0);
    assert_eq!(div_toward_zero(i128::MAX, 1), i128::MAX);
}

#[test]
fn saturate_stops_at_the_ends_of_i32() {
    assert_eq!(saturate(5), 5);
    assert_eq!(saturate(-5), -5);
    assert_eq!(saturate(i32::MAX as i128 + 1), i32::MAX);
    assert_eq!(saturate(i32::MIN as i128 - 1), i32::MIN);
    assert_eq!(saturate(i128::MAX), i32::MAX);
}

#[test]
fn displacement_is_speed_times_time() {
    assert_eq!(displacement(2_000_000, 16_666_667), 33_333);
    assert_eq!(displacement(-2_000_000, 16_666_667), -33_333);
    assert_eq!(displacement(1_000_000, 1_000_000_000), 1_000_000);
    assert_eq!(displacement(1, 999_999_999), 0);
    assert_eq!(displacement(-1, 999_999_999), 0);
    assert_eq!(displacement(0, u64::MAX), 0);
    assert_eq!(displacement(i32::MIN, u64::MAX), -39_614_081_257_132_168_794);
}

#[test]
fn advance_moves_in_a_straight_line() {
    assert_eq!(v(0, 0).advance(v(2_000_000, 0), 16_666_667), v(33_333, 0));
    assert_eq!(v(10, 20).advance(v(-1_000_000, -500_000), 16_666_667), v(-16_656, -8_313));
    assert_eq!(v(i32::MAX - 10, 0).advance(v(2_000_000, 0), 1_000_000_000), v(i32::MAX, 0));
    assert_eq!(v(7, 7).advance(v(1, 1), 0), v(7, 7));
}

#[test]
fn aim_scales_the_direction_to_the_speed() {
    assert_eq!(aim(v(0, 0), v(300_000, 400_000), 1_000_000), v(600_000, 800_000));
    assert_eq!(aim(v(300_000, 400_000), v(0, 0), 1_000_000), v(-600_000, -800_000));
    assert_eq!(aim(v(5, 5), v(1_000_005, 5), 2_000_000), v(2_000_000, 0));
    assert_eq!(aim(v(5, 5), v(5, -95), 500_000), v(0, -500_000));
}

#[test]
fn aim_at_the_own_position_points_along_x() {
    assert_eq!(aim(v(123, 456), v(123, 456), 1_000_000), v(1_000_000, 0));
    assert_eq!(aim(v(0, 0), v(0, 0), -7), v(-7, 0));
}

#[test]
fn distance_sq_is_the_sum_of_squares() {
    assert_eq!(v(0, 0).distance_sq(v(3, 4)), 25);
    assert_eq!(v(-3, -4).distance_sq(v(0, 0)), 25);
    assert_eq!(
        v(i32::MIN, i32::MIN).distance_sq(v(i32::MAX, i32::MAX)),
        2 * (u32::MAX as u128) * (u32::MAX as u128)
    );
}

#[test]
fn boxes_that_share_an_area_collide() {
    assert!(collide(v(0, 0), v(10, 10), v(19, 0), v(10, 10)));
    assert!(collide(v(0, 0), v(10, 10), v(0, 19), v(10, 10)));
    assert!(collide(v(0, 0), v(10, 10), v(-19, -19), v(10, 10)));
    assert!(collide(v(0, 0), v(100, 100), v(5, 5), v(1, 1)));
    assert!(collide(v(5, 5), v(1, 1), v(5, 5), v(1, 1)));
}

#[test]
fn boxes_that_only_touch_do_not_collide() {
    assert!(!collide(v(0, 0), v(10, 10), v(20, 0), v(10, 10)));
    assert!(!collide(v(0, 0), v(10, 10), v(0, -20), v(10, 10)));
    assert!(!collide(v(0, 0), v(10, 10), v(21, 0), v(10, 10)));
    assert!(!collide(v(0, 0), v(10, 10), v(19, 25), v(10, 10)));
    assert!(!collide(v(0, 0), v(0, 0), v(0, 0), v(0, 0)));
}

#[test]
fn collide_is_symmetric() {
    let boxes = [
        (v(0, 0), v(10, 10)),
        (v(19, 0), v(10, 10)),
        (v(20, 0), v(10, 10)),
        (v(-5, 7), v(1, 30)),
        (v(i32::MAX, i32::MIN), v(i32::MAX, i32::MAX)),
        (v(3, 3), v(0, 0)),
        (v(40, 40), v(-5, -5)),
    ];
    for (a_pos, a_half) in boxes {
        for (b_pos, b_half) in boxes {
            assert_eq!(collide(a_pos, a_half, b_pos, b_half), collide(b_pos, b_half, a_pos, a_half));
        }
    }
}

#[test]
fn collide_takes_the_farthest_points() {
    assert!(!collide(v(i32::MIN, i32::MIN), v(1, 1), v(i32::MAX, i32::MAX), v(1, 1)));
    assert!(collide(v(i32::MIN, i32::MIN), v(i32::MAX, i32::MAX), v(-2, -2), v(1, 1)));
}

#[test]
fn first_overlap_finds_the_first_of_several() {
    let others = vec![
        (v(100, 100), HitBox(v(1, 1))),
        (v(5, 0), HitBox(v(10, 10))),
        (v(6, 0), HitBox(v(10, 10))),
    ];
    assert_eq!(first_overlap(v(0, 0), HitBox(v(10, 10)), &others), Some(1));
    assert_eq!(first_overlap(v(-500, 0), HitBox(v(10, 10)), &others), None);
    assert_eq!(first_overlap(v(0, 0), HitBox(v(10, 10)), &Vec::new()), None);
}

#[test]
fn a_window_needs_a_height() {
    assert!(Window::new(1920, 0).is_none());
    assert!(Window::new(0, 1).is_some());
}

#[test]
fn the_field_is_as_wide_as_the_window_is() {
    let win = full_hd();
    assert_eq!(win.max_x(), 1_777_777);
    assert_eq!(win.max_y(), UNIT);
    assert_eq!(win.middle_x(), 888_888);
    assert_eq!(win.middle_y(), 500_000);
    assert_eq!(win.middle(), v(888_888, 500_000));
    assert_eq!(Window::new(100, 100).unwrap().max_x(), 1_000_000);
    assert_eq!(Window::new(u32::MAX, 1).unwrap().max_x(), i32::MAX);
    assert_eq!(Window::new(0, 7).unwrap().max_x(), 0);
}

#[test]
fn bounds_inside_leave_half_the_size_to_each_edge() {
    let b = full_hd().bounds_box_inside(v(150_000, 81_907));
    assert_eq!(b, Bounds { left: 75_000, right: 1_702_777, bottom: 40_953, top: 959_047 });
}

#[test]
fn bounds_outside_add_half_the_size_to_each_edge() {
    let b = full_hd().bounds_box_outside(v(150_000, 150_000));
    assert_eq!(b, Bounds { left: -75_000, right: 1_852_777, bottom: -75_000, top: 1_075_000 });
    assert!(b.holds(v(-75_000, 1_075_000)));
    assert!(!b.holds(v(-75_001, 0)));
}

#[test]
fn what_has_left_the_field_is_removed() {
    let size = DestroyOutsideScreen { size: v(150_000, 150_000) };
    let items = vec![
        (v(500_000, 500_000), size),
        (v(-75_000, 500_000), size),
        (v(-75_001, 500_000), size),
        (v(1_852_777, 500_000), size),
        (v(1_852_778, 500_000), size),
        (v(500_000, 1_075_001), size),
        (v(500_000, -75_001), size),
        (v(500_000, -75_001), DestroyOutsideScreen { size: v(0, 150_004) }),
    ];
    let gone = destroy_outside_screen(&items, &full_hd());
    assert_eq!(gone, vec![false, false, true, false, true, true, true, false]);
    assert!(destroy_outside_screen(&Vec::new(), &full_hd()).is_empty());
}

#[test]
fn the_two_sorts_of_bullet() {
    let res = BulletRes::new();
    assert_eq!(res.player.sprite_size, v(150_000, 137_234));
    assert_eq!(res.player.collision_size, v(15_000, 13_723));
    assert_eq!(res.enemy.sprite_size, v(108_461, 99_230));
    assert_eq!(res.enemy.collision_size, v(10_846, 9_923));
}

#[test]
fn a_bullet_flies_towards_its_target() {
    let res = BulletRes::new();
    let b = Bullet::spawn(&res.enemy, v(1_000_000, 500_000), v(700_000, 100_000), 1_000_000);
    assert_eq!(b.position, v(1_000_000, 500_000));
    assert_eq!(b.bullet.speed, v(-600_000, -800_000));
    assert_eq!(b.hit_box, HitBox(v(5_423, 4_961)));
    assert_eq!(b.destroy.size, v(108_461, 99_230));
    assert_eq!(HitBox::from_size(v(-3, 3)), HitBox(v(-1, 1)));
}

#[test]
fn a_bullet_fired_at_its_own_origin_flies_along_x() {
    let res = BulletRes::new();
    let b = Bullet::spawn(&res.player, v(5, 5), v(5, 5), 2_000_000);
    assert_eq!(b.bullet.speed, v(2_000_000, 0));
}

#[test]
fn bullets_move_by_their_speed() {
    let mut bullets = vec![
        (Bullet { speed: v(2_000_000, 0) }, v(0, 0)),
        (Bullet { speed: v(-1_000_000, -500_000) }, v(10, 20)),
        (Bullet { speed: v(0, 0) }, v(7, 7)),
    ];
    movement(&mut bullets, 16_666_667);
    assert_eq!(bullets[0], (Bullet { speed: v(2_000_000, 0) }, v(33_333, 0)));
    assert_eq!(bullets[1], (Bullet { speed: v(-1_000_000, -500_000) }, v(-16_656, -8_313)));
    assert_eq!(bullets[2], (Bullet { speed: v(0, 0) }, v(7, 7)));
    let mut none: Vec<(Bullet, Vec2)> = Vec::new();
    movement(&mut none, 1);
    assert!(none.is_empty());
}

#[test]
fn a_new_bullet_timer_may_fire_at_once() {
    let mut t = BulletTimer::new(100);
    assert!(t.can_shoot);
    t.process(1_000);
    assert!(t.can_shoot);
    assert_eq!(t.timer.elapsed(), 0);
}

#[test]
fn a_shot_starts_the_cooldown() {
    let mut t = BulletTimer::new(100);
    t.shoot();
    assert!(!t.can_shoot);
    t.process(99);
    assert!(!t.can_shoot);
    t.process(1);
    assert!(t.can_shoot);
    t.shoot();
    t.process(30);
    t.process(30);
    assert!(!t.can_shoot);
    t.process(40);
    assert!(t.can_shoot);
}

#[test]
fn a_delayed_bullet_timer_fires_after_the_delay() {
    let mut t = BulletTimer::new_delayed(3_000_000_000, 1_000_000_000);
    assert!(!t.can_shoot);
    assert_eq!(t.timer.elapsed(), 2_000_000_000);
    t.process(999_999_999);
    assert!(!t.can_shoot);
    t.process(1);
    assert!(t.can_shoot);
}

#[test]
fn a_bullet_timer_without_delay_may_fire_at_once() {
    let t = BulletTimer::new_delayed(100, 0);
    assert!(t.can_shoot);
    assert_eq!(t.timer.elapsed(), 0);
}

#[test]
fn a_delay_longer_than_the_period_counts_as_the_period() {
    let mut t = BulletTimer::new_delayed(100, 500);
    assert!(!t.can_shoot);
    assert_eq!(t.timer.elapsed(), 0);
    t.process(100);
    assert!(t.can_shoot);
}
