use fly_and_shoot::bullet::{BulletRes, BulletTimer, HitBox};
use fly_and_shoot::collision::Window;
use fly_and_shoot::enemy::{
    attack, attack_one, bullet_hit, movement, process_spawn, spawn, Enemy, EnemySpawn,
};
use fly_and_shoot::math::Vec2;
use fly_and_shoot::score::Score;

const SECOND: u64 = 1_000_000_000;

fn v(x: i32, y: i32) -> Vec2 {
    Vec2::new(x, y)
}

fn full_hd() -> Window {
    Window::new(1920, 1080).unwrap()
}

fn length(a: Vec2) -> f64 {
    ((a.x as f64).powi(2) + (a.y as f64).powi(2)).sqrt()
}

#[test]
fn at_score_zero_enemies_are_slow_and_fire_rarely() {
    let score = Score { score: 0 };
    let plan = spawn(&full_hd(), v(852_777, 500_000), &score, 500_000, 0, 0);
    assert_eq!(plan.position, v(1_852_777, 500_000));
    assert_eq!(plan.heading, v(-500_000, 0));
    assert_eq!(plan.bullet_timer.timer.duration(), 3_000_000_000);
    let slanted = spawn(&full_hd(), v(300_000, 200_000), &score, 900_000, 0, 0);
    assert!((length(slanted.heading) - 500_000.0).abs() < 2.0);
    assert!(slanted.heading.x < 0 && slanted.heading.y < 0);
}

#[test]
fn at_score_two_hundred_enemies_are_fast_and_fire_often() {
    let score = Score { score: 200 };
    let plan = spawn(&full_hd(), v(852_777, 500_000), &score, 500_000, 0, 0);
    assert_eq!(plan.heading, v(-2_000_000, 0));
    assert_eq!(plan.bullet_timer.timer.duration(), 1_500_000_000);
    let slanted = spawn(&full_hd(), v(300_000, 200_000), &score, 900_000, 0, 0);
    assert!((length(slanted.heading) - 2_000_000.0).abs() < 4.0);
    let beyond = spawn(&full_hd(), v(852_777, 500_000), &Score { score: 5_000 }, 500_000, 0, 0);
    assert_eq!(beyond.heading, v(-2_000_000, 0));
    assert_eq!(beyond.bullet_timer.timer.duration(), 1_500_000_000);
}

#[test]
fn difficulty_halfway() {
    let score = Score { score: 100 };
    let plan = spawn(&full_hd(), v(852_777, 500_000), &score, 500_000, 0, 0);
    assert_eq!(plan.heading, v(-1_250_000, 0));
    assert_eq!(plan.bullet_timer.timer.duration(), 2_250_000_000);
}

#[test]
fn a_new_enemy() {
    let score = Score { score: 0 };
    let plan = spawn(&full_hd(), v(100_000, 100_000), &score, 123_456, -299_999, SECOND);
    assert_eq!(plan.position, v(1_852_777, 123_456));
    assert_eq!(plan.angle, -299_999);
    assert_eq!(plan.hit_box, HitBox(v(37_500, 37_500)));
    assert_eq!(plan.destroy.size, v(150_000, 150_000));
    assert!(!plan.bullet_timer.can_shoot);
    assert_eq!(plan.bullet_timer.timer.elapsed(), 2_000_000_000);
    assert!(plan.bullet_timer.timer.repeating());
}

#[test]
fn an_enemy_without_delay_may_fire_at_once() {
    let plan = spawn(&full_hd(), v(0, 0), &Score { score: 0 }, 500_000, 0, 0);
    assert!(plan.bullet_timer.can_shoot);
    assert_eq!(plan.bullet_timer.timer.elapsed(), 0);
}

#[test]
fn an_enemy_on_top_of_the_ship_heads_along_x() {
    let plan = spawn(&full_hd(), v(1_852_777, 500_000), &Score { score: 0 }, 500_000, 0, 0);
    assert_eq!(plan.heading, v(500_000, 0));
}

#[test]
fn the_first_enemy_comes_after_half_a_second() {
    let mut spawner = EnemySpawn::new();
    let score = Score { score: 0 };
    let ship = Some(v(500_000, 500_000));
    assert!(process_spawn(&mut spawner, &score, ship, 499_999_999, &full_hd()).is_none());
    assert_eq!(spawner.timer.duration(), 500_000_000);
    let plan = process_spawn(&mut spawner, &score, ship, 1, &full_hd()).unwrap();
    assert_eq!(plan.position.x, 1_852_777);
    assert_eq!(spawner.timer.duration(), 600_000_000);
    assert_eq!(spawner.timer.elapsed(), 0);
    assert!(process_spawn(&mut spawner, &score, ship, 599_999_999, &full_hd()).is_none());
    assert!(process_spawn(&mut spawner, &score, ship, 1, &full_hd()).is_some());
}

#[test]
fn enemies_come_faster_as_the_score_grows() {
    let ship = Some(v(500_000, 500_000));
    for (points, period) in [(0u32, 600_000_000u64), (100, 450_000_000), (200, 300_000_000), (900, 300_000_000)] {
        let mut spawner = EnemySpawn::new();
        assert!(process_spawn(&mut spawner, &Score { score: points }, ship, 500_000_000, &full_hd()).is_some());
        assert_eq!(spawner.timer.duration(), period);
    }
}

#[test]
fn no_enemy_comes_without_a_ship() {
    let mut spawner = EnemySpawn::new();
    let score = Score { score: 0 };
    assert!(process_spawn(&mut spawner, &score, None, 500_000_000, &full_hd()).is_none());
    assert!(spawner.timer.just_finished());
    assert_eq!(spawner.timer.duration(), 500_000_000);
    assert_eq!(spawner.timer.elapsed(), 0);
}

#[test]
fn what_is_drawn_for_an_enemy_stays_in_range_and_varies() {
    let score = Score { score: 0 };
    let ship = Some(v(500_000, 500_000));
    let mut heights = Vec::new();
    let mut angles = Vec::new();
    let mut head_starts = Vec::new();
    for _ in 0..300 {
        let mut spawner = EnemySpawn::new();
        let plan = process_spawn(&mut spawner, &score, ship, 500_000_000, &full_hd()).unwrap();
        assert!(plan.position.y >= 100_000 && plan.position.y < 1_000_000);
        assert!(plan.angle >= -300_000 && plan.angle < 300_000);
        let head_start = plan.bullet_timer.timer.elapsed();
        assert!(head_start < 3_000_000_000);
        assert_eq!(plan.bullet_timer.can_shoot, plan.bullet_timer.timer.just_finished());
        heights.push(plan.position.y);
        angles.push(plan.angle);
        head_starts.push(head_start);
    }
    assert!(heights.iter().any(|y| *y != heights[0]));
    assert!(angles.iter().any(|a| *a != angles[0]));
    assert!(head_starts.iter().any(|h| *h != head_starts[0]));
    assert!(heights.iter().any(|y| *y > 100_000));
    assert!(angles.iter().any(|a| *a > -300_000));
}

#[test]
fn enemies_move_by_their_speed() {
    let mut enemies = vec![
        (Enemy { speed: v(-500_000, 0) }, v(1_852_777, 500_000)),
        (Enemy { speed: v(-300_000, 400_000) }, v(0, 0)),
    ];
    movement(&mut enemies, 100_000_000);
    assert_eq!(enemies[0], (Enemy { speed: v(-500_000, 0) }, v(1_802_777, 500_000)));
    assert_eq!(enemies[1], (Enemy { speed: v(-300_000, 400_000) }, v(-30_000, 40_000)));
}

#[test]
fn an_enemy_fires_at_the_ship() {
    let res = BulletRes::new();
    let mut timer = BulletTimer::new(3 * SECOND);
    let shot = attack_one(v(1_000_000, 500_000), &mut timer, v(200_000, 500_000), 1, 0, &res).unwrap();
    assert_eq!(shot.position, v(1_000_000, 500_000));
    assert_eq!(shot.bullet.speed, v(-1_000_000, 0));
    assert_eq!(shot.hit_box, HitBox(v(5_423, 4_961)));
    assert_eq!(shot.destroy.size, v(108_461, 99_230));
    assert!(!timer.can_shoot);
    let mut timer = BulletTimer::new(3 * SECOND);
    let shot = attack_one(v(800_000, 1_300_000), &mut timer, v(200_000, 700_000), 1, -200_000, &res).unwrap();
    assert_eq!(shot.bullet.speed, v(-600_000, -800_000));
}

#[test]
fn an_enemy_waits_for_its_cooldown() {
    let res = BulletRes::new();
    let mut timer = BulletTimer::new(3 * SECOND);
    assert!(attack_one(v(1_000_000, 0), &mut timer, v(0, 0), SECOND, 0, &res).is_some());
    assert!(attack_one(v(1_000_000, 0), &mut timer, v(0, 0), SECOND, 0, &res).is_none());
    assert!(attack_one(v(1_000_000, 0), &mut timer, v(0, 0), SECOND, 0, &res).is_none());
    assert!(attack_one(v(1_000_000, 0), &mut timer, v(0, 0), SECOND, 0, &res).is_some());
}

#[test]
fn an_enemy_left_of_the_ship_holds_its_fire() {
    let res = BulletRes::new();
    let mut timer = BulletTimer::new(3 * SECOND);
    assert!(attack_one(v(100_000, 0), &mut timer, v(900_000, 0), 1, 0, &res).is_none());
    assert!(timer.can_shoot);
    assert!(attack_one(v(900_000, 900_000), &mut timer, v(900_000, 0), 1, 0, &res).is_none());
    assert!(timer.can_shoot);
}

#[test]
fn an_enemy_close_to_the_ship_holds_its_fire() {
    let res = BulletRes::new();
    let mut timer = BulletTimer::new(3 * SECOND);
    assert!(attack_one(v(700_000, 500_000), &mut timer, v(200_000, 500_000), 1, 0, &res).is_none());
    assert!(attack_one(v(500_000, 900_000), &mut timer, v(200_000, 500_000), 1, 0, &res).is_none());
    assert!(timer.can_shoot);
    assert!(attack_one(v(700_001, 500_000), &mut timer, v(200_000, 500_000), 1, 0, &res).is_some());
}

#[test]
fn an_enemy_that_held_its_fire_shoots_as_soon_as_it_can() {
    let res = BulletRes::new();
    let mut timer = BulletTimer::new_delayed(3 * SECOND, SECOND);
    assert!(attack_one(v(300_000, 0), &mut timer, v(0, 0), SECOND, 0, &res).is_none());
    assert!(timer.can_shoot);
    assert_eq!(timer.timer.elapsed(), 0);
    assert!(attack_one(v(300_000, 0), &mut timer, v(0, 0), SECOND, 0, &res).is_none());
    assert_eq!(timer.timer.elapsed(), 0);
    assert!(attack_one(v(600_000, 0), &mut timer, v(0, 0), 1, 0, &res).is_some());
}

#[test]
fn all_enemies_attack_in_one_tick() {
    let res = BulletRes::new();
    let mut enemies = vec![
        (v(1_000_000, 500_000), BulletTimer::new(3 * SECOND)),
        (v(100_000, 500_000), BulletTimer::new(3 * SECOND)),
        (v(1_500_000, 500_000), BulletTimer::new_delayed(3 * SECOND, SECOND)),
        (v(1_700_000, 100_000), BulletTimer::new_delayed(3 * SECOND, 1)),
    ];
    let ship = v(200_000, 500_000);
    let shots = attack(&mut enemies, Some(ship), 1, &res);
    assert_eq!(shots.len(), 4);
    assert!(shots[1].is_none());
    assert!(shots[2].is_none());
    assert!(enemies[1].1.can_shoot);
    assert_eq!(enemies[2].1.timer.elapsed(), 2 * SECOND + 1);
    for i in [0usize, 3] {
        let shot = shots[i].unwrap();
        assert_eq!(shot.position, enemies[i].0);
        assert!(!enemies[i].1.can_shoot);
        assert!(shot.bullet.speed.x < 0);
        assert!((length(shot.bullet.speed) - 1_000_000.0).abs() < 4.0);
    }
    let speed = shots[0].unwrap().bullet.speed;
    assert!(speed.y.abs() < 300_000);
}

#[test]
fn the_aim_of_the_enemies_varies_within_its_range() {
    let res = BulletRes::new();
    let ship = v(0, 500_000);
    let mut slopes = Vec::new();
    for _ in 0..300 {
        let mut enemies = vec![(v(1_000_000, 500_000), BulletTimer::new(3 * SECOND))];
        let shot = attack(&mut enemies, Some(ship), 1, &res)[0].unwrap();
        let speed = shot.bullet.speed;
        let slope = speed.y as f64 / speed.x as f64;
        assert!(slope.abs() <= 0.25 + 1e-6);
        slopes.push(speed.y);
    }
    assert!(slopes.iter().any(|s| *s != slopes[0]));
}

#[test]
fn without_a_ship_the_enemies_do_nothing() {
    let res = BulletRes::new();
    let mut enemies = vec![
        (v(1_000_000, 500_000), BulletTimer::new(3 * SECOND)),
        (v(1_500_000, 500_000), BulletTimer::new_delayed(3 * SECOND, SECOND)),
    ];
    let shots = attack(&mut enemies, None, SECOND, &res);
    assert_eq!(shots, vec![None, None]);
    assert!(enemies[0].1.can_shoot);
    assert!(!enemies[1].1.can_shoot);
    assert_eq!(enemies[1].1.timer.elapsed(), 2 * SECOND);
    let mut none: Vec<(Vec2, BulletTimer)> = Vec::new();
    assert!(attack(&mut none, Some(v(0, 0)), SECOND, &res).is_empty());
}

#[test]
fn each_enemy_is_brought_down_by_its_first_bullet() {
    let enemies = vec![(v(0, 0), HitBox(v(10, 10))), (v(5, 0), HitBox(v(10, 10)))];
    let bullets = vec![
        (v(100, 100), HitBox(v(1, 1))),
        (v(2, 0), HitBox(v(1, 1))),
        (v(6, 0), HitBox(v(1, 1))),
    ];
    let mut score = Score { score: 7 };
    let hits = bullet_hit(&enemies, &bullets, &mut score);
    assert_eq!(hits, vec![Some(1), Some(2)]);
    assert_eq!(score.score, 9);
}

#[test]
fn one_bullet_brings_down_one_enemy() {
    let enemies = vec![
        (v(0, 0), HitBox(v(10, 10))),
        (v(5, 0), HitBox(v(10, 10))),
        (v(1, 1), HitBox(v(10, 10))),
    ];
    let bullets = vec![(v(2, 0), HitBox(v(1, 1)))];
    let mut score = Score { score: 0 };
    let hits = bullet_hit(&enemies, &bullets, &mut score);
    assert_eq!(hits, vec![Some(0), None, None]);
    assert_eq!(score.score, 1);
}

#[test]
fn an_enemy_hit_by_two_bullets_counts_once() {
    let enemies = vec![(v(0, 0), HitBox(v(10, 10)))];
    let bullets = vec![(v(2, 0), HitBox(v(1, 1))), (v(3, 0), HitBox(v(1, 1)))];
    let mut score = Score { score: 0 };
    let hits = bullet_hit(&enemies, &bullets, &mut score);
    assert_eq!(hits, vec![Some(0)]);
    assert_eq!(score.score, 1);
}

#[test]
fn bullets_that_miss_bring_nothing_down() {
    let enemies = vec![(v(0, 0), HitBox(v(10, 10))), (v(500, 0), HitBox(v(10, 10)))];
    let bullets = vec![(v(11, 0), HitBox(v(1, 1))), (v(250, 0), HitBox(v(1, 1)))];
    let mut score = Score { score: 3 };
    assert_eq!(bullet_hit(&enemies, &bullets, &mut score), vec![None, None]);
    assert_eq!(score.score, 3);
    assert_eq!(bullet_hit(&enemies, &Vec::new(), &mut score), vec![None, None]);
    assert!(bullet_hit(&Vec::new(), &bullets, &mut score).is_empty());
    assert_eq!(score.score, 3);
}

#[test]
fn hits_at_the_largest_score_keep_it() {
    let enemies = vec![(v(0, 0), HitBox(v(10, 10))), (v(0, 0), HitBox(v(10, 10)))];
    let bullets = vec![(v(0, 0), HitBox(v(1, 1))), (v(0, 0), HitBox(v(1, 1)))];
    let mut score = Score { score: u32::MAX - 1 };
    assert_eq!(bullet_hit(&enemies, &bullets, &mut score), vec![Some(0), Some(1)]);
    assert_eq!(score.score, u32::MAX);
}
