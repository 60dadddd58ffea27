use dodger::collision::{bounding_box, detect_collisions, overlaps, Aabb, CollisionEvent};
use dodger::entity::{Entity, Role};
use dodger::game::{end_on_collision, transition, FrameReport, GamePhase, PhaseEvent, World};
use dodger::geometry::{displace, Point, Scale};
use dodger::input::{horizontal_intent, Keys};
use dodger::motion::{apply_velocity, integrate, move_player};
use dodger::score::Scoreboard;
use dodger::spawn::{draw_obstacle, obstacle_from, ObstacleDraw, SpawnTimer};
use rand::rngs::StdRng;
use rand::SeedableRng;

const UNIT: i64 = 1_000_000_000;

fn keys(left: bool, right: bool, start: bool) -> Keys {
    Keys { left, right, start }
}

fn obstacle_at(x: i64, y: i64, scale: u32) -> Entity {
    Entity {
        role: Role::Obstacle,
        position: Point { x, y },
        scale: Scale { x: scale, y: scale },
        velocity: Some(Point { x: 0, y: -100_000 }),
    }
}

fn player_at(x: i64, y: i64) -> Entity {
    Entity {
        role: Role::Player,
        position: Point { x, y },
        scale: Scale { x: 1000, y: 1000 },
        velocity: None,
    }
}

fn square(x: i64, y: i64, side: i64) -> Aabb {
    Aabb { center: Point { x, y }, size: Point { x: side, y: side } }
}

#[test]
fn displace_is_position_plus_rate_times_time() {
    // 2 units at 50 units/s for 0.5 s
    assert_eq!(displace(2 * UNIT, 50_000, 500_000), 27 * UNIT);
    assert_eq!(displace(0, -125_000, 2_000_000), -250 * UNIT);
    assert_eq!(displace(7, 3, 0), 7);
}

#[test]
fn displace_saturates() {
    assert_eq!(displace(i64::MAX - 1, 1000, 1000), i64::MAX);
    assert_eq!(displace(i64::MIN + 1, -1000, 1000), i64::MIN);
}

#[test]
fn integrate_moves_by_velocity() {
    let e = Entity {
        role: Role::Obstacle,
        position: Point { x: UNIT, y: 220 * UNIT },
        scale: Scale { x: 500, y: 500 },
        velocity: Some(Point { x: 10_000, y: -80_000 }),
    };
    let m = integrate(&e, 250_000);
    assert_eq!(m.position, Point { x: 3 * UNIT + UNIT / 2, y: 200 * UNIT });
    assert_eq!(m.scale, e.scale);
    assert_eq!(m.velocity, e.velocity);
}

#[test]
fn apply_velocity_leaves_still_entities() {
    let mut es = vec![player_at(5 * UNIT, -220 * UNIT), obstacle_at(0, 220 * UNIT, 1000)];
    apply_velocity(&mut es, 1_000_000);
    assert_eq!(es[0].position, Point { x: 5 * UNIT, y: -220 * UNIT });
    assert_eq!(es[1].position, Point { x: 0, y: 120 * UNIT });
}

#[test]
fn intent_of_held_keys() {
    assert_eq!(horizontal_intent(&keys(false, false, false)), 0);
    assert_eq!(horizontal_intent(&keys(true, false, false)), -1);
    assert_eq!(horizontal_intent(&keys(false, true, true)), 1);
    assert_eq!(horizontal_intent(&keys(true, true, false)), 0);
}

#[test]
fn player_moves_at_fixed_speed() {
    let mut es = vec![player_at(0, -220 * UNIT), obstacle_at(0, 0, 1000)];
    move_player(&mut es, &keys(false, true, false), 250_000);
    assert_eq!(es[0].position, Point { x: 25 * UNIT, y: -220 * UNIT });
    assert_eq!(es[1].position, Point { x: 0, y: 0 });
    move_player(&mut es, &keys(true, false, false), 1_000_000);
    assert_eq!(es[0].position.x, -75 * UNIT);
    move_player(&mut es, &keys(true, true, false), 1_000_000);
    assert_eq!(es[0].position.x, -75 * UNIT);
}

#[test]
fn player_is_not_clamped_to_screen() {
    let mut es = vec![player_at(310 * UNIT, -220 * UNIT)];
    move_player(&mut es, &keys(false, true, false), 1_000_000);
    assert_eq!(es[0].position.x, 410 * UNIT);
}

#[test]
fn boxes_ten_apart_overlap() {
    assert!(overlaps(&square(0, 0, 16 * UNIT), &square(10 * UNIT, 0, 16 * UNIT)));
}

#[test]
fn boxes_twenty_apart_do_not_overlap() {
    assert!(!overlaps(&square(0, 0, 16 * UNIT), &square(20 * UNIT, 0, 16 * UNIT)));
}

#[test]
fn touching_boxes_do_not_overlap() {
    assert!(!overlaps(&square(0, 0, 16 * UNIT), &square(16 * UNIT, 0, 16 * UNIT)));
    assert!(!overlaps(&square(0, 0, 16 * UNIT), &square(0, -16 * UNIT, 16 * UNIT)));
    assert!(overlaps(&square(0, 0, 16 * UNIT), &square(15 * UNIT, -15 * UNIT, 16 * UNIT)));
}

#[test]
fn overlap_needs_both_axes() {
    assert!(!overlaps(&square(0, 0, 16 * UNIT), &square(10 * UNIT, 30 * UNIT, 16 * UNIT)));
}

#[test]
fn bounding_box_scales_base_sprite() {
    let b = bounding_box(&obstacle_at(UNIT, 2 * UNIT, 2500));
    assert_eq!(b.center, Point { x: UNIT, y: 2 * UNIT });
    assert_eq!(b.size, Point { x: 40 * UNIT, y: 40 * UNIT });
    let p = bounding_box(&player_at(0, 0));
    assert_eq!(p.size, Point { x: 16 * UNIT, y: 16 * UNIT });
}

#[test]
fn collisions_reported_per_overlapping_pair() {
    let es = vec![
        obstacle_at(5 * UNIT, 0, 1000),
        player_at(0, 0),
        obstacle_at(100 * UNIT, 0, 1000),
        obstacle_at(0, 3 * UNIT, 500),
    ];
    let events = detect_collisions(&es);
    assert_eq!(
        events,
        vec![
            CollisionEvent { player: 1, obstacle: 0 },
            CollisionEvent { player: 1, obstacle: 3 },
        ]
    );
    assert!(detect_collisions(&vec![]).is_empty());
    assert!(detect_collisions(&vec![player_at(0, 0)]).is_empty());
}

#[test]
fn spawn_timer_carries_remainder() {
    let mut t = SpawnTimer::new(1_000_000);
    assert!(!t.tick(400_000));
    assert!(!t.tick(400_000));
    assert!(t.tick(300_000));
    assert_eq!(t.elapsed_us, 100_000);
    assert_eq!(t.period_us, 1_000_000);
}

#[test]
fn spawn_timer_fires_once_for_many_periods() {
    let mut t = SpawnTimer::every_second();
    assert!(t.tick(2_500_000));
    assert_eq!(t.elapsed_us, 500_000);
    assert!(!t.tick(0));
    assert!(t.tick(500_000));
    assert_eq!(t.elapsed_us, 0);
}

#[test]
fn spawn_timer_huge_step() {
    let mut t = SpawnTimer::new(3);
    assert!(t.tick(u64::MAX));
    assert_eq!(t.elapsed_us, u64::MAX % 3);
}

#[test]
fn obstacle_from_draw() {
    let e = obstacle_from(&ObstacleDraw { x: -12 * UNIT, speed: 60_000, scale: 1500 });
    assert_eq!(e.role, Role::Obstacle);
    assert_eq!(e.position, Point { x: -12 * UNIT, y: 220 * UNIT });
    assert_eq!(e.scale, Scale { x: 1500, y: 1500 });
    assert_eq!(e.velocity, Some(Point { x: 0, y: -60_000 }));
}

#[test]
fn draws_stay_in_their_ranges_and_vary() {
    let mut rng = StdRng::seed_from_u64(7);
    let mut xs = Vec::new();
    for _ in 0..200 {
        let d = draw_obstacle(&mut rng);
        assert!(-320 * UNIT <= d.x && d.x < 320 * UNIT);
        assert!(50_000 <= d.speed && d.speed < 125_000);
        assert!(500 <= d.scale && d.scale < 5000);
        xs.push(d.x);
    }
    assert!(xs.iter().any(|&x| x != -320 * UNIT));
    assert!(xs.iter().any(|&x| x != xs[0]));
}

#[test]
fn score_accrues_frame_time() {
    let mut s = Scoreboard::new();
    s.accrue(1_500_000);
    s.accrue(1_700_000);
    assert_eq!(s.score_us, 3_200_000);
    assert_eq!(s.whole_seconds(), 3);
    s.reset();
    assert_eq!(s.score_us, 0);
    assert_eq!(s.whole_seconds(), 0);
}

#[test]
fn score_saturates() {
    let mut s = Scoreboard { score_us: u64::MAX - 5 };
    s.accrue(10);
    assert_eq!(s.score_us, u64::MAX);
}

#[test]
fn transitions_table() {
    assert_eq!(transition(GamePhase::Title, PhaseEvent::StartPressed), GamePhase::Playing);
    assert_eq!(transition(GamePhase::GameOver, PhaseEvent::StartPressed), GamePhase::Playing);
    assert_eq!(transition(GamePhase::Playing, PhaseEvent::Collision), GamePhase::GameOver);
    assert_eq!(transition(GamePhase::GameOver, PhaseEvent::Collision), GamePhase::GameOver);
    assert_eq!(transition(GamePhase::Playing, PhaseEvent::StartPressed), GamePhase::Playing);
    assert_eq!(transition(GamePhase::Title, PhaseEvent::Collision), GamePhase::Title);
}

#[test]
fn several_collisions_end_round_once() {
    let two = vec![
        CollisionEvent { player: 0, obstacle: 1 },
        CollisionEvent { player: 0, obstacle: 2 },
    ];
    assert_eq!(end_on_collision(GamePhase::Playing, &two), GamePhase::GameOver);
    assert_eq!(end_on_collision(GamePhase::GameOver, &two), GamePhase::GameOver);
    assert_eq!(end_on_collision(GamePhase::Playing, &vec![]), GamePhase::Playing);
    assert_eq!(end_on_collision(GamePhase::Title, &two), GamePhase::Title);
}

fn start_round() -> World {
    let mut w = World::new();
    let r = w.update(16_000, &keys(false, false, true));
    assert_eq!(r, FrameReport { entered: Some(GamePhase::Playing), spawn_due: false });
    w
}

#[test]
fn new_world_is_at_title() {
    let w = World::new();
    assert_eq!(w.phase, GamePhase::Title);
    assert!(w.entities.is_empty());
    assert_eq!(w.scoreboard.score_us, 0);
}

#[test]
fn start_press_begins_round_once() {
    let mut w = World::new();
    let r = w.update(16_000, &keys(false, false, false));
    assert_eq!(r.entered, None);
    assert_eq!(w.phase, GamePhase::Title);
    let r = w.update(16_000, &keys(false, false, true));
    assert_eq!(r.entered, Some(GamePhase::Playing));
    assert_eq!(w.phase, GamePhase::Playing);
    assert_eq!(w.entities, vec![player_at(0, -220 * UNIT)]);
    // still held: the round goes on, nothing restarts
    let r = w.update(16_000, &keys(false, false, true));
    assert_eq!(r.entered, None);
    assert_eq!(w.scoreboard.score_us, 16_000);
}

#[test]
fn held_start_at_title_does_not_start_twice() {
    let mut w = World::new();
    w.start_held = true;
    let r = w.update(16_000, &keys(false, false, true));
    assert_eq!(r.entered, None);
    assert_eq!(w.phase, GamePhase::Title);
    w.update(16_000, &keys(false, false, false));
    let r = w.update(16_000, &keys(false, false, true));
    assert_eq!(r.entered, Some(GamePhase::Playing));
}

#[test]
fn score_equals_time_survived() {
    let mut w = start_round();
    let frames = [16_000u64, 17_000, 250_000, 1];
    for dt in frames {
        let r = w.update(dt, &keys(false, false, false));
        assert_eq!(r.entered, None);
    }
    assert_eq!(w.scoreboard.score_us, 283_001);
}

#[test]
fn timer_in_round_reports_spawn_due() {
    let mut w = start_round();
    assert!(!w.update(400_000, &keys(false, false, false)).spawn_due);
    assert!(!w.update(400_000, &keys(false, false, false)).spawn_due);
    assert!(w.update(300_000, &keys(false, false, false)).spawn_due);
    assert_eq!(w.timer.elapsed_us, 100_000);
}

#[test]
fn spawn_adds_obstacle_only_in_round() {
    let d = ObstacleDraw { x: 100 * UNIT, speed: 50_000, scale: 1000 };
    let mut title = World::new();
    title.spawn(&d);
    assert!(title.entities.is_empty());
    let mut w = start_round();
    w.spawn(&d);
    assert_eq!(w.entities.len(), 2);
    assert_eq!(w.entities[1], obstacle_from(&d));
}

#[test]
fn collision_ends_round_and_freezes_score() {
    let mut w = start_round();
    w.spawn(&ObstacleDraw { x: 0, speed: 100_000, scale: 1000 });
    let r = w.update(1_000_000, &keys(false, false, false));
    assert_eq!(r.entered, None);
    assert_eq!(w.scoreboard.score_us, 1_000_000);
    // falls 340 units more: from 120 to -220, onto the player
    let r = w.update(3_400_000, &keys(false, false, false));
    assert_eq!(r, FrameReport { entered: Some(GamePhase::GameOver), spawn_due: false });
    assert_eq!(w.phase, GamePhase::GameOver);
    assert!(w.entities.is_empty());
    assert_eq!(w.scoreboard.score_us, 1_000_000);
    assert_eq!(w.scoreboard.whole_seconds(), 1);
    let r = w.update(5_000_000, &keys(true, false, false));
    assert_eq!(r.entered, None);
    assert_eq!(w.phase, GamePhase::GameOver);
    assert_eq!(w.scoreboard.score_us, 1_000_000);
}

#[test]
fn restart_after_game_over_has_one_player_no_obstacles() {
    let mut w = start_round();
    w.spawn(&ObstacleDraw { x: 0, speed: 100_000, scale: 1000 });
    w.spawn(&ObstacleDraw { x: 200 * UNIT, speed: 100_000, scale: 1000 });
    w.update(4_400_000, &keys(false, false, false));
    assert_eq!(w.phase, GamePhase::GameOver);
    w.update(16_000, &keys(false, false, false));
    let r = w.update(16_000, &keys(false, false, true));
    assert_eq!(r.entered, Some(GamePhase::Playing));
    assert_eq!(w.entities, vec![player_at(0, -220 * UNIT)]);
    assert_eq!(w.scoreboard.score_us, 0);
    assert_eq!(w.timer, SpawnTimer::every_second());
}

#[test]
fn enter_tears_down_everything() {
    let mut w = start_round();
    w.spawn(&ObstacleDraw { x: 0, speed: 60_000, scale: 700 });
    w.enter(GamePhase::Title);
    assert!(w.entities.is_empty());
    w.enter(GamePhase::Playing);
    w.enter(GamePhase::Playing);
    assert_eq!(w.entities, vec![player_at(0, -220 * UNIT)]);
}

#[test]
fn frame_spawns_when_timer_fires() {
    let mut rng = StdRng::seed_from_u64(42);
    let mut w = start_round();
    let r = w.frame(600_000, &keys(false, false, false), &mut rng);
    assert!(!r.spawn_due);
    assert_eq!(w.entities.len(), 1);
    let r = w.frame(600_000, &keys(false, false, false), &mut rng);
    assert!(r.spawn_due);
    assert_eq!(w.entities.len(), 2);
    let o = w.entities[1];
    assert_eq!(o.role, Role::Obstacle);
    assert_eq!(o.position.y, 220 * UNIT);
    assert!(-320 * UNIT <= o.position.x && o.position.x < 320 * UNIT);
}
