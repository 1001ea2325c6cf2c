use flight_physics::fixed::Displacement;
use flight_physics::fixed::Point;
use flight_physics::fixed::GRAIN;
use flight_physics::fixed::WORLD_LIMIT;
use flight_physics::physics::Action;
use flight_physics::physics::Event;
use flight_physics::physics::GameState;
use flight_physics::physics::Input;
use flight_physics::physics::Physics;
use flight_physics::physics::Simulation;
use flight_physics::physics::Tick;
use flight_physics::physics::PHYSICS_TICK;
use flight_physics::stats::Sample;
use flight_physics::stats::Stats;
use flight_physics::terrain::Terrain;

fn p(x: i64, y: i64) -> Point {
    Point::new(x, y)
}

fn diamond() -> Terrain {
    Terrain::new(vec![p(100, 0), p(0, 100), p(-100, 0), p(0, -100)]).unwrap()
}

fn launched(position: Point) -> Simulation {
    Simulation { state: GameState::Launched, position, stats: Stats::new() }
}

fn sample(distance: u64, altitude: i64, speed: u64) -> Sample {
    Sample { distance, altitude, speed }
}

fn flight(x: i64, y: i64, index: usize, s: Sample) -> Tick {
    Tick::Freeflight { displacement: Displacement::new(x, y), terrain_index: index, sample: s }
}

/// The place of the body in grains.
fn place(physics: &Physics, sim: &Simulation) -> (i128, i128) {
    (
        sim.position.x as i128 * GRAIN as i128 + physics.sub_unit.x as i128,
        sim.position.y as i128 * GRAIN as i128 + physics.sub_unit.y as i128,
    )
}

#[test]
fn a_new_integrator_holds_nothing() {
    let physics = Physics::init();
    assert_eq!(physics.time_acc, 0);
    assert_eq!(physics.sub_unit, Displacement::new(0, 0));
    assert!(!physics.awaiting_tick);
    assert_eq!(Stats::new(), Stats { time: 0, distance: 0, max_altitude: 0, max_speed: 0 });
    assert_eq!(PHYSICS_TICK, 1_000);
}

#[test]
fn a_frame_outside_launched_does_nothing() {
    for state in [GameState::Paused, GameState::Landed] {
        for pause in [false, true] {
            let mut physics = Physics { time_acc: 250, sub_unit: Displacement::new(3, -4), awaiting_tick: false };
            let mut sim = Simulation { state, position: p(1, 2), stats: Stats::new() };
            assert!(!physics.begin_frame(&mut sim, pause, 16_667));
            assert_eq!(physics, Physics { time_acc: 250, sub_unit: Displacement::new(3, -4), awaiting_tick: false });
            assert_eq!(sim, Simulation { state, position: p(1, 2), stats: Stats::new() });
        }
    }
}

#[test]
fn a_pause_request_pauses_before_any_time_is_added() {
    let mut physics = Physics { time_acc: 250, sub_unit: Displacement::new(3, -4), awaiting_tick: false };
    let mut sim = launched(p(1, 2));
    assert!(!physics.begin_frame(&mut sim, true, 16_667));
    assert_eq!(sim.state, GameState::Paused);
    assert_eq!(sim.position, p(1, 2));
    assert_eq!(physics, Physics { time_acc: 250, sub_unit: Displacement::new(3, -4), awaiting_tick: false });
}

#[test]
fn a_frame_adds_its_time() {
    let mut physics = Physics { time_acc: 250, sub_unit: Displacement::new(3, -4), awaiting_tick: false };
    let mut sim = launched(p(1, 2));
    assert!(physics.begin_frame(&mut sim, false, 16_667));
    assert_eq!(physics, Physics { time_acc: 16_917, sub_unit: Displacement::new(3, -4), awaiting_tick: false });
    assert_eq!(sim, launched(p(1, 2)));
}

#[test]
fn frame_time_that_does_not_fit_is_not_admitted() {
    let physics = Physics { time_acc: u64::MAX - 5, sub_unit: Displacement::new(0, 0), awaiting_tick: false };
    assert!(physics.admits_frame(&launched(p(0, 0)), false, 5));
    assert!(!physics.admits_frame(&launched(p(0, 0)), false, 6));
    assert!(physics.admits_frame(&launched(p(0, 0)), true, 6));
    let landed = Simulation { state: GameState::Landed, position: p(0, 0), stats: Stats::new() };
    assert!(physics.admits_frame(&landed, false, 6));
}

#[test]
fn ticks_run_while_more_than_one_tick_is_left() {
    let mut physics = Physics::init();
    let mut sim = launched(p(0, 0));
    assert!(physics.begin_frame(&mut sim, false, 16_667));
    let mut ticks = 0;
    while physics.take_tick() {
        ticks += 1;
    }
    assert_eq!(ticks, 16);
    assert_eq!(physics.time_acc, 667);
}

#[test]
fn exactly_one_tick_of_time_runs_no_tick() {
    let mut physics = Physics { time_acc: 1_000, sub_unit: Displacement::new(9, 9), awaiting_tick: false };
    assert!(!physics.take_tick());
    assert_eq!(physics, Physics { time_acc: 1_000, sub_unit: Displacement::new(9, 9), awaiting_tick: false });
    physics.time_acc = 1_001;
    assert!(physics.take_tick());
    assert_eq!(physics, Physics { time_acc: 1, sub_unit: Displacement::new(9, 9), awaiting_tick: false });
    assert!(!physics.take_tick());
    physics.time_acc = 3_000;
    assert!(physics.take_tick());
    assert!(physics.take_tick());
    assert!(!physics.take_tick());
    assert_eq!(physics.time_acc, 1_000);
    physics.time_acc = 0;
    assert!(!physics.take_tick());
}

#[test]
fn a_small_frame_runs_no_tick_and_its_time_is_kept() {
    let mut physics = Physics::init();
    let mut sim = launched(p(0, 0));
    let mut ticks = 0;
    for _ in 0..5 {
        assert!(physics.begin_frame(&mut sim, false, 300));
        while physics.take_tick() {
            ticks += 1;
        }
    }
    assert_eq!(ticks, 1);
    assert_eq!(physics.time_acc, 500);
}

#[test]
fn a_launching_tick_follows_the_mechanism() {
    let t = diamond();
    let mut physics = Physics { time_acc: 10, sub_unit: Displacement::new(5, 6), awaiting_tick: false };
    let mut sim = launched(p(0, 0));
    assert!(!physics.tick(&mut sim, &t, Tick::Launching { projectile: p(300, 400) }));
    assert_eq!(sim, launched(p(300, 400)));
    assert_eq!(physics, Physics { time_acc: 10, sub_unit: Displacement::new(5, 6), awaiting_tick: false });
}

#[test]
fn a_free_tick_accumulates_and_leaves_the_position() {
    let t = diamond();
    let mut physics = Physics { time_acc: 10, sub_unit: Displacement::new(5, 6), awaiting_tick: false };
    let mut sim = launched(p(100, 100));
    assert!(!physics.tick(&mut sim, &t, flight(-3 * GRAIN, 7, 0, sample(11, 40, 9))));
    assert_eq!(sim.state, GameState::Launched);
    assert_eq!(sim.position, p(100, 100));
    assert_eq!(physics, Physics { time_acc: 10, sub_unit: Displacement::new(5 - 3 * GRAIN, 13), awaiting_tick: false });
    assert_eq!(sim.stats, Stats { time: 1_000, distance: 11, max_altitude: 40, max_speed: 9 });
}

#[test]
fn next_position_carries_without_changing_anything() {
    let physics = Physics { time_acc: 10, sub_unit: Displacement::new(GRAIN - 1, -1), awaiting_tick: false };
    assert_eq!(physics.next_position(p(10, 10), Displacement::new(1, 0)), p(11, 9));
    assert_eq!(physics.next_position(p(10, 10), Displacement::new(0, 1)), p(10, 10));
    assert_eq!(physics.next_position(p(10, 10), Displacement::new(-GRAIN, 2 * GRAIN + 1)), p(9, 12));
    assert_eq!(physics, Physics { time_acc: 10, sub_unit: Displacement::new(GRAIN - 1, -1), awaiting_tick: false });
}

#[test]
fn landing_resets_the_accumulator() {
    let t = diamond();
    let mut physics = Physics { time_acc: 4_321, sub_unit: Displacement::new(77, -88), awaiting_tick: false };
    let mut sim = launched(p(100, 100));
    let tick = flight(-60 * GRAIN, -60 * GRAIN, 0, sample(85 * GRAIN as u64, 70, 1_234));
    assert!(physics.tick(&mut sim, &t, tick));
    assert_eq!(sim.state, GameState::Landed);
    assert_eq!(sim.position, p(50, 50));
    assert_eq!(physics, Physics { time_acc: 4_321, sub_unit: Displacement::new(0, 0), awaiting_tick: false });
    assert_eq!(
        sim.stats,
        Stats { time: 1_000, distance: 85 * GRAIN as u64, max_altitude: 70, max_speed: 1_234 }
    );
    physics.end_frame(&mut sim);
    assert_eq!(sim.position, p(50, 50));
    assert_eq!(physics.sub_unit, Displacement::new(0, 0));
}

#[test]
fn landed_is_final() {
    let t = diamond();
    let mut physics = Physics::init();
    let mut sim = launched(p(100, 100));
    assert!(physics.tick(&mut sim, &t, flight(-60 * GRAIN, -60 * GRAIN, 0, sample(1, 1, 1))));
    let (after, stopped) = (sim, physics);
    assert!(!physics.tick(&mut sim, &t, flight(5 * GRAIN, 5 * GRAIN, 0, sample(9, 9, 9))));
    assert!(!physics.tick(&mut sim, &t, Tick::Launching { projectile: p(0, 0) }));
    assert!(!physics.tick(&mut sim, &t, flight(-60 * GRAIN, -60 * GRAIN, 1, sample(9, 9, 9))));
    assert!(!physics.begin_frame(&mut sim, false, 5_000));
    assert_eq!(sim, after);
    assert_eq!(physics, stopped);
}

#[test]
fn paused_ticks_do_nothing() {
    let t = diamond();
    let mut physics = Physics { time_acc: 5, sub_unit: Displacement::new(1, 2), awaiting_tick: false };
    let mut sim = Simulation { state: GameState::Paused, position: p(100, 100), stats: Stats::new() };
    assert!(!physics.tick(&mut sim, &t, flight(-60 * GRAIN, -60 * GRAIN, 0, sample(1, 1, 1))));
    assert_eq!(sim.state, GameState::Paused);
    assert_eq!(sim.position, p(100, 100));
    assert_eq!(sim.stats, Stats::new());
    assert_eq!(physics, Physics { time_acc: 5, sub_unit: Displacement::new(1, 2), awaiting_tick: false });
}

#[test]
fn the_carry_moves_whole_units_and_keeps_the_fraction() {
    let mut physics = Physics { time_acc: 42, sub_unit: Displacement::new(3 * GRAIN + 5, -GRAIN - 1), awaiting_tick: false };
    let mut sim = launched(p(10, 20));
    let before = place(&physics, &sim);
    physics.end_frame(&mut sim);
    assert_eq!(sim.position, p(13, 18));
    assert_eq!(physics, Physics { time_acc: 42, sub_unit: Displacement::new(5, GRAIN - 1), awaiting_tick: false });
    assert_eq!(place(&physics, &sim), before);
    assert_eq!(sim.state, GameState::Launched);
    assert_eq!(sim.stats, Stats::new());
    physics.end_frame(&mut sim);
    assert_eq!(sim.position, p(13, 18));
    assert_eq!(physics.sub_unit, Displacement::new(5, GRAIN - 1));
}

#[test]
fn a_flight_of_many_ticks_loses_nothing() {
    let t = Terrain::new(vec![p(1_000, 0), p(0, 1_000), p(-1_000, 0), p(0, -1_000)]).unwrap();
    let mut physics = Physics::init();
    let mut sim = launched(p(5_000, 5_000));
    let step = Displacement::new(GRAIN / 3 + 1, -(GRAIN / 7));
    let start = place(&physics, &sim);
    let mut ticks: i128 = 0;
    for _ in 0..50 {
        assert!(physics.begin_frame(&mut sim, false, 16_667));
        while physics.take_tick() {
            let tick = Tick::Freeflight { displacement: step, terrain_index: 0, sample: sample(1, 0, 0) };
            assert!(physics.admits(&sim, tick));
            assert!(!physics.tick(&mut sim, &t, tick));
            ticks += 1;
        }
        physics.end_frame(&mut sim);
        assert!(0 <= physics.sub_unit.x && physics.sub_unit.x < GRAIN);
        assert!(0 <= physics.sub_unit.y && physics.sub_unit.y < GRAIN);
    }
    assert_eq!(ticks, 833);
    let end = place(&physics, &sim);
    assert_eq!(end.0, start.0 + ticks * step.x as i128);
    assert_eq!(end.1, start.1 + ticks * step.y as i128);
    assert_eq!(sim.stats.time, 833_000);
    assert_eq!(sim.stats.distance, 833);
}

#[test]
fn stats_never_decrease() {
    let t = diamond();
    let mut physics = Physics::init();
    let mut sim = launched(p(300, 300));
    let samples = [
        sample(5, 10, 7),
        sample(0, -3, 2),
        sample(9, 10, 7),
        sample(1, 50, 0),
        sample(0, 49, 8),
        sample(4, -100, 1),
    ];
    let mut last = sim.stats;
    for (i, &s) in samples.iter().enumerate() {
        let tick = if i == 2 { Tick::Launching { projectile: p(300, 300) } } else { flight(1, -1, 0, s) };
        physics.tick(&mut sim, &t, tick);
        assert!(last.time <= sim.stats.time);
        assert!(last.distance <= sim.stats.distance);
        assert!(last.max_altitude <= sim.stats.max_altitude);
        assert!(last.max_speed <= sim.stats.max_speed);
        last = sim.stats;
    }
    assert_eq!(sim.stats, Stats { time: 5_000, distance: 10, max_altitude: 50, max_speed: 8 });
}

#[test]
fn stats_record_exactly() {
    let mut stats = Stats { time: 7, distance: 100, max_altitude: -5, max_speed: 3 };
    stats.record(sample(11, -9, 3));
    assert_eq!(stats, Stats { time: 1_007, distance: 111, max_altitude: -5, max_speed: 3 });
    stats.record(sample(0, -4, 4));
    assert_eq!(stats, Stats { time: 2_007, distance: 111, max_altitude: -4, max_speed: 4 });
    assert!(stats.has_room_for(sample(u64::MAX - 111, 0, 0)));
    assert!(!stats.has_room_for(sample(u64::MAX - 110, 0, 0)));
    let late = Stats { time: u64::MAX - 999, distance: 0, max_altitude: 0, max_speed: 0 };
    assert!(!late.has_room_for(sample(0, 0, 0)));
    let almost = Stats { time: u64::MAX - 1_000, distance: 0, max_altitude: 0, max_speed: 0 };
    assert!(almost.has_room_for(sample(0, 0, 0)));
}

#[test]
fn ticks_that_cannot_be_taken_are_not_admitted() {
    let physics = Physics { time_acc: 0, sub_unit: Displacement::new(i64::MAX, 0), awaiting_tick: false };
    let sim = launched(p(0, 0));
    assert!(physics.admits(&sim, flight(0, 5, 0, sample(0, 0, 0))));
    assert!(!physics.admits(&sim, flight(1, 0, 0, sample(0, 0, 0))));
    assert!(physics.admits(&sim, Tick::Launching { projectile: p(i64::MAX, i64::MIN) }));
    let roomy = Physics::init();
    assert!(!roomy.admits(&launched(p(WORLD_LIMIT, 0)), flight(GRAIN, 0, 0, sample(0, 0, 0))));
    assert!(!roomy.admits(&launched(p(WORLD_LIMIT + 1, 0)), flight(0, 0, 0, sample(0, 0, 0))));
    let full = Simulation {
        state: GameState::Launched,
        position: p(0, 0),
        stats: Stats { time: 0, distance: u64::MAX, max_altitude: 0, max_speed: 0 },
    };
    assert!(roomy.admits(&full, flight(0, 0, 0, sample(0, 0, 0))));
    assert!(!roomy.admits(&full, flight(0, 0, 0, sample(1, 0, 0))));
    let landed = Simulation { state: GameState::Landed, position: p(WORLD_LIMIT + 1, 0), stats: full.stats };
    assert!(physics.admits(&landed, flight(1, 0, 0, sample(1, 0, 0))));
}

#[test]
fn controls_cancel() {
    let none = Input { forward: false, back: false, left: false, right: false, pause: false };
    assert_eq!((none.thrust(), none.turn()), (0, 0));
    let ahead = Input { forward: true, ..none };
    assert_eq!((ahead.thrust(), ahead.turn()), (1, 0));
    let astern = Input { back: true, right: true, ..none };
    assert_eq!((astern.thrust(), astern.turn()), (-1, -1));
    let all = Input { forward: true, back: true, left: true, right: true, pause: true };
    assert_eq!((all.thrust(), all.turn()), (0, 0));
    let leftward = Input { left: true, ..none };
    assert_eq!((leftward.thrust(), leftward.turn()), (0, 1));
}

fn frame(elapsed: u64) -> Event {
    Event::Frame { pause: false, elapsed }
}

#[test]
fn a_frame_asks_for_each_tick_it_pays_for() {
    let t = diamond();
    let mut physics = Physics::init();
    let mut sim = launched(p(300, 300));
    let mut action = physics.update(&mut sim, &t, frame(16_667));
    let mut ticks = 0;
    while action == Action::Advance {
        assert!(physics.awaiting_tick);
        let tick = flight(GRAIN / 4, -GRAIN / 4, 0, sample(3, 0, 0));
        assert!(physics.admits_update(&sim, Event::Tick(tick)));
        action = physics.update(&mut sim, &t, Event::Tick(tick));
        ticks += 1;
    }
    assert_eq!(ticks, 16);
    assert_eq!(physics, Physics { time_acc: 667, sub_unit: Displacement::new(0, 0), awaiting_tick: false });
    assert_eq!(sim.position, p(304, 296));
    assert_eq!(sim.state, GameState::Launched);
    assert_eq!(sim.stats, Stats { time: 16_000, distance: 48, max_altitude: 0, max_speed: 0 });
}

#[test]
fn a_short_frame_rests_after_the_carry() {
    let t = diamond();
    let mut physics =
        Physics { time_acc: 100, sub_unit: Displacement::new(2 * GRAIN + 1, -1), awaiting_tick: false };
    let mut sim = launched(p(300, 300));
    assert_eq!(physics.update(&mut sim, &t, frame(900)), Action::Rest);
    assert_eq!(
        physics,
        Physics { time_acc: 1_000, sub_unit: Displacement::new(1, GRAIN - 1), awaiting_tick: false }
    );
    assert_eq!(sim, launched(p(302, 299)));
    assert_eq!(physics.update(&mut sim, &t, frame(1)), Action::Advance);
    assert_eq!(
        physics,
        Physics { time_acc: 1, sub_unit: Displacement::new(1, GRAIN - 1), awaiting_tick: true }
    );
    assert_eq!(sim, launched(p(302, 299)));
}

#[test]
fn a_pause_request_ends_the_frame_at_once() {
    let t = diamond();
    let mut physics =
        Physics { time_acc: 100, sub_unit: Displacement::new(2 * GRAIN + 1, -1), awaiting_tick: false };
    let before = physics;
    let mut sim = launched(p(300, 300));
    assert_eq!(physics.update(&mut sim, &t, Event::Frame { pause: true, elapsed: 50_000 }), Action::Rest);
    assert_eq!(physics, before);
    assert_eq!(sim, Simulation { state: GameState::Paused, position: p(300, 300), stats: Stats::new() });
    assert_eq!(physics.update(&mut sim, &t, frame(50_000)), Action::Rest);
    assert_eq!(physics, before);
    assert_eq!(sim.state, GameState::Paused);
    sim.state = GameState::Launched;
    assert_eq!(physics.update(&mut sim, &t, frame(50_000)), Action::Advance);
    assert_eq!(physics.time_acc, 49_100);
}

#[test]
fn a_tick_that_was_not_asked_for_is_ignored() {
    let t = diamond();
    let mut physics = Physics { time_acc: 5_000, sub_unit: Displacement::new(7, 7), awaiting_tick: false };
    let before = physics;
    let mut sim = launched(p(100, 100));
    let tick = flight(-60 * GRAIN, -60 * GRAIN, 0, sample(1, 1, 1));
    assert_eq!(physics.update(&mut sim, &t, Event::Tick(tick)), Action::Rest);
    assert_eq!(physics, before);
    assert_eq!(sim, launched(p(100, 100)));
    let launch = Event::Tick(Tick::Launching { projectile: p(1, 1) });
    assert_eq!(physics.update(&mut sim, &t, launch), Action::Rest);
    assert_eq!(sim, launched(p(100, 100)));
}

#[test]
fn a_frame_does_not_pay_twice_for_an_awaited_tick() {
    let t = diamond();
    let mut physics = Physics { time_acc: 5_000, sub_unit: Displacement::new(7, 7), awaiting_tick: true };
    let mut sim = launched(p(100, 100));
    assert_eq!(physics.update(&mut sim, &t, frame(2_000)), Action::Advance);
    assert_eq!(physics, Physics { time_acc: 7_000, sub_unit: Displacement::new(7, 7), awaiting_tick: true });
}

#[test]
fn launching_ticks_follow_the_mechanism_until_the_frame_rests() {
    let t = diamond();
    let mut physics = Physics { time_acc: 0, sub_unit: Displacement::new(GRAIN + 3, 5), awaiting_tick: false };
    let mut sim = launched(p(0, 0));
    assert_eq!(physics.update(&mut sim, &t, frame(2_500)), Action::Advance);
    let first = Event::Tick(Tick::Launching { projectile: p(500, 600) });
    assert_eq!(physics.update(&mut sim, &t, first), Action::Advance);
    assert_eq!(sim.position, p(500, 600));
    assert_eq!(physics.sub_unit, Displacement::new(GRAIN + 3, 5));
    let second = Event::Tick(Tick::Launching { projectile: p(510, 620) });
    assert!(physics.admits_update(&sim, second));
    assert_eq!(physics.update(&mut sim, &t, second), Action::Rest);
    assert_eq!(sim.position, p(511, 620));
    assert_eq!(physics, Physics { time_acc: 500, sub_unit: Displacement::new(3, 5), awaiting_tick: false });
    assert_eq!(sim.stats, Stats::new());
}

#[test]
fn landing_ends_the_frame_and_every_frame_after_it() {
    let t = diamond();
    let mut physics = Physics { time_acc: 0, sub_unit: Displacement::new(9, 9), awaiting_tick: false };
    let mut sim = launched(p(100, 100));
    assert_eq!(physics.update(&mut sim, &t, frame(16_667)), Action::Advance);
    let glide = flight(-20 * GRAIN, -20 * GRAIN, 0, sample(5, 60, 10));
    assert_eq!(physics.update(&mut sim, &t, Event::Tick(glide)), Action::Advance);
    assert_eq!(sim.position, p(100, 100));
    assert_eq!(physics.sub_unit, Displacement::new(9 - 20 * GRAIN, 9 - 20 * GRAIN));
    let dive = flight(-60 * GRAIN, -60 * GRAIN, 0, sample(5, 50, 20));
    assert_eq!(physics.update(&mut sim, &t, Event::Tick(dive)), Action::Rest);
    assert_eq!(sim.state, GameState::Landed);
    assert_eq!(sim.position, p(50, 50));
    assert_eq!(physics, Physics { time_acc: 14_667, sub_unit: Displacement::new(0, 0), awaiting_tick: false });
    assert_eq!(sim.stats, Stats { time: 2_000, distance: 10, max_altitude: 60, max_speed: 20 });
    let (after, stopped) = (sim, physics);
    assert_eq!(physics.update(&mut sim, &t, frame(16_667)), Action::Rest);
    assert_eq!(physics.update(&mut sim, &t, Event::Tick(dive)), Action::Rest);
    assert_eq!(physics.update(&mut sim, &t, Event::Frame { pause: true, elapsed: 1 }), Action::Rest);
    assert_eq!(sim, after);
    assert_eq!(physics, stopped);
}

#[test]
fn frames_of_free_flight_lose_nothing() {
    let t = Terrain::new(vec![p(1_000, 0), p(0, 1_000), p(-1_000, 0), p(0, -1_000)]).unwrap();
    let mut physics = Physics::init();
    let mut sim = launched(p(5_000, 5_000));
    let step = Displacement::new(-(GRAIN / 3) - 1, GRAIN / 7);
    let start = place(&physics, &sim);
    let mut ticks: i128 = 0;
    for n in 0..60 {
        let mut action = physics.update(&mut sim, &t, frame(9_000 + 100 * n));
        while action == Action::Advance {
            let tick = Tick::Freeflight { displacement: step, terrain_index: 0, sample: sample(2, 0, 0) };
            assert!(physics.admits_update(&sim, Event::Tick(tick)));
            action = physics.update(&mut sim, &t, Event::Tick(tick));
            ticks += 1;
            let here = place(&physics, &sim);
            assert_eq!(here.0, start.0 + ticks * step.x as i128);
            assert_eq!(here.1, start.1 + ticks * step.y as i128);
        }
        assert!(!physics.awaiting_tick);
        assert!(physics.time_acc <= PHYSICS_TICK);
        assert!(0 <= physics.sub_unit.x && physics.sub_unit.x < GRAIN);
        assert!(0 <= physics.sub_unit.y && physics.sub_unit.y < GRAIN);
    }
    assert_eq!(ticks, 716);
    assert_eq!(sim.stats.time, 716_000);
    assert_eq!(sim.stats.distance, 1_432);
}

#[test]
fn events_that_cannot_be_taken_are_not_admitted() {
    let physics = Physics { time_acc: u64::MAX - 5, sub_unit: Displacement::new(0, 0), awaiting_tick: false };
    let sim = launched(p(0, 0));
    assert!(physics.admits_update(&sim, frame(5)));
    assert!(!physics.admits_update(&sim, frame(6)));
    assert!(physics.admits_update(&sim, Event::Frame { pause: true, elapsed: 6 }));
    let far = launched(p(i64::MAX, 0));
    let carrying = Physics { time_acc: 0, sub_unit: Displacement::new(GRAIN, 0), awaiting_tick: false };
    assert!(!carrying.admits_update(&far, frame(1_000)));
    assert!(carrying.admits_update(&far, frame(1_001)));
    let awaited = Physics { time_acc: 0, sub_unit: Displacement::new(GRAIN, 0), awaiting_tick: true };
    assert!(awaited.admits_update(&far, frame(10)));
    let to_the_edge = Event::Tick(Tick::Launching { projectile: p(i64::MAX, 0) });
    assert!(!awaited.admits_update(&sim, to_the_edge));
    assert!(carrying.admits_update(&sim, to_the_edge));
    let near = Event::Tick(Tick::Launching { projectile: p(i64::MAX - 1, 0) });
    assert!(awaited.admits_update(&sim, near));
    let out = Event::Tick(flight(0, 0, 0, sample(0, 0, 0)));
    assert!(!awaited.admits_update(&launched(p(WORLD_LIMIT + 1, 0)), out));
    assert!(awaited.admits_update(&launched(p(WORLD_LIMIT, 0)), out));
    let landed = Simulation { state: GameState::Landed, position: p(i64::MAX, 0), stats: Stats::new() };
    assert!(awaited.admits_update(&landed, out));
    assert!(physics.admits_update(&landed, frame(6)));
}
