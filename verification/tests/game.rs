use ast_core::asteroid::{Asteroid, Spin, SplitDice, SCALE};
use ast_core::compass::{Compass, Environment};
use ast_core::entity::{Change, IdAllocator, NamedTexture};
use ast_core::fixed::{PI, UNIT};
use ast_core::floating_text::{decimal_string, write_decimal, Color, LifetimedText};
use ast_core::gamestate::{Gamestate, SPEED_AFTERMATH, SPEED_ENDING, SPEED_NORMAL, TICKS};
use ast_core::geometry::{Heading, Vec2};
use ast_core::missile::Missile;
use ast_core::tick::{
    impact_damage, strike, AttritionDice, TickDice, ATTRITION_PERIOD, HIT_INVULNERABILITY,
};

fn cardinal_env() -> Environment {
    Environment {
        bounds: Vec2 { x: 800 * UNIT, y: 600 * UNIT },
        compass: Compass::new(vec![
            Heading { cos: UNIT, sin: 0 },
            Heading { cos: 0, sin: UNIT },
            Heading { cos: -UNIT, sin: 0 },
            Heading { cos: 0, sin: -UNIT },
        ])
        .unwrap(),
        asteroid_textures: vec!["big".to_string(), "mid".to_string(), "small".to_string()],
    }
}

fn rock(id: u64, x: i64, y: i64, tiers: i64) -> Asteroid {
    Asteroid {
        id,
        position: Vec2 { x, y },
        speed: 60 * UNIT,
        size: tiers * SCALE,
        rotation: 0,
        direction: 0,
        speed_multiplier: UNIT,
        turn_rate: UNIT,
        texture: NamedTexture { name: "rock".to_string() },
    }
}

fn shot(id: u64, x: i64, y: i64) -> Missile {
    Missile {
        id,
        position: Vec2 { x, y },
        speed: 500 * UNIT,
        rotation: 0,
        lifetime: 20 * UNIT,
        size: 4 * UNIT,
        turn_rate: 0,
        acceleration: 0,
        homing: false,
        target: Vec2 { x: 0, y: 0 },
    }
}

fn dice(children: usize) -> TickDice {
    TickDice {
        kick: UNIT,
        split: SplitDice {
            speed_factor: UNIT,
            spins: vec![Spin { factor: UNIT, leftward: true }; children],
        },
        offset: Vec2 { x: 7 * UNIT, y: -9 * UNIT },
    }
}

fn quiet(children: usize) -> AttritionDice {
    AttritionDice {
        pick: false,
        split: SplitDice {
            speed_factor: UNIT,
            spins: vec![Spin { factor: UNIT, leftward: true }; children],
        },
    }
}

fn playing() -> Gamestate {
    let mut g = Gamestate::new(Vec2 { x: 800 * UNIT, y: 600 * UNIT });
    g.menu.clear();
    g.simulation_speed = SPEED_NORMAL;
    g.spaceship.invulnerability = 0;
    g
}

fn adds(changes: &Vec<Change<Asteroid>>) -> usize {
    changes.iter().filter(|c| matches!(c, Change::Add(_))).count()
}

fn removes(changes: &Vec<Change<Asteroid>>, id: u64) -> usize {
    changes.iter().filter(|c| matches!(c, Change::Remove(r) if *r == id)).count()
}

#[test]
fn a_new_state_waits_at_the_start_menu() {
    let g = Gamestate::new(Vec2 { x: 800 * UNIT, y: 600 * UNIT });
    assert_eq!(TICKS, 10_000);
    assert_eq!(g.delta_time, 0);
    assert_eq!(g.accumulator, 0);
    assert_eq!(g.simulation_speed, 0);
    assert_eq!(g.loop_number, 0);
    assert!(g.asteroids.is_empty() && g.missiles.is_empty() && g.texts.is_empty());
    assert_eq!(g.asteroids_children, 2);
    assert_eq!(g.asteroid_limit, 26);
    assert_eq!(g.number_of_asteroids, 0);
    assert_eq!(g.score, [0, 0]);
    assert_eq!(g.multipliers, vec![3, 2, 1]);
    assert_eq!(g.menu, vec!["Start".to_string()]);
    assert!(!g.win && !g.over && !g.exit && !g.debug);
    assert_eq!(g.spaceship.id, 1);
    assert_eq!(g.spaceship.position, Vec2 { x: 400 * UNIT, y: 300 * UNIT });
    assert_eq!(g.ids.next, 2);
    assert_eq!(g.get_last_menu_item(), "Start");
    assert!(g.last_menu_is("Start"));
    assert!(!g.last_menu_is("Main"));
}

#[test]
fn last_menu_of_no_menu_is_empty() {
    let mut g = playing();
    assert_eq!(g.get_last_menu_item(), "");
    assert!(!g.last_menu_is(""));
    g.menu.push("Start".to_string());
    g.menu.push("Main".to_string());
    assert_eq!(g.get_last_menu_item(), "Main");
    assert!(g.last_menu_is("Main"));
}

#[test]
fn simulation_speed_follows_menus_and_the_ship() {
    let mut g = Gamestate::new(Vec2 { x: 800 * UNIT, y: 600 * UNIT });
    g.simulation_speed = 77;
    g.update_simulation_speed();
    assert_eq!(g.simulation_speed, 0);
    g.debug = true;
    g.simulation_speed = 77;
    g.update_simulation_speed();
    assert_eq!(g.simulation_speed, 77);
    g.menu.push("Main".to_string());
    g.update_simulation_speed();
    assert_eq!(g.simulation_speed, 0);
    g.menu.clear();
    g.update_simulation_speed();
    assert_eq!(g.simulation_speed, SPEED_NORMAL);
    g.spaceship.alive = false;
    g.update_simulation_speed();
    assert_eq!(g.simulation_speed, SPEED_NORMAL);
    g.debug = false;
    g.update_simulation_speed();
    assert_eq!(g.simulation_speed, SPEED_AFTERMATH);
    assert_eq!(SPEED_AFTERMATH, UNIT / 20);
}

#[test]
fn a_cleared_field_is_a_win() {
    let mut g = playing();
    g.update_ending();
    assert!(g.win && !g.over);
    assert_eq!(g.menu, vec!["Start".to_string()]);
    g.update_ending();
    assert_eq!(g.menu, vec!["Start".to_string()]);
    let mut busy = playing();
    busy.number_of_asteroids = 1;
    busy.update_ending();
    assert!(!busy.win && !busy.over && busy.menu.is_empty());
    let mut debugging = playing();
    debugging.debug = true;
    debugging.update_ending();
    assert!(debugging.win && debugging.menu.is_empty());
    let mut paused = playing();
    paused.simulation_speed = 0;
    paused.update_ending();
    assert!(!paused.win);
}

#[test]
fn a_lost_ship_and_a_cleared_field_end_the_match() {
    let mut g = playing();
    g.spaceship.alive = false;
    g.number_of_asteroids = 2;
    g.update_ending();
    assert_eq!(g.simulation_speed, SPEED_ENDING);
    assert_eq!(SPEED_ENDING, UNIT / 10);
    assert!(!g.over && !g.win && g.menu.is_empty());
    g.number_of_asteroids = 0;
    g.update_ending();
    assert!(g.over && !g.win);
    assert_eq!(g.menu, vec!["Start".to_string()]);
    g.menu = vec!["Main".to_string()];
    g.update_ending();
    assert_eq!(g.menu, vec!["Main".to_string()]);
    let mut debugging = playing();
    debugging.spaceship.alive = false;
    debugging.debug = true;
    debugging.update_ending();
    assert!(!debugging.over);
    assert_eq!(debugging.simulation_speed, SPEED_NORMAL);
}

#[test]
fn best_score_counts_every_descendant() {
    let mut g = playing();
    g.asteroids.push(rock(10, 0, 0, 3));
    assert_eq!(g.get_max_score(100, &[3, 2, 1], 2), [4, 2, 1, 1700]);
    assert_eq!(g.get_max_score(100, &[3, 2, 1], 3), [9, 3, 1, 3400]);
    assert_eq!(g.get_max_score(100, &[3, 2, 1], 0), [0, 0, 1, 100]);
    assert_eq!(g.get_max_score(100, &[3, 2], 2), [4, 2, 1, 1600]);
    assert_eq!(g.get_max_score(100, &[], 2), [4, 2, 1, 0]);
    g.asteroids.push(rock(11, 0, 0, 1));
    g.asteroids.push(rock(12, 0, 0, 2));
    assert_eq!(g.get_max_score(100, &[3, 2, 1], 2), [7, 3, 1, 2800]);
    g.asteroids.clear();
    assert_eq!(g.get_max_score(100, &[3, 2, 1], 2), [0, 0, 0, 0]);
    let mut odd = rock(13, 0, 0, 1);
    odd.size = 3 * SCALE / 2;
    g.asteroids.push(odd);
    assert_eq!(g.get_max_score(10, &[3, 2, 1], 2), [0, 1, 0, 20]);
    g.asteroids[0].size = SCALE - 1;
    assert_eq!(g.get_max_score(10, &[3, 2, 1], 2), [0, 0, 0, 0]);
    g.asteroids[0].size = 4 * SCALE;
    assert_eq!(g.get_max_score(1, &[3, 2, 1], 2), [8, 4, 2, 34]);
}

#[test]
fn best_score_stops_at_the_largest_number() {
    let mut g = playing();
    g.asteroids.push(rock(10, 0, 0, 3));
    let best = g.get_max_score(u128::MAX, &[3, 2, 1], 255);
    assert_eq!(best, [65_025, 255, 1, u128::MAX]);
}

#[test]
fn reset_starts_a_match() {
    let env = cardinal_env();
    let mut g = Gamestate::new(env.bounds);
    g.win = true;
    g.over = true;
    g.missiles.push(shot(90, 0, 0));
    g.score = [55, 66];
    g.reset(&env);
    assert!(!g.win && !g.over);
    assert!(g.menu.is_empty());
    assert!(g.missiles.is_empty() && g.texts.is_empty());
    assert_eq!(g.asteroids.len(), 20);
    assert_eq!(g.number_of_asteroids, 20);
    assert_eq!(g.spaceship.id, 2);
    assert!(g.spaceship.alive);
    for (k, a) in g.asteroids.iter().enumerate() {
        assert_eq!(a.id, 3 + k as u64);
        assert!(a.size == SCALE || a.size == 2 * SCALE || a.size == 3 * SCALE);
    }
    assert_eq!(g.ids.next, 23);
    assert_eq!(g.score[0], 0);
    assert_eq!(g.score[1], g.get_max_score(100, &[3, 2, 1], 2)[3]);
    assert!(g.score[1] >= 20 * 300);
    g.reset(&env);
    assert!(g.menu.is_empty());
    assert_eq!(g.asteroids.len(), 20);
    assert_eq!(g.spaceship.id, 23);
}

#[test]
fn a_plain_shot_leaves_the_ship() {
    let env = cardinal_env();
    let mut g = playing();
    g.spaceship.rotation = 77;
    g.summon_missile(false, &env);
    assert_eq!(g.missiles.len(), 1);
    assert_eq!(
        g.missiles[0],
        Missile {
            id: 2,
            position: Vec2 { x: 400 * UNIT, y: 300 * UNIT },
            speed: 500 * UNIT,
            rotation: 77,
            lifetime: 20 * UNIT,
            size: 4 * UNIT,
            turn_rate: 15 * UNIT / 2,
            acceleration: 200 * UNIT,
            homing: false,
            target: Vec2 { x: -100 * UNIT, y: -100 * UNIT },
        }
    );
    assert_eq!(g.ids.next, 3);
}

#[test]
fn a_homing_volley_has_a_missile_for_each_unit_of_capacity() {
    let env = cardinal_env();
    let mut g = playing();
    g.summon_missile(true, &env);
    assert_eq!(g.missiles.len(), 2);
    assert_eq!(g.missiles[0].position, Vec2 { x: 400 * UNIT, y: 245 * UNIT });
    assert_eq!(g.missiles[0].rotation, PI / 2);
    assert_eq!(g.missiles[1].position, Vec2 { x: 400 * UNIT, y: 355 * UNIT });
    assert_eq!(g.missiles[1].rotation, 3 * PI / 2);
    for (k, m) in g.missiles.iter().enumerate() {
        assert_eq!(m.id, 2 + k as u64);
        assert!(m.homing);
        assert_eq!(m.speed, 200 * UNIT);
    }
    g.missiles.clear();
    g.spaceship.missile_capacity = 5;
    g.summon_missile(true, &env);
    assert_eq!(g.missiles.len(), 5);
    let places = g.spaceship.generate_positions_angles(
        1_062_478, 2_827_434, 942_478, 2_707_434, &env.compass,
    );
    assert_eq!(places.len(), 6);
    for (k, m) in g.missiles.iter().enumerate() {
        assert_eq!((m.position, m.rotation), places[k]);
    }
    g.missiles.clear();
    g.spaceship.missile_capacity = 0;
    g.summon_missile(true, &env);
    assert!(g.missiles.is_empty());
}

#[test]
fn debug_asteroid_appears_ahead_of_the_ship() {
    let env = cardinal_env();
    let mut g = playing();
    g.create_debug_asteroid(&env);
    assert_eq!(g.asteroid_changes.len(), 1);
    match &g.asteroid_changes[0] {
        Change::Add(a) => {
            assert_eq!(a.id, 2);
            assert_eq!(a.position, Vec2 { x: 900 * UNIT, y: 300 * UNIT });
            assert_eq!(a.speed, 0);
            assert_eq!(a.size, 3 * SCALE);
        }
        Change::Remove(_) => panic!("an addition was queued"),
    }
    assert!(g.asteroids.is_empty());
}

#[test]
fn splitting_all_ignores_the_limit() {
    let env = cardinal_env();
    let mut g = playing();
    g.asteroid_limit = 0;
    g.asteroids_children = 3;
    g.asteroids.push(rock(10, 0, 0, 3));
    g.asteroids.push(rock(11, 0, 0, 1));
    g.asteroids.push(rock(12, 0, 0, 2));
    g.split_all_asteroids(&env);
    assert_eq!(g.asteroid_changes.len(), 4 + 1 + 4);
    assert_eq!(adds(&g.asteroid_changes), 6);
    assert!(matches!(g.asteroid_changes[3], Change::Remove(10)));
    assert!(matches!(g.asteroid_changes[4], Change::Remove(11)));
    assert!(matches!(g.asteroid_changes[8], Change::Remove(12)));
    assert_eq!(g.ids.next, 8);
}

#[test]
fn flushing_applies_all_three_lists() {
    let mut g = playing();
    g.asteroids.push(rock(10, 0, 0, 3));
    g.asteroids.push(rock(11, 0, 0, 3));
    g.missiles.push(shot(20, 0, 0));
    g.asteroid_changes.push(Change::Remove(10));
    g.asteroid_changes.push(Change::Add(rock(0, 5, 5, 2)));
    g.missile_changes.push(Change::Add(shot(0, 1, 1)));
    g.missile_changes.push(Change::Remove(20));
    let mut ids = IdAllocator { next: 500 };
    g.text_changes.push(Change::Add(LifetimedText::new(
        UNIT,
        Vec2 { x: 0, y: 0 },
        0,
        "x".to_string(),
        UNIT,
        Color { r: 0, g: 0, b: 0, a: 0 },
        0,
        &mut ids,
    )));
    g.flush_changes();
    let asteroid_ids: Vec<u64> = g.asteroids.iter().map(|a| a.id).collect();
    let missile_ids: Vec<u64> = g.missiles.iter().map(|m| m.id).collect();
    let text_ids: Vec<u64> = g.texts.iter().map(|t| t.id).collect();
    assert_eq!(asteroid_ids, vec![11, 2]);
    assert_eq!(missile_ids, vec![3]);
    assert_eq!(text_ids, vec![4]);
    assert_eq!(g.ids.next, 5);
    assert_eq!(g.number_of_asteroids, 2);
    assert!(g.asteroid_changes.is_empty());
    assert!(g.missile_changes.is_empty());
    assert!(g.text_changes.is_empty());
}

#[test]
fn a_frame_moves_everything_and_looks_for_the_end() {
    let env = cardinal_env();
    let mut g = playing();
    g.delta_time = UNIT / 10;
    g.spaceship.speed = 100 * UNIT;
    g.asteroids.push(rock(10, 100 * UNIT, 100 * UNIT, 3));
    g.missiles.push(shot(20, 10 * UNIT, 10 * UNIT));
    g.asteroid_changes.push(Change::Remove(10));
    let mut ids = IdAllocator { next: 500 };
    g.texts.push(LifetimedText::score_popup(100, Vec2 { x: 0, y: 30 * UNIT }, &mut ids));
    g.update_all(&env, 200_000, 144);
    assert_eq!(g.fps, 144);
    assert_eq!(g.fps_cooldown, 200_000);
    assert_eq!(g.spaceship.position, Vec2 { x: 410 * UNIT, y: 300 * UNIT });
    assert_eq!(g.missiles[0].position, Vec2 { x: 60 * UNIT, y: 10 * UNIT });
    assert_eq!(g.texts[0].position, Vec2 { x: 0, y: 27 * UNIT });
    assert!(g.asteroids.is_empty());
    assert_eq!(g.number_of_asteroids, 0);
    assert!(g.win);
    assert_eq!(g.menu, vec!["Start".to_string()]);
    g.update_all(&env, 300_000, 30);
    assert_eq!(g.fps, 144);
    assert_eq!(g.simulation_speed, 0);
    g.update_all(&env, 350_000, 30);
    assert_eq!(g.fps, 30);
}

#[test]
fn a_large_asteroid_costs_more_than_a_small_shield_holds() {
    assert_eq!(impact_damage(3 * SCALE), 16_000_000);
    assert_eq!(impact_damage(SCALE), 4_000_000);
    assert_eq!(impact_damage(2 * SCALE), 9_000_000);
    assert_eq!(HIT_INVULNERABILITY, 2 * UNIT / 5);
    let env = cardinal_env();
    let mut g = playing();
    g.spaceship.shield = 10 * UNIT;
    g.spaceship.speed = 100 * UNIT;
    g.number_of_asteroids = 1;
    g.asteroids.push(rock(10, 400 * UNIT, 300 * UNIT + 100 * UNIT, 3));
    let mut last = 0;
    g.step_with(&vec![dice(2)], &vec![quiet(2)], 0, &mut last, &env);
    assert_eq!(g.spaceship.shield, 0);
    assert!(!g.spaceship.alive);
    assert_eq!(g.spaceship.invulnerability, HIT_INVULNERABILITY);
    assert_eq!(g.spaceship.speed, 25 * UNIT);
    assert_eq!(g.spaceship.rotation, -UNIT);
    assert_eq!(removes(&g.asteroid_changes, 10), 2);
    assert_eq!(adds(&g.asteroid_changes), 2);
    assert!(matches!(g.asteroid_changes[0], Change::Remove(10)));
    assert!(matches!(g.asteroid_changes[3], Change::Remove(10)));
    assert_eq!(g.score, [0, 0]);
}

#[test]
fn a_strong_shield_survives_and_the_ship_cannot_be_hit_again_at_once() {
    let env = cardinal_env();
    let mut g = playing();
    g.number_of_asteroids = 2;
    g.asteroids.push(rock(10, 400 * UNIT, 300 * UNIT, 1));
    g.asteroids.push(rock(11, 400 * UNIT, 300 * UNIT, 3));
    let mut last = 0;
    g.step_with(&vec![dice(2), dice(2)], &vec![quiet(2), quiet(2)], 0, &mut last, &env);
    assert_eq!(g.spaceship.shield, 100 * UNIT - 4_000_000);
    assert!(g.spaceship.alive);
    assert_eq!(removes(&g.asteroid_changes, 10), 2);
    assert_eq!(removes(&g.asteroid_changes, 11), 0);
    assert_eq!(adds(&g.asteroid_changes), 0);
}

#[test]
fn an_invulnerable_or_lost_ship_is_not_hit() {
    let env = cardinal_env();
    let mut g = playing();
    g.spaceship.invulnerability = 1;
    g.asteroids.push(rock(10, 400 * UNIT, 300 * UNIT, 3));
    g.collide_asteroid(0, &dice(2), &env);
    assert!(g.asteroid_changes.is_empty());
    assert_eq!(g.spaceship.shield, 100 * UNIT);
    g.spaceship.invulnerability = 0;
    g.spaceship.alive = false;
    g.collide_asteroid(0, &dice(2), &env);
    assert!(g.asteroid_changes.is_empty());
}

#[test]
fn striking_a_ship() {
    let mut ids = IdAllocator::new();
    let mut s = ast_core::spaceship::Spaceship::new(Vec2 { x: 0, y: 0 }, &mut ids);
    s.speed = -80 * UNIT;
    strike(&mut s, 2 * SCALE, 2 * UNIT);
    assert_eq!(s.shield, 100 * UNIT - 9_000_000);
    assert_eq!(s.speed, -20 * UNIT);
    assert_eq!(s.rotation, -2 * UNIT);
    assert_eq!(s.invulnerability, 240_000);
    assert!(s.alive);
    s.shield = 9_000_000;
    strike(&mut s, 2 * SCALE, 0);
    assert_eq!(s.shield, 0);
    assert!(!s.alive);
}

#[test]
fn two_missiles_split_an_asteroid_once() {
    let env = cardinal_env();
    let mut g = playing();
    g.number_of_asteroids = 1;
    g.asteroids.push(rock(10, 100 * UNIT, 100 * UNIT, 2));
    g.missiles.push(shot(20, 100 * UNIT, 100 * UNIT));
    g.missiles.push(shot(21, 500 * UNIT, 500 * UNIT));
    g.missiles.push(shot(22, 110 * UNIT, 100 * UNIT));
    let mut last = 0;
    g.step_with(&vec![dice(2)], &vec![quiet(2)], 0, &mut last, &env);
    assert_eq!(g.asteroid_changes.len(), 3);
    assert_eq!(adds(&g.asteroid_changes), 2);
    assert_eq!(removes(&g.asteroid_changes, 10), 1);
    assert!(matches!(g.asteroid_changes[2], Change::Remove(10)));
    assert_eq!(g.missile_changes.len(), 2);
    assert!(matches!(g.missile_changes[0], Change::Remove(20)));
    assert!(matches!(g.missile_changes[1], Change::Remove(22)));
    assert_eq!(g.score, [200, 0]);
    assert_eq!(g.text_changes.len(), 1);
    match &g.text_changes[0] {
        Change::Add(t) => {
            assert_eq!(t.text, "200");
            assert_eq!(t.position, Vec2 { x: 107 * UNIT, y: 91 * UNIT });
            assert_eq!(t.lifetime, 2 * UNIT);
            assert_eq!(t.size, 35 * UNIT);
            assert_eq!(t.id, 4);
        }
        Change::Remove(_) => panic!("a popup was queued"),
    }
    assert_eq!(g.ids.next, 5);
    g.flush_changes();
    assert_eq!(g.asteroids.len(), 2);
    assert_eq!(g.missiles.len(), 1);
    assert_eq!(g.missiles[0].id, 21);
    assert_eq!(g.texts.len(), 1);
}

#[test]
fn the_limit_degrades_a_split_to_one_child() {
    let env = cardinal_env();
    let mut g = playing();
    g.asteroid_limit = 26;
    g.asteroids_children = 2;
    g.number_of_asteroids = 24;
    assert!(!g.can_add());
    g.asteroids.push(rock(10, 100 * UNIT, 100 * UNIT, 2));
    g.missiles.push(shot(20, 100 * UNIT, 100 * UNIT));
    g.meet_missile(0, 0, &dice(2), &env);
    assert_eq!(adds(&g.asteroid_changes), 1);
    g.asteroid_changes.clear();
    g.number_of_asteroids = 23;
    assert!(g.can_add());
    g.meet_missile(0, 0, &dice(2), &env);
    assert_eq!(adds(&g.asteroid_changes), 2);
}

#[test]
fn a_destroyed_asteroid_is_removed_and_not_split() {
    let env = cardinal_env();
    let mut g = playing();
    let mut dead = rock(10, 100 * UNIT, 100 * UNIT, 1);
    dead.size = 0;
    g.asteroids.push(dead);
    g.missiles.push(shot(20, 100 * UNIT, 100 * UNIT));
    g.collide_asteroid(0, &dice(2), &env);
    assert_eq!(g.asteroid_changes.len(), 1);
    assert!(matches!(g.asteroid_changes[0], Change::Remove(10)));
    assert!(g.already_removed(10));
    assert!(!g.already_removed(11));
    assert_eq!(g.missile_changes.len(), 1);
    assert_eq!(g.score, [0, 0]);
}

#[test]
fn a_missile_that_left_the_screen_is_removed_by_the_next_tick() {
    let env = cardinal_env();
    let mut g = playing();
    g.delta_time = TICKS;
    g.number_of_asteroids = 1;
    g.asteroids.push(rock(10, 100 * UNIT, 500 * UNIT, 1));
    g.summon_missile(false, &env);
    let mut last = 0;
    let mut frames = 0;
    while g.missiles[0].size != 0 {
        g.update_missiles(&env);
        frames += 1;
        assert!(frames < 1000);
    }
    assert_eq!(frames, 49);
    assert_eq!(g.missiles.len(), 1);
    g.step_with(&vec![dice(2)], &vec![quiet(2)], 0, &mut last, &env);
    assert!(g.missiles.is_empty());
    assert!(g.missile_changes.is_empty());
}

#[test]
fn culling_marks_missiles_outside_or_without_size() {
    let mut g = playing();
    g.missiles.push(shot(20, 10, 10));
    g.missiles.push(shot(21, -1, 10));
    let mut spent = shot(22, 10, 10);
    spent.size = 0;
    g.missiles.push(spent);
    g.missiles.push(shot(23, 10, 601 * UNIT));
    g.discard_out_of_bounds_missiles(&Vec2 { x: 800 * UNIT, y: 600 * UNIT });
    assert_eq!(g.missile_changes.len(), 3);
    assert!(matches!(g.missile_changes[0], Change::Remove(21)));
    assert!(matches!(g.missile_changes[1], Change::Remove(22)));
    assert!(matches!(g.missile_changes[2], Change::Remove(23)));
    g.flush_missiles();
    assert_eq!(g.missiles.len(), 1);
    assert_eq!(g.missiles[0].id, 20);
}

#[test]
fn popups_whose_time_is_up_are_marked() {
    let mut g = playing();
    let mut ids = IdAllocator { next: 30 };
    for lifetime in [UNIT, 0, -5, 1] {
        g.texts.push(LifetimedText::new(
            lifetime,
            Vec2 { x: 0, y: 0 },
            0,
            "t".to_string(),
            UNIT,
            Color { r: 0, g: 0, b: 0, a: 0 },
            0,
            &mut ids,
        ));
    }
    g.discard_texts();
    assert_eq!(g.text_changes.len(), 2);
    assert!(matches!(g.text_changes[0], Change::Remove(31)));
    assert!(matches!(g.text_changes[1], Change::Remove(32)));
}

#[test]
fn a_lost_match_winds_down_every_half_second() {
    let env = cardinal_env();
    let mut g = playing();
    g.number_of_asteroids = 3;
    g.asteroids.push(rock(10, 0, 0, 2));
    g.asteroids.push(rock(11, 0, 0, 2));
    g.asteroids.push(rock(12, 0, 0, 1));
    let mut picks = vec![quiet(2), quiet(2), quiet(2)];
    picks[0].pick = true;
    picks[2].pick = true;
    let mut last = 100;
    g.discard_asteroids_with(100 + ATTRITION_PERIOD, &mut last, &picks, &env);
    assert!(g.asteroid_changes.is_empty());
    assert_eq!(last, 100);
    g.spaceship.alive = false;
    g.discard_asteroids_with(100 + ATTRITION_PERIOD - 1, &mut last, &picks, &env);
    assert!(g.asteroid_changes.is_empty());
    assert_eq!(last, 100);
    g.discard_asteroids_with(100 + ATTRITION_PERIOD, &mut last, &picks, &env);
    assert_eq!(last, 100 + ATTRITION_PERIOD);
    assert_eq!(g.asteroid_changes.len(), 3 + 1);
    assert_eq!(removes(&g.asteroid_changes, 10), 1);
    assert_eq!(removes(&g.asteroid_changes, 11), 0);
    assert_eq!(removes(&g.asteroid_changes, 12), 1);
    g.discard_asteroids_with(100 + 2 * ATTRITION_PERIOD, &mut last, &picks, &env);
    assert_eq!(g.asteroid_changes.len(), 4);
    assert_eq!(ATTRITION_PERIOD, UNIT / 2);
}

#[test]
fn random_attrition_splits_about_half() {
    let env = cardinal_env();
    let mut g = playing();
    g.spaceship.alive = false;
    for id in 0..200u64 {
        g.asteroids.push(rock(1000 + id, 0, 0, 1));
    }
    let mut last = 0;
    g.discard_asteroids_random(ATTRITION_PERIOD, &mut last, &env);
    assert_eq!(last, ATTRITION_PERIOD);
    let n = g.asteroid_changes.len();
    assert!(n > 40 && n < 160);
    assert_eq!(adds(&g.asteroid_changes), 0);
}

#[test]
fn three_and_a_half_ticks_of_time_make_three_ticks() {
    let env = cardinal_env();
    let mut g = playing();
    g.number_of_asteroids = 1;
    g.asteroids.push(rock(10, 100 * UNIT, 100 * UNIT, 2));
    let mut last = 0;
    let steps = g.run_ticks(7 * TICKS / 2, 0, &mut last, &env);
    assert_eq!(steps, 3);
    assert_eq!(g.accumulator, TICKS / 2);
    assert_eq!(g.loop_number, 3);
    assert_eq!(g.delta_time, 7 * TICKS / 2);
    let steps = g.run_ticks(TICKS / 2, 0, &mut last, &env);
    assert_eq!(steps, 1);
    assert_eq!(g.accumulator, 0);
    assert_eq!(g.loop_number, 4);
    let steps = g.run_ticks(TICKS - 1, 0, &mut last, &env);
    assert_eq!(steps, 0);
    assert_eq!(g.accumulator, TICKS - 1);
}

#[test]
fn a_paused_simulation_makes_no_ticks() {
    let env = cardinal_env();
    let mut g = playing();
    g.simulation_speed = 0;
    let mut last = 0;
    assert_eq!(g.run_ticks(100 * TICKS, 0, &mut last, &env), 0);
    assert_eq!(g.accumulator, 0);
    assert_eq!(g.delta_time, 0);
    g.simulation_speed = UNIT / 20;
    assert_eq!(g.run_ticks(100 * TICKS, 0, &mut last, &env), 5);
    assert_eq!(g.accumulator, 0);
    g.accumulator = -3 * TICKS;
    g.simulation_speed = UNIT;
    assert_eq!(g.run_ticks(TICKS, 0, &mut last, &env), 0);
    assert_eq!(g.accumulator, -2 * TICKS);
}

#[test]
fn a_random_tick_keeps_to_the_rules() {
    let env = cardinal_env();
    let mut g = playing();
    g.number_of_asteroids = 2;
    g.asteroids.push(rock(10, 100 * UNIT, 100 * UNIT, 3));
    g.asteroids.push(rock(11, 400 * UNIT, 300 * UNIT, 3));
    g.missiles.push(shot(20, 100 * UNIT, 100 * UNIT));
    g.missiles.push(shot(21, 101 * UNIT, 100 * UNIT));
    let mut last = 0;
    g.step(0, &mut last, &env);
    assert_eq!(removes(&g.asteroid_changes, 10), 1);
    assert_eq!(removes(&g.asteroid_changes, 11), 2);
    assert_eq!(adds(&g.asteroid_changes), 4);
    assert_eq!(g.missile_changes.len(), 2);
    assert_eq!(g.score, [100, 0]);
    assert_eq!(g.spaceship.shield, 100 * UNIT - 16_000_000);
    assert!(g.spaceship.rotation <= -UNIT && g.spaceship.rotation > -PI);
    match &g.text_changes[0] {
        Change::Add(t) => {
            assert!((t.position.x - 100 * UNIT).abs() <= 50 * UNIT);
            assert!((t.position.y - 100 * UNIT).abs() <= 100 * UNIT);
        }
        Change::Remove(_) => panic!("a popup was queued"),
    }
    let rolled = g.roll_tick();
    assert_eq!(rolled.len(), 2);
    let crumbling = g.roll_attrition();
    assert_eq!(crumbling.len(), 2);
    assert_eq!(crumbling[0].split.spins.len(), 2);
    for d in &rolled {
        assert!(d.kick >= UNIT && d.kick < PI);
        assert_eq!(d.split.spins.len(), 2);
    }
    assert_eq!(TickDice::roll(0).split.spins.len(), 0);
    assert_eq!(AttritionDice::roll(3).split.spins.len(), 3);
}

#[test]
fn surroundings_must_be_well_formed() {
    let table = vec![Heading { cos: UNIT, sin: 0 }];
    let three = vec!["a".to_string(), "b".to_string(), "c".to_string()];
    let size = Vec2 { x: 10, y: 10 };
    assert!(Environment::new(size, table.clone(), three.clone()).is_some());
    assert!(Environment::new(size, table.clone(), Vec::new()).is_some());
    assert!(Environment::new(Vec2 { x: 0, y: 0 }, table.clone(), Vec::new()).is_some());
    assert!(Environment::new(Vec2 { x: -1, y: 10 }, table.clone(), three.clone()).is_none());
    assert!(Environment::new(Vec2 { x: 10, y: -1 }, table.clone(), three.clone()).is_none());
    assert!(Environment::new(size, Vec::new(), three.clone()).is_none());
    assert!(Environment::new(size, vec![Heading { cos: 0, sin: UNIT + 1 }], three).is_none());
    assert!(Environment::new(size, table, vec!["a".to_string()]).is_none());
    assert!(Environment::fits_screen(size));
    assert!(!Environment::fits_screen(Vec2 { x: -1, y: 0 }));
}

#[test]
fn a_state_is_well_formed_while_the_score_table_knows_every_asteroid() {
    let mut g = playing();
    assert!(g.is_well_formed());
    g.asteroids.push(rock(10, 0, 0, 3));
    assert!(g.is_well_formed());
    g.asteroids.push(rock(11, 0, 0, 4));
    assert!(!g.is_well_formed());
    g.asteroids.pop();
    g.asteroid_changes.push(Change::Remove(99));
    g.asteroid_changes.push(Change::Add(rock(12, 0, 0, 2)));
    assert!(g.is_well_formed());
    g.asteroid_changes.push(Change::Add(rock(12, 0, 0, 4)));
    assert!(!g.is_well_formed());
    g.asteroid_changes.clear();
    g.multipliers = vec![3, 2];
    assert!(!g.is_well_formed());
    g.multipliers = vec![3, 2, 1];
    g.spaceship.missile_capacity = 255;
    assert!(!g.is_well_formed());
    g.spaceship.missile_capacity = 254;
    g.spaceship.shield = -1;
    assert!(!g.is_well_formed());
    g.spaceship.shield = 0;
    g.spaceship.max_speed = -1;
    assert!(!g.is_well_formed());
    assert_eq!(ast_core::asteroid::tier_index(SCALE - 1), 0);
    assert_eq!(ast_core::asteroid::tier_index(SCALE), 0);
    assert_eq!(ast_core::asteroid::tier_index(2 * SCALE), 1);
    assert_eq!(ast_core::asteroid::tier_index(3 * SCALE + 5), 2);
    assert_eq!(ast_core::asteroid::tier_index(i64::MIN), 0);
}

#[test]
fn numbers_are_written_in_decimal() {
    assert_eq!(decimal_string(0), "0");
    assert_eq!(decimal_string(7), "7");
    assert_eq!(decimal_string(10), "10");
    assert_eq!(decimal_string(1_234_567_890), "1234567890");
    assert_eq!(decimal_string(u128::MAX), "340282366920938463463374607431768211455");
    let mut out = String::from("n=");
    write_decimal(4096, &mut out);
    assert_eq!(out, "n=4096");
}
