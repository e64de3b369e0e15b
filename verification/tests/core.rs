use ast_core::compass::{Compass, Environment};
use ast_core::entity::{
    apply_changes, generate_uid, remove_by_id, select_weighted_texture, texture_at, Change,
    CosmicEntity, Encounter, IdAllocator, NamedTexture,
};
use ast_core::fixed::{
    narrow, sat_abs, sat_add, sat_div, sat_mul, sat_neg, sat_ratio, sat_sub, PI, TAU, UNIT,
};
use ast_core::geometry::{
    along, along_flipped, nearer, overlap, wrap_coord, wrap_position, Heading, Vec2,
};
use ast_core::missile::Missile;

fn cardinal_compass() -> Compass {
    Compass::new(vec![
        Heading { cos: UNIT, sin: 0 },
        Heading { cos: 0, sin: UNIT },
        Heading { cos: -UNIT, sin: 0 },
        Heading { cos: 0, sin: -UNIT },
    ])
    .unwrap()
}

fn fine_compass(entries: usize) -> Compass {
    let mut table = Vec::new();
    for i in 0..entries {
        let angle = (i as f64) * std::f64::consts::TAU / (entries as f64);
        table.push(Heading {
            cos: (angle.cos() * UNIT as f64).round() as i64,
            sin: (angle.sin() * UNIT as f64).round() as i64,
        });
    }
    Compass::new(table).unwrap()
}

fn missile_at(id: u64, x: i64, y: i64, size: i64) -> Missile {
    Missile {
        id,
        position: Vec2 { x, y },
        speed: 0,
        rotation: 0,
        lifetime: 0,
        size,
        turn_rate: 0,
        acceleration: 0,
        homing: false,
        target: Vec2 { x: 0, y: 0 },
    }
}

#[test]
fn ids_start_at_one_and_increase() {
    let mut ids = IdAllocator::new();
    assert_eq!(generate_uid(&mut ids), 1);
    assert_eq!(generate_uid(&mut ids), 2);
    assert_eq!(generate_uid(&mut ids), 3);
    assert_eq!(ids.next, 4);
}

#[test]
fn ids_wrap_only_at_exhaustion() {
    let mut ids = IdAllocator { next: u64::MAX };
    assert_eq!(generate_uid(&mut ids), u64::MAX);
    assert_eq!(generate_uid(&mut ids), 0);
}

#[test]
fn fixed_point_constants() {
    assert_eq!(UNIT, 600_000);
    assert_eq!(PI, 1_884_956);
    assert_eq!(TAU, 3_769_912);
}

#[test]
fn fixed_point_products_round_toward_zero() {
    assert_eq!(sat_mul(2 * UNIT, 3 * UNIT), 6 * UNIT);
    assert_eq!(sat_mul(-1, 1), 0);
    assert_eq!(sat_mul(1, -1), 0);
    assert_eq!(sat_mul(-900_000, 400_000), -600_000);
    assert_eq!(sat_mul(UNIT / 2, UNIT / 2), UNIT / 4);
    assert_eq!(sat_div(UNIT, 3 * UNIT), 200_000);
    assert_eq!(sat_div(UNIT, -3 * UNIT), -200_000);
    assert_eq!(sat_div(-7, 2 * UNIT), -3);
    assert_eq!(sat_ratio(100, 33, 100), 33);
    assert_eq!(sat_ratio(-100, 33, 100), -33);
    assert_eq!(sat_ratio(-7, 1, 2), -3);
}

#[test]
fn fixed_point_saturates() {
    assert_eq!(sat_add(i64::MAX, 1), i64::MAX);
    assert_eq!(sat_add(i64::MIN, -1), i64::MIN);
    assert_eq!(sat_sub(i64::MIN, 1), i64::MIN);
    assert_eq!(sat_sub(0, i64::MIN), i64::MAX);
    assert_eq!(sat_neg(i64::MIN), i64::MAX);
    assert_eq!(sat_neg(5), -5);
    assert_eq!(sat_abs(i64::MIN), i64::MAX);
    assert_eq!(sat_abs(-7), 7);
    assert_eq!(sat_mul(i64::MAX, 2 * UNIT), i64::MAX);
    assert_eq!(sat_mul(i64::MIN, 2 * UNIT), i64::MIN);
    assert_eq!(sat_div(i64::MAX, 1), i64::MAX);
    assert_eq!(narrow(i128::MAX), i64::MAX);
    assert_eq!(narrow(i128::MIN), i64::MIN);
    assert_eq!(narrow(-42), -42);
}

#[test]
fn steps_along_a_heading() {
    let east = Heading { cos: UNIT, sin: 0 };
    let north = Heading { cos: 0, sin: UNIT };
    assert_eq!(along(east, 5 * UNIT), Vec2 { x: 5 * UNIT, y: 0 });
    assert_eq!(along(north, 5 * UNIT), Vec2 { x: 0, y: 5 * UNIT });
    assert_eq!(along_flipped(north, 5 * UNIT), Vec2 { x: 0, y: -5 * UNIT });
    assert_eq!(Vec2::new(1, 2).offset(Vec2::new(10, 20)), Vec2 { x: 11, y: 22 });
    assert_eq!(
        Vec2::new(i64::MAX, 0).offset(Vec2::new(1, -1)),
        Vec2 { x: i64::MAX, y: -1 }
    );
}

#[test]
fn wrapping_jumps_to_the_opposite_edge() {
    assert_eq!(wrap_coord(-1, 100), 100);
    assert_eq!(wrap_coord(101, 100), 0);
    assert_eq!(wrap_coord(0, 100), 0);
    assert_eq!(wrap_coord(100, 100), 100);
    assert_eq!(wrap_coord(37, 100), 37);
    assert_eq!(
        wrap_position(Vec2 { x: -5, y: 250 }, Vec2 { x: 100, y: 200 }),
        Vec2 { x: 100, y: 0 }
    );
}

#[test]
fn overlap_is_strict() {
    let a = Vec2 { x: 0, y: 0 };
    let b = Vec2 { x: 30, y: 40 };
    assert!(overlap(a, 25, b, 26));
    assert!(!overlap(a, 25, b, 25));
    assert!(!overlap(a, 20, b, 25));
    assert!(!overlap(a, 0, a, 0));
    assert!(!overlap(a, -5, a, 3));
    assert!(overlap(a, 1, a, 0));
}

#[test]
fn overlap_is_symmetric() {
    let points = [
        Vec2 { x: 0, y: 0 },
        Vec2 { x: 30, y: 40 },
        Vec2 { x: -7, y: 12 },
        Vec2 { x: i64::MAX, y: i64::MIN },
        Vec2 { x: i64::MIN, y: i64::MAX },
    ];
    let sizes = [0i64, 1, 25, 26, 50, -3, i64::MAX];
    for pa in points {
        for pb in points {
            for sa in sizes {
                for sb in sizes {
                    assert_eq!(overlap(pa, sa, pb, sb), overlap(pb, sb, pa, sa));
                }
            }
        }
    }
}

#[test]
fn overlap_at_the_limits_of_the_plane() {
    let far_a = Vec2 { x: i64::MIN, y: i64::MIN };
    let far_b = Vec2 { x: i64::MAX, y: i64::MAX };
    assert!(!overlap(far_a, i64::MAX, far_b, i64::MAX));
    assert!(overlap(far_a, i64::MAX, far_a, i64::MAX));
    let near = Vec2 { x: i64::MAX - 3, y: i64::MAX - 4 };
    assert!(overlap(far_b, 3, near, 3));
    assert!(!overlap(far_b, 3, near, 2));
}

#[test]
fn nearer_compares_exact_distances() {
    let from = Vec2 { x: 0, y: 0 };
    assert!(nearer(from, Vec2 { x: 3, y: 4 }, Vec2 { x: 0, y: 6 }));
    assert!(!nearer(from, Vec2 { x: 3, y: 4 }, Vec2 { x: 5, y: 0 }));
    assert!(!nearer(from, Vec2 { x: 0, y: 6 }, Vec2 { x: 3, y: 4 }));
    let corner = Vec2 { x: i64::MIN, y: i64::MIN };
    let opposite = Vec2 { x: i64::MAX, y: i64::MAX };
    let almost = Vec2 { x: i64::MAX, y: i64::MAX - 1 };
    assert!(nearer(corner, almost, opposite));
    assert!(!nearer(corner, opposite, almost));
    assert!(!nearer(corner, opposite, opposite));
}

#[test]
fn compass_rejects_bad_tables() {
    assert!(Compass::new(Vec::new()).is_none());
    assert!(Compass::new(vec![Heading { cos: UNIT + 1, sin: 0 }]).is_none());
    assert!(Compass::new(vec![Heading { cos: 0, sin: -UNIT - 1 }]).is_none());
    assert!(Compass::new(vec![Heading { cos: UNIT, sin: -UNIT }]).is_some());
}

#[test]
fn compass_reads_the_entry_of_the_angle() {
    let compass = cardinal_compass();
    assert_eq!(compass.heading(0), Heading { cos: UNIT, sin: 0 });
    assert_eq!(compass.heading(PI / 2), Heading { cos: 0, sin: UNIT });
    assert_eq!(compass.heading(PI / 2 - 1), Heading { cos: UNIT, sin: 0 });
    assert_eq!(compass.heading(PI), Heading { cos: -UNIT, sin: 0 });
    assert_eq!(compass.heading(3 * PI / 2), Heading { cos: 0, sin: -UNIT });
    assert_eq!(compass.heading(TAU), Heading { cos: UNIT, sin: 0 });
    assert_eq!(compass.heading(-PI / 2), Heading { cos: 0, sin: -UNIT });
    assert_eq!(compass.heading(-1), Heading { cos: 0, sin: -UNIT });
    assert_eq!(compass.heading(TAU + PI), Heading { cos: -UNIT, sin: 0 });
    assert_eq!(compass.heading(i64::MAX).cos.abs() + compass.heading(i64::MAX).sin.abs(), UNIT);
    assert_eq!(compass.heading(i64::MIN).cos.abs() + compass.heading(i64::MIN).sin.abs(), UNIT);
}

#[test]
fn compass_finds_the_bearing_of_an_offset() {
    let compass = cardinal_compass();
    // On screen a heading points to (cos, -sin): straight up is a quarter turn.
    assert_eq!(compass.bearing(10, 0), 0);
    assert_eq!(compass.bearing(0, -10), PI / 2);
    assert_eq!(compass.bearing(-10, 0), PI);
    assert_eq!(compass.bearing(0, 10), 3 * PI / 2 - TAU);
    // Equally good entries: the first one wins.
    assert_eq!(compass.bearing(0, 0), 0);
    assert_eq!(compass.bearing(10, -10), 0);
    let fine = fine_compass(360);
    let towards = fine.bearing(1000, -1000);
    assert_eq!(towards, 45 * TAU / 360);
    assert_eq!(fine.bearing(i64::MAX, i64::MIN), 45 * TAU / 360);
}

#[test]
fn entities_report_leaving_the_screen() {
    let bounds = Vec2 { x: 100, y: 50 };
    assert!(!missile_at(1, 0, 0, 1).is_out_of_bounds(&bounds));
    assert!(!missile_at(1, 100, 50, 1).is_out_of_bounds(&bounds));
    assert!(missile_at(1, -1, 10, 1).is_out_of_bounds(&bounds));
    assert!(missile_at(1, 101, 10, 1).is_out_of_bounds(&bounds));
    assert!(missile_at(1, 10, -1, 1).is_out_of_bounds(&bounds));
    assert!(missile_at(1, 10, 51, 1).is_out_of_bounds(&bounds));
}

#[test]
fn entities_collide_like_their_discs() {
    let a = missile_at(1, 0, 0, 25);
    let b = missile_at(2, 30, 40, 26);
    let c = missile_at(3, 30, 40, 25);
    assert!(a.collides_with(&b));
    assert!(b.collides_with(&a));
    assert!(!a.collides_with(&c));
    assert!(!c.collides_with(&a));
}

#[test]
fn nearest_is_the_first_of_the_closest() {
    let me = missile_at(1, 0, 0, 1);
    let none: Vec<Missile> = Vec::new();
    assert_eq!(me.find_nearest(&none), None);
    let others = vec![
        missile_at(2, 10, 0, 1),
        missile_at(3, 3, 4, 1),
        missile_at(4, 5, 0, 1),
        missile_at(5, 0, -5, 1),
        missile_at(6, 6, 0, 1),
    ];
    assert_eq!(me.find_nearest(&others), Some(Vec2 { x: 3, y: 4 }));
}

#[test]
fn rotation_is_subtracted_and_reduced() {
    let mut m = missile_at(1, 0, 0, 1);
    m.rotation = UNIT;
    m.add_rotation(UNIT / 2);
    assert_eq!(m.get_rotation(), UNIT / 2);
    m.add_rotation(UNIT);
    assert_eq!(m.get_rotation(), -UNIT / 2);
    m.add_rotation(-TAU - UNIT / 2 - 5);
    assert_eq!(m.get_rotation(), 5);
    m.rotation = -5;
    m.add_rotation(TAU);
    assert_eq!(m.get_rotation(), -5);
}

#[test]
fn changes_add_under_fresh_ids_and_remove_by_id() {
    let mut ids = IdAllocator { next: 100 };
    let mut field = vec![missile_at(1, 0, 0, 1), missile_at(2, 1, 1, 1), missile_at(3, 2, 2, 1)];
    let mut changes = vec![
        Change::Remove(2),
        Change::Add(missile_at(1, 9, 9, 1)),
        Change::Remove(77),
        Change::Add(missile_at(1, 8, 8, 1)),
    ];
    apply_changes(&mut field, &mut changes, &mut ids);
    assert!(changes.is_empty());
    assert_eq!(ids.next, 102);
    let seen: Vec<(u64, i64)> = field.iter().map(|m| (m.id, m.position.x)).collect();
    assert_eq!(seen, vec![(1, 0), (3, 2), (100, 9), (101, 8)]);
}

#[test]
fn removing_twice_is_removing_once() {
    let mut ids = IdAllocator { next: 10 };
    let mut field = vec![missile_at(1, 0, 0, 1), missile_at(2, 1, 1, 1)];
    let mut changes = vec![Change::Remove(1), Change::Remove(1)];
    apply_changes(&mut field, &mut changes, &mut ids);
    assert_eq!(field.len(), 1);
    assert_eq!(field[0].id, 2);
    assert_eq!(ids.next, 10);
    let mut again: Vec<Change<Missile>> = vec![Change::Remove(1)];
    apply_changes(&mut field, &mut again, &mut ids);
    assert_eq!(field.len(), 1);
}

#[test]
fn an_added_entity_can_be_removed_in_the_same_batch() {
    let mut ids = IdAllocator { next: 5 };
    let mut field: Vec<Missile> = Vec::new();
    let mut changes = vec![Change::Add(missile_at(1, 4, 4, 1)), Change::Remove(5)];
    apply_changes(&mut field, &mut changes, &mut ids);
    assert!(field.is_empty());
    assert_eq!(ids.next, 6);
}

#[test]
fn remove_by_id_drops_every_match() {
    let mut field = vec![
        missile_at(7, 0, 0, 1),
        missile_at(8, 1, 0, 1),
        missile_at(7, 2, 0, 1),
        missile_at(9, 3, 0, 1),
    ];
    remove_by_id(&mut field, 7);
    let xs: Vec<i64> = field.iter().map(|m| m.position.x).collect();
    assert_eq!(xs, vec![1, 3]);
}

#[test]
fn clone_with_new_uid_changes_the_id_alone() {
    let mut ids = IdAllocator { next: 40 };
    let m = missile_at(3, 11, 12, 13);
    let c = m.clone_with_new_uid(&mut ids);
    assert_eq!(c.get_id(), 40);
    assert_eq!(c.get_position(), Vec2 { x: 11, y: 12 });
    assert_eq!(c.get_size(), 13);
    assert_eq!(c.get_speed(), 0);
    assert_eq!(m.get_id(), 3);
    assert_eq!(ids.next, 41);
}

#[test]
fn weighted_texture_follows_the_weights() {
    let names = vec!["a".to_string(), "b".to_string(), "c".to_string()];
    for _ in 0..50 {
        let t = select_weighted_texture(&names, vec![0, 100, 0]).unwrap();
        assert_eq!(t.name, "b");
    }
    for _ in 0..50 {
        let t = select_weighted_texture(&names, vec![0, 0, 100]).unwrap();
        assert_eq!(t.name, "c");
    }
    let mut seen_a = false;
    let mut seen_b = false;
    for _ in 0..400 {
        let t = select_weighted_texture(&names, vec![50, 50, 0]).unwrap();
        assert!(t.name == "a" || t.name == "b");
        seen_a = seen_a || t.name == "a";
        seen_b = seen_b || t.name == "b";
    }
    assert!(seen_a && seen_b);
}

#[test]
fn weighted_texture_of_nothing_is_nothing() {
    let names: Vec<String> = Vec::new();
    assert_eq!(select_weighted_texture(&names, vec![85, 10, 5]), None);
    assert_eq!(select_weighted_texture(&names, Vec::new()), None);
}

#[test]
fn textures_by_place_and_the_placeholder() {
    let names = vec!["rock".to_string(), "ice".to_string()];
    assert_eq!(texture_at(&names, 1), NamedTexture { name: "ice".to_string() });
    assert_eq!(NamedTexture::missing().name, "missing");
    let t = NamedTexture { name: "rock".to_string() };
    assert_eq!(t.clone_named(), t);
}

#[test]
fn environment_holds_what_it_is_given() {
    let env = Environment {
        bounds: Vec2 { x: 800 * UNIT, y: 600 * UNIT },
        compass: cardinal_compass(),
        asteroid_textures: Vec::new(),
    };
    assert_eq!(env.bounds.x, 480_000_000);
    assert_eq!(env.compass.table.len(), 4);
}
