//! Missiles: straight shots, and homing ones that seek the nearest asteroid
//! with a steering authority that fades.
use vstd::prelude::*;
use crate::asteroid::Asteroid;
use crate::compass::{Compass, Environment};
use crate::entity::{
    generate_uid, id_after, nearest_of, turned, CosmicEntity, Encounter, IdAllocator,
};
use crate::fixed::{
    sat_abs, sat_add, sat_mul, sat_sub, spec_sat_abs, spec_sat_add, spec_sat_mul, spec_sat_sub,
    trunc_div, trunc_rem, PI, TAU, UNIT,
};
use crate::geometry::{along_flipped, spec_along_flipped, Vec2};

verus! {

#[derive(Clone, Copy, Debug, PartialEq, Eq, Structural)]
pub struct Missile {
    pub id: u64,
    pub position: Vec2,
    pub speed: i64,
    pub rotation: i64,
    pub lifetime: i64,
    pub size: i64,
    pub turn_rate: i64,
    pub acceleration: i64,
    pub homing: bool,
    pub target: Vec2,
}

/// How much steering authority a homing missile loses each second: 3.5
/// radians per second.
pub const TURN_DECAY: i64 = 2_100_000;

/// The authority below which a homing missile's steering no longer fades.
pub const TURN_FLOOR: i64 = UNIT;

/// The difference between two angles, brought back by one turn where it
/// exceeds half a turn.
pub open spec fn spec_angle_diff(target_angle: i64, rotation: i64) -> i64 {
    let d = spec_sat_sub(target_angle, rotation);
    if d > PI {
        spec_sat_sub(d, TAU)
    } else if d < -PI {
        spec_sat_add(d, TAU)
    } else {
        d
    }
}

/// A heading steered toward `target_angle` by at most `max_turn`: it snaps
/// to the target where that is within reach.
pub open spec fn spec_steered(rotation: i64, target_angle: i64, max_turn: i64) -> i64 {
    let d = spec_angle_diff(target_angle, rotation);
    if spec_sat_abs(d) > max_turn {
        if d > 0 {
            spec_sat_add(rotation, max_turn)
        } else {
            spec_sat_sub(rotation, max_turn)
        }
    } else {
        target_angle
    }
}

#[verifier::when_used_as_spec(spec_steered)]
pub fn steered(rotation: i64, target_angle: i64, max_turn: i64) -> (r: i64)
    ensures
        r == spec_steered(rotation, target_angle, max_turn),
{
    let d0: i64 = sat_sub(target_angle, rotation);
    let d: i64 = if d0 > PI {
        sat_sub(d0, TAU)
    } else if d0 < -PI {
        sat_add(d0, TAU)
    } else {
        d0
    };
    if sat_abs(d) > max_turn {
        if d > 0 {
            sat_add(rotation, max_turn)
        } else {
            sat_sub(rotation, max_turn)
        }
    } else {
        target_angle
    }
}

/// Steering authority after `delta_time` seconds of fading: it fades only
/// while above the floor and never to below it.
pub open spec fn spec_faded(turn_rate: i64, delta_time: i64) -> i64 {
    if turn_rate > TURN_FLOOR {
        let lower = spec_sat_sub(turn_rate, spec_sat_mul(TURN_DECAY, delta_time));
        if lower < TURN_FLOOR {
            TURN_FLOOR
        } else {
            lower
        }
    } else {
        turn_rate
    }
}

/// Fading never takes the steering authority below its floor.
pub proof fn lemma_fade_keeps_floor(turn_rate: i64, delta_time: i64)
    requires
        turn_rate >= TURN_FLOOR,
    ensures
        spec_faded(turn_rate, delta_time) >= TURN_FLOOR,
{
}

impl Missile {
    /// A new missile: it flies at the magnitude of `speed`, is four pixels
    /// in radius, has twenty seconds of guidance, steers at 7.5 radians per
    /// second and speeds up by 200 pixels per second each second.
    pub open spec fn spec_new(
        id: u64,
        position: Vec2,
        speed: i64,
        rotation: i64,
        homing: bool,
        target: Vec2,
    ) -> Missile {
        Missile {
            id,
            position,
            speed: spec_sat_abs(speed),
            rotation,
            lifetime: (20 * UNIT) as i64,
            size: (4 * UNIT) as i64,
            turn_rate: (15 * UNIT / 2) as i64,
            acceleration: (200 * UNIT) as i64,
            homing,
            target,
        }
    }

    /// A missile under a fresh identifier.
    pub fn new(
        position: Vec2,
        speed: i64,
        rotation: i64,
        homing: bool,
        target: Vec2,
        ids: &mut IdAllocator,
    ) -> (m: Missile)
        ensures
            m == Self::spec_new(old(ids).next, position, speed, rotation, homing, target),
            final(ids).next == id_after(old(ids).next),
    {
        Missile {
            id: generate_uid(ids),
            position,
            speed: sat_abs(speed),
            rotation,
            lifetime: 20 * UNIT,
            size: 4 * UNIT,
            turn_rate: 15 * UNIT / 2,
            acceleration: 200 * UNIT,
            homing,
            target,
        }
    }

    pub fn get_speed(&self) -> (r: i64)
        ensures
            r == self.speed,
    {
        self.speed
    }

    pub fn get_rotation(&self) -> (r: i64)
        ensures
            r == self.rotation,
    {
        self.rotation
    }

    pub fn get_size(&self) -> (r: i64)
        ensures
            r == self.size,
    {
        self.size
    }

    pub fn get_lifetime(&self) -> (r: i64)
        ensures
            r == self.lifetime,
    {
        self.lifetime
    }

    pub fn get_turn_rate(&self) -> (r: i64)
        ensures
            r == self.turn_rate,
    {
        self.turn_rate
    }

    pub fn get_acceleration(&self) -> (r: i64)
        ensures
            r == self.acceleration,
    {
        self.acceleration
    }

    pub fn is_homing(&self) -> (r: bool)
        ensures
            r == self.homing,
    {
        self.homing
    }

    pub fn get_target(&self) -> (r: Vec2)
        ensures
            r == self.target,
    {
        self.target
    }

    /// The missile turned toward the heading `target_angle` by as much as
    /// its steering authority allows in `delta_time` seconds.
    pub open spec fn spec_turned_to(&self, target_angle: i64, delta_time: i64) -> Missile {
        Missile {
            rotation: spec_steered(
                self.rotation,
                target_angle,
                spec_sat_mul(self.turn_rate, delta_time),
            ),
            ..*self
        }
    }

    /// Turns the missile toward `target_pos`: it takes the bearing of the
    /// target from the compass and steers toward it.
    pub fn target_object(&mut self, target_pos: Vec2, delta_time: i64, compass: &Compass)
        requires
            compass.wf(),
        ensures
            exists|i: int|
                compass.is_best_slot(
                    spec_sat_sub(target_pos.x, old(self).position.x),
                    spec_sat_sub(target_pos.y, old(self).position.y),
                    i,
                ) && *final(self) == old(self).spec_turned_to(
                    #[trigger] compass.slot_angle(i) as i64,
                    delta_time,
                ),
    {
        let target_angle: i64 = compass.bearing(
            sat_sub(target_pos.x, self.position.x),
            sat_sub(target_pos.y, self.position.y),
        );
        self.rotation = steered(self.rotation, target_angle, sat_mul(self.turn_rate, delta_time));
    }

    /// What a homing missile does before it moves: it speeds up, its
    /// steering fades, and, while its guidance lasts, it spends
    /// `delta_time` of it and steers toward `target_angle`, the bearing of
    /// `nearest` (of the origin where there is no target). When the guidance
    /// has run out the missile steers no more.
    pub open spec fn spec_guided(
        &self,
        nearest: Option<Vec2>,
        target_angle: i64,
        delta_time: i64,
    ) -> Missile {
        let sped = Missile {
            speed: spec_sat_add(self.speed, spec_sat_mul(self.acceleration, delta_time)),
            turn_rate: spec_faded(self.turn_rate, delta_time),
            ..*self
        };
        if self.lifetime > 0 {
            (Missile {
                lifetime: spec_sat_sub(self.lifetime, delta_time),
                target: match nearest {
                    Some(p) => p,
                    None => Vec2 { x: 0, y: 0 },
                },
                ..sped
            }).spec_turned_to(target_angle, delta_time)
        } else {
            Missile { turn_rate: 0, ..sped }
        }
    }

    /// The missile after it flew for `delta_time` seconds along its
    /// heading. One that left the screen has its size set to zero, which
    /// marks it for removal.
    pub open spec fn spec_flown(&self, delta_time: i64, env: Environment) -> Missile {
        let rotation = trunc_rem(self.rotation as int, TAU as int) as i64;
        let position = self.position.plus(
            spec_along_flipped(
                env.compass.spec_heading(rotation),
                spec_sat_mul(self.speed, delta_time),
            ),
        );
        Missile {
            rotation,
            position,
            size: if position.outside(env.bounds) {
                0
            } else {
                self.size
            },
            ..*self
        }
    }

    /// Whether `next` is what `self` may be after an update with those
    /// targets: guided toward the nearest of them, if it is homing, and
    /// then flown.
    pub open spec fn updates_to(
        &self,
        next: Missile,
        targets: Seq<Asteroid>,
        delta_time: i64,
        env: Environment,
    ) -> bool {
        if self.homing && self.lifetime > 0 {
            let nearest = nearest_of(self.position, targets);
            let aim = match nearest {
                Some(p) => p,
                None => Vec2 { x: 0, y: 0 },
            };
            exists|i: int|
                env.compass.is_best_slot(
                    spec_sat_sub(aim.x, self.position.x),
                    spec_sat_sub(aim.y, self.position.y),
                    i,
                ) && next == self.spec_guided(
                    nearest,
                    #[trigger] env.compass.slot_angle(i) as i64,
                    delta_time,
                ).spec_flown(delta_time, env)
        } else if self.homing {
            next == self.spec_guided(None, 0, delta_time).spec_flown(delta_time, env)
        } else {
            next == self.spec_flown(delta_time, env)
        }
    }

    fn fly(&mut self, delta_time: i64, env: &Environment)
        requires
            env.wf(),
        ensures
            *final(self) == old(self).spec_flown(delta_time, *env),
    {
        let q: i64 = self.rotation / TAU;
        assert(-0x8000_0000_0000_0000 <= TAU * q <= 0x7fff_ffff_ffff_ffff && -TAU
            < self.rotation - TAU * q < TAU) by (nonlinear_arith)
            requires
                q == trunc_div(self.rotation as int, TAU as int),
                TAU == 3_769_912,
                -0x8000_0000_0000_0000 <= self.rotation <= 0x7fff_ffff_ffff_ffff,
        ;
        self.rotation = self.rotation - TAU * q;
        let h = env.compass.heading(self.rotation);
        self.position = self.position.offset(along_flipped(h, sat_mul(self.speed, delta_time)));
        if self.position.x < 0 || self.position.x > env.bounds.x || self.position.y < 0
            || self.position.y > env.bounds.y {
            self.size = 0;
        }
    }

    /// Advances the missile by `delta_time` seconds.
    pub fn update(&mut self, potential_targets: &Vec<Asteroid>, delta_time: i64, env: &Environment)
        requires
            env.wf(),
        ensures
            old(self).updates_to(*final(self), potential_targets@, delta_time, *env),
    {
        let ghost start = *self;
        if self.homing {
            let nearest_target = self.find_nearest(potential_targets.as_slice());
            self.speed = sat_add(self.speed, sat_mul(self.acceleration, delta_time));
            if self.turn_rate > TURN_FLOOR {
                let lower: i64 = sat_sub(self.turn_rate, sat_mul(TURN_DECAY, delta_time));
                self.turn_rate = if lower < TURN_FLOOR {
                    TURN_FLOOR
                } else {
                    lower
                };
            }
            if self.lifetime > 0 {
                self.lifetime = sat_sub(self.lifetime, delta_time);
                self.target = match nearest_target {
                    Some(p) => p,
                    None => Vec2 { x: 0, y: 0 },
                };
                let ghost aimed = *self;
                self.target_object(self.target, delta_time, &env.compass);
                proof {
                    let i = choose|i: int|
                        env.compass.is_best_slot(
                            spec_sat_sub(aimed.target.x, aimed.position.x),
                            spec_sat_sub(aimed.target.y, aimed.position.y),
                            i,
                        ) && *self == aimed.spec_turned_to(
                            #[trigger] env.compass.slot_angle(i) as i64,
                            delta_time,
                        );
                    assert(*self == start.spec_guided(
                        nearest_target,
                        env.compass.slot_angle(i) as i64,
                        delta_time,
                    ));
                }
            } else {
                self.turn_rate = 0;
            }
        }
        self.fly(delta_time, env);
    }
}

impl CosmicEntity for Missile {
    open spec fn id(&self) -> u64 {
        self.id
    }

    open spec fn position(&self) -> Vec2 {
        self.position
    }

    open spec fn speed(&self) -> i64 {
        self.speed
    }

    open spec fn size(&self) -> i64 {
        self.size
    }

    open spec fn rotation(&self) -> i64 {
        self.rotation
    }

    open spec fn with_id(&self, id: u64) -> Self {
        Missile { id, ..*self }
    }

    open spec fn with_rotation(&self, rotation: i64) -> Self {
        Missile { rotation, ..*self }
    }

    fn get_id(&self) -> (r: u64) {
        self.id
    }

    fn clone_with_new_uid(&self, ids: &mut IdAllocator) -> (r: Self) {
        let mut cloned = *self;
        cloned.id = generate_uid(ids);
        cloned
    }

    fn get_position(&self) -> (r: Vec2) {
        self.position
    }

    fn get_speed(&self) -> (r: i64) {
        self.speed
    }

    fn get_size(&self) -> (r: i64) {
        self.size
    }

    fn get_rotation(&self) -> (r: i64) {
        self.rotation
    }

    fn add_rotation(&mut self, amount: i64) {
        self.rotation = turned(self.rotation, amount);
    }
}

} // verus!
