//! The player's ship: thrust and steering, shield, cooldowns, and the
//! muzzle layout of a homing volley.
use vstd::prelude::*;
use crate::compass::{Compass, Environment};
use crate::entity::{generate_uid, id_after, turned, CosmicEntity, IdAllocator};
use crate::fixed::{
    sat_abs, sat_add, sat_mul, sat_neg, sat_ratio, sat_sub, spec_sat_abs, spec_sat_add,
    spec_sat_mul, spec_sat_neg, spec_sat_ratio, spec_sat_sub, trunc_div, PI, UNIT,
};
use crate::geometry::{
    along_flipped, spec_along_flipped, spec_wrap_position, wrap_position, Vec2,
};

verus! {

#[derive(Clone, Copy, Debug, PartialEq, Eq, Structural)]
pub struct Spaceship {
    pub id: u64,
    pub position: Vec2,
    pub speed: i64,
    pub max_speed: i64,
    pub rotation: i64,
    pub turn_rate: i64,
    pub missile_capacity: u8,
    pub special_radius: i64,
    pub size: i64,
    pub shield: i64,
    pub shield_timer: i64,
    pub invulnerability: i64,
    pub alive: bool,
    pub hom_cooldown: i64,
    pub fire_cooldown: i64,
}

/// The thrust of the engine, in pixels per second per second.
pub const BASE_ACCELERATION: i64 = 150 * UNIT;

/// The largest number of homing missiles a ship can carry.
pub const MAX_CAPACITY: u8 = 254;

/// A countdown after `delta_time` more seconds: it runs down to zero and
/// stays there.
pub open spec fn spec_cooled(timer: i64, delta_time: i64) -> i64 {
    if timer > 0 {
        if spec_sat_sub(timer, delta_time) < 0 {
            0
        } else {
            spec_sat_sub(timer, delta_time)
        }
    } else {
        timer
    }
}

#[verifier::when_used_as_spec(spec_cooled)]
pub fn cooled(timer: i64, delta_time: i64) -> (r: i64)
    ensures
        r == spec_cooled(timer, delta_time),
        timer >= 0 ==> r >= 0,
{
    if timer > 0 {
        let left: i64 = sat_sub(timer, delta_time);
        if left < 0 {
            0
        } else {
            left
        }
    } else {
        timer
    }
}

/// `speed` held within `max_speed` of zero.
pub open spec fn spec_clamp_speed(speed: i64, max_speed: i64) -> i64 {
    if speed > max_speed {
        max_speed
    } else if speed < spec_sat_neg(max_speed) {
        spec_sat_neg(max_speed)
    } else {
        speed
    }
}

/// The speed after the engine pushed for `delta_time` seconds, forward or
/// backward. Against the current motion it pushes three times as hard; a
/// ship at rest counts as moving forward. A push that would reach the top
/// speed ends exactly at it.
pub open spec fn spec_thrust(speed: i64, max_speed: i64, delta_time: i64, forward: bool) -> i64 {
    let against = if forward {
        speed < 0
    } else {
        speed >= 0
    };
    let rate: int = if against {
        3 * BASE_ACCELERATION
    } else {
        BASE_ACCELERATION as int
    };
    let signed_rate = if forward {
        rate
    } else {
        -rate
    };
    let pushed = spec_sat_add(speed, spec_sat_mul(signed_rate as i64, delta_time));
    if spec_sat_abs(pushed) < max_speed {
        pushed
    } else if forward {
        max_speed
    } else {
        spec_sat_neg(max_speed)
    }
}

/// A capacity changed by `delta` and held within `0..=MAX_CAPACITY`.
pub open spec fn spec_capacity_after(capacity: u8, delta: i8) -> u8 {
    if capacity + delta < 0 {
        0
    } else if capacity + delta > MAX_CAPACITY {
        MAX_CAPACITY
    } else {
        (capacity + delta) as u8
    }
}

/// The number of muzzles of a homing volley: the capacity, rounded up to
/// an even number.
pub open spec fn muzzle_count(capacity: u8) -> int {
    if capacity % 2 != 0 {
        capacity + 1
    } else {
        capacity as int
    }
}

/// The angle of muzzle `i` of `n` before the ship's own heading is added.
/// Two and four muzzles have fixed symmetric places; more are spread evenly,
/// the first half over the left arc from its start to its end, the second
/// half over the right arc likewise.
pub open spec fn muzzle_base_angle(
    n: int,
    i: int,
    left_start: i64,
    left_end: i64,
    right_start: i64,
    right_end: i64,
) -> i64 {
    if n == 2 {
        if i == 0 {
            (PI / 2) as i64
        } else {
            (3 * PI / 2) as i64
        }
    } else if n == 4 {
        if i == 0 {
            (2 * PI / 3) as i64
        } else if i == 1 {
            (4 * PI / 3) as i64
        } else if i == 2 {
            (PI / 3) as i64
        } else {
            (5 * PI / 3) as i64
        }
    } else {
        let half = n / 2;
        if i < half {
            let step = spec_sat_ratio(spec_sat_sub(left_end, left_start), 1, (half - 1) as i64);
            spec_sat_add(left_start, spec_sat_ratio(step, i as i64, 1))
        } else {
            let step = spec_sat_ratio(spec_sat_sub(right_end, right_start), 1, (half - 1) as i64);
            spec_sat_sub(right_start, spec_sat_ratio(step, (i - half) as i64, 1))
        }
    }
}

impl Spaceship {
    /// The top speed is not negative, the shield is not negative, and the
    /// capacity is within its limit.
    pub open spec fn wf(&self) -> bool {
        &&& self.max_speed >= 0
        &&& self.shield >= 0
        &&& self.missile_capacity <= MAX_CAPACITY
    }

    /// A fresh ship at rest in the middle of the screen, with a full
    /// shield, two homing missiles and three seconds of invulnerability.
    pub open spec fn spec_new(id: u64, bounds: Vec2) -> Spaceship {
        Spaceship {
            id,
            position: Vec2 {
                x: trunc_div(bounds.x as int, 2) as i64,
                y: trunc_div(bounds.y as int, 2) as i64,
            },
            speed: 0,
            max_speed: (500 * UNIT) as i64,
            rotation: 0,
            turn_rate: (4 * UNIT) as i64,
            missile_capacity: 2,
            special_radius: (55 * UNIT) as i64,
            size: (25 * UNIT) as i64,
            shield: (100 * UNIT) as i64,
            shield_timer: 0,
            invulnerability: (3 * UNIT) as i64,
            alive: true,
            hom_cooldown: 0,
            fire_cooldown: 0,
        }
    }

    /// A fresh ship under a fresh identifier.
    pub fn new(bounds: Vec2, ids: &mut IdAllocator) -> (s: Spaceship)
        ensures
            s == Self::spec_new(old(ids).next, bounds),
            s.wf(),
            final(ids).next == id_after(old(ids).next),
    {
        Spaceship {
            id: generate_uid(ids),
            position: Vec2 { x: bounds.x / 2, y: bounds.y / 2 },
            speed: 0,
            max_speed: 500 * UNIT,
            rotation: 0,
            turn_rate: 4 * UNIT,
            missile_capacity: 2,
            special_radius: 55 * UNIT,
            size: 25 * UNIT,
            shield: 100 * UNIT,
            shield_timer: 0,
            invulnerability: 3 * UNIT,
            alive: true,
            hom_cooldown: 0,
            fire_cooldown: 0,
        }
    }

    /// The point `distance` away from the ship along its heading turned by
    /// `rotation_offset`.
    pub fn position_in_front_with_rotation(
        &self,
        distance: i64,
        rotation_offset: i64,
        compass: &Compass,
    ) -> (p: Vec2)
        requires
            compass.wf(),
        ensures
            p == spec_along_flipped(
                compass.spec_heading(spec_sat_add(self.rotation, rotation_offset)),
                distance,
            ).plus(self.position),
    {
        let h = compass.heading(sat_add(self.rotation, rotation_offset));
        along_flipped(h, distance).offset(self.position)
    }

    /// The ship after `delta_time` seconds: its speed held within the top
    /// speed, moved along its heading, back at the opposite edge if it left
    /// the screen, and its three countdowns run down.
    pub open spec fn spec_update(&self, delta_time: i64, env: Environment) -> Spaceship {
        let speed = spec_clamp_speed(self.speed, self.max_speed);
        Spaceship {
            speed,
            position: spec_wrap_position(
                self.position.plus(
                    spec_along_flipped(
                        env.compass.spec_heading(self.rotation),
                        spec_sat_mul(speed, delta_time),
                    ),
                ),
                env.bounds,
            ),
            hom_cooldown: spec_cooled(self.hom_cooldown, delta_time),
            fire_cooldown: spec_cooled(self.fire_cooldown, delta_time),
            invulnerability: spec_cooled(self.invulnerability, delta_time),
            ..*self
        }
    }

    pub fn update(&mut self, delta_time: i64, env: &Environment)
        requires
            env.wf(),
        ensures
            *final(self) == old(self).spec_update(delta_time, *env),
            old(self).wf() ==> final(self).wf(),
            !final(self).position.outside(env.bounds),
            old(self).max_speed >= 0 ==> -old(self).max_speed <= final(self).speed <= old(
                self,
            ).max_speed,
    {
        let h = env.compass.heading(self.rotation);
        if self.speed > self.max_speed {
            self.speed = self.max_speed;
        } else if self.speed < sat_neg(self.max_speed) {
            self.speed = sat_neg(self.max_speed);
        }
        let step = along_flipped(h, sat_mul(self.speed, delta_time));
        self.position = wrap_position(self.position.offset(step), env.bounds);
        self.hom_cooldown = cooled(self.hom_cooldown, delta_time);
        self.fire_cooldown = cooled(self.fire_cooldown, delta_time);
        self.invulnerability = cooled(self.invulnerability, delta_time);
    }

    /// Pushes the ship for `delta_time` seconds, forward where
    /// `movement_type` is set and backward where it is not.
    pub fn move_spaceship(&mut self, delta_time: i64, movement_type: bool)
        ensures
            *final(self) == (Spaceship {
                speed: spec_thrust(
                    old(self).speed,
                    old(self).max_speed,
                    delta_time,
                    movement_type,
                ),
                ..*old(self)
            }),
            old(self).max_speed >= 0 ==> -old(self).max_speed <= final(self).speed <= old(
                self,
            ).max_speed,
    {
        let against: bool = if movement_type {
            self.speed < 0
        } else {
            self.speed >= 0
        };
        let rate: i64 = if against {
            3 * BASE_ACCELERATION
        } else {
            BASE_ACCELERATION
        };
        let signed_rate: i64 = if movement_type {
            rate
        } else {
            -rate
        };
        let pushed: i64 = sat_add(self.speed, sat_mul(signed_rate, delta_time));
        if sat_abs(pushed) < self.max_speed {
            self.speed = pushed;
        } else if movement_type {
            self.speed = self.max_speed;
        } else {
            self.speed = sat_neg(self.max_speed);
        }
    }

    /// Where muzzle `i` of `n` sits, and the angle it points to.
    pub open spec fn muzzle(
        &self,
        n: int,
        i: int,
        left_start: i64,
        left_end: i64,
        right_start: i64,
        right_end: i64,
        compass: Compass,
    ) -> (Vec2, i64) {
        let angle = spec_sat_add(
            muzzle_base_angle(n, i, left_start, left_end, right_start, right_end),
            self.rotation,
        );
        (
            self.position.plus(
                spec_along_flipped(compass.spec_heading(angle), self.special_radius),
            ),
            angle,
        )
    }

    fn muzzle_at(&self, base: i64, compass: &Compass) -> (r: (Vec2, i64))
        requires
            compass.wf(),
        ensures
            r.1 == spec_sat_add(base, self.rotation),
            r.0 == self.position.plus(
                spec_along_flipped(compass.spec_heading(r.1), self.special_radius),
            ),
    {
        let angle: i64 = sat_add(base, self.rotation);
        (self.position.offset(along_flipped(compass.heading(angle), self.special_radius)), angle)
    }

    /// The muzzles of a homing volley, one for each missile and one more
    /// where their number is odd: place and angle of each, in firing order.
    pub fn generate_positions_angles(
        &self,
        left_start: i64,
        left_end: i64,
        right_start: i64,
        right_end: i64,
        compass: &Compass,
    ) -> (r: Vec<(Vec2, i64)>)
        requires
            compass.wf(),
            self.missile_capacity <= MAX_CAPACITY,
        ensures
            r@.len() == muzzle_count(self.missile_capacity),
            forall|i: int|
                0 <= i < r@.len() ==> #[trigger] r@[i] == self.muzzle(
                    r@.len() as int,
                    i,
                    left_start,
                    left_end,
                    right_start,
                    right_end,
                    *compass,
                ),
    {
        let n: u8 = if self.missile_capacity % 2 != 0 {
            self.missile_capacity + 1
        } else {
            self.missile_capacity
        };
        let mut positions_angles: Vec<(Vec2, i64)> = Vec::new();
        if n == 0 {
        } else if n == 2 {
            positions_angles.push(self.muzzle_at(PI / 2, compass));
            positions_angles.push(self.muzzle_at(3 * PI / 2, compass));
        } else if n == 4 {
            positions_angles.push(self.muzzle_at(2 * PI / 3, compass));
            positions_angles.push(self.muzzle_at(4 * PI / 3, compass));
            positions_angles.push(self.muzzle_at(PI / 3, compass));
            positions_angles.push(self.muzzle_at(5 * PI / 3, compass));
        } else {
            let half: u8 = n / 2;
            let left_step: i64 = sat_ratio(sat_sub(left_end, left_start), 1, (half - 1) as i64);
            let right_step: i64 = sat_ratio(sat_sub(right_end, right_start), 1, (half - 1) as i64);
            let mut i: u8 = 0;
            while i < half
                invariant
                    compass.wf(),
                    n >= 6,
                    n % 2 == 0,
                    half == n / 2,
                    0 <= i <= half,
                    left_step == spec_sat_ratio(
                        spec_sat_sub(left_end, left_start),
                        1,
                        (half - 1) as i64,
                    ),
                    positions_angles@.len() == i,
                    forall|k: int|
                        0 <= k < i ==> #[trigger] positions_angles@[k] == self.muzzle(
                            n as int,
                            k,
                            left_start,
                            left_end,
                            right_start,
                            right_end,
                            *compass,
                        ),
                decreases half - i,
            {
                let base: i64 = sat_add(left_start, sat_ratio(left_step, i as i64, 1));
                positions_angles.push(self.muzzle_at(base, compass));
                i = i + 1;
            }
            let mut j: u8 = 0;
            while j < half
                invariant
                    compass.wf(),
                    n >= 6,
                    n % 2 == 0,
                    half == n / 2,
                    0 <= j <= half,
                    right_step == spec_sat_ratio(
                        spec_sat_sub(right_end, right_start),
                        1,
                        (half - 1) as i64,
                    ),
                    positions_angles@.len() == half + j,
                    forall|k: int|
                        0 <= k < half + j ==> #[trigger] positions_angles@[k] == self.muzzle(
                            n as int,
                            k,
                            left_start,
                            left_end,
                            right_start,
                            right_end,
                            *compass,
                        ),
                decreases half - j,
            {
                let base: i64 = sat_sub(right_start, sat_ratio(right_step, j as i64, 1));
                positions_angles.push(self.muzzle_at(base, compass));
                j = j + 1;
            }
        }
        positions_angles
    }

    pub fn stop(&mut self)
        ensures
            *final(self) == (Spaceship { speed: 0, ..*old(self) }),
    {
        self.speed = 0;
    }

    pub fn get_speed(&self) -> (r: i64)
        ensures
            r == self.speed,
    {
        self.speed
    }

    pub fn get_rotation(&self) -> (r: i64)
        ensures
            r == self.rotation,
    {
        self.rotation
    }

    pub fn get_size(&self) -> (r: i64)
        ensures
            r == self.size,
    {
        self.size
    }

    pub fn get_max_speed(&self) -> (r: i64)
        ensures
            r == self.max_speed,
    {
        self.max_speed
    }

    pub fn get_turn_rate(&self) -> (r: i64)
        ensures
            r == self.turn_rate,
    {
        self.turn_rate
    }

    pub fn get_missile_capacity(&self) -> (r: u8)
        ensures
            r == self.missile_capacity,
    {
        self.missile_capacity
    }

    pub fn get_special_radius(&self) -> (r: i64)
        ensures
            r == self.special_radius,
    {
        self.special_radius
    }

    pub fn get_shield(&self) -> (r: i64)
        ensures
            r == self.shield,
    {
        self.shield
    }

    pub fn get_invulnerability(&self) -> (r: i64)
        ensures
            r == self.invulnerability,
    {
        self.invulnerability
    }

    pub fn get_life(&self) -> (r: bool)
        ensures
            r == self.alive,
    {
        self.alive
    }

    pub fn get_homming_cooldown(&self) -> (r: i64)
        ensures
            r == self.hom_cooldown,
    {
        self.hom_cooldown
    }

    pub fn get_firing_cooldown(&self) -> (r: i64)
        ensures
            r == self.fire_cooldown,
    {
        self.fire_cooldown
    }

    /// Adds `amount` to the shield, which does not fall below zero. Whether
    /// the ship survives an empty shield is for the caller to decide.
    pub fn modify_shield(&mut self, amount: i64)
        ensures
            *final(self) == (Spaceship {
                shield: if spec_sat_add(old(self).shield, amount) < 0 {
                    0
                } else {
                    spec_sat_add(old(self).shield, amount)
                },
                ..*old(self)
            }),
            final(self).shield >= 0,
    {
        self.shield = sat_add(self.shield, amount);
        if self.shield < 0 {
            self.shield = 0;
        }
    }

    pub fn modify_invulnerability(&mut self, amount: i64)
        ensures
            *final(self) == (Spaceship {
                invulnerability: spec_sat_add(old(self).invulnerability, amount),
                ..*old(self)
            }),
    {
        self.invulnerability = sat_add(self.invulnerability, amount);
    }

    /// Changes the missile capacity by `delta`; it stays within
    /// `0..=MAX_CAPACITY`.
    pub fn modify_capacity(&mut self, delta: i8)
        ensures
            *final(self) == (Spaceship {
                missile_capacity: spec_capacity_after(old(self).missile_capacity, delta),
                ..*old(self)
            }),
            final(self).missile_capacity <= MAX_CAPACITY,
    {
        let target: i16 = self.missile_capacity as i16 + delta as i16;
        self.missile_capacity = if target < 0 {
            0
        } else if target > MAX_CAPACITY as i16 {
            MAX_CAPACITY
        } else {
            target as u8
        };
    }

    pub fn set_invulnerability(&mut self, amount: i64)
        ensures
            *final(self) == (Spaceship { invulnerability: amount, ..*old(self) }),
    {
        self.invulnerability = amount;
    }

    pub fn set_speed(&mut self, amount: i64)
        ensures
            *final(self) == (Spaceship { speed: amount, ..*old(self) }),
    {
        self.speed = amount;
    }

    pub fn set_rotation(&mut self, amount: i64)
        ensures
            *final(self) == (Spaceship { rotation: amount, ..*old(self) }),
    {
        self.rotation = amount;
    }

    pub fn set_life(&mut self, state: bool)
        ensures
            *final(self) == (Spaceship { alive: state, ..*old(self) }),
    {
        self.alive = state;
    }

    pub fn set_homming_cooldown(&mut self, amount: i64)
        ensures
            *final(self) == (Spaceship { hom_cooldown: amount, ..*old(self) }),
    {
        self.hom_cooldown = amount;
    }

    pub fn set_firing_cooldown(&mut self, amount: i64)
        ensures
            *final(self) == (Spaceship { fire_cooldown: amount, ..*old(self) }),
    {
        self.fire_cooldown = amount;
    }
}

impl CosmicEntity for Spaceship {
    open spec fn id(&self) -> u64 {
        self.id
    }

    open spec fn position(&self) -> Vec2 {
        self.position
    }

    open spec fn speed(&self) -> i64 {
        self.speed
    }

    open spec fn size(&self) -> i64 {
        self.size
    }

    open spec fn rotation(&self) -> i64 {
        self.rotation
    }

    open spec fn with_id(&self, id: u64) -> Self {
        Spaceship { id, ..*self }
    }

    open spec fn with_rotation(&self, rotation: i64) -> Self {
        Spaceship { rotation, ..*self }
    }

    fn get_id(&self) -> (r: u64) {
        self.id
    }

    fn clone_with_new_uid(&self, ids: &mut IdAllocator) -> (r: Self) {
        let mut cloned = *self;
        cloned.id = generate_uid(ids);
        cloned
    }

    fn get_position(&self) -> (r: Vec2) {
        self.position
    }

    fn get_speed(&self) -> (r: i64) {
        self.speed
    }

    fn get_size(&self) -> (r: i64) {
        self.size
    }

    fn get_rotation(&self) -> (r: i64) {
        self.rotation
    }

    fn add_rotation(&mut self, amount: i64) {
        self.rotation = turned(self.rotation, amount);
    }
}

/// However the engine is pushed, and however often, the ship never moves
/// faster than its top speed in either direction.
pub proof fn lemma_thrust_within_max_speed(
    speed: i64,
    max_speed: i64,
    delta_time: i64,
    forward: bool,
)
    requires
        max_speed >= 0,
    ensures
        -max_speed <= spec_thrust(speed, max_speed, delta_time, forward) <= max_speed,
{
}

/// Whatever the capacity was and whatever it is changed by, it ends within
/// `0..=MAX_CAPACITY`.
pub proof fn lemma_capacity_in_range(capacity: u8, delta: i8)
    ensures
        0 <= spec_capacity_after(capacity, delta) <= MAX_CAPACITY,
{
}

} // verus!
