//! Asteroids: drifting rocks in three sizes that break into smaller ones
//! when hit.
use vstd::prelude::*;
use crate::compass::{Compass, Environment};
use crate::entity::{
    generate_uid, id_after, id_offset, select_weighted_texture, turned, Change,
    CosmicEntity, IdAllocator, NamedTexture,
};
use crate::fixed::{
    narrow, sat_abs, sat_add, sat_mul, sat_neg, sat_ratio, sat_sub, saturate, spec_sat_abs,
    spec_sat_add, spec_sat_mul, spec_sat_neg, spec_sat_ratio, spec_sat_sub, PI, TAU, UNIT,
};
use crate::geometry::{along, spec_along, spec_wrap_position, wrap_position, Vec2};
use crate::random::{random_between, random_flip, total_weight};

verus! {

#[derive(Clone, Debug, PartialEq)]
pub struct Asteroid {
    pub id: u64,
    pub position: Vec2,
    pub speed: i64,
    pub size: i64,
    pub rotation: i64,
    pub direction: i64,
    pub speed_multiplier: i64,
    pub turn_rate: i64,
    pub texture: NamedTexture,
}

/// The dice of one child of a split: how much faster or slower than its
/// parent it spins, and which way.
#[derive(Clone, Copy, Debug)]
pub struct Spin {
    pub factor: i64,
    pub leftward: bool,
}

/// The radius of the smallest asteroid; every asteroid's radius is one, two
/// or three times this.
pub const SCALE: i64 = 30 * UNIT;

/// Which entry of a score table an asteroid of radius `size` reads: the
/// number of whole `SCALE`s in it, less one, and never below zero.
pub open spec fn score_index(size: i64) -> int {
    if size < SCALE {
        0
    } else {
        size / SCALE - 1
    }
}

/// Which entry of a score table an asteroid of radius `size` reads.
pub fn tier_index(size: i64) -> (i: u64)
    ensures
        i == score_index(size),
{
    if size < SCALE {
        0
    } else {
        (size / SCALE - 1) as u64
    }
}

/// How many more times an asteroid of radius `size` and its descendants can
/// split into something.
pub open spec fn generations(size: i64) -> nat
    decreases size,
{
    if size <= SCALE {
        0
    } else {
        1 + generations((size - SCALE) as i64)
    }
}

/// The heading of child `i` of `n`: the children fan out evenly over half a
/// turn that is centred opposite the parent's heading.
pub open spec fn fan_angle(rotation: i64, n: int, i: int) -> i64 {
    saturate(-rotation - PI / 2 + (PI * (2 * i + 1)) / (2 * n)) as i64
}

/// How many children a split makes of an asteroid that is large enough.
pub open spec fn split_count(can_add: bool, to_add: u8) -> int {
    if can_add {
        to_add as int
    } else {
        1
    }
}

/// Whether the dice of a split are ones that can be thrown: the speed factor
/// in `[1, 1.5)`, each spin factor in `[0.5, 1.5)`.
pub open spec fn split_rolls_in_range(speed_factor: i64, spins: Seq<Spin>) -> bool {
    &&& UNIT <= speed_factor < 3 * UNIT / 2
    &&& forall|i: int| 0 <= i < spins.len() ==> UNIT / 2 <= (#[trigger] spins[i]).factor < 3 * UNIT / 2
}

/// The dice of one split: the factor by which the children are faster than
/// their parent, and a spin for each child.
#[derive(Clone, Debug)]
pub struct SplitDice {
    pub speed_factor: i64,
    pub spins: Vec<Spin>,
}

impl SplitDice {
    /// Whether these are dice that can be thrown.
    pub open spec fn in_range(&self) -> bool {
        split_rolls_in_range(self.speed_factor, self.spins@)
    }

    /// Throws the dice for a split into up to `children` children.
    pub fn roll(children: u8) -> (dice: SplitDice)
        ensures
            dice.in_range(),
            dice.spins@.len() == children,
    {
        let speed_factor: i64 = random_between(UNIT, 3 * UNIT / 2 - 1);
        let mut spins: Vec<Spin> = Vec::new();
        let mut i: u8 = 0;
        while i < children
            invariant
                0 <= i <= children,
                spins@.len() == i,
                forall|k: int|
                    0 <= k < spins@.len() ==> UNIT / 2 <= (#[trigger] spins@[k]).factor < 3 * UNIT
                        / 2,
            decreases children - i,
        {
            let factor: i64 = random_between(UNIT / 2, 3 * UNIT / 2 - 1);
            let leftward: bool = random_flip();
            spins.push(Spin { factor, leftward });
            i = i + 1;
        }
        SplitDice { speed_factor, spins }
    }
}

/// The dice of a newly made asteroid. A field that was not given to the
/// constructor is filled from them.
#[derive(Clone, Copy, Debug)]
pub struct SpawnRolls {
    /// The edge near which the asteroid appears: 1 top, 2 right, 3 bottom,
    /// 4 left.
    pub side: i64,
    /// How far from that edge.
    pub inset: i64,
    /// A point of the screen; it gives the coordinate along the edge.
    pub across: Vec2,
    /// The radius in units of `SCALE`.
    pub tier: i64,
    pub rotation: i64,
    pub direction: i64,
    pub speed_multiplier: i64,
    /// How fast it spins, in radians per second, and which way.
    pub spin: Spin,
}

impl SpawnRolls {
    /// Whether these are dice that can be thrown on a screen of size
    /// `bounds`.
    pub open spec fn in_range(&self, bounds: Vec2) -> bool {
        &&& 1 <= self.side <= 4
        &&& 15 * UNIT <= self.inset <= 30 * UNIT
        &&& 0 <= self.across.x <= bounds.x
        &&& 0 <= self.across.y <= bounds.y
        &&& 1 <= self.tier <= 3
        &&& UNIT <= self.rotation <= TAU
        &&& 0 <= self.direction <= TAU
        &&& 2 * UNIT / 5 <= self.speed_multiplier <= 3 * UNIT / 2
        &&& UNIT / 2 <= self.spin.factor < 3 * UNIT / 2
    }

    /// Where the dice put the asteroid: `inset` away from the chosen edge,
    /// anywhere along it.
    pub open spec fn edge_position(&self, bounds: Vec2) -> Vec2 {
        Vec2 {
            x: if self.side == 2 {
                spec_sat_sub(bounds.x, self.inset)
            } else if self.side == 4 {
                self.inset
            } else {
                self.across.x
            },
            y: if self.side == 1 {
                self.inset
            } else if self.side == 3 {
                spec_sat_sub(bounds.y, self.inset)
            } else {
                self.across.y
            },
        }
    }

    /// Throws the dice.
    pub fn roll(bounds: Vec2) -> (rolls: SpawnRolls)
        requires
            bounds.x >= 0,
            bounds.y >= 0,
        ensures
            rolls.in_range(bounds),
    {
        SpawnRolls {
            side: random_between(1, 4),
            inset: random_between(15 * UNIT, 30 * UNIT),
            across: Vec2 { x: random_between(0, bounds.x), y: random_between(0, bounds.y) },
            tier: random_between(1, 3),
            rotation: random_between(UNIT, TAU),
            direction: random_between(0, TAU),
            speed_multiplier: random_between(2 * UNIT / 5, 3 * UNIT / 2),
            spin: Spin { factor: random_between(UNIT / 2, 3 * UNIT / 2 - 1), leftward: random_flip() },
        }
    }
}

/// The value that was given, or else the fallback.
pub open spec fn given_or(value: Option<i64>, fallback: i64) -> i64 {
    match value {
        Some(v) => v,
        None => fallback,
    }
}

impl Asteroid {
    /// The asteroid that the constructor makes of the fields it was given,
    /// the dice and the texture.
    pub open spec fn spec_assemble(
        id: u64,
        position: Option<Vec2>,
        speed: Option<i64>,
        size: Option<i64>,
        rotation: Option<i64>,
        direction: Option<i64>,
        speed_multiplier: Option<i64>,
        turn_rate: Option<i64>,
        texture: NamedTexture,
        rolls: SpawnRolls,
        bounds: Vec2,
    ) -> Asteroid {
        Asteroid {
            id,
            position: match position {
                Some(p) => p,
                None => rolls.edge_position(bounds),
            },
            speed: given_or(speed, spec_sat_ratio(rolls.speed_multiplier, 120, 1)),
            size: given_or(size, spec_sat_ratio(SCALE, rolls.tier, 1)),
            rotation: given_or(rotation, rolls.rotation),
            direction: given_or(direction, rolls.direction),
            speed_multiplier: given_or(speed_multiplier, rolls.speed_multiplier),
            turn_rate: given_or(
                turn_rate,
                if rolls.spin.leftward {
                    rolls.spin.factor
                } else {
                    spec_sat_neg(rolls.spin.factor)
                },
            ),
            texture,
        }
    }

    /// Makes an asteroid of the fields given, the dice and the texture.
    pub fn assemble(
        id: u64,
        position: Option<Vec2>,
        speed: Option<i64>,
        size: Option<i64>,
        rotation: Option<i64>,
        direction: Option<i64>,
        speed_multiplier: Option<i64>,
        turn_rate: Option<i64>,
        texture: NamedTexture,
        rolls: &SpawnRolls,
        bounds: Vec2,
    ) -> (a: Asteroid)
        ensures
            a == Self::spec_assemble(
                id,
                position,
                speed,
                size,
                rotation,
                direction,
                speed_multiplier,
                turn_rate,
                texture,
                *rolls,
                bounds,
            ),
    {
        let edge = Vec2 {
            x: if rolls.side == 2 {
                sat_sub(bounds.x, rolls.inset)
            } else if rolls.side == 4 {
                rolls.inset
            } else {
                rolls.across.x
            },
            y: if rolls.side == 1 {
                rolls.inset
            } else if rolls.side == 3 {
                sat_sub(bounds.y, rolls.inset)
            } else {
                rolls.across.y
            },
        };
        Asteroid {
            id,
            position: match position {
                Some(p) => p,
                None => edge,
            },
            speed: match speed {
                Some(v) => v,
                None => sat_ratio(rolls.speed_multiplier, 120, 1),
            },
            size: match size {
                Some(v) => v,
                None => sat_ratio(SCALE, rolls.tier, 1),
            },
            rotation: match rotation {
                Some(v) => v,
                None => rolls.rotation,
            },
            direction: match direction {
                Some(v) => v,
                None => rolls.direction,
            },
            speed_multiplier: match speed_multiplier {
                Some(v) => v,
                None => rolls.speed_multiplier,
            },
            turn_rate: match turn_rate {
                Some(v) => v,
                None => if rolls.spin.leftward {
                    rolls.spin.factor
                } else {
                    sat_neg(rolls.spin.factor)
                },
            },
            texture,
        }
    }

    /// Whether `texture` is what the constructor may give an asteroid: the
    /// one that was asked for; else one of the loaded variants; else, where
    /// none was loaded, the placeholder.
    pub open spec fn texture_allowed(
        texture: NamedTexture,
        asked: Option<NamedTexture>,
        loaded: Seq<String>,
    ) -> bool {
        match asked {
            Some(t) => texture == t,
            None => if loaded.len() == 0 {
                texture.name@ == "missing"@
            } else {
                exists|i: int| 0 <= i < loaded.len() && texture.name == #[trigger] loaded[i]
            },
        }
    }

    /// Whether `a` is what the constructor may make under the identifier
    /// `id` where it is given those fields and no texture.
    pub open spec fn made_of(
        a: Asteroid,
        id: u64,
        position: Option<Vec2>,
        speed: Option<i64>,
        size: Option<i64>,
        env: Environment,
    ) -> bool {
        &&& exists|rolls: SpawnRolls|
            rolls.in_range(env.bounds) && a == #[trigger] Self::spec_assemble(
                id,
                position,
                speed,
                size,
                None,
                None,
                None,
                None,
                a.texture,
                rolls,
                env.bounds,
            )
        &&& Self::texture_allowed(a.texture, None, env.asteroid_textures@)
    }

    /// An asteroid with every field thrown by the dice.
    pub fn new_default(env: &Environment, ids: &mut IdAllocator) -> (a: Asteroid)
        requires
            env.wf(),
        ensures
            exists|rolls: SpawnRolls|
                rolls.in_range(env.bounds) && a == #[trigger] Self::spec_assemble(
                    old(ids).next,
                    None,
                    None,
                    None,
                    None,
                    None,
                    None,
                    None,
                    a.texture,
                    rolls,
                    env.bounds,
                ),
            Self::texture_allowed(a.texture, None, env.asteroid_textures@),
            final(ids).next == id_after(old(ids).next),
    {
        Self::new(None, None, None, None, None, None, None, None, env, ids)
    }

    /// An asteroid under a fresh identifier. Each field that is given is
    /// taken as it is; each other one is thrown by the dice. A texture that
    /// is not given is picked among the loaded variants with weights of 85,
    /// 10 and 5 in a hundred.
    pub fn new(
        position: Option<Vec2>,
        speed: Option<i64>,
        size: Option<i64>,
        rotation: Option<i64>,
        direction: Option<i64>,
        speed_multiplier: Option<i64>,
        turn_rate: Option<i64>,
        texture: Option<NamedTexture>,
        env: &Environment,
        ids: &mut IdAllocator,
    ) -> (a: Asteroid)
        requires
            env.wf(),
        ensures
            exists|rolls: SpawnRolls|
                rolls.in_range(env.bounds) && a == #[trigger] Self::spec_assemble(
                    old(ids).next,
                    position,
                    speed,
                    size,
                    rotation,
                    direction,
                    speed_multiplier,
                    turn_rate,
                    a.texture,
                    rolls,
                    env.bounds,
                ),
            Self::texture_allowed(a.texture, texture, env.asteroid_textures@),
            final(ids).next == id_after(old(ids).next),
    {
        let rolls = SpawnRolls::roll(env.bounds);
        let chosen: NamedTexture = match texture {
            Some(t) => t,
            None => {
                let weights: Vec<u32> = vec![85, 10, 5];
                proof {
                    reveal_with_fuel(total_weight, 4);
                    assert(weights@.drop_last() =~= seq![85u32, 10u32]);
                    assert(weights@.drop_last().drop_last() =~= seq![85u32]);
                    assert(weights@.drop_last().drop_last().drop_last() =~= Seq::<u32>::empty());
                }
                match select_weighted_texture(&env.asteroid_textures, weights) {
                    Some(t) => t,
                    None => NamedTexture::missing(),
                }
            },
        };
        let id: u64 = generate_uid(ids);
        let a = Self::assemble(
            id,
            position,
            speed,
            size,
            rotation,
            direction,
            speed_multiplier,
            turn_rate,
            chosen,
            &rolls,
            env.bounds,
        );
        assert(a == Self::spec_assemble(
            id,
            position,
            speed,
            size,
            rotation,
            direction,
            speed_multiplier,
            turn_rate,
            a.texture,
            rolls,
            env.bounds,
        ));
        a
    }

    /// Child `i` of `n` of a split of `self`.
    pub open spec fn spec_child(
        &self,
        i: int,
        n: int,
        speed_factor: i64,
        spin: Spin,
        compass: Compass,
        id: u64,
    ) -> Asteroid {
        let rotation = fan_angle(self.rotation, n, i);
        let magnitude = spec_sat_mul(spec_sat_abs(self.turn_rate), spin.factor);
        Asteroid {
            id,
            position: self.position.plus(
                spec_along(compass.spec_heading(rotation), spec_sat_ratio(self.size, 33, 100)),
            ),
            speed: spec_sat_mul(self.speed, speed_factor),
            size: spec_sat_sub(self.size, SCALE),
            rotation,
            direction: if i % 2 == 0 {
                spec_sat_neg(self.direction)
            } else {
                self.direction
            },
            speed_multiplier: self.speed_multiplier,
            turn_rate: if spin.leftward {
                magnitude
            } else {
                spec_sat_neg(magnitude)
            },
            texture: self.texture,
        }
    }

    /// What a split of `self` queues: nothing but its own removal when it is
    /// of the smallest size (or has no size to give), else its children, in
    /// order, under fresh identifiers from `first_id` on, and then its own
    /// removal.
    pub open spec fn split_changes(
        &self,
        can_add: bool,
        to_add: u8,
        speed_factor: i64,
        spins: Seq<Spin>,
        compass: Compass,
        first_id: u64,
    ) -> Seq<Change<Asteroid>> {
        if self.size <= SCALE {
            seq![Change::Remove(self.id)]
        } else {
            let n = split_count(can_add, to_add);
            self.split_adds(n, n as nat, speed_factor, spins, compass, first_id).push(
                Change::Remove(self.id),
            )
        }
    }

    /// The first `k` of the `n` additions of a split.
    pub open spec fn split_adds(
        &self,
        n: int,
        k: nat,
        speed_factor: i64,
        spins: Seq<Spin>,
        compass: Compass,
        first_id: u64,
    ) -> Seq<Change<Asteroid>> {
        Seq::new(
            k,
            |i: int|
                Change::Add(
                    self.spec_child(
                        i,
                        n,
                        speed_factor,
                        spins[i],
                        compass,
                        id_offset(first_id, i as nat),
                    ),
                ),
        )
    }

    /// The allocator's next number after a split of `self`.
    pub open spec fn split_next_id(&self, can_add: bool, to_add: u8, first_id: u64) -> u64 {
        if self.size <= SCALE {
            first_id
        } else {
            id_offset(first_id, split_count(can_add, to_add) as nat)
        }
    }

    pub fn get_direction(&self) -> (r: i64)
        ensures
            r == self.direction,
    {
        self.direction
    }

    pub fn get_texture(&self) -> (r: &NamedTexture)
        ensures
            *r == self.texture,
    {
        &self.texture
    }

    pub fn get_speed_multiplier(&self) -> (r: i64)
        ensures
            r == self.speed_multiplier,
    {
        self.speed_multiplier
    }

    pub fn get_turn_rate(&self) -> (r: i64)
        ensures
            r == self.turn_rate,
    {
        self.turn_rate
    }

    /// `base` times the entry of `multipliers` for the given radius, or for
    /// the asteroid's own where none is given.
    pub fn compute_score(&self, base: u128, multipliers: &Vec<u8>, size: Option<i64>) -> (r: u128)
        requires
            score_index(
                match size {
                    Some(s) => s,
                    None => self.size,
                },
            ) < multipliers@.len(),
            base * multipliers@[score_index(
                match size {
                    Some(s) => s,
                    None => self.size,
                },
            )] <= u128::MAX,
        ensures
            r == base * multipliers@[score_index(
                match size {
                    Some(s) => s,
                    None => self.size,
                },
            )],
    {
        let s: i64 = match size {
            Some(s) => s,
            None => self.size,
        };
        let entries: usize = multipliers.len();
        let index: usize = if s < SCALE {
            0
        } else {
            (s / SCALE - 1) as usize
        };
        base * (multipliers[index] as u128)
    }

    /// Adds to `score` what this asteroid is worth at a base of 100 and
    /// returns the award. The score stops at the largest `u128`.
    pub fn grant_score(&self, score: &mut u128, multipliers: &Vec<u8>) -> (award: u128)
        requires
            score_index(self.size) < multipliers@.len(),
        ensures
            award == 100 * multipliers@[score_index(self.size)],
            *final(score) == if *old(score) + award > u128::MAX {
                u128::MAX
            } else {
                (*old(score) + award) as u128
            },
    {
        let award: u128 = self.compute_score(100, multipliers, Some(self.size));
        *score = if award > u128::MAX - *score {
            u128::MAX
        } else {
            *score + award
        };
        award
    }

    /// The asteroid after `delta_time` seconds: spun by its turn rate, moved
    /// along its direction of travel, and back at the opposite edge if it
    /// left the screen.
    pub open spec fn spec_update(&self, delta_time: i64, env: Environment) -> Asteroid {
        let distance = spec_sat_mul(spec_sat_mul(self.speed, self.speed_multiplier), delta_time);
        Asteroid {
            rotation: spec_sat_add(self.rotation, spec_sat_mul(self.turn_rate, delta_time)),
            position: spec_wrap_position(
                self.position.plus(spec_along(env.compass.spec_heading(self.direction), distance)),
                env.bounds,
            ),
            ..*self
        }
    }

    pub fn update(&mut self, delta_time: i64, env: &Environment)
        requires
            env.wf(),
        ensures
            *final(self) == old(self).spec_update(delta_time, *env),
            !final(self).position.outside(env.bounds),
    {
        let h = env.compass.heading(self.direction);
        self.rotation = sat_add(self.rotation, sat_mul(self.turn_rate, delta_time));
        let distance: i64 = sat_mul(sat_mul(self.speed, self.speed_multiplier), delta_time);
        self.position = wrap_position(self.position.offset(along(h, distance)), env.bounds);
    }

    fn child(
        &self,
        i: u8,
        n: u8,
        speed_factor: i64,
        spin: Spin,
        env: &Environment,
        ids: &mut IdAllocator,
    ) -> (c: Asteroid)
        requires
            env.wf(),
            i < n,
        ensures
            c == self.spec_child(
                i as int,
                n as int,
                speed_factor,
                spin,
                env.compass,
                old(ids).next,
            ),
            final(ids).next == id_after(old(ids).next),
    {
        let sweep: i128 = (PI as i128 * (2 * (i as i128) + 1)) / (2 * (n as i128));
        let rotation: i64 = narrow(-(self.rotation as i128) - (PI / 2) as i128 + sweep);
        let magnitude: i64 = sat_mul(sat_abs(self.turn_rate), spin.factor);
        let reach: i64 = sat_ratio(self.size, 33, 100);
        let id: u64 = generate_uid(ids);
        Asteroid {
            id,
            position: self.position.offset(along(env.compass.heading(rotation), reach)),
            speed: sat_mul(self.speed, speed_factor),
            size: sat_sub(self.size, SCALE),
            rotation,
            direction: if i % 2 == 0 {
                sat_neg(self.direction)
            } else {
                self.direction
            },
            speed_multiplier: self.speed_multiplier,
            turn_rate: if spin.leftward {
                magnitude
            } else {
                sat_neg(magnitude)
            },
            texture: self.texture.clone_named(),
        }
    }

    /// Splits the asteroid with the given dice: queues its children, if it
    /// is large enough to have any, and then its own removal.
    pub fn split_with(
        &self,
        can_add: bool,
        to_add: u8,
        speed_factor: i64,
        spins: &Vec<Spin>,
        change_list: &mut Vec<Change<Asteroid>>,
        env: &Environment,
        ids: &mut IdAllocator,
    )
        requires
            env.wf(),
            self.size > SCALE ==> spins@.len() >= split_count(can_add, to_add),
        ensures
            final(change_list)@ == old(change_list)@ + self.split_changes(
                can_add,
                to_add,
                speed_factor,
                spins@,
                env.compass,
                old(ids).next,
            ),
            final(ids).next == self.split_next_id(can_add, to_add, old(ids).next),
    {
        let ghost before = change_list@;
        let ghost first = ids.next;
        if sat_sub(self.size, SCALE) <= 0 {
            change_list.push(Change::Remove(self.id));
            assert(change_list@ =~= before + seq![Change::<Asteroid>::Remove(self.id)]);
            return;
        }
        let n: u8 = if can_add { to_add } else { 1 };
        let mut i: u8 = 0;
        assert(change_list@ =~= before + self.split_adds(
            n as int,
            0,
            speed_factor,
            spins@,
            env.compass,
            first,
        ));
        while i < n
            invariant
                env.wf(),
                0 <= i <= n,
                n == split_count(can_add, to_add),
                spins@.len() >= n,
                ids.next == id_offset(first, i as nat),
                change_list@ == before + self.split_adds(
                    n as int,
                    i as nat,
                    speed_factor,
                    spins@,
                    env.compass,
                    first,
                ),
            decreases n - i,
        {
            let c = self.child(i, n, speed_factor, spins[i as usize], env, ids);
            change_list.push(Change::Add(c));
            assert(change_list@ =~= before + self.split_adds(
                n as int,
                (i + 1) as nat,
                speed_factor,
                spins@,
                env.compass,
                first,
            ));
            i = i + 1;
        }
        change_list.push(Change::Remove(self.id));
        assert(change_list@ =~= before + self.split_changes(
            can_add,
            to_add,
            speed_factor,
            spins@,
            env.compass,
            first,
        ));
    }

    /// Splits the asteroid. With `can_add` it breaks into `to_add` children,
    /// without into one; an asteroid of the smallest size leaves nothing.
    /// The children's speed and spin are thrown with dice.
    pub fn split(
        &self,
        can_add: bool,
        to_add: u8,
        change_list: &mut Vec<Change<Asteroid>>,
        env: &Environment,
        ids: &mut IdAllocator,
    )
        requires
            env.wf(),
        ensures
            exists|speed_factor: i64, spins: Seq<Spin>|
                split_rolls_in_range(speed_factor, spins) && spins.len() == split_count(
                    can_add,
                    to_add,
                ) && final(change_list)@ == old(change_list)@ + #[trigger] self.split_changes(
                    can_add,
                    to_add,
                    speed_factor,
                    spins,
                    env.compass,
                    old(ids).next,
                ),
            final(ids).next == self.split_next_id(can_add, to_add, old(ids).next),
    {
        let n: u8 = if can_add { to_add } else { 1 };
        let dice = SplitDice::roll(n);
        self.split_with(can_add, to_add, dice.speed_factor, &dice.spins, change_list, env, ids);
        assert(split_rolls_in_range(dice.speed_factor, dice.spins@));
    }
}

impl NamedTexture {
    /// A second handle on the same texture.
    pub fn clone_named(&self) -> (t: NamedTexture)
        ensures
            t == *self,
    {
        NamedTexture { name: self.name.clone() }
    }
}

impl CosmicEntity for Asteroid {
    open spec fn id(&self) -> u64 {
        self.id
    }

    open spec fn position(&self) -> Vec2 {
        self.position
    }

    open spec fn speed(&self) -> i64 {
        self.speed
    }

    open spec fn size(&self) -> i64 {
        self.size
    }

    open spec fn rotation(&self) -> i64 {
        self.rotation
    }

    open spec fn with_id(&self, id: u64) -> Self {
        Asteroid { id, ..*self }
    }

    open spec fn with_rotation(&self, rotation: i64) -> Self {
        Asteroid { rotation, ..*self }
    }

    fn get_id(&self) -> (r: u64) {
        self.id
    }

    fn clone_with_new_uid(&self, ids: &mut IdAllocator) -> (r: Self) {
        let id: u64 = generate_uid(ids);
        Asteroid {
            id,
            position: self.position,
            speed: self.speed,
            size: self.size,
            rotation: self.rotation,
            direction: self.direction,
            speed_multiplier: self.speed_multiplier,
            turn_rate: self.turn_rate,
            texture: self.texture.clone_named(),
        }
    }

    fn get_position(&self) -> (r: Vec2) {
        self.position
    }

    fn get_speed(&self) -> (r: i64) {
        self.speed
    }

    fn get_size(&self) -> (r: i64) {
        self.size
    }

    fn get_rotation(&self) -> (r: i64) {
        self.rotation
    }

    fn add_rotation(&mut self, amount: i64) {
        self.rotation = turned(self.rotation, amount);
    }
}

/// A split never leaves anything as large as what it split: each child is
/// exactly one `SCALE` smaller than its parent and has one generation less
/// ahead of it.
pub proof fn lemma_split_shrinks(
    parent: Asteroid,
    can_add: bool,
    to_add: u8,
    speed_factor: i64,
    spins: Seq<Spin>,
    compass: Compass,
    first_id: u64,
    i: int,
)
    requires
        parent.size > SCALE,
        0 <= i < split_count(can_add, to_add),
    ensures
        parent.split_changes(can_add, to_add, speed_factor, spins, compass, first_id)[i]
            matches Change::Add(child) && child.size == parent.size - SCALE
            && generations(child.size) + 1 == generations(parent.size),
{
}

/// The number of generations ahead of an asteroid is at most the number of
/// whole `SCALE`s in its radius, so splitting it and what comes of it ends.
pub proof fn lemma_generations_bounded(size: i64)
    requires
        size >= 0,
    ensures
        generations(size) <= size / SCALE,
    decreases size,
{
    if size > SCALE {
        lemma_generations_bounded((size - SCALE) as i64);
        assert((size - SCALE) / (SCALE as int) + 1 == (size as int) / (SCALE as int))
            by (nonlinear_arith)
            requires
                SCALE == 18_000_000,
        ;
    }
}

/// An asteroid of the smallest size splits into nothing: the one change is
/// its own removal.
pub proof fn lemma_split_smallest(
    parent: Asteroid,
    can_add: bool,
    to_add: u8,
    speed_factor: i64,
    spins: Seq<Spin>,
    compass: Compass,
    first_id: u64,
)
    requires
        parent.size == SCALE,
    ensures
        parent.split_changes(can_add, to_add, speed_factor, spins, compass, first_id) == seq![
            Change::<Asteroid>::Remove(parent.id),
        ],
{
}

/// A larger asteroid splits into `to_add` additions where adding is allowed
/// and into one where it is not, each followed by nothing but the parent's
/// removal.
pub proof fn lemma_split_counts(
    parent: Asteroid,
    can_add: bool,
    to_add: u8,
    speed_factor: i64,
    spins: Seq<Spin>,
    compass: Compass,
    first_id: u64,
)
    requires
        parent.size > SCALE,
    ensures
        ({
            let changes = parent.split_changes(
                can_add,
                to_add,
                speed_factor,
                spins,
                compass,
                first_id,
            );
            let n = if can_add {
                to_add as int
            } else {
                1
            };
            &&& changes.len() == n + 1
            &&& forall|i: int| 0 <= i < n ==> (#[trigger] changes[i]) is Add
            &&& changes[n] == Change::<Asteroid>::Remove(parent.id)
        }),
{
}

} // verus!
