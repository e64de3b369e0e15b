//! The state of a match and what is done to it between two drawn frames:
//! moving every object, keeping score, and deciding when the match is over.
use vstd::prelude::*;
use crate::asteroid::{score_index, tier_index, Asteroid, SplitDice, SCALE};
use crate::compass::{Compass, Environment};
use crate::entity::{
    applied, apply_changes, id_after, id_offset, next_after, Change, CosmicEntity, IdAllocator,
};
use crate::fixed::{sat_sub, spec_sat_add, spec_sat_mul, spec_sat_sub, UNIT};
use crate::floating_text::LifetimedText;
use crate::geometry::{spec_along_flipped, Vec2};
use crate::missile::Missile;
use crate::spaceship::{muzzle_count, Spaceship, MAX_CAPACITY};

verus! {

/// The arcs of a homing volley: the left one runs from a little past a
/// quarter turn to three quarters, the right one from a quarter turn to a
/// little short of three quarters.
pub const VOLLEY_LEFT_START: i64 = 1_062_478;

pub const VOLLEY_LEFT_END: i64 = 2_827_434;

pub const VOLLEY_RIGHT_START: i64 = 942_478;

pub const VOLLEY_RIGHT_END: i64 = 2_707_434;

/// The length of one simulation step: a sixtieth of a second.
pub const TICKS: i64 = 10_000;

/// How often the frame rate shown on screen is refreshed: every quarter of
/// a second.
pub const FPS_PERIOD: i64 = 150_000;

/// The speed of the simulation while a match is played.
pub const SPEED_NORMAL: i64 = UNIT;

/// The speed at which the simulation winds down after the ship was lost:
/// a twentieth of the normal speed as soon as that is noticed, a tenth from
/// the end of the frame on.
pub const SPEED_AFTERMATH: i64 = 30_000;

pub const SPEED_ENDING: i64 = 60_000;

pub struct Gamestate {
    pub delta_time: i64,
    pub accumulator: i64,
    pub simulation_speed: i64,
    pub fps: u32,
    pub fps_cooldown: i64,
    pub debug: bool,
    pub loop_number: u128,
    pub input: Vec<String>,
    pub asteroids: Vec<Asteroid>,
    pub asteroids_children: u8,
    pub missiles: Vec<Missile>,
    pub spaceship: Spaceship,
    pub asteroid_limit: u8,
    pub number_of_asteroids: u32,
    pub score: [u128; 2],
    pub multipliers: Vec<u8>,
    pub asteroid_changes: Vec<Change<Asteroid>>,
    pub missile_changes: Vec<Change<Missile>>,
    pub text_changes: Vec<Change<LifetimedText>>,
    pub menu: Vec<String>,
    pub win: bool,
    pub over: bool,
    pub exit: bool,
    pub texts: Vec<LifetimedText>,
    pub ids: IdAllocator,
}

/// Whether every asteroid that `changes` adds finds its entry in a score
/// table of `entries` entries.
pub open spec fn additions_scorable(changes: Seq<Change<Asteroid>>, entries: nat) -> bool {
    forall|i: int|
        0 <= i < changes.len() ==> (#[trigger] changes[i] matches Change::Add(a) ==> score_index(
            a.size,
        ) < entries)
}

/// Whether every asteroid of `asteroids` finds its entry in a score table
/// of `entries` entries.
pub open spec fn asteroids_scorable(asteroids: Seq<Asteroid>, entries: nat) -> bool {
    forall|i: int| 0 <= i < asteroids.len() ==> score_index((#[trigger] asteroids[i]).size) < entries
}

/// `n` as a `u128` holds it: numbers past the largest `u128` stop there.
pub open spec fn cap(n: nat) -> u128 {
    if n > u128::MAX {
        u128::MAX
    } else {
        n as u128
    }
}

/// The entry of the census that an asteroid of radius `size` is counted
/// under: its radius in `SCALE`s, rounded to the nearest, less one.
pub open spec fn rounded_index(size: i64) -> int {
    (size + SCALE / 2) / (SCALE as int) - 1
}

/// How many asteroids counted under `tier` there are among `weight`
/// asteroids of radius `size` and all that can come of them when every
/// split makes `children` children.
pub open spec fn census(size: i64, children: u8, weight: nat, tier: int) -> nat
    decreases size,
{
    if size < SCALE {
        0
    } else {
        (if rounded_index(size) == tier {
            weight
        } else {
            0
        }) + census((size - SCALE) as i64, children, weight * (children as nat), tier)
    }
}

/// The census of a whole field of asteroids.
pub open spec fn census_all(asteroids: Seq<Asteroid>, children: u8, tier: int) -> nat
    decreases asteroids.len(),
{
    if asteroids.len() == 0 {
        0
    } else {
        census_all(asteroids.drop_last(), children, tier) + census(
            asteroids.last().size,
            children,
            1,
            tier,
        )
    }
}

/// What entry `tier` of the census is worth: nothing where the score table
/// has no such entry.
pub open spec fn tier_score(count: nat, base_score: u128, multipliers: Seq<u8>, tier: int) -> nat {
    if tier < multipliers.len() {
        count * (multipliers[tier] as nat) * (base_score as nat)
    } else {
        0
    }
}

proof fn lemma_cap_sum(a: nat, b: nat)
    ensures
        cap((cap(a) + cap(b)) as nat) == cap(a + b),
{
}

proof fn lemma_cap_product(a: nat, b: nat)
    ensures
        cap((cap(a) * b) as nat) == cap(a * b),
{
    if a > u128::MAX {
        if b == 0 {
            assert(a * b == 0) by (nonlinear_arith)
                requires
                    b == 0,
            ;
        } else {
            assert(a * b >= a && u128::MAX * b >= u128::MAX) by (nonlinear_arith)
                requires
                    b >= 1,
                    a >= 0,
            ;
        }
    }
}

fn capped_sum(a: u128, b: u128) -> (r: u128)
    ensures
        r == cap((a + b) as nat),
{
    if a > u128::MAX - b {
        u128::MAX
    } else {
        a + b
    }
}

fn capped_product(a: u128, b: u128) -> (r: u128)
    ensures
        r == cap((a * b) as nat),
{
    assert(a * b >= 0) by (nonlinear_arith)
        requires
            a >= 0,
            b >= 0,
    ;
    match a.checked_mul(b) {
        Some(v) => v,
        None => u128::MAX,
    }
}

impl Gamestate {
    /// The ship is well formed, and the score table has an entry for every
    /// asteroid that is in play or waits to be added.
    pub open spec fn wf(&self) -> bool {
        &&& self.spaceship.wf()
        &&& asteroids_scorable(self.asteroids@, self.multipliers@.len())
        &&& additions_scorable(self.asteroid_changes@, self.multipliers@.len())
    }

    /// Whether the state is well formed.
    pub fn is_well_formed(&self) -> (r: bool)
        ensures
            r == self.wf(),
    {
        if !(self.spaceship.max_speed >= 0 && self.spaceship.shield >= 0
            && self.spaceship.missile_capacity <= MAX_CAPACITY) {
            return false;
        }
        let entries: u64 = self.multipliers.len() as u64;
        let mut i: usize = 0;
        while i < self.asteroids.len()
            invariant
                0 <= i <= self.asteroids@.len(),
                entries == self.multipliers@.len(),
                forall|k: int|
                    0 <= k < i ==> score_index((#[trigger] self.asteroids@[k]).size) < entries,
            decreases self.asteroids@.len() - i,
        {
            if tier_index(self.asteroids[i].get_size()) >= entries {
                return false;
            }
            i = i + 1;
        }
        let mut j: usize = 0;
        while j < self.asteroid_changes.len()
            invariant
                0 <= j <= self.asteroid_changes@.len(),
                entries == self.multipliers@.len(),
                asteroids_scorable(self.asteroids@, self.multipliers@.len()),
                forall|k: int|
                    0 <= k < j ==> (#[trigger] self.asteroid_changes@[k] matches Change::Add(a)
                        ==> score_index(a.size) < entries),
            decreases self.asteroid_changes@.len() - j,
        {
            match &self.asteroid_changes[j] {
                Change::Add(a) => {
                    if tier_index(a.get_size()) >= entries {
                        return false;
                    }
                },
                Change::Remove(_) => {},
            }
            j = j + 1;
        }
        true
    }

    /// A state before the first match: nothing in play, the simulation at
    /// rest, the start menu open.
    pub fn new(bounds: Vec2) -> (g: Gamestate)
        ensures
            g.wf(),
            g.delta_time == 0,
            g.accumulator == 0,
            g.simulation_speed == 0,
            g.fps == 0,
            g.fps_cooldown == 0,
            !g.debug,
            g.loop_number == 0,
            g.input@.len() == 0,
            g.asteroids@.len() == 0,
            g.asteroids_children == 2,
            g.missiles@.len() == 0,
            g.spaceship.id == 1,
            g.spaceship.alive,
            g.asteroid_limit == 26,
            g.number_of_asteroids == 0,
            g.score@ == seq![0u128, 0u128],
            g.multipliers@ == seq![3u8, 2u8, 1u8],
            g.asteroid_changes@.len() == 0,
            g.missile_changes@.len() == 0,
            g.text_changes@.len() == 0,
            g.menu@.len() == 1,
            g.menu@[0]@ == "Start"@,
            !g.win,
            !g.over,
            !g.exit,
            g.texts@.len() == 0,
            g.ids.next == 2,
    {
        let mut ids = IdAllocator::new();
        let spaceship = Spaceship::new(bounds, &mut ids);
        let mut menu: Vec<String> = Vec::new();
        menu.push("Start".to_owned());
        let mut multipliers: Vec<u8> = Vec::new();
        multipliers.push(3);
        multipliers.push(2);
        multipliers.push(1);
        let g = Gamestate {
            delta_time: 0,
            accumulator: 0,
            simulation_speed: 0,
            fps: 0,
            fps_cooldown: 0,
            debug: false,
            loop_number: 0,
            input: Vec::new(),
            asteroids: Vec::new(),
            asteroids_children: 2,
            missiles: Vec::new(),
            spaceship,
            asteroid_limit: 26,
            number_of_asteroids: 0,
            score: [0, 0],
            multipliers,
            asteroid_changes: Vec::new(),
            missile_changes: Vec::new(),
            text_changes: Vec::new(),
            menu,
            win: false,
            over: false,
            exit: false,
            texts: Vec::new(),
            ids,
        };
        assert(g.score@ =~= seq![0u128, 0u128]);
        assert(g.multipliers@ =~= seq![3u8, 2u8, 1u8]);
        g
    }

    /// The name of the menu that is open on top, or the empty string where
    /// none is open.
    pub fn get_last_menu_item(&self) -> (r: &str)
        ensures
            self.menu@.len() > 0 ==> r@ == self.menu@.last()@,
            self.menu@.len() == 0 ==> r@ == ""@,
    {
        if self.menu.len() > 0 {
            self.menu[self.menu.len() - 1].as_str()
        } else {
            ""
        }
    }

    /// Takes over the measured frame rate where the last reading is a
    /// quarter of a second old.
    pub open spec fn spec_update_fps(&self, now: i64, measured: u32) -> Gamestate {
        if spec_sat_sub(now, self.fps_cooldown) >= FPS_PERIOD {
            Gamestate { fps: measured, fps_cooldown: now, ..*self }
        } else {
            *self
        }
    }

    pub fn update_fps(&mut self, now: i64, measured: u32)
        ensures
            *final(self) == old(self).spec_update_fps(now, measured),
    {
        if sat_sub(now, self.fps_cooldown) >= FPS_PERIOD {
            self.fps = measured;
            self.fps_cooldown = now;
        }
    }

    pub fn update_spaceship(&mut self, env: &Environment)
        requires
            env.wf(),
        ensures
            *final(self) == (Gamestate {
                spaceship: old(self).spaceship.spec_update(old(self).delta_time, *env),
                ..*old(self)
            }),
    {
        self.spaceship.update(self.delta_time, env);
    }

    /// Whether `after` holds the missiles of `self`, each advanced by the
    /// frame's time with the asteroids as its targets.
    pub open spec fn missiles_updated(&self, after: Seq<Missile>, env: Environment) -> bool {
        &&& after.len() == self.missiles@.len()
        &&& forall|i: int|
            0 <= i < after.len() ==> (#[trigger] self.missiles@[i]).updates_to(
                after[i],
                self.asteroids@,
                self.delta_time,
                env,
            )
    }

    pub fn update_missiles(&mut self, env: &Environment)
        requires
            env.wf(),
        ensures
            old(self).missiles_updated(final(self).missiles@, *env),
            *final(self) == (Gamestate { missiles: final(self).missiles, ..*old(self) }),
    {
        let mut i: usize = 0;
        while i < self.missiles.len()
            invariant
                env.wf(),
                0 <= i <= self.missiles@.len(),
                self.missiles@.len() == old(self).missiles@.len(),
                *self == (Gamestate { missiles: self.missiles, ..*old(self) }),
                forall|k: int|
                    0 <= k < i ==> (#[trigger] old(self).missiles@[k]).updates_to(
                        self.missiles@[k],
                        old(self).asteroids@,
                        old(self).delta_time,
                        *env,
                    ),
                forall|k: int|
                    i <= k < self.missiles@.len() ==> self.missiles@[k] == old(self).missiles@[k],
            decreases self.missiles@.len() - i,
        {
            let mut m: Missile = self.missiles[i];
            m.update(&self.asteroids, self.delta_time, env);
            self.missiles.set(i, m);
            i = i + 1;
        }
    }

    /// Whether `after` holds the asteroids of `self`, each advanced by the
    /// frame's time.
    pub open spec fn asteroids_updated(&self, after: Seq<Asteroid>, env: Environment) -> bool {
        &&& after.len() == self.asteroids@.len()
        &&& forall|i: int|
            0 <= i < after.len() ==> #[trigger] after[i] == self.asteroids@[i].spec_update(
                self.delta_time,
                env,
            )
    }

    pub fn update_asteroids(&mut self, env: &Environment)
        requires
            env.wf(),
        ensures
            old(self).asteroids_updated(final(self).asteroids@, *env),
            *final(self) == (Gamestate { asteroids: final(self).asteroids, ..*old(self) }),
    {
        let mut i: usize = 0;
        while i < self.asteroids.len()
            invariant
                env.wf(),
                0 <= i <= self.asteroids@.len(),
                self.asteroids@.len() == old(self).asteroids@.len(),
                *self == (Gamestate { asteroids: self.asteroids, ..*old(self) }),
                forall|k: int|
                    0 <= k < i ==> #[trigger] self.asteroids@[k] == old(
                        self,
                    ).asteroids@[k].spec_update(old(self).delta_time, *env),
                forall|k: int|
                    i <= k < self.asteroids@.len() ==> self.asteroids@[k] == old(
                        self,
                    ).asteroids@[k],
            decreases self.asteroids@.len() - i,
        {
            let dt: i64 = self.delta_time;
            self.asteroids[i].update(dt, env);
            i = i + 1;
        }
    }

    /// Whether `after` holds the popups of `self`, each drifted by the
    /// frame's time.
    pub open spec fn texts_updated(&self, after: Seq<LifetimedText>) -> bool {
        &&& after.len() == self.texts@.len()
        &&& forall|i: int|
            0 <= i < after.len() ==> #[trigger] after[i] == (LifetimedText {
                position: Vec2 {
                    x: self.texts@[i].position.x,
                    y: spec_sat_add(
                        self.texts@[i].position.y,
                        spec_sat_mul(self.texts@[i].speed, self.delta_time),
                    ),
                },
                lifetime: spec_sat_sub(self.texts@[i].lifetime, self.delta_time),
                ..self.texts@[i]
            })
    }

    pub fn update_scores(&mut self)
        ensures
            old(self).texts_updated(final(self).texts@),
            *final(self) == (Gamestate { texts: final(self).texts, ..*old(self) }),
    {
        let mut i: usize = 0;
        while i < self.texts.len()
            invariant
                0 <= i <= self.texts@.len(),
                self.texts@.len() == old(self).texts@.len(),
                *self == (Gamestate { texts: self.texts, ..*old(self) }),
                forall|k: int|
                    0 <= k < i ==> #[trigger] self.texts@[k] == (LifetimedText {
                        position: Vec2 {
                            x: old(self).texts@[k].position.x,
                            y: spec_sat_add(
                                old(self).texts@[k].position.y,
                                spec_sat_mul(old(self).texts@[k].speed, old(self).delta_time),
                            ),
                        },
                        lifetime: spec_sat_sub(old(self).texts@[k].lifetime, old(self).delta_time),
                        ..old(self).texts@[k]
                    }),
                forall|k: int|
                    i <= k < self.texts@.len() ==> self.texts@[k] == old(self).texts@[k],
            decreases self.texts@.len() - i,
        {
            let dt: i64 = self.delta_time;
            self.texts[i].update(dt);
            i = i + 1;
        }
    }

    /// The speed at which the simulation runs, as the menus and the ship's
    /// fate decide it: at rest under any menu (but under the start menu in
    /// debug mode, where it keeps its speed), normal with no menu open, and
    /// slowed down once the ship is lost.
    pub open spec fn spec_simulation_speed(&self) -> i64 {
        let start_on_top = self.menu@.len() > 0 && self.menu@.last()@ == "Start"@;
        let by_menu = if self.menu@.len() == 0 {
            SPEED_NORMAL
        } else if !self.debug {
            0
        } else {
            self.simulation_speed
        };
        let paused = if self.menu@.len() > 0 && !(start_on_top && self.debug) {
            0
        } else {
            by_menu
        };
        if !self.spaceship.alive && paused == SPEED_NORMAL && !self.debug {
            SPEED_AFTERMATH
        } else {
            paused
        }
    }

    pub fn update_simulation_speed(&mut self)
        ensures
            *final(self) == (Gamestate {
                simulation_speed: old(self).spec_simulation_speed(),
                ..*old(self)
            }),
    {
        if self.menu.len() == 0 {
            self.simulation_speed = SPEED_NORMAL;
        } else if !self.debug {
            self.simulation_speed = 0;
        }
        if self.menu.len() > 0 && !(self.last_menu_is("Start") && self.debug) {
            self.simulation_speed = 0;
        }
        if !self.spaceship.get_life() && self.simulation_speed == SPEED_NORMAL && !self.debug {
            self.simulation_speed = SPEED_AFTERMATH;
        }
    }

    /// Whether the match is lost for good: the ship is gone, the simulation
    /// still runs outside debug mode, and no asteroid is left.
    pub open spec fn is_lost(&self) -> bool {
        !self.spaceship.alive && self.simulation_speed > 0 && !self.debug
            && self.number_of_asteroids == 0
    }

    /// Whether the match is won: the ship lives, the simulation still runs,
    /// and no asteroid is left.
    pub open spec fn is_won(&self) -> bool {
        self.spaceship.alive && self.simulation_speed > 0 && self.number_of_asteroids == 0
    }

    /// The menu after the end of the match was looked for: the start menu
    /// is opened for a match that is lost, or won outside debug mode, unless
    /// a menu is open already.
    pub open spec fn spec_ending_menu(&self) -> Seq<Seq<char>> {
        let shown = self.menu@.map_values(|m: String| m@);
        if self.menu@.len() == 0 && (self.is_lost() || (self.is_won() && !self.debug)) {
            shown.push("Start"@)
        } else {
            shown
        }
    }

    /// Whether `after` is `self` with the end of the match noticed. With
    /// the ship lost the simulation slows to a tenth, and once the last
    /// asteroid is gone the match is over; with the ship alive and no
    /// asteroid left the match is won.
    pub open spec fn ended_as(&self, after: Gamestate) -> bool {
        &&& after.simulation_speed == if !self.spaceship.alive && self.simulation_speed > 0
            && !self.debug {
            SPEED_ENDING
        } else {
            self.simulation_speed
        }
        &&& after.over == (self.over || self.is_lost())
        &&& after.win == (self.win || self.is_won())
        &&& after.menu@.map_values(|m: String| m@) == self.spec_ending_menu()
        &&& after == (Gamestate {
            simulation_speed: after.simulation_speed,
            over: after.over,
            win: after.win,
            menu: after.menu,
            ..*self
        })
    }

    /// Notices the end of the match.
    pub fn update_ending(&mut self)
        ensures
            old(self).ended_as(*final(self)),
    {
        let ghost shown = self.menu@.map_values(|m: String| m@);
        if !self.spaceship.get_life() && self.simulation_speed > 0 && !self.debug {
            self.simulation_speed = SPEED_ENDING;
            if self.number_of_asteroids == 0 {
                self.over = true;
                if self.menu.len() == 0 {
                    self.menu.push("Start".to_owned());
                    assert(self.menu@.map_values(|m: String| m@) =~= shown.push("Start"@));
                }
            }
        }
        if self.spaceship.get_life() && self.simulation_speed > 0 && self.number_of_asteroids == 0 {
            self.win = true;
            if self.menu.len() == 0 && !self.debug {
                self.menu.push("Start".to_owned());
                assert(self.menu@.map_values(|m: String| m@) =~= shown.push("Start"@));
            }
        }
    }

    /// The number of entities as the counter shows it: it stops at the
    /// largest `u32`.
    pub open spec fn spec_count(len: nat) -> u32 {
        if len > u32::MAX {
            u32::MAX
        } else {
            len as u32
        }
    }

    /// Whether `after` is `self` with its three change lists applied,
    /// asteroids first, then missiles, then popups, and the asteroids
    /// counted anew.
    pub open spec fn flushed_to(&self, after: Gamestate) -> bool {
        let after_asteroids = next_after(self.asteroid_changes@, self.ids.next);
        let after_missiles = next_after(self.missile_changes@, after_asteroids);
        &&& after.asteroids@ == applied(self.asteroids@, self.asteroid_changes@, self.ids.next)
        &&& after.missiles@ == applied(self.missiles@, self.missile_changes@, after_asteroids)
        &&& after.texts@ == applied(self.texts@, self.text_changes@, after_missiles)
        &&& after.ids.next == next_after(self.text_changes@, after_missiles)
        &&& after.asteroid_changes@.len() == 0
        &&& after.missile_changes@.len() == 0
        &&& after.text_changes@.len() == 0
        &&& after.number_of_asteroids == Self::spec_count(after.asteroids@.len())
        &&& after == (Gamestate {
            asteroids: after.asteroids,
            missiles: after.missiles,
            texts: after.texts,
            ids: after.ids,
            asteroid_changes: after.asteroid_changes,
            missile_changes: after.missile_changes,
            text_changes: after.text_changes,
            number_of_asteroids: after.number_of_asteroids,
            ..*self
        })
    }

    /// Applies the three change lists and counts the asteroids that are
    /// left.
    pub fn flush_changes(&mut self)
        ensures
            old(self).flushed_to(*final(self)),
    {
        apply_changes(&mut self.asteroids, &mut self.asteroid_changes, &mut self.ids);
        apply_changes(&mut self.missiles, &mut self.missile_changes, &mut self.ids);
        apply_changes(&mut self.texts, &mut self.text_changes, &mut self.ids);
        let n: usize = self.asteroids.len();
        self.number_of_asteroids = if n > u32::MAX as usize {
            u32::MAX
        } else {
            n as u32
        };
    }

    /// Whether `after` is `self` with everything moved by the frame's time:
    /// the ship, the missiles (which aim at the asteroids where they were),
    /// the asteroids and the popups.
    pub open spec fn frame_moved(&self, after: Gamestate, env: Environment) -> bool {
        &&& after.spaceship == self.spaceship.spec_update(self.delta_time, env)
        &&& self.missiles_updated(after.missiles@, env)
        &&& self.asteroids_updated(after.asteroids@, env)
        &&& self.texts_updated(after.texts@)
        &&& after == (Gamestate {
            spaceship: after.spaceship,
            missiles: after.missiles,
            asteroids: after.asteroids,
            texts: after.texts,
            ..*self
        })
    }

    /// Whether a frame leads from `self` to `after` by way of `moved` and
    /// `flushed`: everything is moved, the simulation speed is set, the
    /// queued changes are applied, and the end of the match is looked for.
    pub open spec fn frame_leads(
        &self,
        moved: Gamestate,
        flushed: Gamestate,
        after: Gamestate,
        env: Environment,
    ) -> bool {
        &&& self.frame_moved(moved, env)
        &&& (Gamestate { simulation_speed: moved.spec_simulation_speed(), ..moved }).flushed_to(
            flushed,
        )
        &&& flushed.ended_as(after)
    }

    /// The work of one drawn frame: refreshes the frame rate, moves
    /// everything, sets the simulation speed, applies the queued changes
    /// and looks for the end of the match.
    pub fn update_all(&mut self, env: &Environment, now: i64, measured_fps: u32)
        requires
            env.wf(),
        ensures
            exists|moved: Gamestate, flushed: Gamestate|
                old(self).spec_update_fps(now, measured_fps).frame_leads(
                    moved,
                    flushed,
                    *final(self),
                    *env,
                ),
    {
        self.update_fps(now, measured_fps);
        self.update_spaceship(env);
        self.update_missiles(env);
        self.update_asteroids(env);
        self.update_scores();
        let ghost moved = *self;
        self.update_simulation_speed();
        self.flush_changes();
        let ghost flushed = *self;
        self.update_ending();
        assert(old(self).spec_update_fps(now, measured_fps).frame_leads(
            moved,
            flushed,
            *self,
            *env,
        ));
    }

    /// The best score the asteroids in play allow: how many asteroids of
    /// each of the three sizes there are to destroy, counting all that can
    /// come of splits into `children_count` children, and in the last entry
    /// what they are worth together at `base_score` points times the size's
    /// multiplier. Every entry stops at the largest `u128`.
    pub fn get_max_score(&self, base_score: u128, multipliers: &[u8], children_count: u8) -> (r: [u128; 4])
        ensures
            r@[0] == cap(census_all(self.asteroids@, children_count, 0)),
            r@[1] == cap(census_all(self.asteroids@, children_count, 1)),
            r@[2] == cap(census_all(self.asteroids@, children_count, 2)),
            r@[3] == cap(
                tier_score(
                    census_all(self.asteroids@, children_count, 0),
                    base_score,
                    multipliers@,
                    0,
                ) + tier_score(
                    census_all(self.asteroids@, children_count, 1),
                    base_score,
                    multipliers@,
                    1,
                ) + tier_score(
                    census_all(self.asteroids@, children_count, 2),
                    base_score,
                    multipliers@,
                    2,
                ),
            ),
    {
        let mut c0: u128 = 0;
        let mut c1: u128 = 0;
        let mut c2: u128 = 0;
        let ghost mut n0: nat = 0;
        let ghost mut n1: nat = 0;
        let ghost mut n2: nat = 0;
        let mut i: usize = 0;
        assert(self.asteroids@.subrange(0, 0) =~= Seq::<Asteroid>::empty());
        while i < self.asteroids.len()
            invariant
                0 <= i <= self.asteroids@.len(),
                n0 == census_all(self.asteroids@.subrange(0, i as int), children_count, 0),
                n1 == census_all(self.asteroids@.subrange(0, i as int), children_count, 1),
                n2 == census_all(self.asteroids@.subrange(0, i as int), children_count, 2),
                c0 == cap(n0),
                c1 == cap(n1),
                c2 == cap(n2),
            decreases self.asteroids@.len() - i,
        {
            let size: i64 = self.asteroids[i].get_size();
            let mut s: i64 = size;
            let mut weight: u128 = 1;
            let ghost mut w: nat = 1;
            let ghost b0 = n0;
            let ghost b1 = n1;
            let ghost b2 = n2;
            while s >= SCALE
                invariant
                    weight == cap(w),
                    c0 == cap(n0),
                    c1 == cap(n1),
                    c2 == cap(n2),
                    n0 + census(s, children_count, w, 0) == b0 + census(size, children_count, 1, 0),
                    n1 + census(s, children_count, w, 1) == b1 + census(size, children_count, 1, 1),
                    n2 + census(s, children_count, w, 2) == b2 + census(size, children_count, 1, 2),
                decreases s,
            {
                let index: i128 = (s as i128 + (SCALE / 2) as i128) / (SCALE as i128) - 1;
                assert(index == rounded_index(s));
                proof {
                    lemma_cap_sum(n0, w);
                    lemma_cap_sum(n1, w);
                    lemma_cap_sum(n2, w);
                    lemma_cap_product(w, children_count as nat);
                }
                if index == 0 {
                    c0 = capped_sum(c0, weight);
                    proof {
                        n0 = n0 + w;
                    }
                } else if index == 1 {
                    c1 = capped_sum(c1, weight);
                    proof {
                        n1 = n1 + w;
                    }
                } else if index == 2 {
                    c2 = capped_sum(c2, weight);
                    proof {
                        n2 = n2 + w;
                    }
                }
                weight = capped_product(weight, children_count as u128);
                proof {
                    w = w * (children_count as nat);
                }
                s = s - SCALE;
            }
            proof {
                let longer = self.asteroids@.subrange(0, i as int + 1);
                assert(longer.drop_last() =~= self.asteroids@.subrange(0, i as int));
                assert(longer.last() == self.asteroids@[i as int]);
            }
            i = i + 1;
        }
        assert(self.asteroids@.subrange(0, i as int) =~= self.asteroids@);
        let t0: u128 = Self::tier_points(c0, Ghost(n0), base_score, multipliers, 0);
        let t1: u128 = Self::tier_points(c1, Ghost(n1), base_score, multipliers, 1);
        let t2: u128 = Self::tier_points(c2, Ghost(n2), base_score, multipliers, 2);
        proof {
            lemma_cap_sum(
                tier_score(n0, base_score, multipliers@, 0),
                tier_score(n1, base_score, multipliers@, 1),
            );
            lemma_cap_sum(
                tier_score(n0, base_score, multipliers@, 0) + tier_score(
                    n1,
                    base_score,
                    multipliers@,
                    1,
                ),
                tier_score(n2, base_score, multipliers@, 2),
            );
        }
        let total: u128 = capped_sum(capped_sum(t0, t1), t2);
        [c0, c1, c2, total]
    }

    fn tier_points(
        count: u128,
        Ghost(n): Ghost<nat>,
        base_score: u128,
        multipliers: &[u8],
        tier: usize,
    ) -> (r: u128)
        requires
            count == cap(n),
        ensures
            r == cap(tier_score(n, base_score, multipliers@, tier as int)),
    {
        if tier < multipliers.len() {
            let m: u8 = multipliers[tier];
            proof {
                lemma_cap_product(n, m as nat);
                lemma_cap_product(n * (m as nat), base_score as nat);
            }
            capped_product(capped_product(count, m as u128), base_score)
        } else {
            0
        }
    }

    /// The missiles of a volley from `k` muzzles on, in firing order: one
    /// at each of the ship's muzzles, homing, at 200 pixels per second.
    pub open spec fn volley(
        ship: Spaceship,
        places: Seq<(Vec2, i64)>,
        k: int,
        first_id: u64,
    ) -> Seq<Missile> {
        Seq::new(
            k as nat,
            |i: int|
                Missile::spec_new(
                    id_offset(first_id, i as nat),
                    places[i].0,
                    (200 * UNIT) as i64,
                    places[i].1,
                    true,
                    Vec2 { x: (-100 * UNIT) as i64, y: (-100 * UNIT) as i64 },
                ),
        )
    }

    /// The muzzles of the ship's homing volley, in firing order.
    pub open spec fn muzzles(ship: Spaceship, compass: Compass) -> Seq<(Vec2, i64)> {
        Seq::new(
            muzzle_count(ship.missile_capacity) as nat,
            |i: int|
                ship.muzzle(
                    muzzle_count(ship.missile_capacity),
                    i,
                    VOLLEY_LEFT_START,
                    VOLLEY_LEFT_END,
                    VOLLEY_RIGHT_START,
                    VOLLEY_RIGHT_END,
                    compass,
                ),
        )
    }

    /// The missiles that a shot adds. A plain shot is one missile that
    /// leaves the ship's position along its heading at the ship's top
    /// speed. A homing volley is one missile for each unit of the ship's
    /// capacity, each from its own muzzle on the arcs to the left and right
    /// of the ship.
    pub open spec fn shot(ship: Spaceship, is_homing: bool, compass: Compass, first_id: u64) -> Seq<
        Missile,
    > {
        if is_homing {
            Self::volley(ship, Self::muzzles(ship, compass), ship.missile_capacity as int, first_id)
        } else {
            seq![
                Missile::spec_new(
                    first_id,
                    ship.position,
                    ship.max_speed,
                    ship.rotation,
                    false,
                    Vec2 { x: (-100 * UNIT) as i64, y: (-100 * UNIT) as i64 },
                ),
            ]
        }
    }

    /// How many identifiers a shot takes.
    pub open spec fn shot_size(ship: Spaceship, is_homing: bool) -> nat {
        if is_homing {
            ship.missile_capacity as nat
        } else {
            1
        }
    }

    /// Whether `after` is `self` with a shot fired.
    pub open spec fn fired_to(&self, after: Gamestate, is_homing: bool, env: Environment) -> bool {
        &&& after.missiles@ == self.missiles@ + Self::shot(
            self.spaceship,
            is_homing,
            env.compass,
            self.ids.next,
        )
        &&& after.ids.next == id_offset(self.ids.next, Self::shot_size(self.spaceship, is_homing))
        &&& after == (Gamestate { missiles: after.missiles, ids: after.ids, ..*self })
    }

    /// Fires a plain shot or a homing volley.
    pub fn summon_missile(&mut self, is_homing: bool, env: &Environment)
        requires
            env.wf(),
            old(self).spaceship.missile_capacity <= MAX_CAPACITY,
        ensures
            old(self).fired_to(*final(self), is_homing, *env),
    {
        let target = Vec2 { x: -100 * UNIT, y: -100 * UNIT };
        if is_homing {
            assert(self.spaceship.missile_capacity <= muzzle_count(self.spaceship.missile_capacity));
            let capacity: usize = self.spaceship.get_missile_capacity() as usize;
            let positions = self.spaceship.generate_positions_angles(
                VOLLEY_LEFT_START,
                VOLLEY_LEFT_END,
                VOLLEY_RIGHT_START,
                VOLLEY_RIGHT_END,
                &env.compass,
            );
            let ghost first = self.ids.next;
            let mut idx: usize = 0;
            assert(self.missiles@ =~= old(self).missiles@ + Self::volley(
                self.spaceship,
                positions@,
                0,
                first,
            ));
            while idx < capacity
                invariant
                    0 <= idx <= capacity,
                    target == (Vec2 { x: (-100 * UNIT) as i64, y: (-100 * UNIT) as i64 }),
                    capacity == self.spaceship.missile_capacity,
                    capacity <= positions@.len(),
                    self.ids.next == id_offset(first, idx as nat),
                    self.missiles@ == old(self).missiles@ + Self::volley(
                        self.spaceship,
                        positions@,
                        idx as int,
                        first,
                    ),
                    *self == (Gamestate { missiles: self.missiles, ids: self.ids, ..*old(self) }),
                decreases capacity - idx,
            {
                let place: (Vec2, i64) = positions[idx];
                let m = Missile::new(place.0, 200 * UNIT, place.1, true, target, &mut self.ids);
                let ghost fired = self.missiles@;
                self.missiles.push(m);
                let ghost longer = Self::volley(self.spaceship, positions@, idx as int + 1, first);
                let ghost shorter = Self::volley(self.spaceship, positions@, idx as int, first);
                assert(longer[idx as int] == m);
                assert(longer =~= shorter.push(m));
                assert(self.missiles@ == fired.push(m));
                assert(fired.push(m) =~= old(self).missiles@ + longer);
                idx = idx + 1;
            }
            assert(positions@ =~= Self::muzzles(self.spaceship, env.compass));
        } else {
            let m = Missile::new(
                self.spaceship.get_position(),
                self.spaceship.get_max_speed(),
                self.spaceship.get_rotation(),
                false,
                target,
                &mut self.ids,
            );
            self.missiles.push(m);
            assert(self.missiles@ =~= old(self).missiles@ + Self::shot(
                old(self).spaceship,
                false,
                env.compass,
                old(self).ids.next,
            ));
            assert(id_offset(old(self).ids.next, 1) == id_after(old(self).ids.next)) by {
                reveal_with_fuel(id_offset, 2);
            }
        }
    }

    /// What splitting the first `k` asteroids queues, each into
    /// `asteroids_children` children with its own dice, and the next
    /// identifier after it: the changes follow `changes`, the identifiers
    /// start at `next`.
    pub open spec fn all_split(
        asteroids: Seq<Asteroid>,
        k: int,
        children: u8,
        dice: Seq<SplitDice>,
        compass: Compass,
        changes: Seq<Change<Asteroid>>,
        next: u64,
    ) -> (Seq<Change<Asteroid>>, u64)
        decreases k,
    {
        if k <= 0 {
            (changes, next)
        } else {
            let before = Self::all_split(asteroids, k - 1, children, dice, compass, changes, next);
            (
                before.0 + asteroids[k - 1].split_changes(
                    true,
                    children,
                    dice[k - 1].speed_factor,
                    dice[k - 1].spins@,
                    compass,
                    before.1,
                ),
                asteroids[k - 1].split_next_id(true, children, before.1),
            )
        }
    }

    /// Splits every asteroid in play, whatever the limit: each into
    /// `asteroids_children` children.
    pub fn split_all_asteroids(&mut self, env: &Environment)
        requires
            env.wf(),
        ensures
            exists|dice: Seq<SplitDice>|
                #![trigger Self::all_split(old(self).asteroids@, old(self).asteroids@.len() as int, old(self).asteroids_children, dice, env.compass, old(self).asteroid_changes@, old(self).ids.next)]
                dice.len() == old(self).asteroids@.len() && (forall|k: int|
                    0 <= k < dice.len() ==> (#[trigger] dice[k]).in_range() && dice[k].spins@.len()
                        == old(self).asteroids_children) && (
                final(self).asteroid_changes@,
                final(self).ids.next,
            ) == Self::all_split(
                    old(self).asteroids@,
                    old(self).asteroids@.len() as int,
                    old(self).asteroids_children,
                    dice,
                    env.compass,
                    old(self).asteroid_changes@,
                    old(self).ids.next,
                ),
            *final(self) == (Gamestate {
                asteroid_changes: final(self).asteroid_changes,
                ids: final(self).ids,
                ..*old(self)
            }),
    {
        let children: u8 = self.asteroids_children;
        let mut dice: Vec<SplitDice> = Vec::new();
        let mut n: usize = 0;
        while n < self.asteroids.len()
            invariant
                0 <= n <= self.asteroids@.len(),
                dice@.len() == n,
                *self == *old(self),
                forall|k: int|
                    0 <= k < dice@.len() ==> (#[trigger] dice@[k]).in_range()
                        && dice@[k].spins@.len() == children,
            decreases self.asteroids@.len() - n,
        {
            dice.push(SplitDice::roll(children));
            n = n + 1;
        }
        let mut i: usize = 0;
        while i < self.asteroids.len()
            invariant
                env.wf(),
                0 <= i <= self.asteroids@.len(),
                dice@.len() == self.asteroids@.len(),
                children == self.asteroids_children,
                forall|k: int|
                    0 <= k < dice@.len() ==> (#[trigger] dice@[k]).in_range()
                        && dice@[k].spins@.len() == children,
                *self == (Gamestate {
                    asteroid_changes: self.asteroid_changes,
                    ids: self.ids,
                    ..*old(self)
                }),
                (self.asteroid_changes@, self.ids.next) == Self::all_split(
                    old(self).asteroids@,
                    i as int,
                    children,
                    dice@,
                    env.compass,
                    old(self).asteroid_changes@,
                    old(self).ids.next,
                ),
            decreases self.asteroids@.len() - i,
        {
            assert(dice@[i as int].spins@.len() == children);
            self.asteroids[i].split_with(
                true,
                children,
                dice[i].speed_factor,
                &dice[i].spins,
                &mut self.asteroid_changes,
                env,
                &mut self.ids,
            );
            i = i + 1;
        }
        assert((self.asteroid_changes@, self.ids.next) == Self::all_split(
            old(self).asteroids@,
            old(self).asteroids@.len() as int,
            old(self).asteroids_children,
            dice@,
            env.compass,
            old(self).asteroid_changes@,
            old(self).ids.next,
        ));
    }

    /// Queues a large asteroid at rest, 500 pixels ahead of the ship.
    pub fn create_debug_asteroid(&mut self, env: &Environment)
        requires
            env.wf(),
        ensures
            exists|a: Asteroid|
                #![trigger old(self).asteroid_changes@.push(Change::Add(a))]
                Asteroid::made_of(
                    a,
                    old(self).ids.next,
                    Some(
                        spec_along_flipped(
                            env.compass.spec_heading(old(self).spaceship.rotation),
                            (500 * UNIT) as i64,
                        ).plus(old(self).spaceship.position),
                    ),
                    Some(0i64),
                    Some((3 * SCALE) as i64),
                    *env,
                ) && final(self).asteroid_changes@ == old(self).asteroid_changes@.push(
                    Change::Add(a),
                ),
            final(self).ids.next == id_after(old(self).ids.next),
            *final(self) == (Gamestate {
                asteroid_changes: final(self).asteroid_changes,
                ids: final(self).ids,
                ..*old(self)
            }),
    {
        let asteroid_position = self.spaceship.position_in_front_with_rotation(
            500 * UNIT,
            0,
            &env.compass,
        );
        let asteroid = Asteroid::new(
            Some(asteroid_position),
            Some(0),
            Some(3 * SCALE),
            None,
            None,
            None,
            None,
            None,
            env,
            &mut self.ids,
        );
        self.asteroid_changes.push(Change::Add(asteroid));
    }

    /// The best score that `asteroids` allow; see `get_max_score`.
    pub open spec fn spec_max_score(
        asteroids: Seq<Asteroid>,
        base_score: u128,
        multipliers: Seq<u8>,
        children: u8,
    ) -> u128 {
        cap(
            tier_score(census_all(asteroids, children, 0), base_score, multipliers, 0) + tier_score(
                census_all(asteroids, children, 1),
                base_score,
                multipliers,
                1,
            ) + tier_score(census_all(asteroids, children, 2), base_score, multipliers, 2),
        )
    }

    /// Whether `after` is `self` with a match started: a fresh ship, twenty
    /// fresh asteroids, no missiles and no popups, the score at zero out of
    /// the best score that the asteroids allow, and the menu on top closed.
    pub open spec fn reset_to(&self, after: Gamestate, env: Environment) -> bool {
        &&& !after.win
        &&& !after.over
        &&& after.missiles@.len() == 0
        &&& after.texts@.len() == 0
        &&& after.spaceship == Spaceship::spec_new(self.ids.next, env.bounds)
        &&& after.asteroids@.len() == 20
        &&& forall|k: int|
            0 <= k < 20 ==> Asteroid::made_of(
                #[trigger] after.asteroids@[k],
                id_offset(id_after(self.ids.next), k as nat),
                None,
                None,
                None,
                env,
            )
        &&& after.ids.next == id_offset(id_after(self.ids.next), 20)
        &&& after.number_of_asteroids == 20
        &&& after.menu@ == if self.menu@.len() > 0 {
            self.menu@.drop_last()
        } else {
            self.menu@
        }
        &&& after.score@ == seq![
            0u128,
            Self::spec_max_score(after.asteroids@, 100, self.multipliers@, self.asteroids_children),
        ]
        &&& after == (Gamestate {
            win: false,
            over: false,
            asteroids: after.asteroids,
            missiles: after.missiles,
            spaceship: after.spaceship,
            texts: after.texts,
            menu: after.menu,
            number_of_asteroids: 20,
            score: after.score,
            ids: after.ids,
            ..*self
        })
    }

    /// Starts a match.
    pub fn reset(&mut self, env: &Environment)
        requires
            env.wf(),
        ensures
            old(self).reset_to(*final(self), *env),
    {
        self.win = false;
        self.over = false;
        self.asteroids.clear();
        self.missiles.clear();
        self.spaceship = Spaceship::new(env.bounds, &mut self.ids);
        self.texts = Vec::new();
        self.menu.pop();
        let ghost first = self.ids.next;
        let mut n: u8 = 0;
        while n < 20
            invariant
                env.wf(),
                0 <= n <= 20,
                self.asteroids@.len() == n,
                self.ids.next == id_offset(first, n as nat),
                forall|k: int|
                    0 <= k < n ==> Asteroid::made_of(
                        #[trigger] self.asteroids@[k],
                        id_offset(first, k as nat),
                        None,
                        None,
                        None,
                        *env,
                    ),
                *self == (Gamestate {
                    win: false,
                    over: false,
                    asteroids: self.asteroids,
                    missiles: self.missiles,
                    spaceship: self.spaceship,
                    texts: self.texts,
                    menu: self.menu,
                    ids: self.ids,
                    ..*old(self)
                }),
                self.missiles@.len() == 0,
                self.texts@.len() == 0,
                self.spaceship == Spaceship::spec_new(old(self).ids.next, env.bounds),
                self.menu@ == if old(self).menu@.len() > 0 {
                    old(self).menu@.drop_last()
                } else {
                    old(self).menu@
                },
            decreases 20 - n,
        {
            let a = Asteroid::new_default(env, &mut self.ids);
            self.asteroids.push(a);
            n = n + 1;
        }
        self.number_of_asteroids = 20;
        let best: [u128; 4] = self.get_max_score(
            100,
            self.multipliers.as_slice(),
            self.asteroids_children,
        );
        self.score = [0, best[3]];
        assert(self.score@ =~= seq![0u128, best@[3]]);
    }

    /// Whether the menu that is open on top is `name`.
    pub fn last_menu_is(&self, name: &str) -> (r: bool)
        ensures
            r == (self.menu@.len() > 0 && self.menu@.last()@ == name@),
    {
        if self.menu.len() > 0 {
            let wanted: String = name.to_owned();
            self.menu[self.menu.len() - 1] == wanted
        } else {
            false
        }
    }
}

} // verus!
