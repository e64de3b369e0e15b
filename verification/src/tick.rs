//! The fixed-step tick: what one sixtieth of a second does to a match.
//! Missiles that left the screen go, asteroids meet the ship and the
//! missiles, hits split asteroids and score points, and a lost match winds
//! down. Everything is said over `GameModel`, the match as a mathematical
//! value.
use vstd::prelude::*;
use crate::asteroid::{score_index, split_count, Asteroid, Spin, SplitDice, SCALE};
use crate::compass::{Compass, Environment};
use crate::entity::{
    applied, apply_changes, id_after, next_after, spec_turned, Change, CosmicEntity, Encounter,
    };
use crate::fixed::{
    sat_add, sat_div, sat_mul, sat_neg, sat_ratio, sat_sub, spec_sat_add, spec_sat_div,
    spec_sat_mul, spec_sat_neg, spec_sat_ratio, spec_sat_sub, PI, UNIT,
};
use crate::floating_text::{LifetimedText, TextModel};
use crate::gamestate::{cap, Gamestate, TICKS};
use crate::geometry::{spec_overlap, Vec2};
use crate::missile::Missile;
use crate::random::{random_between, random_flip};
use crate::spaceship::Spaceship;

verus! {

/// How long the ship cannot be hit again after a hit: 0.4 seconds.
pub const HIT_INVULNERABILITY: i64 = 240_000;

/// The share of its speed that the ship keeps through a hit: a quarter.
pub const HIT_SPEED_KEPT: i64 = 150_000;

/// How often asteroids crumble once the ship is lost: every half second.
pub const ATTRITION_PERIOD: i64 = 300_000;

/// The match as a mathematical value: every list is a sequence, every text
/// the sequence of its characters, and the identifier source is the next
/// number it will hand out.
pub struct GameModel {
    pub delta_time: i64,
    pub accumulator: i64,
    pub simulation_speed: i64,
    pub fps: u32,
    pub fps_cooldown: i64,
    pub debug: bool,
    pub loop_number: u128,
    pub input: Seq<Seq<char>>,
    pub asteroids: Seq<Asteroid>,
    pub asteroids_children: u8,
    pub missiles: Seq<Missile>,
    pub spaceship: Spaceship,
    pub asteroid_limit: u8,
    pub number_of_asteroids: u32,
    pub score: Seq<u128>,
    pub multipliers: Seq<u8>,
    pub asteroid_changes: Seq<Change<Asteroid>>,
    pub missile_changes: Seq<Change<Missile>>,
    pub text_changes: Seq<Change<TextModel>>,
    pub menu: Seq<Seq<char>>,
    pub win: bool,
    pub over: bool,
    pub exit: bool,
    pub texts: Seq<TextModel>,
    pub next_id: u64,
}

/// A change to the popups as a mathematical value.
pub open spec fn text_change_model(change: Change<LifetimedText>) -> Change<TextModel> {
    match change {
        Change::Add(t) => Change::Add(t@),
        Change::Remove(id) => Change::Remove(id),
    }
}

impl View for Gamestate {
    type V = GameModel;

    open spec fn view(&self) -> GameModel {
        GameModel {
            delta_time: self.delta_time,
            accumulator: self.accumulator,
            simulation_speed: self.simulation_speed,
            fps: self.fps,
            fps_cooldown: self.fps_cooldown,
            debug: self.debug,
            loop_number: self.loop_number,
            input: self.input@.map_values(|s: String| s@),
            asteroids: self.asteroids@,
            asteroids_children: self.asteroids_children,
            missiles: self.missiles@,
            spaceship: self.spaceship,
            asteroid_limit: self.asteroid_limit,
            number_of_asteroids: self.number_of_asteroids,
            score: self.score@,
            multipliers: self.multipliers@,
            asteroid_changes: self.asteroid_changes@,
            missile_changes: self.missile_changes@,
            text_changes: self.text_changes@.map_values(
                |c: Change<LifetimedText>| text_change_model(c),
            ),
            menu: self.menu@.map_values(|s: String| s@),
            win: self.win,
            over: self.over,
            exit: self.exit,
            texts: self.texts@.map_values(|t: LifetimedText| t@),
            next_id: self.ids.next,
        }
    }
}

/// The dice of one asteroid in one tick: the turn that a collision gives
/// the ship, the dice of the asteroid's split, and how far from the missile
/// the score pops up.
#[derive(Clone, Debug)]
pub struct TickDice {
    pub kick: i64,
    pub split: SplitDice,
    pub offset: Vec2,
}

impl TickDice {
    /// Whether these are dice that can be thrown: the kick in `[1, PI)`
    /// radians, the popup within 50 pixels sideways and 100 pixels up or
    /// down.
    pub open spec fn in_range(&self) -> bool {
        &&& UNIT <= self.kick < PI
        &&& self.split.in_range()
        &&& -50 * UNIT <= self.offset.x <= 50 * UNIT
        &&& -100 * UNIT <= self.offset.y <= 100 * UNIT
    }

    /// Throws the dice for an asteroid that splits into up to `children`
    /// children.
    pub fn roll(children: u8) -> (dice: TickDice)
        ensures
            dice.in_range(),
            dice.split.spins@.len() == children,
    {
        TickDice {
            kick: random_between(UNIT, PI - 1),
            split: SplitDice::roll(children),
            offset: Vec2 {
                x: random_between(-50 * UNIT, 50 * UNIT),
                y: random_between(-100 * UNIT, 100 * UNIT),
            },
        }
    }
}

/// What a collision with an asteroid of radius `size` takes from the
/// shield: five thirds of the square of the radius in `SCALE`s plus one.
pub open spec fn spec_impact_damage(size: i64) -> i64 {
    let t = spec_sat_add(spec_sat_div(size, SCALE), UNIT);
    spec_sat_ratio(spec_sat_mul(t, t), 5, 3)
}

#[verifier::when_used_as_spec(spec_impact_damage)]
pub fn impact_damage(size: i64) -> (d: i64)
    ensures
        d == spec_impact_damage(size),
{
    let t: i64 = sat_add(sat_div(size, SCALE), UNIT);
    sat_ratio(sat_mul(t, t), 5, 3)
}

/// Whether `changes` holds the removal of the asteroid `id`.
pub open spec fn has_removal(changes: Seq<Change<Asteroid>>, id: u64) -> bool {
    exists|k: int| 0 <= k < changes.len() && #[trigger] changes[k] == Change::<Asteroid>::Remove(id)
}

/// The ship after a collision with an asteroid of radius `size`: the shield
/// pays for the impact, a spell of invulnerability begins, the ship keeps a
/// quarter of its speed and is turned by `kick`, and it is lost if the
/// shield is used up.
pub open spec fn spec_struck(ship: Spaceship, size: i64, kick: i64) -> Spaceship {
    let paid = spec_sat_add(ship.shield, spec_sat_neg(spec_impact_damage(size)));
    let shield = if paid < 0 {
        0
    } else {
        paid
    };
    Spaceship {
        shield,
        invulnerability: HIT_INVULNERABILITY,
        speed: spec_sat_mul(ship.speed, HIT_SPEED_KEPT),
        rotation: spec_turned(ship.rotation, kick),
        alive: ship.alive && shield > 0,
        ..ship
    }
}

/// Strikes the ship with an asteroid of radius `size`.
pub fn strike(ship: &mut Spaceship, size: i64, kick: i64)
    ensures
        *final(ship) == spec_struck(*old(ship), size, kick),
        old(ship).wf() ==> final(ship).wf(),
{
    ship.modify_shield(sat_neg(impact_damage(size)));
    ship.set_invulnerability(HIT_INVULNERABILITY);
    let slowed: i64 = sat_mul(ship.get_speed(), HIT_SPEED_KEPT);
    ship.set_speed(slowed);
    ship.add_rotation(kick);
    if ship.get_shield() <= 0 {
        ship.set_life(false);
    }
}

impl GameModel {
    /// Whether the field has room for every child of one more split.
    pub open spec fn can_add(self) -> bool {
        self.number_of_asteroids + self.asteroids_children < self.asteroid_limit
    }

    /// Whether the score table has an entry for every asteroid in play.
    pub open spec fn scorable(self) -> bool {
        forall|i: int|
            0 <= i < self.asteroids.len() ==> score_index((#[trigger] self.asteroids[i]).size)
                < self.multipliers.len()
    }

    /// An asteroid whose size is zero was destroyed before: its removal is
    /// queued.
    pub open spec fn dead_queued(self, i: int) -> GameModel {
        if self.asteroids[i].size == 0 {
            GameModel {
                asteroid_changes: self.asteroid_changes.push(
                    Change::Remove(self.asteroids[i].id),
                ),
                ..self
            }
        } else {
            self
        }
    }

    /// Whether asteroid `i` strikes the ship: the ship is alive, it is not
    /// invulnerable, and the two overlap.
    pub open spec fn ship_struck(self, i: int) -> bool {
        &&& self.spaceship.alive
        &&& self.spaceship.invulnerability <= 0
        &&& spec_overlap(
            self.asteroids[i].position,
            self.asteroids[i].size,
            self.spaceship.position,
            self.spaceship.size,
        )
    }

    /// The meeting of asteroid `i` and the ship. Where it strikes, the
    /// asteroid's removal is queued, the asteroid splits, and the ship
    /// takes the blow.
    pub open spec fn ship_hit(self, i: int, dice: TickDice, compass: Compass) -> GameModel {
        if self.ship_struck(i) {
            let a = self.asteroids[i];
            GameModel {
                asteroid_changes: self.asteroid_changes.push(Change::Remove(a.id)) + a.split_changes(
                    self.can_add(),
                    self.asteroids_children,
                    dice.split.speed_factor,
                    dice.split.spins@,
                    compass,
                    self.next_id,
                ),
                next_id: a.split_next_id(self.can_add(), self.asteroids_children, self.next_id),
                spaceship: spec_struck(self.spaceship, a.size, dice.kick),
                ..self
            }
        } else {
            self
        }
    }

    /// What asteroid `i` is worth when a missile destroys it.
    pub open spec fn award(self, i: int) -> u128 {
        (100 * self.multipliers[score_index(self.asteroids[i].size)]) as u128
    }

    /// The meeting of asteroid `i` and missile `j`. Where they overlap the
    /// missile's removal is queued; and unless the asteroid's removal is
    /// queued already, the asteroid splits, its worth is added to the
    /// score, and a popup shows it near the missile.
    pub open spec fn missile_hit(self, i: int, j: int, dice: TickDice, compass: Compass) -> GameModel {
        let a = self.asteroids[i];
        let m = self.missiles[j];
        if spec_overlap(a.position, a.size, m.position, m.size) {
            let queued = GameModel {
                missile_changes: self.missile_changes.push(Change::Remove(m.id)),
                ..self
            };
            if has_removal(self.asteroid_changes, a.id) {
                queued
            } else {
                let after_split = a.split_next_id(
                    self.can_add(),
                    self.asteroids_children,
                    self.next_id,
                );
                GameModel {
                    asteroid_changes: self.asteroid_changes + a.split_changes(
                        self.can_add(),
                        self.asteroids_children,
                        dice.split.speed_factor,
                        dice.split.spins@,
                        compass,
                        self.next_id,
                    ),
                    score: seq![cap((self.score[0] + self.award(i)) as nat), self.score[1]],
                    text_changes: self.text_changes.push(
                        Change::Add(
                            LifetimedText::spec_score_popup(
                                self.award(i),
                                m.position.plus(dice.offset),
                                after_split,
                            ),
                        ),
                    ),
                    next_id: id_after(after_split),
                    ..queued
                }
            }
        } else {
            self
        }
    }

    /// The meetings of asteroid `i` and the first `j` missiles, in order.
    pub open spec fn missiles_pass(self, i: int, j: int, dice: TickDice, compass: Compass) -> GameModel
        decreases j,
    {
        if j <= 0 {
            self
        } else {
            self.missiles_pass(i, j - 1, dice, compass).missile_hit(i, j - 1, dice, compass)
        }
    }

    /// All that happens to asteroid `i` in one tick.
    pub open spec fn asteroid_pass(self, i: int, dice: TickDice, compass: Compass) -> GameModel {
        self.dead_queued(i).ship_hit(i, dice, compass).missiles_pass(
            i,
            self.missiles.len() as int,
            dice,
            compass,
        )
    }

    /// All that happens to the first `k` asteroids in one tick, in order.
    pub open spec fn collisions(self, k: int, dice: Seq<TickDice>, compass: Compass) -> GameModel
        decreases k,
    {
        if k <= 0 {
            self
        } else {
            self.collisions(k - 1, dice, compass).asteroid_pass(k - 1, dice[k - 1], compass)
        }
    }
}

/// The dice of one asteroid when a lost match winds down: whether the
/// asteroid crumbles, and the dice of its split.
#[derive(Clone, Debug)]
pub struct AttritionDice {
    pub pick: bool,
    pub split: SplitDice,
}

impl AttritionDice {
    /// Throws the dice for an asteroid that splits into up to `children`
    /// children: it crumbles with an even chance.
    pub fn roll(children: u8) -> (dice: AttritionDice)
        ensures
            dice.split.in_range(),
            dice.split.spins@.len() == children,
    {
        AttritionDice { pick: random_flip(), split: SplitDice::roll(children) }
    }
}

/// The removals of those of the first `k` missiles that left the screen or
/// whose size is zero, in order.
pub open spec fn culled_missiles(missiles: Seq<Missile>, k: int, bounds: Vec2) -> Seq<
    Change<Missile>,
>
    decreases k,
{
    if k <= 0 {
        Seq::empty()
    } else if missiles[k - 1].position.outside(bounds) || missiles[k - 1].size == 0 {
        culled_missiles(missiles, k - 1, bounds).push(Change::Remove(missiles[k - 1].id))
    } else {
        culled_missiles(missiles, k - 1, bounds)
    }
}

/// The removals of those of the first `k` popups whose time is up, in
/// order.
pub open spec fn expired_texts(texts: Seq<TextModel>, k: int) -> Seq<Change<TextModel>>
    decreases k,
{
    if k <= 0 {
        Seq::empty()
    } else if texts[k - 1].lifetime <= 0 {
        expired_texts(texts, k - 1).push(Change::Remove(texts[k - 1].id))
    } else {
        expired_texts(texts, k - 1)
    }
}

impl GameModel {
    /// The removal of every missile that left the screen is queued.
    pub open spec fn missiles_culled(self, bounds: Vec2) -> GameModel {
        GameModel {
            missile_changes: self.missile_changes + culled_missiles(
                self.missiles,
                self.missiles.len() as int,
                bounds,
            ),
            ..self
        }
    }

    /// The queued changes to the missiles are applied.
    pub open spec fn missiles_flushed(self) -> GameModel {
        GameModel {
            missiles: applied(self.missiles, self.missile_changes, self.next_id),
            missile_changes: Seq::empty(),
            next_id: next_after(self.missile_changes, self.next_id),
            ..self
        }
    }

    /// The removal of every popup whose time is up is queued.
    pub open spec fn texts_culled(self) -> GameModel {
        GameModel {
            text_changes: self.text_changes + expired_texts(self.texts, self.texts.len() as int),
            ..self
        }
    }

    /// Asteroid `i` crumbles if its dice pick it and its removal is not
    /// queued already.
    pub open spec fn crumble(self, i: int, dice: AttritionDice, compass: Compass) -> GameModel {
        let a = self.asteroids[i];
        if dice.pick && !has_removal(self.asteroid_changes, a.id) {
            GameModel {
                asteroid_changes: self.asteroid_changes + a.split_changes(
                    self.can_add(),
                    self.asteroids_children,
                    dice.split.speed_factor,
                    dice.split.spins@,
                    compass,
                    self.next_id,
                ),
                next_id: a.split_next_id(self.can_add(), self.asteroids_children, self.next_id),
                ..self
            }
        } else {
            self
        }
    }

    /// The first `k` asteroids crumble or not, in order.
    pub open spec fn crumbled(self, k: int, dice: Seq<AttritionDice>, compass: Compass) -> GameModel
        decreases k,
    {
        if k <= 0 {
            self
        } else {
            self.crumbled(k - 1, dice, compass).crumble(k - 1, dice[k - 1], compass)
        }
    }

    /// Whether the asteroids are due to crumble: the ship is lost and the
    /// last time they crumbled is half a second of real time ago.
    pub open spec fn attrition_due(self, now: i64, last: i64) -> bool {
        !self.spaceship.alive && spec_sat_sub(now, last) >= ATTRITION_PERIOD
    }

    /// The winding down of a lost match: when it is due, every asteroid
    /// crumbles or not as its dice say.
    pub open spec fn attrition(
        self,
        now: i64,
        last: i64,
        dice: Seq<AttritionDice>,
        compass: Compass,
    ) -> GameModel {
        if self.attrition_due(now, last) {
            self.crumbled(self.asteroids.len() as int, dice, compass)
        } else {
            self
        }
    }

    /// A tick up to the winding down: missiles that left the screen go, the
    /// asteroids meet the ship and the missiles, and popups whose time is
    /// up are marked.
    pub open spec fn met(self, dice: Seq<TickDice>, env: Environment) -> GameModel {
        self.missiles_culled(env.bounds).missiles_flushed().collisions(
            self.asteroids.len() as int,
            dice,
            env.compass,
        ).texts_culled()
    }

    /// One tick: the meetings, and then the winding down of a lost match.
    pub open spec fn ticked(
        self,
        dice: Seq<TickDice>,
        attrition: Seq<AttritionDice>,
        now: i64,
        last: i64,
        env: Environment,
    ) -> GameModel {
        self.met(dice, env).attrition(now, last, attrition, env.compass)
    }

    /// The time of the last crumbling after a tick.
    pub open spec fn crumbled_at(self, dice: Seq<TickDice>, now: i64, last: i64, env: Environment) -> i64 {
        if self.met(dice, env).attrition_due(now, last) {
            now
        } else {
            last
        }
    }

    /// Whether `dice` and `attrition` are dice that a tick can throw in
    /// this state: one set for each asteroid, each in range and with a spin
    /// for every child that a split can make.
    pub open spec fn dice_valid(self, dice: Seq<TickDice>, attrition: Seq<AttritionDice>) -> bool {
        &&& dice.len() == self.asteroids.len()
        &&& attrition.len() == self.asteroids.len()
        &&& forall|k: int|
            0 <= k < dice.len() ==> (#[trigger] dice[k]).in_range() && dice[k].split.spins@.len()
                >= split_count(self.can_add(), self.asteroids_children)
        &&& forall|k: int|
            0 <= k < attrition.len() ==> (#[trigger] attrition[k]).split.in_range()
                && attrition[k].split.spins@.len() >= split_count(
                self.can_add(),
                self.asteroids_children,
            )
    }

    /// Whether a tick with some throw of the dice leads from `self` to
    /// `after` and moves the time of the last crumbling from `last` to
    /// `last_after`.
    pub open spec fn step_leads(
        self,
        after: GameModel,
        last: i64,
        last_after: i64,
        now: i64,
        env: Environment,
    ) -> bool {
        exists|dice: Seq<TickDice>, attrition: Seq<AttritionDice>|
            #![trigger self.ticked(dice, attrition, now, last, env)]
            self.dice_valid(dice, attrition) && after == self.ticked(
                dice,
                attrition,
                now,
                last,
                env,
            ) && last_after == self.crumbled_at(dice, now, last, env)
    }

    /// The state with one more tick counted.
    pub open spec fn counted(self) -> GameModel {
        GameModel { loop_number: cap((self.loop_number + 1) as nat), ..self }
    }

    /// The state with one tick's time taken from the accumulator.
    pub open spec fn spent(self) -> GameModel {
        GameModel { accumulator: spec_sat_sub(self.accumulator, TICKS), ..self }
    }

    /// Whether one tick, counted, made with some throw of the dice and paid
    /// for out of the accumulator, leads from `self` to `after`.
    pub open spec fn tick_leads(
        self,
        after: GameModel,
        last: i64,
        last_after: i64,
        now: i64,
        env: Environment,
    ) -> bool {
        exists|dice: Seq<TickDice>, attrition: Seq<AttritionDice>|
            #![trigger self.counted().ticked(dice, attrition, now, last, env)]
            self.counted().dice_valid(dice, attrition) && after == self.counted().ticked(
                dice,
                attrition,
                now,
                last,
                env,
            ).spent() && last_after == self.counted().crumbled_at(dice, now, last, env)
    }

    /// Whether `n` ticks in a row lead from `self` to `after`.
    pub open spec fn ticks_lead(
        self,
        after: GameModel,
        n: nat,
        last: i64,
        last_after: i64,
        now: i64,
        env: Environment,
    ) -> bool
        decreases n,
    {
        if n == 0 {
            after == self && last_after == last
        } else {
            exists|mid: GameModel, mid_last: i64|
                #![trigger mid.tick_leads(after, mid_last, last_after, now, env)]
                self.ticks_lead(mid, (n - 1) as nat, last, mid_last, now, env) && mid.tick_leads(
                    after,
                    mid_last,
                    last_after,
                    now,
                    env,
                )
        }
    }

    /// The state at the start of a frame in which `elapsed` seconds of real
    /// time passed: the time, scaled by the simulation speed, is the
    /// frame's time and is added to the accumulator.
    pub open spec fn started(self, elapsed: i64) -> GameModel {
        GameModel {
            delta_time: spec_sat_mul(elapsed, self.simulation_speed),
            accumulator: spec_sat_add(
                self.accumulator,
                spec_sat_mul(elapsed, self.simulation_speed),
            ),
            ..self
        }
    }
}

/// How many ticks an accumulator of `total` seconds pays for.
pub open spec fn ticks_due(total: i64) -> nat {
    if total >= TICKS {
        (total / TICKS) as nat
    } else {
        0
    }
}

/// A tick leaves the accumulator and the count of ticks alone, and the
/// asteroids in play and the score table too.
pub proof fn lemma_tick_keeps_clock(
    g: GameModel,
    dice: Seq<TickDice>,
    attrition: Seq<AttritionDice>,
    now: i64,
    last: i64,
    env: Environment,
)
    ensures
        g.ticked(dice, attrition, now, last, env).accumulator == g.accumulator,
        g.ticked(dice, attrition, now, last, env).loop_number == g.loop_number,
        g.ticked(dice, attrition, now, last, env).asteroids == g.asteroids,
        g.ticked(dice, attrition, now, last, env).multipliers == g.multipliers,
{
    let flushed = g.missiles_culled(env.bounds).missiles_flushed();
    lemma_collisions_frame(flushed, g.asteroids.len() as int, dice, env.compass);
    let met = g.met(dice, env);
    lemma_crumbled_frame(met, met.asteroids.len() as int, attrition, env.compass);
}

/// The meetings of a tick change neither the asteroids and missiles in
/// play nor the score table, the clock or the limits.
pub proof fn lemma_collisions_frame(g: GameModel, k: int, dice: Seq<TickDice>, compass: Compass)
    ensures
        g.collisions(k, dice, compass).asteroids == g.asteroids,
        g.collisions(k, dice, compass).missiles == g.missiles,
        g.collisions(k, dice, compass).multipliers == g.multipliers,
        g.collisions(k, dice, compass).accumulator == g.accumulator,
        g.collisions(k, dice, compass).loop_number == g.loop_number,
        g.collisions(k, dice, compass).texts == g.texts,
    decreases k,
{
    if k > 0 {
        lemma_collisions_frame(g, k - 1, dice, compass);
        let before = g.collisions(k - 1, dice, compass);
        let met = before.dead_queued(k - 1).ship_hit(k - 1, dice[k - 1], compass);
        lemma_missiles_pass_frame(met, k - 1, before.missiles.len() as int, dice[k - 1], compass);
    }
}

/// The meetings of one asteroid with the missiles change neither the
/// asteroids and missiles in play nor the score table, the clock, the
/// limits or the ship.
pub proof fn lemma_missiles_pass_frame(g: GameModel, i: int, j: int, dice: TickDice, compass: Compass)
    ensures
        g.missiles_pass(i, j, dice, compass).asteroids == g.asteroids,
        g.missiles_pass(i, j, dice, compass).missiles == g.missiles,
        g.missiles_pass(i, j, dice, compass).multipliers == g.multipliers,
        g.missiles_pass(i, j, dice, compass).accumulator == g.accumulator,
        g.missiles_pass(i, j, dice, compass).loop_number == g.loop_number,
        g.missiles_pass(i, j, dice, compass).texts == g.texts,
        g.missiles_pass(i, j, dice, compass).spaceship == g.spaceship,
        g.missiles_pass(i, j, dice, compass).can_add() == g.can_add(),
        g.missiles_pass(i, j, dice, compass).asteroids_children == g.asteroids_children,
    decreases j,
{
    if j > 0 {
        lemma_missiles_pass_frame(g, i, j - 1, dice, compass);
    }
}

/// Every split ends with the removal of what was split.
pub proof fn lemma_split_queues_removal(
    a: Asteroid,
    can_add: bool,
    to_add: u8,
    speed_factor: i64,
    spins: Seq<Spin>,
    compass: Compass,
    first_id: u64,
    before: Seq<Change<Asteroid>>,
)
    ensures
        has_removal(
            before + a.split_changes(can_add, to_add, speed_factor, spins, compass, first_id),
            a.id,
        ),
{
    let split = a.split_changes(can_add, to_add, speed_factor, spins, compass, first_id);
    let all = before + split;
    assert(split.last() == Change::<Asteroid>::Remove(a.id));
    assert(all[all.len() - 1] == Change::<Asteroid>::Remove(a.id));
}

/// However many missiles overlap an asteroid in one tick, they split it
/// once at most: after the meetings of asteroid `i` with the first `j`
/// missiles, either no split was queued, or the one split that the first
/// overlapping missile caused.
pub proof fn lemma_missiles_split_once(g: GameModel, i: int, j: int, dice: TickDice, compass: Compass)
    requires
        0 <= i < g.asteroids.len(),
        0 <= j <= g.missiles.len(),
    ensures
        ({
            let r = g.missiles_pass(i, j, dice, compass);
            let split = g.asteroids[i].split_changes(
                g.can_add(),
                g.asteroids_children,
                dice.split.speed_factor,
                dice.split.spins@,
                compass,
                g.next_id,
            );
            ||| r.asteroid_changes == g.asteroid_changes && r.next_id == g.next_id && r.score
                == g.score
            ||| !has_removal(g.asteroid_changes, g.asteroids[i].id) && r.asteroid_changes
                == g.asteroid_changes + split
        }),
    decreases j,
{
    if j > 0 {
        lemma_missiles_split_once(g, i, j - 1, dice, compass);
        lemma_missiles_pass_frame(g, i, j - 1, dice, compass);
        let before = g.missiles_pass(i, j - 1, dice, compass);
        let a = g.asteroids[i];
        if before.asteroid_changes != g.asteroid_changes {
            lemma_split_queues_removal(
                a,
                g.can_add(),
                g.asteroids_children,
                dice.split.speed_factor,
                dice.split.spins@,
                compass,
                g.next_id,
                g.asteroid_changes,
            );
        }
    }
}

/// An asteroid is split once at most in one tick, whether by the ship, by
/// a missile or by several missiles: after all its meetings the change list
/// holds what was queued before (and the asteroid's removal, if it had been
/// destroyed already), and then nothing more, or the one split that the
/// ship caused, or the one split that the first overlapping missile caused.
pub proof fn lemma_one_split_per_tick(g: GameModel, i: int, dice: TickDice, compass: Compass)
    requires
        0 <= i < g.asteroids.len(),
    ensures
        ({
            let a = g.asteroids[i];
            let queued = g.dead_queued(i).asteroid_changes;
            let r = g.asteroid_pass(i, dice, compass);
            let split = a.split_changes(
                g.can_add(),
                g.asteroids_children,
                dice.split.speed_factor,
                dice.split.spins@,
                compass,
                g.next_id,
            );
            ||| r.asteroid_changes == queued
            ||| r.asteroid_changes == queued.push(Change::Remove(a.id)) + split
            ||| r.asteroid_changes == queued + split
        }),
{
    let a = g.asteroids[i];
    let dead = g.dead_queued(i);
    let met = dead.ship_hit(i, dice, compass);
    lemma_missiles_split_once(met, i, g.missiles.len() as int, dice, compass);
    if dead.ship_struck(i) {
        lemma_split_queues_removal(
            a,
            g.can_add(),
            g.asteroids_children,
            dice.split.speed_factor,
            dice.split.spins@,
            compass,
            g.next_id,
            dead.asteroid_changes.push(Change::Remove(a.id)),
        );
    }
}

/// The crumbling changes neither the asteroids in play nor the score
/// table or the clock.
pub proof fn lemma_crumbled_frame(g: GameModel, k: int, dice: Seq<AttritionDice>, compass: Compass)
    ensures
        g.crumbled(k, dice, compass).asteroids == g.asteroids,
        g.crumbled(k, dice, compass).multipliers == g.multipliers,
        g.crumbled(k, dice, compass).accumulator == g.accumulator,
        g.crumbled(k, dice, compass).loop_number == g.loop_number,
    decreases k,
{
    if k > 0 {
        lemma_crumbled_frame(g, k - 1, dice, compass);
    }
}

/// Splitting an asteroid that the score table knows queues only asteroids
/// that the score table knows.
pub proof fn lemma_split_stays_scorable(
    parent: Asteroid,
    can_add: bool,
    to_add: u8,
    speed_factor: i64,
    spins: Seq<Spin>,
    compass: Compass,
    first_id: u64,
    entries: nat,
)
    requires
        score_index(parent.size) < entries,
    ensures
        crate::gamestate::additions_scorable(
            parent.split_changes(can_add, to_add, speed_factor, spins, compass, first_id),
            entries,
        ),
{
    let changes = parent.split_changes(can_add, to_add, speed_factor, spins, compass, first_id);
    assert forall|i: int| 0 <= i < changes.len() implies (#[trigger] changes[i] matches Change::Add(
        a,
    ) ==> score_index(a.size) < entries) by {
        if parent.size > SCALE && i < split_count(can_add, to_add) {
            let child = parent.spec_child(
                i,
                split_count(can_add, to_add),
                speed_factor,
                spins[i],
                compass,
                crate::entity::id_offset(first_id, i as nat),
            );
            assert(changes[i] == Change::Add(child));
            assert(child.size == parent.size - SCALE);
            assert(score_index(child.size) <= score_index(parent.size)) by (nonlinear_arith)
                requires
                    child.size == parent.size - SCALE,
                    parent.size > SCALE,
                    SCALE == 18_000_000,
                    score_index(child.size) == if child.size < SCALE {
                        0
                    } else {
                        child.size as int / SCALE as int - 1
                    },
                    score_index(parent.size) == parent.size as int / SCALE as int - 1,
            ;
        }
    }
}

impl Gamestate {
    /// Whether the removal of the asteroid `id` is queued.
    pub fn already_removed(&self, id: u64) -> (r: bool)
        ensures
            r == has_removal(self.asteroid_changes@, id),
    {
        let mut k: usize = 0;
        while k < self.asteroid_changes.len()
            invariant
                0 <= k <= self.asteroid_changes@.len(),
                forall|n: int|
                    0 <= n < k ==> #[trigger] self.asteroid_changes@[n] != Change::<Asteroid>::Remove(
                        id,
                    ),
            decreases self.asteroid_changes@.len() - k,
        {
            match &self.asteroid_changes[k] {
                Change::Remove(uid) => {
                    if *uid == id {
                        return true;
                    }
                },
                Change::Add(_) => {},
            }
            k = k + 1;
        }
        false
    }

    /// Whether the field has room for every child of one more split.
    pub fn can_add(&self) -> (r: bool)
        ensures
            r == self@.can_add(),
    {
        (self.number_of_asteroids as u64) + (self.asteroids_children as u64) < (
        self.asteroid_limit as u64)
    }

    /// Whether `after` has the same asteroids and missiles in play as
    /// `self`, the same score table and the same limits.
    pub open spec fn same_cast(&self, after: Gamestate) -> bool {
        &&& after.asteroids@ == self.asteroids@
        &&& after.missiles@ == self.missiles@
        &&& after.multipliers@ == self.multipliers@
        &&& after.number_of_asteroids == self.number_of_asteroids
        &&& after.asteroids_children == self.asteroids_children
        &&& after.asteroid_limit == self.asteroid_limit
    }

    /// Whether `dice` holds a spin for every child that a split in this
    /// state can make.
    pub open spec fn fits(&self, dice: TickDice) -> bool {
        dice.split.spins@.len() >= split_count(self@.can_add(), self.asteroids_children)
    }

    /// Queues the removal of asteroid `i` if it was destroyed before.
    pub fn queue_dead(&mut self, i: usize)
        requires
            i < old(self).asteroids@.len(),
        ensures
            final(self)@ == old(self)@.dead_queued(i as int),
            old(self).same_cast(*final(self)),
            old(self).wf() ==> final(self).wf(),
    {
        if self.asteroids[i].get_size() == 0 {
            let id: u64 = self.asteroids[i].get_id();
            self.asteroid_changes.push(Change::Remove(id));
        }
    }

    /// Lets asteroid `i` meet the ship.
    pub fn meet_ship(&mut self, i: usize, dice: &TickDice, env: &Environment)
        requires
            env.wf(),
            i < old(self).asteroids@.len(),
            old(self).fits(*dice),
        ensures
            final(self)@ == old(self)@.ship_hit(i as int, *dice, env.compass),
            old(self).same_cast(*final(self)),
            old(self).wf() ==> final(self).wf(),
    {
        let can_add: bool = self.can_add();
        if self.spaceship.get_life() && self.spaceship.get_invulnerability() <= 0
            && self.asteroids[i].collides_with(&self.spaceship) {
            let id: u64 = self.asteroids[i].get_id();
            let size: i64 = self.asteroids[i].get_size();
            self.asteroid_changes.push(Change::Remove(id));
            let children: u8 = self.asteroids_children;
            proof {
                if old(self).wf() {
                    lemma_split_stays_scorable(
                        self.asteroids@[i as int],
                        can_add,
                        children,
                        dice.split.speed_factor,
                        dice.split.spins@,
                        env.compass,
                        self.ids.next,
                        self.multipliers@.len(),
                    );
                }
            }
            self.asteroids[i].split_with(
                can_add,
                children,
                dice.split.speed_factor,
                &dice.split.spins,
                &mut self.asteroid_changes,
                env,
                &mut self.ids,
            );
            strike(&mut self.spaceship, size, dice.kick);
        }
    }

    /// Lets asteroid `i` meet missile `j`.
    pub fn meet_missile(&mut self, i: usize, j: usize, dice: &TickDice, env: &Environment)
        requires
            env.wf(),
            i < old(self).asteroids@.len(),
            j < old(self).missiles@.len(),
            score_index(old(self).asteroids@[i as int].size) < old(self).multipliers@.len(),
            old(self).fits(*dice),
        ensures
            final(self)@ == old(self)@.missile_hit(i as int, j as int, *dice, env.compass),
            old(self).same_cast(*final(self)),
            old(self).wf() ==> final(self).wf(),
    {
        if self.asteroids[i].collides_with(&self.missiles[j]) {
            let missile_id: u64 = self.missiles[j].get_id();
            let missile_position: Vec2 = self.missiles[j].get_position();
            let id: u64 = self.asteroids[i].get_id();
            self.missile_changes.push(Change::Remove(missile_id));
            if !self.already_removed(id) {
                let can_add: bool = self.can_add();
                let children: u8 = self.asteroids_children;
                proof {
                    if old(self).wf() {
                        lemma_split_stays_scorable(
                            self.asteroids@[i as int],
                            can_add,
                            children,
                            dice.split.speed_factor,
                            dice.split.spins@,
                            env.compass,
                            self.ids.next,
                            self.multipliers@.len(),
                        );
                    }
                }
                self.asteroids[i].split_with(
                    can_add,
                    children,
                    dice.split.speed_factor,
                    &dice.split.spins,
                    &mut self.asteroid_changes,
                    env,
                    &mut self.ids,
                );
                let mut current: u128 = self.score[0];
                let award: u128 = self.asteroids[i].grant_score(&mut current, &self.multipliers);
                self.score = [current, self.score[1]];
                let popup = LifetimedText::score_popup(
                    award,
                    missile_position.offset(dice.offset),
                    &mut self.ids,
                );
                let ghost shown = self.text_changes@.map_values(
                    |c: Change<LifetimedText>| text_change_model(c),
                );
                self.text_changes.push(Change::Add(popup));
                assert(self.text_changes@.map_values(
                    |c: Change<LifetimedText>| text_change_model(c),
                ) =~= shown.push(Change::Add(popup@)));
                assert(self.score@ =~= seq![current, old(self).score@[1]]);
            }
        }
    }

    /// Lets asteroid `i` meet the ship and every missile.
    pub fn collide_asteroid(&mut self, i: usize, dice: &TickDice, env: &Environment)
        requires
            env.wf(),
            i < old(self).asteroids@.len(),
            score_index(old(self).asteroids@[i as int].size) < old(self).multipliers@.len(),
            old(self).fits(*dice),
        ensures
            final(self)@ == old(self)@.asteroid_pass(i as int, *dice, env.compass),
            old(self).same_cast(*final(self)),
            old(self).wf() ==> final(self).wf(),
    {
        self.queue_dead(i);
        self.meet_ship(i, dice, env);
        let ghost met = self@;
        let mut j: usize = 0;
        while j < self.missiles.len()
            invariant
                env.wf(),
                0 <= j <= self.missiles@.len(),
                i < self.asteroids@.len(),
                old(self).same_cast(*self),
                old(self).fits(*dice),
                old(self).wf() ==> self.wf(),
                score_index(self.asteroids@[i as int].size) < self.multipliers@.len(),
                self@ == met.missiles_pass(i as int, j as int, *dice, env.compass),
            decreases self.missiles@.len() - j,
        {
            self.meet_missile(i, j, dice, env);
            j = j + 1;
        }
    }

    /// Queues the removal of every missile that left the screen or whose
    /// size is zero.
    pub fn discard_out_of_bounds_missiles(&mut self, bounds: &Vec2)
        ensures
            final(self)@ == old(self)@.missiles_culled(*bounds),
            old(self).same_cast(*final(self)),
            old(self).wf() ==> final(self).wf(),
    {
        let ghost before = self.missile_changes@;
        let mut k: usize = 0;
        assert(self.missile_changes@ =~= before + culled_missiles(self.missiles@, 0, *bounds));
        while k < self.missiles.len()
            invariant
                0 <= k <= self.missiles@.len(),
                old(self).same_cast(*self),
                old(self).wf() ==> self.wf(),
                self.missile_changes@ == before + culled_missiles(self.missiles@, k as int, *bounds),
                self@ == (GameModel { missile_changes: self.missile_changes@, ..old(self)@ }),
            decreases self.missiles@.len() - k,
        {
            if self.missiles[k].is_out_of_bounds(bounds) || self.missiles[k].get_size() == 0 {
                let id: u64 = self.missiles[k].get_id();
                self.missile_changes.push(Change::Remove(id));
            }
            assert(self.missile_changes@ =~= before + culled_missiles(
                self.missiles@,
                k as int + 1,
                *bounds,
            ));
            k = k + 1;
        }
    }

    /// Applies the queued changes to the missiles.
    pub fn flush_missiles(&mut self)
        ensures
            final(self)@ == old(self)@.missiles_flushed(),
            final(self).asteroids@ == old(self).asteroids@,
            final(self).multipliers@ == old(self).multipliers@,
            final(self).number_of_asteroids == old(self).number_of_asteroids,
            final(self).asteroids_children == old(self).asteroids_children,
            final(self).asteroid_limit == old(self).asteroid_limit,
            old(self).wf() ==> final(self).wf(),
    {
        apply_changes(&mut self.missiles, &mut self.missile_changes, &mut self.ids);
        assert(self.missile_changes@ =~= Seq::empty());
    }

    /// Queues the removal of every popup whose time is up.
    pub fn discard_texts(&mut self)
        ensures
            final(self)@ == old(self)@.texts_culled(),
            old(self).same_cast(*final(self)),
            old(self).wf() ==> final(self).wf(),
    {
        let ghost before = self@.text_changes;
        let ghost shown = self@.texts;
        let mut k: usize = 0;
        assert(self@.text_changes =~= before + expired_texts(shown, 0));
        while k < self.texts.len()
            invariant
                0 <= k <= self.texts@.len(),
                old(self).same_cast(*self),
                old(self).wf() ==> self.wf(),
                shown == self@.texts,
                shown.len() == self.texts@.len(),
                self@.text_changes == before + expired_texts(shown, k as int),
                self@ == (GameModel { text_changes: self@.text_changes, ..old(self)@ }),
            decreases self.texts@.len() - k,
        {
            let ghost queued = self@.text_changes;
            assert(shown[k as int] == self.texts@[k as int]@);
            if self.texts[k].get_lifetime() <= 0 {
                let id: u64 = self.texts[k].get_id();
                self.text_changes.push(Change::Remove(id));
                assert(self@.text_changes =~= queued.push(Change::Remove(id)));
            }
            assert(self@.text_changes =~= before + expired_texts(shown, k as int + 1));
            k = k + 1;
        }
    }

    /// Lets asteroid `i` crumble if its dice pick it.
    pub fn crumble(&mut self, i: usize, dice: &AttritionDice, env: &Environment)
        requires
            env.wf(),
            i < old(self).asteroids@.len(),
            dice.split.spins@.len() >= split_count(
                old(self)@.can_add(),
                old(self).asteroids_children,
            ),
        ensures
            final(self)@ == old(self)@.crumble(i as int, *dice, env.compass),
            old(self).same_cast(*final(self)),
            old(self).wf() ==> final(self).wf(),
    {
        let id: u64 = self.asteroids[i].get_id();
        if dice.pick && !self.already_removed(id) {
            let can_add: bool = self.can_add();
            let children: u8 = self.asteroids_children;
            proof {
                if old(self).wf() {
                    lemma_split_stays_scorable(
                        self.asteroids@[i as int],
                        can_add,
                        children,
                        dice.split.speed_factor,
                        dice.split.spins@,
                        env.compass,
                        self.ids.next,
                        self.multipliers@.len(),
                    );
                }
            }
            self.asteroids[i].split_with(
                can_add,
                children,
                dice.split.speed_factor,
                &dice.split.spins,
                &mut self.asteroid_changes,
                env,
                &mut self.ids,
            );
        }
    }

    /// Whether `dice` holds dice for every asteroid, each with a spin for
    /// every child that a split in this state can make.
    pub open spec fn attrition_fits(&self, dice: Seq<AttritionDice>) -> bool {
        &&& dice.len() == self.asteroids@.len()
        &&& forall|k: int|
            0 <= k < dice.len() ==> (#[trigger] dice[k]).split.spins@.len() >= split_count(
                self@.can_add(),
                self.asteroids_children,
            )
    }

    /// Whether `dice` holds dice for every asteroid, each with a spin for
    /// every child that a split in this state can make.
    pub open spec fn tick_fits(&self, dice: Seq<TickDice>) -> bool {
        &&& dice.len() == self.asteroids@.len()
        &&& forall|k: int| 0 <= k < dice.len() ==> self.fits(#[trigger] dice[k])
    }

    /// Winds a lost match down with the given dice: if the ship is lost and
    /// `end_cooldown`, the time of the last crumbling, is half a second
    /// before `now`, every asteroid crumbles or not as its dice say, and
    /// `end_cooldown` becomes `now`.
    pub fn discard_asteroids_with(
        &mut self,
        now: i64,
        end_cooldown: &mut i64,
        dice: &Vec<AttritionDice>,
        env: &Environment,
    )
        requires
            env.wf(),
            old(self).attrition_fits(dice@),
        ensures
            final(self)@ == old(self)@.attrition(now, *old(end_cooldown), dice@, env.compass),
            *final(end_cooldown) == if old(self)@.attrition_due(now, *old(end_cooldown)) {
                now
            } else {
                *old(end_cooldown)
            },
            old(self).same_cast(*final(self)),
            old(self).wf() ==> final(self).wf(),
    {
        if !self.spaceship.get_life() && sat_sub(now, *end_cooldown) >= ATTRITION_PERIOD {
            let mut i: usize = 0;
            while i < self.asteroids.len()
                invariant
                    env.wf(),
                    0 <= i <= self.asteroids@.len(),
                    old(self).same_cast(*self),
                    old(self).attrition_fits(dice@),
                    old(self).wf() ==> self.wf(),
                    self@ == old(self)@.crumbled(i as int, dice@, env.compass),
                decreases self.asteroids@.len() - i,
            {
                self.crumble(i, &dice[i], env);
                i = i + 1;
            }
            *end_cooldown = now;
        }
    }

    /// Winds a lost match down: when it is due, every asteroid whose
    /// removal is not queued crumbles with an even chance.
    pub fn discard_asteroids_random(&mut self, now: i64, end_cooldown: &mut i64, env: &Environment)
        requires
            env.wf(),
        ensures
            exists|dice: Seq<AttritionDice>|
                #![trigger old(self)@.attrition(now, *old(end_cooldown), dice, env.compass)]
                old(self).attrition_fits(dice) && (forall|k: int|
                    0 <= k < dice.len() ==> (#[trigger] dice[k]).split.in_range()) && final(self)@
                    == old(self)@.attrition(now, *old(end_cooldown), dice, env.compass),
            *final(end_cooldown) == if old(self)@.attrition_due(now, *old(end_cooldown)) {
                now
            } else {
                *old(end_cooldown)
            },
            old(self).same_cast(*final(self)),
            old(self).wf() ==> final(self).wf(),
    {
        let dice = self.roll_attrition();
        self.discard_asteroids_with(now, end_cooldown, &dice, env);
    }

    /// Throws the dice of a crumbling for every asteroid.
    pub fn roll_attrition(&self) -> (dice: Vec<AttritionDice>)
        ensures
            self.attrition_fits(dice@),
            forall|k: int| 0 <= k < dice@.len() ==> (#[trigger] dice@[k]).split.in_range(),
    {
        let children: u8 = if self.asteroids_children == 0 {
            1
        } else {
            self.asteroids_children
        };
        let mut dice: Vec<AttritionDice> = Vec::new();
        let mut i: usize = 0;
        while i < self.asteroids.len()
            invariant
                0 <= i <= self.asteroids@.len(),
                dice@.len() == i,
                children >= 1,
                children >= self.asteroids_children,
                forall|k: int|
                    0 <= k < dice@.len() ==> (#[trigger] dice@[k]).split.in_range()
                        && dice@[k].split.spins@.len() == children,
            decreases self.asteroids@.len() - i,
        {
            dice.push(AttritionDice::roll(children));
            i = i + 1;
        }
        dice
    }

    /// Throws the dice of a tick for every asteroid.
    pub fn roll_tick(&self) -> (dice: Vec<TickDice>)
        ensures
            self.tick_fits(dice@),
            forall|k: int| 0 <= k < dice@.len() ==> (#[trigger] dice@[k]).in_range(),
    {
        let children: u8 = if self.asteroids_children == 0 {
            1
        } else {
            self.asteroids_children
        };
        let mut dice: Vec<TickDice> = Vec::new();
        let mut i: usize = 0;
        while i < self.asteroids.len()
            invariant
                0 <= i <= self.asteroids@.len(),
                dice@.len() == i,
                children >= 1,
                children >= self.asteroids_children,
                forall|k: int|
                    0 <= k < dice@.len() ==> (#[trigger] dice@[k]).in_range()
                        && dice@[k].split.spins@.len() == children,
            decreases self.asteroids@.len() - i,
        {
            dice.push(TickDice::roll(children));
            i = i + 1;
        }
        dice
    }

    /// One tick with the given dice.
    pub fn step_with(
        &mut self,
        dice: &Vec<TickDice>,
        attrition: &Vec<AttritionDice>,
        now: i64,
        end_cooldown: &mut i64,
        env: &Environment,
    )
        requires
            env.wf(),
            old(self)@.scorable(),
            old(self).tick_fits(dice@),
            old(self).attrition_fits(attrition@),
        ensures
            final(self)@ == old(self)@.ticked(dice@, attrition@, now, *old(end_cooldown), *env),
            *final(end_cooldown) == old(self)@.crumbled_at(dice@, now, *old(end_cooldown), *env),
            final(self).asteroids@ == old(self).asteroids@,
            final(self).multipliers@ == old(self).multipliers@,
            final(self).number_of_asteroids == old(self).number_of_asteroids,
            final(self).asteroids_children == old(self).asteroids_children,
            final(self).asteroid_limit == old(self).asteroid_limit,
            old(self).wf() ==> final(self).wf(),
    {
        self.discard_out_of_bounds_missiles(&env.bounds);
        self.flush_missiles();
        assert(self.tick_fits(dice@)) by {
            assert forall|k: int| 0 <= k < dice@.len() implies self.fits(#[trigger] dice@[k]) by {
                assert(old(self).fits(dice@[k]));
            }
        }
        self.collide_all(dice, env);
        self.discard_texts();
        assert(self.attrition_fits(attrition@));
        self.discard_asteroids_with(now, end_cooldown, attrition, env);
    }

    /// One tick: throws the dice and makes the step with them.
    pub fn step(&mut self, now: i64, end_cooldown: &mut i64, env: &Environment)
        requires
            env.wf(),
            old(self)@.scorable(),
        ensures
            old(self)@.step_leads(
                final(self)@,
                *old(end_cooldown),
                *final(end_cooldown),
                now,
                *env,
            ),
            final(self).asteroids@ == old(self).asteroids@,
            final(self).multipliers@ == old(self).multipliers@,
            final(self).accumulator == old(self).accumulator,
            final(self).loop_number == old(self).loop_number,
            old(self).wf() ==> final(self).wf(),
    {
        let dice = self.roll_tick();
        let attrition = self.roll_attrition();
        self.step_with(&dice, &attrition, now, end_cooldown, env);
        proof {
            lemma_tick_keeps_clock(old(self)@, dice@, attrition@, now, *old(end_cooldown), *env);
            assert(old(self)@.dice_valid(dice@, attrition@)) by {
                assert forall|k: int| 0 <= k < dice@.len() implies (#[trigger] dice@[k]).in_range()
                    && dice@[k].split.spins@.len() >= split_count(
                    old(self)@.can_add(),
                    old(self)@.asteroids_children,
                ) by {
                    assert(old(self).fits(dice@[k]));
                }
            }
        }
    }

    /// The fixed-step loop of one frame. `elapsed` seconds of real time,
    /// scaled by the simulation speed, go into the accumulator; then one
    /// tick is made for every tick's worth of time in it, and what does not
    /// pay for a whole tick stays for the next frame. Returns the number of
    /// ticks made.
    pub fn run_ticks(
        &mut self,
        elapsed: i64,
        now: i64,
        end_cooldown: &mut i64,
        env: &Environment,
    ) -> (steps: u64)
        requires
            env.wf(),
            old(self)@.scorable(),
        ensures
            steps == ticks_due(old(self)@.started(elapsed).accumulator),
            final(self).accumulator == old(self)@.started(elapsed).accumulator - steps * TICKS,
            final(self).accumulator < TICKS,
            final(self).loop_number == cap((old(self).loop_number + steps) as nat),
            old(self)@.started(elapsed).ticks_lead(
                final(self)@,
                steps as nat,
                *old(end_cooldown),
                *final(end_cooldown),
                now,
                *env,
            ),
            old(self).wf() ==> final(self).wf(),
    {
        self.delta_time = sat_mul(elapsed, self.simulation_speed);
        self.accumulator = sat_add(self.accumulator, self.delta_time);
        let ghost start = self@;
        let ghost total = self.accumulator;
        let mut steps: u64 = 0;
        assert(self@.asteroids == old(self)@.asteroids && self@.multipliers == old(
            self,
        )@.multipliers);
        assert(total >= TICKS ==> total as int == TICKS * (total as int / TICKS as int) + (
        total as int % TICKS as int)) by (nonlinear_arith)
            requires
                TICKS == 10_000,
        ;
        while self.accumulator >= TICKS
            invariant
                env.wf(),
                self@.scorable(),
                self.accumulator == total - steps * TICKS,
                total >= TICKS ==> self.accumulator >= total as int % TICKS as int,
                total >= TICKS ==> self.accumulator as int % TICKS as int == total as int
                    % TICKS as int,
                total < TICKS ==> steps == 0,
                steps <= 0x7fff_ffff_ffff_ffff,
                self.loop_number == cap((old(self).loop_number + steps) as nat),
                start.ticks_lead(
                    self@,
                    steps as nat,
                    *old(end_cooldown),
                    *end_cooldown,
                    now,
                    *env,
                ),
                old(self).wf() ==> self.wf(),
            decreases self.accumulator,
        {
            let ghost mid = self@;
            let ghost mid_last = *end_cooldown;
            self.loop_number = if self.loop_number == u128::MAX {
                u128::MAX
            } else {
                self.loop_number + 1
            };
            assert(self@ == mid.counted());
            self.step(now, end_cooldown, env);
            let ghost made = self@;
            self.accumulator = self.accumulator - TICKS;
            assert(self@ == made.spent());
            assert(self.accumulator as int % TICKS as int == mid.accumulator as int % TICKS as int)
                by (nonlinear_arith)
                requires
                    self.accumulator == mid.accumulator - TICKS,
                    TICKS == 10_000,
            ;
            steps = steps + 1;
            assert(mid.tick_leads(self@, mid_last, *end_cooldown, now, *env));
            assert(start.ticks_lead(
                mid,
                (steps - 1) as nat,
                *old(end_cooldown),
                mid_last,
                now,
                *env,
            ));
        }
        assert(total >= TICKS ==> steps == total as int / TICKS as int) by (nonlinear_arith)
            requires
                self.accumulator == total - steps * TICKS,
                total >= TICKS ==> self.accumulator as int % TICKS as int == total as int
                    % TICKS as int,
                0 <= self.accumulator < TICKS || total < TICKS,
                total >= TICKS ==> total as int == TICKS * (total as int / TICKS as int) + (
                total as int % TICKS as int),
                TICKS == 10_000,
        ;
        steps
    }

    /// Lets every asteroid meet the ship and every missile, asteroid `k`
    /// with the dice `dice[k]`.
    pub fn collide_all(&mut self, dice: &Vec<TickDice>, env: &Environment)
        requires
            env.wf(),
            old(self)@.scorable(),
            dice@.len() == old(self).asteroids@.len(),
            forall|k: int| 0 <= k < dice@.len() ==> old(self).fits(#[trigger] dice@[k]),
        ensures
            final(self)@ == old(self)@.collisions(
                old(self).asteroids@.len() as int,
                dice@,
                env.compass,
            ),
            old(self).same_cast(*final(self)),
            old(self).wf() ==> final(self).wf(),
    {
        let mut i: usize = 0;
        while i < self.asteroids.len()
            invariant
                env.wf(),
                0 <= i <= self.asteroids@.len(),
                old(self).same_cast(*self),
                old(self)@.scorable(),
                dice@.len() == self.asteroids@.len(),
                forall|k: int| 0 <= k < dice@.len() ==> old(self).fits(#[trigger] dice@[k]),
                old(self).wf() ==> self.wf(),
                self@ == old(self)@.collisions(i as int, dice@, env.compass),
            decreases self.asteroids@.len() - i,
        {
            assert(old(self).fits(dice@[i as int]));
            assert(score_index(old(self)@.asteroids[i as int].size) < old(self)@.multipliers.len());
            self.collide_asteroid(i, &dice[i], env);
            i = i + 1;
        }
    }
}

} // verus!
