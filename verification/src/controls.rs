//! What the player's input does to a match in one frame: the menus, the
//! ship's engine and helm, the guns, the missile capacity and the clock.
use vstd::prelude::*;
use crate::asteroid::Asteroid;
use crate::compass::{Compass, Environment};
use crate::entity::{id_after, id_offset, spec_turned, CosmicEntity};
use crate::fixed::{sat_mul, sat_neg, spec_sat_mul, spec_sat_neg, UNIT};
use crate::gamestate::Gamestate;
use crate::key_bindings::{FrameInput, KeyBindings, ScrollState};
use crate::spaceship::{spec_capacity_after, spec_thrust, Spaceship, MAX_CAPACITY};
use crate::tick::GameModel;

verus! {

/// How long the gun rests after a plain shot: 0.15 seconds.
pub const FIRE_COOLDOWN: i64 = 90_000;

/// How long the launcher rests after a homing volley: 0.8 seconds.
pub const HOMING_COOLDOWN: i64 = 480_000;

/// The simulation speed while the accelerate action is held.
pub const SPEED_FAST: i64 = 5 * UNIT;

/// The simulation speed while the slow-down action is held: 0.075.
pub const SPEED_SLOW: i64 = 45_000;

/// The input of a frame as a mathematical value.
pub struct InputModel {
    pub toggle_debug: bool,
    pub confirm: bool,
    pub escape: bool,
    pub stop: bool,
    pub scroll_up: bool,
    pub scroll_down: bool,
    pub speed_up: bool,
    pub speed_down: bool,
    pub move_left: bool,
    pub move_right: bool,
    pub fire: bool,
    pub fire_homing: bool,
    pub pause: bool,
    pub accelerate: bool,
    pub slow_down: bool,
    pub scroll_steps: Seq<i8>,
}

impl View for FrameInput {
    type V = InputModel;

    open spec fn view(&self) -> InputModel {
        InputModel {
            toggle_debug: self.toggle_debug,
            confirm: self.confirm,
            escape: self.escape,
            stop: self.stop,
            scroll_up: self.scroll_up,
            scroll_down: self.scroll_down,
            speed_up: self.speed_up,
            speed_down: self.speed_down,
            move_left: self.move_left,
            move_right: self.move_right,
            fire: self.fire,
            fire_homing: self.fire_homing,
            pause: self.pause,
            accelerate: self.accelerate,
            slow_down: self.slow_down,
            scroll_steps: self.scroll_steps@,
        }
    }
}

/// A capacity after the changes `steps`, in order.
pub open spec fn capacity_after_steps(capacity: u8, steps: Seq<i8>) -> u8
    decreases steps.len(),
{
    if steps.len() == 0 {
        capacity
    } else {
        spec_capacity_after(capacity_after_steps(capacity, steps.drop_last()), steps.last())
    }
}

impl GameModel {
    /// Whether the start menu is the menu on top.
    pub open spec fn start_on_top(self) -> bool {
        self.menu.len() > 0 && self.menu.last() == "Start"@
    }

    /// Whether `fresh` are asteroids that a new match may begin with: twenty
    /// of them, each as the constructor makes them, under the identifiers
    /// that follow the ship's.
    pub open spec fn fresh_field(self, fresh: Seq<Asteroid>, env: Environment) -> bool {
        &&& fresh.len() == 20
        &&& forall|k: int|
            0 <= k < 20 ==> Asteroid::made_of(
                #[trigger] fresh[k],
                id_offset(id_after(self.next_id), k as nat),
                None,
                None,
                None,
                env,
            )
    }

    /// The match started anew with the asteroids `fresh`.
    pub open spec fn restarted(self, fresh: Seq<Asteroid>, env: Environment) -> GameModel {
        GameModel {
            win: false,
            over: false,
            asteroids: fresh,
            missiles: Seq::empty(),
            spaceship: Spaceship::spec_new(self.next_id, env.bounds),
            texts: Seq::empty(),
            menu: if self.menu.len() > 0 {
                self.menu.drop_last()
            } else {
                self.menu
            },
            number_of_asteroids: 20,
            score: seq![
                0u128,
                Gamestate::spec_max_score(fresh, 100, self.multipliers, self.asteroids_children),
            ],
            next_id: id_offset(id_after(self.next_id), 20),
            ..self
        }
    }

    /// The keys of the menus. The debug key flips debug mode. Under the
    /// start menu, confirm starts a match and escape leaves the program;
    /// anywhere else escape opens the main menu or closes the menu on top.
    pub open spec fn menus_applied(
        self,
        input: InputModel,
        fresh: Seq<Asteroid>,
        env: Environment,
    ) -> GameModel {
        let toggled = GameModel { debug: self.debug != input.toggle_debug, ..self };
        let started = if self.start_on_top() && input.confirm {
            toggled.restarted(fresh, env)
        } else {
            toggled
        };
        let left = GameModel {
            exit: started.exit || (self.start_on_top() && input.escape),
            ..started
        };
        if input.escape && !self.start_on_top() {
            GameModel {
                menu: if left.menu.len() == 0 {
                    left.menu.push("Main"@)
                } else {
                    left.menu.drop_last()
                },
                ..left
            }
        } else {
            left
        }
    }

    /// Whether the simulation runs.
    pub open spec fn running(self) -> bool {
        self.simulation_speed > 0
    }

    /// The engine and the helm. While the simulation runs, the thrust keys
    /// push the ship and the steering keys turn it by `turn_rate` for the
    /// frame's time; the stop key halts it, unless escape under the start
    /// menu has swallowed the frame's key presses.
    pub open spec fn steered(self, input: InputModel, turn_rate: i64, swallowed: bool) -> GameModel {
        let ship = self.spaceship;
        let ahead = if input.speed_up && self.running() {
            spec_thrust(ship.speed, ship.max_speed, self.delta_time, true)
        } else {
            ship.speed
        };
        let back = if input.speed_down && self.running() {
            spec_thrust(ahead, ship.max_speed, self.delta_time, false)
        } else {
            ahead
        };
        let left = if input.move_left && self.running() {
            spec_turned(ship.rotation, spec_sat_mul(spec_sat_neg(turn_rate), self.delta_time))
        } else {
            ship.rotation
        };
        let right = if input.move_right && self.running() {
            spec_turned(left, spec_sat_mul(turn_rate, self.delta_time))
        } else {
            left
        };
        GameModel {
            spaceship: Spaceship {
                speed: if input.stop && !swallowed {
                    0
                } else {
                    back
                },
                rotation: right,
                ..ship
            },
            ..self
        }
    }

    /// Whether the guns may fire: the simulation runs, and no menu is open
    /// or debug mode is on.
    pub open spec fn guns_free(self) -> bool {
        self.running() && (self.debug || self.menu.len() == 0)
    }

    /// The state with a shot fired and the gun's rest begun.
    pub open spec fn shot_fired(self, is_homing: bool, compass: Compass) -> GameModel {
        GameModel {
            missiles: self.missiles + Gamestate::shot(
                self.spaceship,
                is_homing,
                compass,
                self.next_id,
            ),
            next_id: id_offset(self.next_id, Gamestate::shot_size(self.spaceship, is_homing)),
            spaceship: if is_homing {
                Spaceship { hom_cooldown: HOMING_COOLDOWN, ..self.spaceship }
            } else {
                Spaceship { fire_cooldown: FIRE_COOLDOWN, ..self.spaceship }
            },
            ..self
        }
    }

    /// The guns. A living ship whose gun has rested fires a plain shot
    /// while fire is held, and one whose launcher has rested and is not
    /// empty fires a homing volley while that is held.
    pub open spec fn guns_applied(self, input: InputModel, compass: Compass) -> GameModel {
        let plain = if self.spaceship.alive && self.spaceship.fire_cooldown <= 0 && input.fire
            && self.guns_free() {
            self.shot_fired(false, compass)
        } else {
            self
        };
        if plain.spaceship.alive && plain.spaceship.missile_capacity > 0
            && plain.spaceship.hom_cooldown <= 0 && input.fire_homing && plain.guns_free() {
            plain.shot_fired(true, compass)
        } else {
            plain
        }
    }

    /// The missile capacity. While the simulation runs a scroll action
    /// that was just pressed changes it by one (unless the frame's key
    /// presses were swallowed); every scroll entry changes it by its
    /// number.
    pub open spec fn capacity_applied(self, input: InputModel, swallowed: bool) -> GameModel {
        let ship = self.spaceship;
        let up = if input.scroll_up && !swallowed && self.running() {
            spec_capacity_after(ship.missile_capacity, 1)
        } else {
            ship.missile_capacity
        };
        let down = if input.scroll_down && !swallowed && self.running() {
            spec_capacity_after(up, -1i8)
        } else {
            up
        };
        GameModel {
            spaceship: Spaceship {
                missile_capacity: capacity_after_steps(down, input.scroll_steps),
                ..ship
            },
            ..self
        }
    }

    /// The clock. Pause stops the simulation, accelerate runs it five times
    /// as fast, slow-down at 0.075 of its speed; of several that are held
    /// the last of these wins.
    pub open spec fn clock_applied(self, input: InputModel) -> GameModel {
        GameModel {
            simulation_speed: if input.slow_down {
                SPEED_SLOW
            } else if input.accelerate {
                SPEED_FAST
            } else if input.pause {
                0
            } else {
                self.simulation_speed
            },
            ..self
        }
    }

    /// All that the input of a frame does, in order: menus, engine and
    /// helm, guns, capacity, clock.
    pub open spec fn input_applied(
        self,
        input: InputModel,
        fresh: Seq<Asteroid>,
        env: Environment,
    ) -> GameModel {
        let swallowed = self.start_on_top() && input.escape;
        self.menus_applied(input, fresh, env).steered(
            input,
            self.spaceship.turn_rate,
            swallowed,
        ).guns_applied(input, env.compass).capacity_applied(input, swallowed).clock_applied(input)
    }
}

impl Gamestate {
    /// Applies the keys of the menus. Returns whether escape under the
    /// start menu has swallowed the frame's key presses.
    pub fn apply_menus(&mut self, input: &FrameInput, env: &Environment) -> (swallowed: bool)
        requires
            env.wf(),
        ensures
            swallowed == (old(self)@.start_on_top() && input.escape),
            exists|fresh: Seq<Asteroid>|
                #![trigger old(self)@.menus_applied(input@, fresh, *env)]
                (old(self)@.start_on_top() && input.confirm ==> (GameModel {
                    debug: old(self).debug != input.toggle_debug,
                    ..old(self)@
                }).fresh_field(fresh, *env)) && final(self)@ == old(self)@.menus_applied(
                    input@,
                    fresh,
                    *env,
                ),
    {
        let ghost start = self@;
        if input.toggle_debug {
            self.debug = !self.debug;
        }
        let ghost toggled = self@;
        let on_start: bool = self.last_menu_is("Start");
        if on_start {
            if input.confirm {
                let ghost before = *self;
                self.reset(env);
                assert(self@ == toggled.restarted(self.asteroids@, *env)) by {
                    assert(self@.menu =~= toggled.restarted(self.asteroids@, *env).menu);
                    assert(self@.missiles =~= Seq::<crate::missile::Missile>::empty());
                    assert(self@.texts =~= Seq::<crate::floating_text::TextModel>::empty());
                }
            }
            if input.escape {
                self.exit = true;
            }
        }
        let ghost fresh = self.asteroids@;
        let ghost left = self@;
        if input.escape && !on_start {
            if self.menu.len() == 0 {
                self.menu.push("Main".to_owned());
                assert(self@.menu =~= left.menu.push("Main"@));
            } else {
                self.menu.pop();
                assert(self@.menu =~= left.menu.drop_last());
            }
        }
        assert(self@ == start.menus_applied(input@, fresh, *env));
        on_start && input.escape
    }

    /// Applies the engine and the helm.
    pub fn apply_helm(&mut self, input: &FrameInput, turn_rate: i64, swallowed: bool)
        ensures
            final(self)@ == old(self)@.steered(input@, turn_rate, swallowed),
            final(self).spaceship.missile_capacity == old(self).spaceship.missile_capacity,
    {
        let running: bool = self.simulation_speed > 0;
        let dt: i64 = self.delta_time;
        if input.speed_up && running {
            self.spaceship.move_spaceship(dt, true);
        }
        if input.speed_down && running {
            self.spaceship.move_spaceship(dt, false);
        }
        if input.move_left && running {
            self.spaceship.add_rotation(sat_mul(sat_neg(turn_rate), dt));
        }
        if input.move_right && running {
            self.spaceship.add_rotation(sat_mul(turn_rate, dt));
        }
        if input.stop && !swallowed {
            self.spaceship.stop();
        }
    }

    /// Applies the guns.
    pub fn apply_guns(&mut self, input: &FrameInput, env: &Environment)
        requires
            env.wf(),
            old(self).spaceship.missile_capacity <= MAX_CAPACITY,
        ensures
            final(self)@ == old(self)@.guns_applied(input@, env.compass),
            final(self).spaceship.missile_capacity == old(self).spaceship.missile_capacity,
    {
        let free: bool = self.simulation_speed > 0 && (self.debug || self.menu.len() == 0);
        if self.spaceship.get_life() && self.spaceship.get_firing_cooldown() <= 0 && input.fire
            && free {
            self.summon_missile(false, env);
            self.spaceship.set_firing_cooldown(FIRE_COOLDOWN);
        }
        if self.spaceship.get_life() && self.spaceship.get_missile_capacity() > 0
            && self.spaceship.get_homming_cooldown() <= 0 && input.fire_homing && free {
            self.summon_missile(true, env);
            self.spaceship.set_homming_cooldown(HOMING_COOLDOWN);
        }
    }

    /// Applies the changes of the missile capacity.
    pub fn apply_capacity(&mut self, input: &FrameInput, swallowed: bool)
        ensures
            final(self)@ == old(self)@.capacity_applied(input@, swallowed),
            final(self).spaceship.missile_capacity <= MAX_CAPACITY || (
            final(self).spaceship.missile_capacity == old(self).spaceship.missile_capacity),
    {
        let running: bool = self.simulation_speed > 0;
        if input.scroll_up && !swallowed && running {
            self.spaceship.modify_capacity(1);
        }
        if input.scroll_down && !swallowed && running {
            self.spaceship.modify_capacity(-1);
        }
        let ghost base = self.spaceship.missile_capacity;
        let mut i: usize = 0;
        assert(input.scroll_steps@.subrange(0, 0) =~= Seq::<i8>::empty());
        while i < input.scroll_steps.len()
            invariant
                0 <= i <= input.scroll_steps@.len(),
                self.spaceship.missile_capacity == capacity_after_steps(
                    base,
                    input.scroll_steps@.subrange(0, i as int),
                ),
                *self == (Gamestate {
                    spaceship: Spaceship {
                        missile_capacity: self.spaceship.missile_capacity,
                        ..old(self).spaceship
                    },
                    ..*old(self)
                }),
                self.spaceship.missile_capacity <= MAX_CAPACITY || (self.spaceship.missile_capacity
                    == old(self).spaceship.missile_capacity),
            decreases input.scroll_steps@.len() - i,
        {
            let ghost longer = input.scroll_steps@.subrange(0, i as int + 1);
            assert(longer.drop_last() =~= input.scroll_steps@.subrange(0, i as int));
            assert(longer.last() == input.scroll_steps@[i as int]);
            self.spaceship.modify_capacity(input.scroll_steps[i]);
            i = i + 1;
        }
        assert(input.scroll_steps@.subrange(0, i as int) =~= input.scroll_steps@);
    }

    /// Applies the keys of the clock.
    pub fn apply_clock(&mut self, input: &FrameInput)
        ensures
            final(self)@ == old(self)@.clock_applied(input@),
    {
        if input.pause {
            self.simulation_speed = 0;
        }
        if input.accelerate {
            self.simulation_speed = SPEED_FAST;
        }
        if input.slow_down {
            self.simulation_speed = SPEED_SLOW;
        }
    }

    /// Applies the input of a frame to the match.
    pub fn apply_input(&mut self, input: &FrameInput, env: &Environment)
        requires
            env.wf(),
            old(self).spaceship.missile_capacity <= MAX_CAPACITY,
        ensures
            exists|fresh: Seq<Asteroid>|
                #![trigger old(self)@.input_applied(input@, fresh, *env)]
                (old(self)@.start_on_top() && input.confirm ==> (GameModel {
                    debug: old(self).debug != input.toggle_debug,
                    ..old(self)@
                }).fresh_field(fresh, *env)) && final(self)@ == old(self)@.input_applied(
                    input@,
                    fresh,
                    *env,
                ),
    {
        let turn_rate: i64 = self.spaceship.get_turn_rate();
        let swallowed: bool = self.apply_menus(input, env);
        let ghost fresh = choose|fresh: Seq<Asteroid>|
            #![trigger old(self)@.menus_applied(input@, fresh, *env)]
            (old(self)@.start_on_top() && input.confirm ==> (GameModel {
                debug: old(self).debug != input.toggle_debug,
                ..old(self)@
            }).fresh_field(fresh, *env)) && self@ == old(self)@.menus_applied(input@, fresh, *env);
        self.apply_helm(input, turn_rate, swallowed);
        self.apply_guns(input, env);
        self.apply_capacity(input, swallowed);
        self.apply_clock(input);
        assert(self@ == old(self)@.input_applied(input@, fresh, *env));
    }
}

/// Reads the frame's input from the key bindings, applies it to the match,
/// and forgets what was just pressed and released.
pub fn handle_input(gamestate: &mut Gamestate, keybindings: &mut KeyBindings, env: &Environment)
    requires
        env.wf(),
        old(keybindings).wf(),
        old(gamestate).spaceship.missile_capacity <= MAX_CAPACITY,
    ensures
        exists|input: FrameInput, fresh: Seq<Asteroid>|
            #![trigger old(gamestate)@.input_applied(input@, fresh, *env)]
            old(keybindings).reads_as(input) && (old(gamestate)@.start_on_top() && input.confirm
                ==> (GameModel {
                debug: old(gamestate).debug != input.toggle_debug,
                ..old(gamestate)@
            }).fresh_field(fresh, *env)) && final(gamestate)@ == old(gamestate)@.input_applied(
                input@,
                fresh,
                *env,
            ),
        final(keybindings).input_state.just_pressed@.len() == 0,
        final(keybindings).input_state.just_released@.len() == 0,
        final(keybindings).scroll_state == ScrollState::Idle,
        final(keybindings).input_state.pressed == old(keybindings).input_state.pressed,
        final(keybindings).bindings == old(keybindings).bindings,
        final(keybindings).scroll_accumulator == old(keybindings).scroll_accumulator,
        final(keybindings).scroll_sensitivity == old(keybindings).scroll_sensitivity,
{
    let input = keybindings.frame_input();
    gamestate.apply_input(&input, env);
    keybindings.clear_events();
}

} // verus!
