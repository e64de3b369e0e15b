use ast_core::asteroid::SCALE;
use ast_core::compass::{Compass, Environment};
use ast_core::controls::{handle_input, FIRE_COOLDOWN, HOMING_COOLDOWN, SPEED_FAST, SPEED_SLOW};
use ast_core::fixed::{TAU, UNIT};
use ast_core::gamestate::{Gamestate, SPEED_NORMAL};
use ast_core::geometry::{Heading, Vec2};
use ast_core::key_bindings::{
    contains_name, default_keybindings, has_prefix, is_combo_pressed, read_scroll_step,
    write_scroll_entry, Action, FrameInput, InputEvent, InputKind, KeyBindings, KeyCombo,
    KeyInput, Modifier, ScrollState, ACTION_COUNT,
};

fn cardinal_env() -> Environment {
    Environment {
        bounds: Vec2 { x: 800 * UNIT, y: 600 * UNIT },
        compass: Compass::new(vec![
            Heading { cos: UNIT, sin: 0 },
            Heading { cos: 0, sin: UNIT },
            Heading { cos: -UNIT, sin: 0 },
            Heading { cos: 0, sin: -UNIT },
        ])
        .unwrap(),
        asteroid_textures: Vec::new(),
    }
}

fn playing() -> Gamestate {
    let mut g = Gamestate::new(Vec2 { x: 800 * UNIT, y: 600 * UNIT });
    g.menu.clear();
    g.simulation_speed = SPEED_NORMAL;
    g.delta_time = UNIT / 10;
    g
}

fn nothing() -> FrameInput {
    FrameInput {
        toggle_debug: false,
        confirm: false,
        escape: false,
        stop: false,
        scroll_up: false,
        scroll_down: false,
        speed_up: false,
        speed_down: false,
        move_left: false,
        move_right: false,
        fire: false,
        fire_homing: false,
        pause: false,
        accelerate: false,
        slow_down: false,
        scroll_steps: Vec::new(),
    }
}

fn key(name: &str) -> InputEvent {
    InputEvent::KeyPress(name.to_string())
}

fn names(set: &[&str]) -> Vec<String> {
    set.iter().map(|s| s.to_string()).collect()
}

#[test]
fn key_input_reads_as_its_name() {
    assert_eq!(KeyInput::Key("KeyW".to_string()).as_string(), "KeyW");
    assert_eq!(KeyInput::Mouse("Left".to_string()).as_string(), "Left");
    assert_eq!(KeyInput::Scroll("ScrollUp".to_string()).as_string(), "ScrollUp");
    assert_eq!(KeyInput::from_key("F3"), KeyInput::Key("F3".to_string()));
    assert_eq!(KeyInput::from_button("Middle"), KeyInput::Mouse("Middle".to_string()));
}

#[test]
fn modifiers_have_names() {
    assert_eq!(Modifier::Control.to_string(), "Control");
    assert_eq!(Modifier::Shift.to_string(), "Shift");
    assert_eq!(Modifier::Alt.to_string(), "Alt");
    assert_eq!(Modifier::Meta.to_string(), "Meta");
}

#[test]
fn actions_are_ordered_as_declared() {
    let all = [
        Action::SpeedUp,
        Action::SpeedDown,
        Action::MoveLeft,
        Action::MoveRight,
        Action::Stop,
        Action::Fire,
        Action::FireHoming,
        Action::ToggleDebug,
        Action::Escape,
        Action::Confirm,
        Action::Pause,
        Action::Accelerate,
        Action::SlowDown,
        Action::ScrollUp,
        Action::ScrollDown,
    ];
    assert_eq!(all.len(), ACTION_COUNT);
    for (i, action) in all.iter().enumerate() {
        assert_eq!(action.index(), i);
    }
    for pair in all.windows(2) {
        assert!(pair[0] < pair[1]);
    }
    assert_eq!(ScrollState::default(), ScrollState::Idle);
}

#[test]
fn new_bindings_bind_nothing() {
    let kb = KeyBindings::new();
    assert_eq!(kb.bindings.len(), ACTION_COUNT);
    assert!(kb.bindings.iter().all(|combos| combos.is_empty()));
    assert!(kb.input_state.pressed.is_empty());
    assert_eq!(kb.scroll_state, ScrollState::Idle);
    assert_eq!(kb.scroll_accumulator, 0);
    assert_eq!(kb.scroll_sensitivity, UNIT);
    assert!(!kb.is_action_held(Action::Fire));
}

#[test]
fn the_default_bindings() {
    let kb = default_keybindings();
    let plain = |input: KeyInput| KeyCombo { input, modifiers: Vec::new() };
    let k = |n: &str| plain(KeyInput::Key(n.to_string()));
    let m = |n: &str| plain(KeyInput::Mouse(n.to_string()));
    let s = |n: &str| plain(KeyInput::Scroll(n.to_string()));
    assert_eq!(
        kb.bindings,
        vec![
            vec![k("KeyW")],
            vec![k("KeyS")],
            vec![k("KeyA")],
            vec![k("KeyD")],
            vec![m("Middle")],
            vec![m("Left"), k("KeyQ")],
            vec![m("Right"), k("KeyE")],
            vec![k("F3")],
            vec![k("Escape")],
            vec![k("Return")],
            vec![k("Space")],
            vec![k("Tab")],
            vec![k("ShiftLeft")],
            vec![s("ScrollUp")],
            vec![s("ScrollDown")],
        ]
    );
}

#[test]
fn binding_appends_to_the_action() {
    let mut kb = KeyBindings::new();
    kb.bind_key(Action::Fire, "KeyX");
    kb.bind_mouse(Action::Fire, "Left");
    kb.bind_plain(Action::Fire, InputKind::Scroll, "ScrollUp");
    kb.bind(
        Action::Stop,
        KeyCombo { input: KeyInput::Key("KeyS".to_string()), modifiers: vec![Modifier::Control] },
    );
    assert_eq!(
        kb.bindings[Action::Fire.index()],
        vec![
            KeyCombo { input: KeyInput::Key("KeyX".to_string()), modifiers: Vec::new() },
            KeyCombo { input: KeyInput::Mouse("Left".to_string()), modifiers: Vec::new() },
            KeyCombo { input: KeyInput::Scroll("ScrollUp".to_string()), modifiers: Vec::new() },
        ]
    );
    assert_eq!(kb.bindings[Action::Stop.index()].len(), 1);
    assert!(kb.bindings[Action::Pause.index()].is_empty());
}

#[test]
fn a_combo_needs_its_key_and_all_its_modifiers() {
    let combo = KeyCombo {
        input: KeyInput::Key("KeyS".to_string()),
        modifiers: vec![Modifier::Control, Modifier::Shift],
    };
    assert!(is_combo_pressed(&combo, &names(&["Shift", "KeyS", "Control"])));
    assert!(!is_combo_pressed(&combo, &names(&["KeyS", "Control"])));
    assert!(!is_combo_pressed(&combo, &names(&["Shift", "Control"])));
    assert!(!is_combo_pressed(&combo, &names(&[])));
    assert!(contains_name(&names(&["a", "b"]), "b"));
    assert!(!contains_name(&names(&["a", "b"]), "c"));
    assert!(!contains_name(&names(&["ab"]), "a"));
    let mut kb = KeyBindings::new();
    kb.bind(Action::Stop, combo);
    kb.bind_key(Action::Stop, "KeyX");
    assert!(kb.is_combo_active(&names(&["KeyX"]), Action::Stop));
    assert!(kb.is_combo_active(&names(&["Control", "Shift", "KeyS"]), Action::Stop));
    assert!(!kb.is_combo_active(&names(&["KeyS"]), Action::Stop));
    assert!(!kb.is_combo_active(&names(&["KeyX"]), Action::Fire));
}

#[test]
fn presses_and_releases_are_recorded() {
    let mut kb = default_keybindings();
    kb.record(key("KeyW"));
    kb.record(key("KeyW"));
    kb.record(InputEvent::ButtonPress("Left".to_string()));
    assert_eq!(kb.input_state.pressed, names(&["KeyW", "Left"]));
    assert_eq!(kb.input_state.just_pressed, names(&["KeyW", "Left"]));
    assert!(kb.is_action_held(Action::SpeedUp));
    assert!(kb.is_action_pressed(Action::Fire));
    assert!(!kb.is_action_released(Action::SpeedUp));
    assert_eq!(kb.get_held_keys(), names(&["KeyW", "Left", "Scroll_Idle"]));
    kb.clear_events();
    assert!(kb.is_action_held(Action::SpeedUp));
    assert!(!kb.is_action_pressed(Action::Fire));
    kb.record(InputEvent::KeyRelease("KeyW".to_string()));
    kb.record(InputEvent::ButtonRelease("Right".to_string()));
    kb.record(InputEvent::Other);
    assert_eq!(kb.input_state.pressed, names(&["Left"]));
    assert_eq!(kb.input_state.just_released, names(&["KeyW", "Right"]));
    assert!(kb.is_action_released(Action::SpeedUp));
    assert!(kb.is_action_released(Action::FireHoming));
    assert!(!kb.is_action_held(Action::SpeedUp));
    kb.record(key("KeyW"));
    assert_eq!(kb.input_state.just_pressed, names(&["KeyW"]));
}

#[test]
fn the_wheel_accumulates_whole_steps() {
    let mut kb = default_keybindings();
    kb.record(InputEvent::Wheel(3));
    assert_eq!(kb.scroll_state, ScrollState::Up);
    assert_eq!(kb.input_state.just_pressed, names(&["ScrollUp:3"]));
    assert_eq!(kb.scroll_accumulator, 0);
    assert_eq!(kb.get_held_keys(), names(&["Scroll_Up"]));
    kb.record(InputEvent::Wheel(-2));
    assert_eq!(kb.scroll_state, ScrollState::Down);
    assert_eq!(kb.input_state.just_pressed, names(&["ScrollUp:3", "ScrollDown:2"]));
    assert_eq!(kb.get_held_keys(), names(&["Scroll_Down"]));
    kb.record(InputEvent::Wheel(0));
    assert_eq!(kb.scroll_state, ScrollState::Idle);
    kb.clear_events();
    kb.set_scroll_sensitivity(UNIT * 2 / 5);
    kb.record(InputEvent::Wheel(1));
    assert_eq!(kb.scroll_state, ScrollState::Up);
    assert!(kb.input_state.just_pressed.is_empty());
    assert_eq!(kb.scroll_accumulator, 240_000);
    kb.record(InputEvent::Wheel(1));
    assert_eq!(kb.scroll_accumulator, 480_000);
    kb.record(InputEvent::Wheel(1));
    assert_eq!(kb.input_state.just_pressed, names(&["ScrollUp:1"]));
    assert_eq!(kb.scroll_accumulator, 120_000);
    kb.record(InputEvent::Wheel(-4));
    assert_eq!(kb.scroll_accumulator, -240_000);
    assert_eq!(kb.input_state.just_pressed, names(&["ScrollUp:1", "ScrollDown:1"]));
    kb.set_scroll_sensitivity(0);
    assert_eq!(kb.scroll_sensitivity, UNIT / 10);
    kb.set_scroll_sensitivity(-5);
    assert_eq!(kb.scroll_sensitivity, UNIT / 10);
    kb.set_scroll_sensitivity(3 * UNIT);
    assert_eq!(kb.scroll_sensitivity, 3 * UNIT);
}

#[test]
fn a_huge_turn_of_the_wheel_counts_as_far_as_an_i32() {
    let mut kb = default_keybindings();
    kb.record(InputEvent::Wheel(i64::MAX));
    assert_eq!(kb.input_state.just_pressed, names(&["ScrollUp:2147483647"]));
    assert_eq!(kb.scroll_accumulator, i64::MAX - 2_147_483_647 * UNIT);
    kb.scroll_accumulator = 0;
    kb.record(InputEvent::Wheel(i64::MIN));
    assert_eq!(kb.input_state.just_pressed[1], "ScrollDown:2147483647");
}

#[test]
fn scroll_entries_are_written_and_read() {
    assert_eq!(write_scroll_entry(true, 3), "ScrollUp:3");
    assert_eq!(write_scroll_entry(false, 120), "ScrollDown:120");
    assert_eq!(write_scroll_entry(true, 0), "ScrollUp:0");
    for n in 1..=127u32 {
        assert_eq!(read_scroll_step(&write_scroll_entry(true, n)), Some(n as i8));
        assert_eq!(read_scroll_step(&write_scroll_entry(false, n)), Some(-(n as i8)));
    }
    assert_eq!(read_scroll_step(&write_scroll_entry(true, 128)), None);
    assert_eq!(read_scroll_step("ScrollUp:+5"), Some(5));
    assert_eq!(read_scroll_step("ScrollUp:-5"), Some(-5));
    assert_eq!(read_scroll_step("ScrollUp:-128"), Some(-128));
    assert_eq!(read_scroll_step("ScrollDown:-128"), Some(127));
    assert_eq!(read_scroll_step("ScrollDown:-7"), Some(7));
    assert_eq!(read_scroll_step("ScrollUp:007"), Some(7));
    assert_eq!(read_scroll_step("ScrollUp:0000000000000000000127"), Some(127));
    assert_eq!(read_scroll_step("ScrollUp:-129"), None);
    assert_eq!(read_scroll_step("ScrollUp:1000"), None);
    assert_eq!(read_scroll_step("ScrollUp:99999999999999999999999"), None);
    assert_eq!(read_scroll_step("ScrollUp:"), None);
    assert_eq!(read_scroll_step("ScrollUp:+"), None);
    assert_eq!(read_scroll_step("ScrollUp:-"), None);
    assert_eq!(read_scroll_step("ScrollUp:1a"), None);
    assert_eq!(read_scroll_step("ScrollUp: 1"), None);
    assert_eq!(read_scroll_step("ScrollUp"), None);
    assert_eq!(read_scroll_step("scrollup:1"), None);
    assert_eq!(read_scroll_step("KeyW"), None);
    assert_eq!(read_scroll_step(""), None);
    assert_eq!(read_scroll_step("ScrollUp:\u{661}"), None);
    assert!(has_prefix("ScrollUp:1", "ScrollUp:"));
    assert!(has_prefix("abc", ""));
    assert!(!has_prefix("ab", "abc"));
    assert!(has_prefix("\u{e9}t\u{e9}", "\u{e9}t"));
}

#[test]
fn frame_input_reads_held_pressed_and_the_wheel() {
    let mut kb = default_keybindings();
    kb.record(key("KeyW"));
    kb.record(key("Space"));
    kb.clear_events();
    kb.record(key("F3"));
    kb.record(InputEvent::Wheel(2));
    kb.record(key("KeyQ"));
    kb.record(InputEvent::Wheel(-5));
    let input = kb.frame_input();
    assert!(input.speed_up && input.pause && input.fire && input.toggle_debug);
    assert!(!input.speed_down && !input.escape && !input.confirm && !input.stop);
    assert!(!input.scroll_up && !input.scroll_down);
    assert_eq!(input.scroll_steps, vec![2, -5]);
    kb.clear_events();
    kb.input_state.just_pressed.push("ScrollUp".to_string());
    assert!(kb.frame_input().scroll_up);
    assert!(kb.frame_input().scroll_steps.is_empty());
}

#[test]
fn thrust_and_helm() {
    let env = cardinal_env();
    let mut g = playing();
    let mut input = nothing();
    input.speed_up = true;
    g.apply_input(&input, &env);
    assert_eq!(g.spaceship.speed, 15 * UNIT);
    input.speed_up = false;
    input.speed_down = true;
    g.apply_input(&input, &env);
    assert_eq!(g.spaceship.speed, -30 * UNIT);
    input.speed_up = true;
    g.apply_input(&input, &env);
    assert_eq!(g.spaceship.speed, -30 * UNIT);
    input = nothing();
    input.move_left = true;
    g.apply_input(&input, &env);
    assert_eq!(g.spaceship.rotation, 240_000);
    input.move_left = false;
    input.move_right = true;
    g.apply_input(&input, &env);
    g.apply_input(&input, &env);
    assert_eq!(g.spaceship.rotation, -240_000);
    input = nothing();
    input.stop = true;
    g.apply_input(&input, &env);
    assert_eq!(g.spaceship.speed, 0);
    g.simulation_speed = 0;
    input = nothing();
    input.speed_up = true;
    input.move_left = true;
    input.scroll_up = true;
    g.apply_input(&input, &env);
    assert_eq!(g.spaceship.speed, 0);
    assert_eq!(g.spaceship.rotation, -240_000);
    assert_eq!(g.spaceship.missile_capacity, 2);
}

#[test]
fn guns_rest_between_shots() {
    let env = cardinal_env();
    let mut g = playing();
    let mut input = nothing();
    input.fire = true;
    input.fire_homing = true;
    g.apply_input(&input, &env);
    assert_eq!(g.missiles.len(), 3);
    assert!(!g.missiles[0].homing && g.missiles[1].homing && g.missiles[2].homing);
    assert_eq!(g.spaceship.fire_cooldown, FIRE_COOLDOWN);
    assert_eq!(g.spaceship.hom_cooldown, HOMING_COOLDOWN);
    assert_eq!((FIRE_COOLDOWN, HOMING_COOLDOWN), (3 * UNIT / 20, 4 * UNIT / 5));
    g.apply_input(&input, &env);
    assert_eq!(g.missiles.len(), 3);
    g.spaceship.fire_cooldown = 0;
    g.spaceship.missile_capacity = 0;
    g.spaceship.hom_cooldown = 0;
    g.apply_input(&input, &env);
    assert_eq!(g.missiles.len(), 4);
    g.spaceship.fire_cooldown = 0;
    g.menu.push("Main".to_string());
    g.apply_input(&input, &env);
    assert_eq!(g.missiles.len(), 4);
    g.debug = true;
    g.apply_input(&input, &env);
    assert_eq!(g.missiles.len(), 5);
    g.spaceship.fire_cooldown = 0;
    g.spaceship.alive = false;
    g.apply_input(&input, &env);
    assert_eq!(g.missiles.len(), 5);
}

#[test]
fn the_wheel_changes_the_capacity() {
    let env = cardinal_env();
    let mut g = playing();
    let mut input = nothing();
    input.scroll_up = true;
    g.apply_input(&input, &env);
    assert_eq!(g.spaceship.missile_capacity, 3);
    input.scroll_down = true;
    g.apply_input(&input, &env);
    assert_eq!(g.spaceship.missile_capacity, 3);
    input = nothing();
    input.scroll_steps = vec![-5, 3, 127, 127, 127];
    g.apply_input(&input, &env);
    assert_eq!(g.spaceship.missile_capacity, 254);
    input.scroll_steps = vec![-128, -1];
    g.simulation_speed = 0;
    g.apply_input(&input, &env);
    assert_eq!(g.spaceship.missile_capacity, 125);
}

#[test]
fn the_clock_keys() {
    let env = cardinal_env();
    let mut g = playing();
    let mut input = nothing();
    g.apply_input(&input, &env);
    assert_eq!(g.simulation_speed, SPEED_NORMAL);
    input.pause = true;
    g.apply_input(&input, &env);
    assert_eq!(g.simulation_speed, 0);
    input.accelerate = true;
    g.apply_input(&input, &env);
    assert_eq!(g.simulation_speed, SPEED_FAST);
    input.slow_down = true;
    g.apply_input(&input, &env);
    assert_eq!(g.simulation_speed, SPEED_SLOW);
    assert_eq!((SPEED_FAST, SPEED_SLOW), (5 * UNIT, 3 * UNIT / 40));
}

#[test]
fn the_menu_keys() {
    let env = cardinal_env();
    let mut g = Gamestate::new(env.bounds);
    let mut input = nothing();
    input.toggle_debug = true;
    g.apply_input(&input, &env);
    assert!(g.debug);
    g.apply_input(&input, &env);
    assert!(!g.debug);
    input = nothing();
    input.escape = true;
    input.stop = true;
    input.scroll_up = true;
    g.spaceship.speed = 5;
    g.simulation_speed = UNIT;
    assert!(g.apply_menus(&input, &env));
    g.exit = false;
    g.apply_input(&input, &env);
    assert!(g.exit);
    assert_eq!(g.menu, vec!["Start".to_string()]);
    assert_eq!(g.spaceship.speed, 5);
    assert_eq!(g.spaceship.missile_capacity, 2);
    g.exit = false;
    input = nothing();
    input.confirm = true;
    g.apply_input(&input, &env);
    assert!(g.menu.is_empty());
    assert_eq!(g.asteroids.len(), 20);
    assert!(!g.exit);
    input = nothing();
    input.escape = true;
    g.apply_input(&input, &env);
    assert_eq!(g.menu, vec!["Main".to_string()]);
    assert!(!g.exit);
    g.menu.push("Hardware".to_string());
    g.apply_input(&input, &env);
    assert_eq!(g.menu, vec!["Main".to_string()]);
    g.apply_input(&input, &env);
    assert!(g.menu.is_empty());
    input.confirm = true;
    input.escape = false;
    g.apply_input(&input, &env);
    assert_eq!(g.asteroids.len(), 20);
    assert_eq!(g.spaceship.id, 2);
}

#[test]
fn handling_input_reads_applies_and_forgets() {
    let env = cardinal_env();
    let mut g = playing();
    let mut kb = default_keybindings();
    kb.record(key("KeyW"));
    kb.record(key("KeyD"));
    kb.record(InputEvent::ButtonPress("Left".to_string()));
    kb.record(InputEvent::Wheel(4));
    handle_input(&mut g, &mut kb, &env);
    assert_eq!(g.spaceship.speed, 15 * UNIT);
    assert_eq!(g.spaceship.rotation, -240_000);
    assert_eq!(g.missiles.len(), 1);
    assert_eq!(g.spaceship.missile_capacity, 6);
    assert!(kb.input_state.just_pressed.is_empty());
    assert!(kb.input_state.just_released.is_empty());
    assert_eq!(kb.scroll_state, ScrollState::Idle);
    assert_eq!(kb.input_state.pressed, names(&["KeyW", "KeyD", "Left"]));
    handle_input(&mut g, &mut kb, &env);
    assert_eq!(g.spaceship.speed, 30 * UNIT);
    assert_eq!(g.spaceship.missile_capacity, 6);
    assert_eq!(g.missiles.len(), 1);
    let full_turn = g.spaceship.rotation;
    assert!(full_turn > -TAU && full_turn < TAU);
    assert_eq!(g.asteroids.len(), 0);
    assert_eq!(SCALE, 30 * UNIT);
}
