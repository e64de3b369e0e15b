//! Key bindings: which keys, buttons and scroll steps stand for which
//! action, what is held and what was just pressed, and what the input of a
//! frame does to the match.
use vstd::prelude::*;
use vstd::string::StringExecFns;
use crate::fixed::{sat_add, sat_ratio, sat_sub, spec_sat_add, spec_sat_ratio, spec_sat_sub, UNIT};
use crate::floating_text::{decimal, decimal_string};

verus! {

/// Which way the wheel last turned.
#[derive(Debug, Clone, Copy, PartialEq, Eq, Structural)]
pub enum ScrollState {
    Idle,
    Up,
    Down,
}

impl Default for ScrollState {
    fn default() -> (s: ScrollState)
        ensures
            s == ScrollState::Idle,
    {
        ScrollState::Idle
    }
}

/// A keyboard key, a mouse button or a scroll direction, by its name.
#[derive(Debug, Clone, PartialEq, Eq, Hash)]
pub enum KeyInput {
    Key(String),
    Mouse(String),
    Scroll(String),
}

#[derive(Debug, Clone, Copy, PartialEq, Eq, Hash, Structural)]
pub enum Modifier {
    Control,
    Shift,
    Alt,
    Meta,
}

/// A key, button or scroll direction together with the modifiers that must
/// be held with it.
#[derive(Debug, Clone, PartialEq, Eq, Hash)]
pub struct KeyCombo {
    pub input: KeyInput,
    pub modifiers: Vec<Modifier>,
}

/// What the player can ask for.
#[derive(Clone, Copy, Debug, PartialEq, Eq, Hash, PartialOrd, Ord, Structural)]
pub enum Action {
    SpeedUp,
    SpeedDown,
    MoveLeft,
    MoveRight,
    Stop,
    Fire,
    FireHoming,
    ToggleDebug,
    Escape,
    Confirm,
    Pause,
    Accelerate,
    SlowDown,
    ScrollUp,
    ScrollDown,
}

/// The number of actions.
pub const ACTION_COUNT: usize = 15;

impl Action {
    /// The place of the action in the order of their declaration.
    pub open spec fn spec_index(&self) -> int {
        match self {
            Action::SpeedUp => 0,
            Action::SpeedDown => 1,
            Action::MoveLeft => 2,
            Action::MoveRight => 3,
            Action::Stop => 4,
            Action::Fire => 5,
            Action::FireHoming => 6,
            Action::ToggleDebug => 7,
            Action::Escape => 8,
            Action::Confirm => 9,
            Action::Pause => 10,
            Action::Accelerate => 11,
            Action::SlowDown => 12,
            Action::ScrollUp => 13,
            Action::ScrollDown => 14,
        }
    }

    pub fn index(&self) -> (i: usize)
        ensures
            i == self.spec_index(),
            i < ACTION_COUNT,
    {
        match self {
            Action::SpeedUp => 0,
            Action::SpeedDown => 1,
            Action::MoveLeft => 2,
            Action::MoveRight => 3,
            Action::Stop => 4,
            Action::Fire => 5,
            Action::FireHoming => 6,
            Action::ToggleDebug => 7,
            Action::Escape => 8,
            Action::Confirm => 9,
            Action::Pause => 10,
            Action::Accelerate => 11,
            Action::SlowDown => 12,
            Action::ScrollUp => 13,
            Action::ScrollDown => 14,
        }
    }
}

impl KeyInput {
    /// The name of the key, button or scroll direction.
    pub open spec fn name(&self) -> Seq<char> {
        match self {
            KeyInput::Key(k) => k@,
            KeyInput::Mouse(k) => k@,
            KeyInput::Scroll(k) => k@,
        }
    }

    /// The keyboard key that the host calls `name`.
    pub fn from_key(name: &str) -> (k: KeyInput)
        ensures
            k matches KeyInput::Key(n) && n@ == name@,
    {
        KeyInput::Key(name.to_owned())
    }

    /// The mouse button that the host calls `name`.
    pub fn from_button(name: &str) -> (k: KeyInput)
        ensures
            k matches KeyInput::Mouse(n) && n@ == name@,
    {
        KeyInput::Mouse(name.to_owned())
    }

    pub fn as_string(&self) -> (r: &str)
        ensures
            r@ == self.name(),
    {
        match self {
            KeyInput::Key(k) => k.as_str(),
            KeyInput::Mouse(k) => k.as_str(),
            KeyInput::Scroll(k) => k.as_str(),
        }
    }
}

impl Modifier {
    /// The name under which a held modifier is looked for.
    pub open spec fn name(&self) -> Seq<char> {
        match self {
            Modifier::Control => "Control"@,
            Modifier::Shift => "Shift"@,
            Modifier::Alt => "Alt"@,
            Modifier::Meta => "Meta"@,
        }
    }

    pub fn to_string(&self) -> (s: String)
        ensures
            s@ == self.name(),
    {
        match self {
            Modifier::Control => "Control".to_owned(),
            Modifier::Shift => "Shift".to_owned(),
            Modifier::Alt => "Alt".to_owned(),
            Modifier::Meta => "Meta".to_owned(),
        }
    }
}

/// What kind of input a combo waits for.
#[derive(Debug, Clone, Copy, PartialEq, Eq, Structural)]
pub enum InputKind {
    Key,
    Mouse,
    Scroll,
}

/// A combo as a mathematical value.
pub struct ComboModel {
    pub kind: InputKind,
    pub name: Seq<char>,
    pub modifiers: Seq<Modifier>,
}

impl View for KeyCombo {
    type V = ComboModel;

    open spec fn view(&self) -> ComboModel {
        ComboModel {
            kind: match self.input {
                KeyInput::Key(_) => InputKind::Key,
                KeyInput::Mouse(_) => InputKind::Mouse,
                KeyInput::Scroll(_) => InputKind::Scroll,
            },
            name: self.input.name(),
            modifiers: self.modifiers@,
        }
    }
}

/// A combo of one input without modifiers.
pub open spec fn plain(kind: InputKind, name: Seq<char>) -> ComboModel {
    ComboModel { kind, name, modifiers: Seq::empty() }
}

/// The names of a list of strings.
pub open spec fn names(set: Seq<String>) -> Seq<Seq<char>> {
    set.map_values(|s: String| s@)
}

/// `set` without the names that read `name`, in their old order.
pub open spec fn without_name(set: Seq<Seq<char>>, name: Seq<char>) -> Seq<Seq<char>>
    decreases set.len(),
{
    if set.len() == 0 {
        set
    } else if set.last() == name {
        without_name(set.drop_last(), name)
    } else {
        without_name(set.drop_last(), name).push(set.last())
    }
}

/// Whether one of the names `set` is `name`.
pub open spec fn lists(set: Seq<Seq<char>>, name: Seq<char>) -> bool {
    exists|i: int| 0 <= i < set.len() && #[trigger] set[i] == name
}

/// The value of a string of decimal digits; nothing for an empty string
/// or one that holds anything else.
pub open spec fn digits_value(s: Seq<char>) -> Option<nat>
    decreases s.len(),
{
    if s.len() == 0 {
        None
    } else if !('0' <= s.last() <= '9') {
        None
    } else if s.len() == 1 {
        Some((s.last() as nat - 48) as nat)
    } else {
        match digits_value(s.drop_last()) {
            Some(v) => Some((v * 10 + (s.last() as nat - 48)) as nat),
            None => None,
        }
    }
}

/// The `i8` that a string writes in decimal, with or without a sign;
/// nothing for a string that writes no number or one out of range.
pub open spec fn parse_i8(s: Seq<char>) -> Option<i8> {
    if s.len() > 0 && s[0] == '-' {
        match digits_value(s.skip(1)) {
            Some(v) => if v <= 128 {
                Some((-(v as int)) as i8)
            } else {
                None
            },
            None => None,
        }
    } else {
        let t = if s.len() > 0 && s[0] == '+' {
            s.skip(1)
        } else {
            s
        };
        match digits_value(t) {
            Some(v) => if v <= 127 {
                Some(v as i8)
            } else {
                None
            },
            None => None,
        }
    }
}

/// Whether `s` begins with `prefix`.
pub open spec fn starts_with(s: Seq<char>, prefix: Seq<char>) -> bool {
    s.len() >= prefix.len() && s.subrange(0, prefix.len() as int) == prefix
}

/// The change of capacity that an entry of the just-pressed list asks
/// for. `ScrollUp:` and a number asks for that much more, `ScrollDown:`
/// and a number for that much less (the opposite of -128 counts as 127);
/// any other entry asks for nothing.
pub open spec fn scroll_step(key: Seq<char>) -> Option<i8> {
    if starts_with(key, "ScrollUp:"@) {
        parse_i8(key.skip(9))
    } else if starts_with(key, "ScrollDown:"@) {
        match parse_i8(key.skip(11)) {
            Some(v) => if v == -128 {
                Some(127i8)
            } else {
                Some((-v) as i8)
            },
            None => None,
        }
    } else {
        None
    }
}

/// The entry of the just-pressed list that stands for `change` steps of
/// the wheel, up or down.
pub open spec fn scroll_entry(up: bool, change: nat) -> Seq<char> {
    if up {
        "ScrollUp:"@ + decimal(change)
    } else {
        "ScrollDown:"@ + decimal(change)
    }
}

/// The decimal digits of a number read back as the number.
pub proof fn lemma_digits_of_decimal(n: nat)
    ensures
        digits_value(decimal(n)) == Some(n),
        decimal(n).len() > 0,
        '0' <= decimal(n)[0] <= '9',
    decreases n,
{
    let digit = ((n % 10) + 48) as char;
    assert('0' <= digit <= '9');
    assert(digit as nat - 48 == n % 10);
    if n >= 10 {
        lemma_digits_of_decimal(n / 10);
        let shorter = decimal(n / 10);
        assert(decimal(n).drop_last() =~= shorter);
        assert(decimal(n).last() == digit);
        assert(decimal(n)[0] == shorter[0]);
    }
}

/// What the wheel writes is what the match reads: the entry for `change`
/// steps up asks for `change` more, the entry for `change` steps down for
/// `change` less, as long as an `i8` holds the number.
pub proof fn lemma_scroll_entry_round_trip(up: bool, change: nat)
    requires
        change <= 127,
    ensures
        scroll_step(scroll_entry(up, change)) == Some(
            if up {
                change as i8
            } else {
                (-(change as int)) as i8
            },
        ),
{
    reveal_strlit("ScrollUp:");
    reveal_strlit("ScrollDown:");
    lemma_digits_of_decimal(change);
    let entry = scroll_entry(up, change);
    if up {
        assert(entry.subrange(0, 9) =~= "ScrollUp:"@);
        assert(entry.skip(9) =~= decimal(change));
    } else {
        assert(entry.subrange(0, 11) =~= "ScrollDown:"@);
        assert(entry.skip(11) =~= decimal(change));
        assert(entry[6] == 'D');
        assert(!starts_with(entry, "ScrollUp:"@)) by {
            if starts_with(entry, "ScrollUp:"@) {
                assert(entry.subrange(0, 9)[6] == "ScrollUp:"@[6]);
            }
        }
    }
}

/// Whether `s` begins with `prefix`.
pub fn has_prefix(s: &str, prefix: &str) -> (r: bool)
    ensures
        r == starts_with(s@, prefix@),
{
    let n: usize = prefix.unicode_len();
    if s.unicode_len() < n {
        return false;
    }
    let mut i: usize = 0;
    while i < n
        invariant
            0 <= i <= n,
            n == prefix@.len(),
            s@.len() >= n,
            forall|k: int| 0 <= k < i ==> s@[k] == prefix@[k],
        decreases n - i,
    {
        if s.get_char(i) != prefix.get_char(i) {
            assert(s@.subrange(0, n as int)[i as int] != prefix@[i as int]);
            return false;
        }
        i = i + 1;
    }
    assert(s@.subrange(0, n as int) =~= prefix@);
    true
}

/// The value of the decimal digits of `s` from place `from` on, where it
/// is at most 128: a larger value is given as 129.
fn digits_from(s: &str, from: usize) -> (r: Option<u8>)
    requires
        from <= s@.len(),
    ensures
        r.is_some() == digits_value(s@.skip(from as int)).is_some(),
        r.is_some() ==> r.unwrap() == if digits_value(s@.skip(from as int)).unwrap() > 128 {
            129
        } else {
            digits_value(s@.skip(from as int)).unwrap()
        },
{
    let n: usize = s.unicode_len();
    if from >= n {
        return None;
    }
    let ghost t = s@.skip(from as int);
    let mut value: u8 = 0;
    let ghost mut exact: nat = 0;
    let mut i: usize = from;
    while i < n
        invariant
            from <= i <= n,
            n == s@.len(),
            t == s@.skip(from as int),
            i > from ==> digits_value(t.subrange(0, i - from)) == Some(exact),
            i == from ==> exact == 0,
            value == if exact > 128 {
                129
            } else {
                exact
            },
        decreases n - i,
    {
        let c: char = s.get_char(i);
        let ghost head = t.subrange(0, i - from + 1);
        assert(head.last() == c);
        assert(head.drop_last() =~= t.subrange(0, i - from));
        if !('0' <= c && c <= '9') {
            proof {
                lemma_bad_digit(t, i - from);
            }
            return None;
        }
        let d: u8 = (c as u32 - 48) as u8;
        value = if value > 12 {
            129
        } else {
            let wide: u16 = value as u16 * 10 + d as u16;
            if wide > 128 {
                129
            } else {
                wide as u8
            }
        };
        proof {
            exact = if i == from {
                d as nat
            } else {
                exact * 10 + d as nat
            };
        }
        i = i + 1;
    }
    assert(t.subrange(0, n - from) =~= t);
    Some(value)
}

/// A string with a character that is no digit has no value.
proof fn lemma_bad_digit(s: Seq<char>, at: int)
    requires
        0 <= at < s.len(),
        !('0' <= s[at] <= '9'),
    ensures
        digits_value(s).is_none(),
    decreases s.len(),
{
    if at < s.len() - 1 {
        lemma_bad_digit(s.drop_last(), at);
    }
}

/// Reads the `i8` that `s` writes from place `from` on.
fn parse_i8_from(s: &str, from: usize) -> (r: Option<i8>)
    requires
        from <= s@.len(),
    ensures
        r == parse_i8(s@.skip(from as int)),
{
    let n: usize = s.unicode_len();
    let ghost t = s@.skip(from as int);
    if from < n && s.get_char(from) == '-' {
        assert(t.skip(1) =~= s@.skip(from as int + 1));
        match digits_from(s, from + 1) {
            Some(v) => if v <= 128 {
                Some((-(v as i16)) as i8)
            } else {
                None
            },
            None => None,
        }
    } else if from < n && s.get_char(from) == '+' {
        assert(t.skip(1) =~= s@.skip(from as int + 1));
        match digits_from(s, from + 1) {
            Some(v) => if v <= 127 {
                Some(v as i8)
            } else {
                None
            },
            None => None,
        }
    } else {
        match digits_from(s, from) {
            Some(v) => if v <= 127 {
                Some(v as i8)
            } else {
                None
            },
            None => None,
        }
    }
}

/// The change of capacity that an entry of the just-pressed list asks
/// for.
pub fn read_scroll_step(key: &str) -> (r: Option<i8>)
    ensures
        r == scroll_step(key@),
{
    proof {
        reveal_strlit("ScrollUp:");
        reveal_strlit("ScrollDown:");
    }
    if has_prefix(key, "ScrollUp:") {
        parse_i8_from(key, 9)
    } else if has_prefix(key, "ScrollDown:") {
        match parse_i8_from(key, 11) {
            Some(v) => if v == -128 {
                Some(127)
            } else {
                Some(-v)
            },
            None => None,
        }
    } else {
        None
    }
}

/// The entry of the just-pressed list that stands for `change` steps of
/// the wheel.
pub fn write_scroll_entry(up: bool, change: u32) -> (r: String)
    ensures
        r@ == scroll_entry(up, change as nat),
{
    let mut entry: String = if up {
        "ScrollUp:".to_owned()
    } else {
        "ScrollDown:".to_owned()
    };
    let digits: String = decimal_string(change as u128);
    entry.append(digits.as_str());
    entry
}

/// Whether one of `set` reads `name`.
pub open spec fn holds(set: Seq<String>, name: Seq<char>) -> bool {
    exists|i: int| 0 <= i < set.len() && (#[trigger] set[i])@ == name
}

/// Whether `combo` is active in `set`: the set holds the name of its key,
/// button or scroll direction and of each of its modifiers.
pub open spec fn combo_active(combo: KeyCombo, set: Seq<String>) -> bool {
    &&& forall|m: int|
        0 <= m < combo.modifiers@.len() ==> holds(set, (#[trigger] combo.modifiers@[m]).name())
    &&& holds(set, combo.input.name())
}

/// Whether one of `combos` is active in `set`.
pub open spec fn any_combo_active(combos: Seq<KeyCombo>, set: Seq<String>) -> bool {
    exists|c: int| 0 <= c < combos.len() && combo_active(#[trigger] combos[c], set)
}

/// Whether one of `set` reads `name`.
pub fn contains_name(set: &Vec<String>, name: &str) -> (r: bool)
    ensures
        r == holds(set@, name@),
{
    let wanted: String = name.to_owned();
    let mut i: usize = 0;
    while i < set.len()
        invariant
            0 <= i <= set@.len(),
            wanted@ == name@,
            forall|k: int| 0 <= k < i ==> (#[trigger] set@[k])@ != name@,
        decreases set@.len() - i,
    {
        if set[i] == wanted {
            return true;
        }
        i = i + 1;
    }
    false
}

/// Whether `combo` is active in `set`.
pub fn is_combo_pressed(combo: &KeyCombo, set: &Vec<String>) -> (r: bool)
    ensures
        r == combo_active(*combo, set@),
{
    let mut m: usize = 0;
    while m < combo.modifiers.len()
        invariant
            0 <= m <= combo.modifiers@.len(),
            forall|k: int|
                0 <= k < m ==> holds(set@, (#[trigger] combo.modifiers@[k]).name()),
        decreases combo.modifiers@.len() - m,
    {
        let name: String = combo.modifiers[m].to_string();
        if !contains_name(set, name.as_str()) {
            return false;
        }
        m = m + 1;
    }
    contains_name(set, combo.input.as_string())
}

/// What is held and what was just pressed or released, by name.
#[derive(Debug, Clone, Default)]
pub struct InputState {
    pub pressed: Vec<String>,
    pub just_pressed: Vec<String>,
    pub just_released: Vec<String>,
}

/// What an input device reports. Keys and buttons come by the name the
/// host gives them, the wheel with the number of steps it turned.
#[derive(Debug, Clone)]
pub enum InputEvent {
    KeyPress(String),
    KeyRelease(String),
    ButtonPress(String),
    ButtonRelease(String),
    Wheel(i64),
    Other,
}

/// What the player asked for in one frame.
#[derive(Debug, Clone)]
pub struct FrameInput {
    pub toggle_debug: bool,
    pub confirm: bool,
    pub escape: bool,
    pub stop: bool,
    pub scroll_up: bool,
    pub scroll_down: bool,
    pub speed_up: bool,
    pub speed_down: bool,
    pub move_left: bool,
    pub move_right: bool,
    pub fire: bool,
    pub fire_homing: bool,
    pub pause: bool,
    pub accelerate: bool,
    pub slow_down: bool,
    /// The changes of capacity that the wheel asked for, in order.
    pub scroll_steps: Vec<i8>,
}

/// The changes of capacity that the entries `entries` ask for, in order.
pub open spec fn steps_of(entries: Seq<Seq<char>>) -> Seq<i8>
    decreases entries.len(),
{
    if entries.len() == 0 {
        Seq::empty()
    } else {
        match scroll_step(entries.last()) {
            Some(v) => steps_of(entries.drop_last()).push(v),
            None => steps_of(entries.drop_last()),
        }
    }
}

/// How many whole steps an accumulator of `amount` holds, as far as an
/// `i32` counts.
pub open spec fn whole_steps(amount: i64) -> nat {
    if amount / UNIT > i32::MAX {
        i32::MAX as nat
    } else if amount < 0 {
        0
    } else {
        (amount / UNIT) as nat
    }
}

/// The default bindings of the action at `index`.
pub open spec fn default_binding(index: int) -> Seq<ComboModel> {
    if index == 0 {
        seq![plain(InputKind::Key, "KeyW"@)]
    } else if index == 1 {
        seq![plain(InputKind::Key, "KeyS"@)]
    } else if index == 2 {
        seq![plain(InputKind::Key, "KeyA"@)]
    } else if index == 3 {
        seq![plain(InputKind::Key, "KeyD"@)]
    } else if index == 4 {
        seq![plain(InputKind::Mouse, "Middle"@)]
    } else if index == 5 {
        seq![plain(InputKind::Mouse, "Left"@), plain(InputKind::Key, "KeyQ"@)]
    } else if index == 6 {
        seq![plain(InputKind::Mouse, "Right"@), plain(InputKind::Key, "KeyE"@)]
    } else if index == 7 {
        seq![plain(InputKind::Key, "F3"@)]
    } else if index == 8 {
        seq![plain(InputKind::Key, "Escape"@)]
    } else if index == 9 {
        seq![plain(InputKind::Key, "Return"@)]
    } else if index == 10 {
        seq![plain(InputKind::Key, "Space"@)]
    } else if index == 11 {
        seq![plain(InputKind::Key, "Tab"@)]
    } else if index == 12 {
        seq![plain(InputKind::Key, "ShiftLeft"@)]
    } else if index == 13 {
        seq![plain(InputKind::Scroll, "ScrollUp"@)]
    } else {
        seq![plain(InputKind::Scroll, "ScrollDown"@)]
    }
}

/// The combos of a list as mathematical values.
pub open spec fn combo_models(combos: Seq<KeyCombo>) -> Seq<ComboModel> {
    combos.map_values(|c: KeyCombo| c@)
}

/// The bindings of every action, and the state of the input devices.
#[derive(Debug)]
pub struct KeyBindings {
    /// The combos of each action, at the action's index.
    pub bindings: Vec<Vec<KeyCombo>>,
    pub input_state: InputState,
    pub scroll_state: ScrollState,
    pub scroll_accumulator: i64,
    pub scroll_sensitivity: i64,
}

impl KeyBindings {
    /// There is a list of combos for every action.
    pub open spec fn wf(&self) -> bool {
        self.bindings@.len() == ACTION_COUNT
    }

    /// Whether `action` is active in `set`.
    pub open spec fn active(&self, set: Seq<String>, action: Action) -> bool {
        any_combo_active(self.bindings@[action.spec_index()]@, set)
    }

    /// Bindings with no combo for any action, nothing held, the wheel at
    /// rest and a scroll sensitivity of one.
    pub fn new() -> (kb: KeyBindings)
        ensures
            kb.wf(),
            forall|i: int| 0 <= i < ACTION_COUNT ==> (#[trigger] kb.bindings@[i])@.len() == 0,
            kb.input_state.pressed@.len() == 0,
            kb.input_state.just_pressed@.len() == 0,
            kb.input_state.just_released@.len() == 0,
            kb.scroll_state == ScrollState::Idle,
            kb.scroll_accumulator == 0,
            kb.scroll_sensitivity == UNIT,
    {
        let mut bindings: Vec<Vec<KeyCombo>> = Vec::new();
        let mut i: usize = 0;
        while i < ACTION_COUNT
            invariant
                0 <= i <= ACTION_COUNT,
                bindings@.len() == i,
                forall|k: int| 0 <= k < i ==> (#[trigger] bindings@[k])@.len() == 0,
            decreases ACTION_COUNT - i,
        {
            bindings.push(Vec::new());
            i = i + 1;
        }
        KeyBindings {
            bindings,
            input_state: InputState {
                pressed: Vec::new(),
                just_pressed: Vec::new(),
                just_released: Vec::new(),
            },
            scroll_state: ScrollState::Idle,
            scroll_accumulator: 0,
            scroll_sensitivity: UNIT,
        }
    }

    /// Adds `combo` to the combos of `action`.
    pub fn bind(&mut self, action: Action, combo: KeyCombo)
        requires
            old(self).wf(),
        ensures
            final(self).wf(),
            final(self).bindings@[action.spec_index()]@ == old(self).bindings@[action.spec_index()]@.push(
                combo,
            ),
            forall|i: int|
                0 <= i < ACTION_COUNT && i != action.spec_index() ==> #[trigger] final(self).bindings@[i] == old(self).bindings@[i],
            final(self).input_state == old(self).input_state,
            final(self).scroll_state == old(self).scroll_state,
            final(self).scroll_accumulator == old(self).scroll_accumulator,
            final(self).scroll_sensitivity == old(self).scroll_sensitivity,
    {
        let i: usize = action.index();
        self.bindings[i].push(combo);
    }

    /// Binds the keyboard key that the host calls `key`, without
    /// modifiers.
    pub fn bind_key(&mut self, action: Action, key: &str)
        requires
            old(self).wf(),
        ensures
            final(self).wf(),
            final(self).bindings@[action.spec_index()]@.len() == old(
                self,
            ).bindings@[action.spec_index()]@.len() + 1,
            final(self).bindings@[action.spec_index()]@.drop_last() == old(
                self,
            ).bindings@[action.spec_index()]@,
            final(self).bindings@[action.spec_index()]@.last().input matches KeyInput::Key(n)
                && n@ == key@,
            final(self).bindings@[action.spec_index()]@.last().modifiers@.len() == 0,
            forall|i: int|
                0 <= i < ACTION_COUNT && i != action.spec_index() ==> #[trigger] final(self).bindings@[i] == old(self).bindings@[i],
            final(self).input_state == old(self).input_state,
    {
        let ghost before = self.bindings@[action.spec_index()]@;
        let combo = KeyCombo { input: KeyInput::from_key(key), modifiers: Vec::new() };
        self.bind(action, combo);
        assert(before.push(combo).drop_last() =~= before);
    }

    /// Binds the mouse button that the host calls `button`, without
    /// modifiers.
    pub fn bind_mouse(&mut self, action: Action, button: &str)
        requires
            old(self).wf(),
        ensures
            final(self).wf(),
            final(self).bindings@[action.spec_index()]@.len() == old(
                self,
            ).bindings@[action.spec_index()]@.len() + 1,
            final(self).bindings@[action.spec_index()]@.drop_last() == old(
                self,
            ).bindings@[action.spec_index()]@,
            final(self).bindings@[action.spec_index()]@.last().input matches KeyInput::Mouse(n)
                && n@ == button@,
            final(self).bindings@[action.spec_index()]@.last().modifiers@.len() == 0,
            forall|i: int|
                0 <= i < ACTION_COUNT && i != action.spec_index() ==> #[trigger] final(self).bindings@[i] == old(self).bindings@[i],
            final(self).input_state == old(self).input_state,
    {
        let ghost before = self.bindings@[action.spec_index()]@;
        let combo = KeyCombo { input: KeyInput::from_button(button), modifiers: Vec::new() };
        self.bind(action, combo);
        assert(before.push(combo).drop_last() =~= before);
    }

    /// Records what an input device reported. A key or button that goes
    /// down is held and just pressed, unless it was held already; one that
    /// goes up is held no more and just released. A turn of the wheel,
    /// scaled by the sensitivity, goes into the accumulator; the whole
    /// steps that the accumulator then holds are taken out of it and noted
    /// among the just pressed as one scroll entry.
    pub fn record(&mut self, event: InputEvent)
        ensures
            final(self).bindings == old(self).bindings,
            final(self).scroll_sensitivity == old(self).scroll_sensitivity,
            match event {
                InputEvent::KeyPress(k) | InputEvent::ButtonPress(k) => {
                    &&& names(final(self).input_state.pressed@) == if lists(
                        names(old(self).input_state.pressed@),
                        k@,
                    ) {
                        names(old(self).input_state.pressed@)
                    } else {
                        names(old(self).input_state.pressed@).push(k@)
                    }
                    &&& names(final(self).input_state.just_pressed@) == if lists(
                        names(old(self).input_state.pressed@),
                        k@,
                    ) {
                        names(old(self).input_state.just_pressed@)
                    } else {
                        names(old(self).input_state.just_pressed@).push(k@)
                    }
                    &&& final(self).input_state.just_released == old(
                        self,
                    ).input_state.just_released
                    &&& final(self).scroll_state == old(self).scroll_state
                    &&& final(self).scroll_accumulator == old(self).scroll_accumulator
                },
                InputEvent::KeyRelease(k) | InputEvent::ButtonRelease(k) => {
                    &&& names(final(self).input_state.pressed@) == without_name(
                        names(old(self).input_state.pressed@),
                        k@,
                    )
                    &&& names(final(self).input_state.just_released@) == names(
                        old(self).input_state.just_released@,
                    ).push(k@)
                    &&& final(self).input_state.just_pressed == old(self).input_state.just_pressed
                    &&& final(self).scroll_state == old(self).scroll_state
                    &&& final(self).scroll_accumulator == old(self).scroll_accumulator
                },
                InputEvent::Wheel(delta_y) => {
                    let turned = spec_sat_add(
                        old(self).scroll_accumulator,
                        spec_sat_ratio(old(self).scroll_sensitivity, delta_y, 1),
                    );
                    let up = whole_steps(turned);
                    let down = whole_steps(spec_sat_sub(0, turned));
                    &&& final(self).input_state.pressed == old(self).input_state.pressed
                    &&& final(self).input_state.just_released == old(
                        self,
                    ).input_state.just_released
                    &&& final(self).scroll_state == if turned > 0 {
                        ScrollState::Up
                    } else if turned < 0 {
                        ScrollState::Down
                    } else {
                        ScrollState::Idle
                    }
                    &&& final(self).scroll_accumulator == if turned > 0 {
                        turned - up * UNIT
                    } else {
                        turned + down * UNIT
                    }
                    &&& names(final(self).input_state.just_pressed@) == if turned > 0 && up != 0 {
                        names(old(self).input_state.just_pressed@).push(scroll_entry(true, up))
                    } else if turned < 0 && down != 0 {
                        names(old(self).input_state.just_pressed@).push(scroll_entry(false, down))
                    } else {
                        names(old(self).input_state.just_pressed@)
                    }
                },
                InputEvent::Other => {
                    &&& final(self).input_state == old(self).input_state
                    &&& final(self).scroll_state == old(self).scroll_state
                    &&& final(self).scroll_accumulator == old(self).scroll_accumulator
                },
            },
    {
        match event {
            InputEvent::KeyPress(k) => {
                self.press(k);
            },
            InputEvent::ButtonPress(k) => {
                self.press(k);
            },
            InputEvent::KeyRelease(k) => {
                self.release(k);
            },
            InputEvent::ButtonRelease(k) => {
                self.release(k);
            },
            InputEvent::Wheel(delta_y) => {
                self.turn_wheel(delta_y);
            },
            InputEvent::Other => {},
        }
    }

    fn press(&mut self, k: String)
        ensures
            final(self).bindings == old(self).bindings,
            final(self).scroll_sensitivity == old(self).scroll_sensitivity,
            final(self).scroll_state == old(self).scroll_state,
            final(self).scroll_accumulator == old(self).scroll_accumulator,
            final(self).input_state.just_released == old(self).input_state.just_released,
            names(final(self).input_state.pressed@) == if lists(
                names(old(self).input_state.pressed@),
                k@,
            ) {
                names(old(self).input_state.pressed@)
            } else {
                names(old(self).input_state.pressed@).push(k@)
            },
            names(final(self).input_state.just_pressed@) == if lists(
                names(old(self).input_state.pressed@),
                k@,
            ) {
                names(old(self).input_state.just_pressed@)
            } else {
                names(old(self).input_state.just_pressed@).push(k@)
            },
    {
        let ghost held = names(self.input_state.pressed@);
        let ghost fresh = names(self.input_state.just_pressed@);
        let known: bool = contains_name(&self.input_state.pressed, k.as_str());
        proof {
            if known {
                let i = choose|i: int|
                    0 <= i < self.input_state.pressed@.len() && (
                    #[trigger] self.input_state.pressed@[i])@ == k@;
                assert(held[i] == k@);
            }
            if lists(held, k@) {
                let i = choose|i: int| 0 <= i < held.len() && #[trigger] held[i] == k@;
                assert(self.input_state.pressed@[i]@ == k@);
            }
        }
        if !known {
            self.input_state.pressed.push(k.clone());
            self.input_state.just_pressed.push(k);
            assert(names(self.input_state.pressed@) =~= held.push(k@));
            assert(names(self.input_state.just_pressed@) =~= fresh.push(k@));
        }
    }

    fn release(&mut self, k: String)
        ensures
            final(self).bindings == old(self).bindings,
            final(self).scroll_sensitivity == old(self).scroll_sensitivity,
            final(self).scroll_state == old(self).scroll_state,
            final(self).scroll_accumulator == old(self).scroll_accumulator,
            final(self).input_state.just_pressed == old(self).input_state.just_pressed,
            names(final(self).input_state.pressed@) == without_name(
                names(old(self).input_state.pressed@),
                k@,
            ),
            names(final(self).input_state.just_released@) == names(
                old(self).input_state.just_released@,
            ).push(k@),
    {
        let ghost held = names(self.input_state.pressed@);
        let ghost gone = names(self.input_state.just_released@);
        let mut kept: Vec<String> = Vec::new();
        let mut i: usize = 0;
        assert(held.subrange(0, 0) =~= Seq::<Seq<char>>::empty());
        while i < self.input_state.pressed.len()
            invariant
                0 <= i <= self.input_state.pressed@.len(),
                *self == *old(self),
                held == names(self.input_state.pressed@),
                names(kept@) == without_name(held.subrange(0, i as int), k@),
            decreases self.input_state.pressed@.len() - i,
        {
            let ghost shorter = held.subrange(0, i as int);
            let ghost longer = held.subrange(0, i as int + 1);
            let ghost sofar = names(kept@);
            assert(longer.drop_last() =~= shorter);
            assert(longer.last() == self.input_state.pressed@[i as int]@);
            if !(self.input_state.pressed[i] == k) {
                kept.push(self.input_state.pressed[i].clone());
                assert(names(kept@) =~= sofar.push(self.input_state.pressed@[i as int]@));
            }
            i = i + 1;
        }
        assert(held.subrange(0, i as int) =~= held);
        self.input_state.pressed = kept;
        self.input_state.just_released.push(k);
        assert(names(self.input_state.just_released@) =~= gone.push(k@));
    }

    fn turn_wheel(&mut self, delta_y: i64)
        ensures
            final(self).bindings == old(self).bindings,
            final(self).scroll_sensitivity == old(self).scroll_sensitivity,
            final(self).input_state.pressed == old(self).input_state.pressed,
            final(self).input_state.just_released == old(self).input_state.just_released,
            ({
                let turned = spec_sat_add(
                    old(self).scroll_accumulator,
                    spec_sat_ratio(old(self).scroll_sensitivity, delta_y, 1),
                );
                let up = whole_steps(turned);
                let down = whole_steps(spec_sat_sub(0, turned));
                &&& final(self).scroll_state == if turned > 0 {
                    ScrollState::Up
                } else if turned < 0 {
                    ScrollState::Down
                } else {
                    ScrollState::Idle
                }
                &&& final(self).scroll_accumulator == if turned > 0 {
                    turned - up * UNIT
                } else {
                    turned + down * UNIT
                }
                &&& names(final(self).input_state.just_pressed@) == if turned > 0 && up != 0 {
                    names(old(self).input_state.just_pressed@).push(scroll_entry(true, up))
                } else if turned < 0 && down != 0 {
                    names(old(self).input_state.just_pressed@).push(scroll_entry(false, down))
                } else {
                    names(old(self).input_state.just_pressed@)
                }
            }),
    {
        let ghost fresh = names(self.input_state.just_pressed@);
        let turned: i64 = sat_add(self.scroll_accumulator, sat_ratio(self.scroll_sensitivity, delta_y, 1));
        self.scroll_accumulator = turned;
        if turned > 0 {
            self.scroll_state = ScrollState::Up;
            let whole: i64 = turned / UNIT;
            let change: u32 = if whole > i32::MAX as i64 {
                i32::MAX as u32
            } else {
                whole as u32
            };
            if change != 0 {
                let entry: String = write_scroll_entry(true, change);
                self.input_state.just_pressed.push(entry);
                assert(names(self.input_state.just_pressed@) =~= fresh.push(entry@));
                self.scroll_accumulator = turned - (change as i64) * UNIT;
            }
        } else if turned < 0 {
            self.scroll_state = ScrollState::Down;
            let whole: i64 = sat_sub(0, turned) / UNIT;
            let change: u32 = if whole > i32::MAX as i64 {
                i32::MAX as u32
            } else {
                whole as u32
            };
            if change != 0 {
                let entry: String = write_scroll_entry(false, change);
                self.input_state.just_pressed.push(entry);
                assert(names(self.input_state.just_pressed@) =~= fresh.push(entry@));
                self.scroll_accumulator = turned + (change as i64) * UNIT;
            }
        } else {
            self.scroll_state = ScrollState::Idle;
        }
    }

    /// Whether `input` is what the player asks for in this frame: which
    /// actions are held, which were just pressed, and what the wheel asked
    /// for.
    pub open spec fn reads_as(&self, input: FrameInput) -> bool {
        &&& input.toggle_debug == self.active(self.input_state.just_pressed@, Action::ToggleDebug)
        &&& input.confirm == self.active(self.input_state.just_pressed@, Action::Confirm)
        &&& input.escape == self.active(self.input_state.just_pressed@, Action::Escape)
        &&& input.stop == self.active(self.input_state.just_pressed@, Action::Stop)
        &&& input.scroll_up == self.active(self.input_state.just_pressed@, Action::ScrollUp)
        &&& input.scroll_down == self.active(self.input_state.just_pressed@, Action::ScrollDown)
        &&& input.speed_up == self.active(self.input_state.pressed@, Action::SpeedUp)
        &&& input.speed_down == self.active(self.input_state.pressed@, Action::SpeedDown)
        &&& input.move_left == self.active(self.input_state.pressed@, Action::MoveLeft)
        &&& input.move_right == self.active(self.input_state.pressed@, Action::MoveRight)
        &&& input.fire == self.active(self.input_state.pressed@, Action::Fire)
        &&& input.fire_homing == self.active(self.input_state.pressed@, Action::FireHoming)
        &&& input.pause == self.active(self.input_state.pressed@, Action::Pause)
        &&& input.accelerate == self.active(self.input_state.pressed@, Action::Accelerate)
        &&& input.slow_down == self.active(self.input_state.pressed@, Action::SlowDown)
        &&& input.scroll_steps@ == steps_of(names(self.input_state.just_pressed@))
    }

    /// What the player asks for in this frame.
    pub fn frame_input(&self) -> (input: FrameInput)
        requires
            self.wf(),
        ensures
            self.reads_as(input),
    {
        let ghost entries = names(self.input_state.just_pressed@);
        let mut scroll_steps: Vec<i8> = Vec::new();
        let mut i: usize = 0;
        assert(entries.subrange(0, 0) =~= Seq::<Seq<char>>::empty());
        while i < self.input_state.just_pressed.len()
            invariant
                0 <= i <= self.input_state.just_pressed@.len(),
                entries == names(self.input_state.just_pressed@),
                scroll_steps@ == steps_of(entries.subrange(0, i as int)),
            decreases self.input_state.just_pressed@.len() - i,
        {
            let ghost longer = entries.subrange(0, i as int + 1);
            assert(longer.drop_last() =~= entries.subrange(0, i as int));
            assert(longer.last() == self.input_state.just_pressed@[i as int]@);
            match read_scroll_step(self.input_state.just_pressed[i].as_str()) {
                Some(v) => {
                    scroll_steps.push(v);
                },
                None => {},
            }
            i = i + 1;
        }
        assert(entries.subrange(0, i as int) =~= entries);
        FrameInput {
            toggle_debug: self.is_action_pressed(Action::ToggleDebug),
            confirm: self.is_action_pressed(Action::Confirm),
            escape: self.is_action_pressed(Action::Escape),
            stop: self.is_action_pressed(Action::Stop),
            scroll_up: self.is_action_pressed(Action::ScrollUp),
            scroll_down: self.is_action_pressed(Action::ScrollDown),
            speed_up: self.is_action_held(Action::SpeedUp),
            speed_down: self.is_action_held(Action::SpeedDown),
            move_left: self.is_action_held(Action::MoveLeft),
            move_right: self.is_action_held(Action::MoveRight),
            fire: self.is_action_held(Action::Fire),
            fire_homing: self.is_action_held(Action::FireHoming),
            pause: self.is_action_held(Action::Pause),
            accelerate: self.is_action_held(Action::Accelerate),
            slow_down: self.is_action_held(Action::SlowDown),
            scroll_steps,
        }
    }

    /// Forgets what was just pressed and just released, and lets the wheel
    /// rest. What is held stays.
    pub fn clear_events(&mut self)
        ensures
            final(self).input_state.just_pressed@.len() == 0,
            final(self).input_state.just_released@.len() == 0,
            final(self).scroll_state == ScrollState::Idle,
            final(self).input_state.pressed == old(self).input_state.pressed,
            final(self).bindings == old(self).bindings,
            final(self).scroll_accumulator == old(self).scroll_accumulator,
            final(self).scroll_sensitivity == old(self).scroll_sensitivity,
    {
        self.input_state.just_pressed.clear();
        self.input_state.just_released.clear();
        self.scroll_state = ScrollState::Idle;
    }

    /// Sets how far one step of the wheel counts; it counts for a tenth at
    /// least.
    pub fn set_scroll_sensitivity(&mut self, sensitivity: i64)
        ensures
            final(self).scroll_sensitivity == if sensitivity < UNIT / 10 {
                (UNIT / 10) as i64
            } else {
                sensitivity
            },
            final(self).bindings == old(self).bindings,
            final(self).input_state == old(self).input_state,
            final(self).scroll_state == old(self).scroll_state,
            final(self).scroll_accumulator == old(self).scroll_accumulator,
    {
        self.scroll_sensitivity = if sensitivity < UNIT / 10 {
            UNIT / 10
        } else {
            sensitivity
        };
    }

    /// The name that stands for the wheel's state among the held keys.
    pub open spec fn scroll_name(state: ScrollState) -> Seq<char> {
        match state {
            ScrollState::Idle => "Scroll_Idle"@,
            ScrollState::Up => "Scroll_Up"@,
            ScrollState::Down => "Scroll_Down"@,
        }
    }

    /// The names of what is held, and after them the state of the wheel.
    pub fn get_held_keys(&self) -> (held: Vec<String>)
        ensures
            held@.len() == self.input_state.pressed@.len() + 1,
            forall|i: int|
                0 <= i < self.input_state.pressed@.len() ==> (#[trigger] held@[i])@
                    == self.input_state.pressed@[i]@,
            held@.last()@ == Self::scroll_name(self.scroll_state),
    {
        let mut held: Vec<String> = Vec::new();
        let mut i: usize = 0;
        while i < self.input_state.pressed.len()
            invariant
                0 <= i <= self.input_state.pressed@.len(),
                held@.len() == i,
                forall|k: int|
                    0 <= k < i ==> (#[trigger] held@[k])@ == self.input_state.pressed@[k]@,
            decreases self.input_state.pressed@.len() - i,
        {
            held.push(self.input_state.pressed[i].clone());
            i = i + 1;
        }
        let scroll: String = match self.scroll_state {
            ScrollState::Idle => "Scroll_Idle".to_owned(),
            ScrollState::Up => "Scroll_Up".to_owned(),
            ScrollState::Down => "Scroll_Down".to_owned(),
        };
        held.push(scroll);
        held
    }

    /// Whether one of the combos of `action` is active in `set`.
    pub fn is_combo_active(&self, set: &Vec<String>, action: Action) -> (r: bool)
        requires
            self.wf(),
        ensures
            r == self.active(set@, action),
    {
        let combos = &self.bindings[action.index()];
        let mut c: usize = 0;
        while c < combos.len()
            invariant
                0 <= c <= combos@.len(),
                combos@ == self.bindings@[action.spec_index()]@,
                forall|k: int| 0 <= k < c ==> !combo_active(#[trigger] combos@[k], set@),
            decreases combos@.len() - c,
        {
            if is_combo_pressed(&combos[c], set) {
                return true;
            }
            c = c + 1;
        }
        false
    }

    /// Whether `action` is held.
    pub fn is_action_held(&self, action: Action) -> (r: bool)
        requires
            self.wf(),
        ensures
            r == self.active(self.input_state.pressed@, action),
    {
        self.is_combo_active(&self.input_state.pressed, action)
    }

    /// Whether `action` was just pressed.
    pub fn is_action_pressed(&self, action: Action) -> (r: bool)
        requires
            self.wf(),
        ensures
            r == self.active(self.input_state.just_pressed@, action),
    {
        self.is_combo_active(&self.input_state.just_pressed, action)
    }

    /// Whether `action` was just released.
    pub fn is_action_released(&self, action: Action) -> (r: bool)
        requires
            self.wf(),
        ensures
            r == self.active(self.input_state.just_released@, action),
    {
        self.is_combo_active(&self.input_state.just_released, action)
    }
}

/// The bindings a player starts with: W and S for thrust, A and D for
/// steering, the mouse buttons or Q and E to fire, the wheel for the
/// missile capacity, and keys for the menus and the clock.
pub fn default_keybindings() -> (kb: KeyBindings)
    ensures
        kb.wf(),
        forall|i: int|
            0 <= i < ACTION_COUNT ==> combo_models((#[trigger] kb.bindings@[i])@) == default_binding(i),
        kb.input_state.pressed@.len() == 0,
        kb.input_state.just_pressed@.len() == 0,
        kb.input_state.just_released@.len() == 0,
        kb.scroll_state == ScrollState::Idle,
        kb.scroll_accumulator == 0,
        kb.scroll_sensitivity == UNIT,
{
    let mut kb = KeyBindings::new();
    assert forall|i: int| 0 <= i < ACTION_COUNT implies combo_models((#[trigger] kb.bindings@[i])@)
        =~= Seq::<ComboModel>::empty() by {}
    kb.bind_plain(Action::SpeedUp, InputKind::Key, "KeyW");
    kb.bind_plain(Action::SpeedDown, InputKind::Key, "KeyS");
    kb.bind_plain(Action::MoveLeft, InputKind::Key, "KeyA");
    kb.bind_plain(Action::MoveRight, InputKind::Key, "KeyD");
    kb.bind_plain(Action::Stop, InputKind::Mouse, "Middle");
    kb.bind_plain(Action::Fire, InputKind::Mouse, "Left");
    kb.bind_plain(Action::FireHoming, InputKind::Mouse, "Right");
    kb.bind_plain(Action::Fire, InputKind::Key, "KeyQ");
    kb.bind_plain(Action::FireHoming, InputKind::Key, "KeyE");
    kb.bind_plain(Action::ToggleDebug, InputKind::Key, "F3");
    kb.bind_plain(Action::Confirm, InputKind::Key, "Return");
    kb.bind_plain(Action::Escape, InputKind::Key, "Escape");
    kb.bind_plain(Action::Pause, InputKind::Key, "Space");
    kb.bind_plain(Action::Accelerate, InputKind::Key, "Tab");
    kb.bind_plain(Action::SlowDown, InputKind::Key, "ShiftLeft");
    kb.bind_plain(Action::ScrollUp, InputKind::Scroll, "ScrollUp");
    kb.bind_plain(Action::ScrollDown, InputKind::Scroll, "ScrollDown");
    assert forall|i: int| 0 <= i < ACTION_COUNT implies combo_models((#[trigger] kb.bindings@[i])@)
        =~= default_binding(i) by {}
    kb
}

impl KeyBindings {
    /// Binds the input of the given kind and name, without modifiers.
    pub fn bind_plain(&mut self, action: Action, kind: InputKind, name: &str)
        requires
            old(self).wf(),
        ensures
            final(self).wf(),
            combo_models(final(self).bindings@[action.spec_index()]@) == combo_models(
                old(self).bindings@[action.spec_index()]@,
            ).push(plain(kind, name@)),
            forall|i: int|
                0 <= i < ACTION_COUNT && i != action.spec_index() ==> #[trigger] final(self).bindings@[i]
                    == old(self).bindings@[i],
            final(self).input_state == old(self).input_state,
            final(self).scroll_state == old(self).scroll_state,
            final(self).scroll_accumulator == old(self).scroll_accumulator,
            final(self).scroll_sensitivity == old(self).scroll_sensitivity,
    {
        let ghost before = self.bindings@[action.spec_index()]@;
        let input: KeyInput = match kind {
            InputKind::Key => KeyInput::from_key(name),
            InputKind::Mouse => KeyInput::from_button(name),
            InputKind::Scroll => KeyInput::Scroll(name.to_owned()),
        };
        let combo = KeyCombo { input, modifiers: Vec::new() };
        assert(combo@ == plain(kind, name@)) by {
            assert(combo.modifiers@ =~= Seq::<Modifier>::empty());
        }
        self.bind(action, combo);
        assert(combo_models(before.push(combo)) =~= combo_models(before).push(combo@));
    }
}

} // verus!
