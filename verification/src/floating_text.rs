//! Score popups: a short text that drifts for a while and then goes.
use vstd::prelude::*;
use vstd::string::StringExecFns;
use crate::entity::{generate_uid, id_after, turned, CosmicEntity, IdAllocator};
use crate::fixed::{sat_add, sat_mul, sat_sub, spec_sat_add, spec_sat_mul, spec_sat_sub, UNIT};
use crate::geometry::Vec2;

verus! {

/// A colour as four channels from 0 to 255.
#[derive(Clone, Copy, Debug, PartialEq, Eq, Structural)]
pub struct Color {
    pub r: u8,
    pub g: u8,
    pub b: u8,
    pub a: u8,
}

#[derive(Clone, Debug, PartialEq)]
pub struct LifetimedText {
    pub id: u64,
    pub lifetime: i64,
    pub position: Vec2,
    pub rotation: i64,
    pub text: String,
    pub size: i64,
    pub color: Color,
    pub speed: i64,
}

/// The decimal digits of `n`, most significant first.
pub open spec fn decimal(n: nat) -> Seq<char>
    decreases n,
{
    let digit = ((n % 10) + 48) as char;
    if n < 10 {
        seq![digit]
    } else {
        decimal(n / 10).push(digit)
    }
}

/// The text of one decimal digit.
fn digit_text(d: u8) -> (r: &'static str)
    requires
        d < 10,
    ensures
        r@ == seq![((d as nat) + 48) as char],
{
    proof {
        reveal_strlit("0");
        reveal_strlit("1");
        reveal_strlit("2");
        reveal_strlit("3");
        reveal_strlit("4");
        reveal_strlit("5");
        reveal_strlit("6");
        reveal_strlit("7");
        reveal_strlit("8");
        reveal_strlit("9");
    }
    let r: &'static str = if d == 0 {
        "0"
    } else if d == 1 {
        "1"
    } else if d == 2 {
        "2"
    } else if d == 3 {
        "3"
    } else if d == 4 {
        "4"
    } else if d == 5 {
        "5"
    } else if d == 6 {
        "6"
    } else if d == 7 {
        "7"
    } else if d == 8 {
        "8"
    } else {
        "9"
    };
    assert(r@ =~= seq![((d as nat) + 48) as char]);
    r
}

/// Writes `n` in decimal at the end of `out`.
pub fn write_decimal(n: u128, out: &mut String)
    ensures
        final(out)@ == old(out)@ + decimal(n as nat),
    decreases n,
{
    if n >= 10 {
        write_decimal(n / 10, out);
    }
    let ghost written = out@;
    out.append(digit_text((n % 10) as u8));
    assert(out@ =~= old(out)@ + decimal(n as nat));
}

/// `n` written in decimal.
pub fn decimal_string(n: u128) -> (s: String)
    ensures
        s@ == decimal(n as nat),
{
    let mut s: String = String::new();
    write_decimal(n, &mut s);
    assert(s@ =~= decimal(n as nat));
    s
}

/// How long the popup for an award stays: a second for 100 points, two
/// seconds for 200, two and a half for 300, a second for anything else.
pub open spec fn popup_lifetime(award: u128) -> i64 {
    if award == 200 {
        (2 * UNIT) as i64
    } else if award == 300 {
        (5 * UNIT / 2) as i64
    } else {
        UNIT
    }
}

/// The font size of the popup for an award: 30, 35 and 45 pixels for 100,
/// 200 and 300 points, 30 for anything else.
pub open spec fn popup_font_size(award: u128) -> i64 {
    if award == 200 {
        (35 * UNIT) as i64
    } else if award == 300 {
        (45 * UNIT) as i64
    } else {
        (30 * UNIT) as i64
    }
}

/// The colour of the popup for an award: green, gold and magenta for 100,
/// 200 and 300 points, white for anything else.
pub open spec fn spec_popup_color(award: u128) -> Color {
    if award == 100 {
        Color { r: 0, g: 227, b: 48, a: 255 }
    } else if award == 200 {
        Color { r: 255, g: 204, b: 0, a: 255 }
    } else if award == 300 {
        Color { r: 255, g: 0, b: 255, a: 255 }
    } else {
        Color { r: 255, g: 255, b: 255, a: 255 }
    }
}

#[verifier::when_used_as_spec(spec_popup_color)]
pub fn popup_color(award: u128) -> (c: Color)
    ensures
        c == spec_popup_color(award),
{
    if award == 100 {
        Color { r: 0, g: 227, b: 48, a: 255 }
    } else if award == 200 {
        Color { r: 255, g: 204, b: 0, a: 255 }
    } else if award == 300 {
        Color { r: 255, g: 0, b: 255, a: 255 }
    } else {
        Color { r: 255, g: 255, b: 255, a: 255 }
    }
}

/// How fast a score popup drifts: thirty pixels per second up the screen.
pub const POPUP_SPEED: i64 = -30 * UNIT;

/// A popup as a mathematical value: its text is the sequence of its
/// characters.
pub struct TextModel {
    pub id: u64,
    pub lifetime: i64,
    pub position: Vec2,
    pub rotation: i64,
    pub text: Seq<char>,
    pub size: i64,
    pub color: Color,
    pub speed: i64,
}

impl View for LifetimedText {
    type V = TextModel;

    open spec fn view(&self) -> TextModel {
        TextModel {
            id: self.id,
            lifetime: self.lifetime,
            position: self.position,
            rotation: self.rotation,
            text: self.text@,
            size: self.size,
            color: self.color,
            speed: self.speed,
        }
    }
}

impl LifetimedText {
    /// The popup that shows `award` at `position`.
    pub open spec fn spec_score_popup(award: u128, position: Vec2, id: u64) -> TextModel {
        TextModel {
            id,
            lifetime: popup_lifetime(award),
            position,
            rotation: 0,
            text: decimal(award as nat),
            size: popup_font_size(award),
            color: popup_color(award),
            speed: POPUP_SPEED,
        }
    }

    /// Makes the popup that shows `award` at `position`.
    pub fn score_popup(award: u128, position: Vec2, ids: &mut IdAllocator) -> (t: LifetimedText)
        ensures
            t@ == Self::spec_score_popup(award, position, old(ids).next),
            final(ids).next == id_after(old(ids).next),
    {
        let lifetime: i64 = if award == 200 {
            2 * UNIT
        } else if award == 300 {
            5 * UNIT / 2
        } else {
            UNIT
        };
        let font_size: i64 = if award == 200 {
            35 * UNIT
        } else if award == 300 {
            45 * UNIT
        } else {
            30 * UNIT
        };
        let color: Color = popup_color(award);
        LifetimedText::new(
            lifetime,
            position,
            0,
            decimal_string(award),
            font_size,
            color,
            POPUP_SPEED,
            ids,
        )
    }

    pub fn new(
        lifetime: i64,
        position: Vec2,
        rotation: i64,
        text: String,
        font_size: i64,
        color: Color,
        speed: i64,
        ids: &mut IdAllocator,
    ) -> (t: LifetimedText)
        ensures
            t == (LifetimedText {
                id: old(ids).next,
                lifetime,
                position,
                rotation,
                text,
                size: font_size,
                color,
                speed,
            }),
            final(ids).next == id_after(old(ids).next),
    {
        LifetimedText {
            id: generate_uid(ids),
            lifetime,
            position,
            rotation,
            text,
            size: font_size,
            color,
            speed,
        }
    }

    /// Lets the text drift down the screen for `deltatime` seconds and
    /// spends as much of its lifetime.
    pub fn update(&mut self, deltatime: i64)
        ensures
            *final(self) == (LifetimedText {
                position: Vec2 {
                    x: old(self).position.x,
                    y: spec_sat_add(old(self).position.y, spec_sat_mul(old(self).speed, deltatime)),
                },
                lifetime: spec_sat_sub(old(self).lifetime, deltatime),
                ..*old(self)
            }),
    {
        self.position.y = sat_add(self.position.y, sat_mul(self.speed, deltatime));
        self.lifetime = sat_sub(self.lifetime, deltatime);
    }

    pub fn get_lifetime(&self) -> (r: i64)
        ensures
            r == self.lifetime,
    {
        self.lifetime
    }
}

impl CosmicEntity for LifetimedText {
    open spec fn id(&self) -> u64 {
        self.id
    }

    open spec fn position(&self) -> Vec2 {
        self.position
    }

    open spec fn speed(&self) -> i64 {
        self.speed
    }

    open spec fn size(&self) -> i64 {
        self.size
    }

    open spec fn rotation(&self) -> i64 {
        self.rotation
    }

    open spec fn with_id(&self, id: u64) -> Self {
        LifetimedText { id, ..*self }
    }

    open spec fn with_rotation(&self, rotation: i64) -> Self {
        LifetimedText { rotation, ..*self }
    }

    fn get_id(&self) -> (r: u64) {
        self.id
    }

    fn clone_with_new_uid(&self, ids: &mut IdAllocator) -> (r: Self) {
        let id: u64 = generate_uid(ids);
        LifetimedText {
            id,
            lifetime: self.lifetime,
            position: self.position,
            rotation: self.rotation,
            text: self.text.clone(),
            size: self.size,
            color: self.color,
            speed: self.speed,
        }
    }

    fn get_position(&self) -> (r: Vec2) {
        self.position
    }

    fn get_speed(&self) -> (r: i64) {
        self.speed
    }

    fn get_size(&self) -> (r: i64) {
        self.size
    }

    fn get_rotation(&self) -> (r: i64) {
        self.rotation
    }

    fn add_rotation(&mut self, amount: i64) {
        self.rotation = turned(self.rotation, amount);
    }
}

} // verus!
