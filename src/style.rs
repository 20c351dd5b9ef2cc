//! Display styles: scroll speed, animation mode and effect flags, resolved from
//! loosely typed input with fixed fallbacks.
use vstd::prelude::*;
use crate::text::{contains_key, same_text};

verus! {

/// Scroll speed of a message, named by its frames per second.
#[derive(Clone, Copy, Debug, PartialEq, Eq, Structural)]
pub enum Speed {
    Fps1_2,
    Fps1_3,
    Fps2_0,
    Fps2_4,
    Fps2_8,
    Fps4_5,
    Fps7_5,
    Fps15,
}

/// The speed used when a speed code is out of range.
pub const DEFAULT_SPEED_LEVEL: u8 = 4;

/// Number of speed levels; valid codes are `0..SPEED_LEVELS`.
pub const SPEED_LEVELS: u8 = 8;

/// The speed of each level, in order.
pub open spec fn speed_of_level(level: int) -> Speed {
    if level == 0 {
        Speed::Fps1_2
    } else if level == 1 {
        Speed::Fps1_3
    } else if level == 2 {
        Speed::Fps2_0
    } else if level == 3 {
        Speed::Fps2_4
    } else if level == 4 {
        Speed::Fps2_8
    } else if level == 5 {
        Speed::Fps4_5
    } else if level == 6 {
        Speed::Fps7_5
    } else {
        Speed::Fps15
    }
}

/// Frames per second of each level, in tenths of a frame.
pub open spec fn fps_tenths_of_level(level: int) -> int {
    if level == 0 {
        12
    } else if level == 1 {
        13
    } else if level == 2 {
        20
    } else if level == 3 {
        24
    } else if level == 4 {
        28
    } else if level == 5 {
        45
    } else if level == 6 {
        75
    } else {
        150
    }
}

impl Speed {
    pub open spec fn spec_level(self) -> int {
        match self {
            Speed::Fps1_2 => 0,
            Speed::Fps1_3 => 1,
            Speed::Fps2_0 => 2,
            Speed::Fps2_4 => 3,
            Speed::Fps2_8 => 4,
            Speed::Fps4_5 => 5,
            Speed::Fps7_5 => 6,
            Speed::Fps15 => 7,
        }
    }

    /// The speed for a level code, or the default speed for a code out of range.
    pub fn from_code(code: u8) -> (r: Speed)
        ensures
            code < SPEED_LEVELS ==> r == speed_of_level(code as int),
            code >= SPEED_LEVELS ==> r == speed_of_level(DEFAULT_SPEED_LEVEL as int),
    {
        match code {
            0 => Speed::Fps1_2,
            1 => Speed::Fps1_3,
            2 => Speed::Fps2_0,
            3 => Speed::Fps2_4,
            4 => Speed::Fps2_8,
            5 => Speed::Fps4_5,
            6 => Speed::Fps7_5,
            7 => Speed::Fps15,
            _ => Speed::Fps2_8,
        }
    }

    /// The level code of this speed.
    pub fn level(&self) -> (r: u8)
        ensures
            r as int == self.spec_level(),
            r < SPEED_LEVELS,
            speed_of_level(r as int) == *self,
    {
        match self {
            Speed::Fps1_2 => 0,
            Speed::Fps1_3 => 1,
            Speed::Fps2_0 => 2,
            Speed::Fps2_4 => 3,
            Speed::Fps2_8 => 4,
            Speed::Fps4_5 => 5,
            Speed::Fps7_5 => 6,
            Speed::Fps15 => 7,
        }
    }

    /// Frames per second, in tenths of a frame (`Fps2_8` gives 28).
    pub fn fps_tenths(&self) -> (r: u32)
        ensures
            r as int == fps_tenths_of_level(self.spec_level()),
    {
        match self {
            Speed::Fps1_2 => 12,
            Speed::Fps1_3 => 13,
            Speed::Fps2_0 => 20,
            Speed::Fps2_4 => 24,
            Speed::Fps2_8 => 28,
            Speed::Fps4_5 => 45,
            Speed::Fps7_5 => 75,
            Speed::Fps15 => 150,
        }
    }
}

/// Animation with which a message enters and stays on the display.
#[derive(Clone, Copy, Debug, PartialEq, Eq, Structural)]
pub enum Mode {
    Left,
    Right,
    Up,
    Down,
    Still,
    Snowflake,
    Picture,
    Laser,
    Hold,
}

/// The mode named by a key; `None` for a key that names no mode.
pub open spec fn mode_of_key(key: Seq<char>) -> Option<Mode> {
    if key == "left"@ {
        Some(Mode::Left)
    } else if key == "right"@ {
        Some(Mode::Right)
    } else if key == "up"@ {
        Some(Mode::Up)
    } else if key == "down"@ {
        Some(Mode::Down)
    } else if key == "still"@ {
        Some(Mode::Still)
    } else if key == "snowflake"@ {
        Some(Mode::Snowflake)
    } else if key == "picture"@ {
        Some(Mode::Picture)
    } else if key == "laser"@ {
        Some(Mode::Laser)
    } else if key == "hold"@ {
        Some(Mode::Hold)
    } else {
        None
    }
}

impl Mode {
    /// The mode named by `key` (exact spelling and case), or `Left` for any other key.
    pub fn from_key(key: &str) -> (r: Mode)
        ensures
            r == (match mode_of_key(key@) {
                Some(m) => m,
                None => Mode::Left,
            }),
    {
        if same_text(key, "left") {
            Mode::Left
        } else if same_text(key, "right") {
            Mode::Right
        } else if same_text(key, "up") {
            Mode::Up
        } else if same_text(key, "down") {
            Mode::Down
        } else if same_text(key, "still") {
            Mode::Still
        } else if same_text(key, "snowflake") {
            Mode::Snowflake
        } else if same_text(key, "picture") {
            Mode::Picture
        } else if same_text(key, "laser") {
            Mode::Laser
        } else if same_text(key, "hold") {
            Mode::Hold
        } else {
            Mode::Left
        }
    }
}

/// Whether `key` is one of `keys`.
pub open spec fn has_key(keys: Seq<String>, key: Seq<char>) -> bool {
    exists|i: int| 0 <= i < keys.len() && keys[i]@ == key
}

/// A resolved display style.
#[derive(Clone, Copy, Debug, PartialEq, Eq, Structural)]
pub struct StyleOptions {
    pub speed: Speed,
    pub mode: Mode,
    pub blink: bool,
    pub border: bool,
    pub invert: bool,
}

/// The style that `resolve` gives for its inputs.
pub open spec fn resolved(speed_code: u8, mode_key: Seq<char>, flags: Seq<String>) -> StyleOptions {
    StyleOptions {
        speed: if speed_code < SPEED_LEVELS {
            speed_of_level(speed_code as int)
        } else {
            speed_of_level(DEFAULT_SPEED_LEVEL as int)
        },
        mode: match mode_of_key(mode_key) {
            Some(m) => m,
            None => Mode::Left,
        },
        blink: has_key(flags, "flashing"@),
        border: has_key(flags, "border"@),
        invert: has_key(flags, "inverted"@),
    }
}

/// Resolves raw display options into a style. Never fails: an unknown speed
/// code takes the default speed, an unknown mode key takes `Left`, and flag
/// keys other than "flashing", "border" and "inverted" are ignored.
pub fn resolve(speed_code: u8, mode_key: &str, flag_keys: &Vec<String>) -> (r: StyleOptions)
    ensures
        r == resolved(speed_code, mode_key@, flag_keys@),
{
    StyleOptions {
        speed: Speed::from_code(speed_code),
        mode: Mode::from_key(mode_key),
        blink: contains_key(flag_keys, "flashing"),
        border: contains_key(flag_keys, "border"),
        invert: contains_key(flag_keys, "inverted"),
    }
}

/// Every speed code in range resolves to the speed of that level, whose level
/// code and frame rate are read back unchanged; every code out of range
/// resolves to the default speed.
pub proof fn lemma_speed_codes(speed_code: u8, mode_key: Seq<char>, flags: Seq<String>)
    ensures
        speed_code < SPEED_LEVELS ==> {
            let s = resolved(speed_code, mode_key, flags).speed;
            &&& s.spec_level() == speed_code as int
            &&& fps_tenths_of_level(s.spec_level()) == fps_tenths_of_level(speed_code as int)
        },
        speed_code >= SPEED_LEVELS ==> resolved(speed_code, mode_key, flags).speed
            == Speed::Fps2_8,
{
}

} // verus!
