//! Plain-value models of the values that the per-monitor desktop wallpaper
//! interface exchanges: display position, background color, monitor
//! rectangle, and slideshow settings. Each model converts to and from the raw
//! integer encoding that the native interface uses.

use vstd::prelude::*;

verus! {

/// How the wallpaper image is placed on the monitor.
#[derive(Clone, Copy, Debug, PartialEq, Eq, Structural)]
pub enum Position {
    Center,
    Tile,
    Stretch,
    Fit,
    Fill,
    Span,
}

impl Position {
    /// The raw code of this position in the native interface.
    pub open spec fn raw_spec(self) -> u32 {
        match self {
            Position::Center => 0,
            Position::Tile => 1,
            Position::Stretch => 2,
            Position::Fit => 3,
            Position::Fill => 4,
            Position::Span => 5,
        }
    }

    /// Encodes this position as its raw code.
    pub fn to_raw(self) -> (r: u32)
        ensures
            r == self.raw_spec(),
    {
        match self {
            Position::Center => 0,
            Position::Tile => 1,
            Position::Stretch => 2,
            Position::Fit => 3,
            Position::Fill => 4,
            Position::Span => 5,
        }
    }

    /// Decodes a raw position code; codes above the last known position are
    /// rejected.
    pub fn from_raw(raw: u32) -> (r: Option<Position>)
        ensures
            (r is Some <==> raw <= 5),
            r matches Some(p) ==> p.raw_spec() == raw,
    {
        match raw {
            0 => Some(Position::Center),
            1 => Some(Position::Tile),
            2 => Some(Position::Stretch),
            3 => Some(Position::Fit),
            4 => Some(Position::Fill),
            5 => Some(Position::Span),
            _ => None,
        }
    }
}

/// A desktop background color, held as its red, green and blue channels.
#[derive(Clone, Copy, Debug, PartialEq, Eq, Structural)]
pub struct Color {
    pub red: u8,
    pub green: u8,
    pub blue: u8,
}

impl Color {
    /// The raw color value of this color: red in the low byte, then green,
    /// then blue, with a zero high byte.
    pub open spec fn raw_spec(self) -> int {
        self.red + 256 * (self.green as int) + 65536 * (self.blue as int)
    }

    /// Encodes this color as a raw color value.
    pub fn to_raw(self) -> (r: u32)
        ensures
            r == self.raw_spec(),
            r <= 0xFFFFFF,
    {
        (self.red as u32) + 256 * (self.green as u32) + 65536 * (self.blue as u32)
    }

    /// Decodes a raw color value; values with a non-zero high byte are
    /// rejected.
    pub fn from_raw(raw: u32) -> (r: Option<Color>)
        ensures
            (r is Some <==> raw <= 0xFFFFFF),
            r matches Some(c) ==> c.raw_spec() == raw,
    {
        if raw <= 0xFFFFFF {
            let red = (raw & 0xFF) as u8;
            let green = ((raw >> 8) & 0xFF) as u8;
            let blue = ((raw >> 16) & 0xFF) as u8;
            proof {
                assert(raw <= 0xFFFFFF ==> (raw & 0xFF) + 256 * ((raw >> 8) & 0xFF) + 65536 * ((
                raw >> 16) & 0xFF) == raw) by (bit_vector);
                assert((raw & 0xFF) <= 0xFF && ((raw >> 8) & 0xFF) <= 0xFF && ((raw >> 16) & 0xFF)
                    <= 0xFF) by (bit_vector);
            }
            Some(Color { red, green, blue })
        } else {
            None
        }
    }
}

/// The display rectangle of a monitor, in screen coordinates.
#[derive(Clone, Copy, Debug, PartialEq, Eq, Structural)]
pub struct Rect {
    pub left: i32,
    pub top: i32,
    pub right: i32,
    pub bottom: i32,
}

/// Slideshow behaviour settings.
#[derive(Clone, Copy, Debug, PartialEq, Eq, Structural)]
pub struct SlideshowOptions {
    /// Whether the slideshow shows its images in a shuffled order.
    pub shuffle: bool,
}

impl SlideshowOptions {
    /// The raw flag word of these options.
    pub open spec fn raw_spec(self) -> u32 {
        if self.shuffle {
            1
        } else {
            0
        }
    }

    /// Encodes these options as their raw flag word.
    pub fn to_raw(self) -> (r: u32)
        ensures
            r == self.raw_spec(),
    {
        if self.shuffle {
            1
        } else {
            0
        }
    }

    /// Decodes a raw options word; words with unknown flags set are rejected.
    pub fn from_raw(raw: u32) -> (r: Option<SlideshowOptions>)
        ensures
            (r is Some <==> raw <= 1),
            r matches Some(o) ==> o.raw_spec() == raw,
    {
        match raw {
            0 => Some(SlideshowOptions { shuffle: false }),
            1 => Some(SlideshowOptions { shuffle: true }),
            _ => None,
        }
    }
}

/// Direction in which a slideshow advances.
#[derive(Clone, Copy, Debug, PartialEq, Eq, Structural)]
pub enum SlideshowDirection {
    Forward,
    Backward,
}

impl SlideshowDirection {
    /// The raw code of this direction.
    pub open spec fn raw_spec(self) -> u32 {
        match self {
            SlideshowDirection::Forward => 0,
            SlideshowDirection::Backward => 1,
        }
    }

    /// Encodes this direction as its raw code.
    pub fn to_raw(self) -> (r: u32)
        ensures
            r == self.raw_spec(),
    {
        match self {
            SlideshowDirection::Forward => 0,
            SlideshowDirection::Backward => 1,
        }
    }

    /// Decodes a raw direction code.
    pub fn from_raw(raw: u32) -> (r: Option<SlideshowDirection>)
        ensures
            (r is Some <==> raw <= 1),
            r matches Some(d) ==> d.raw_spec() == raw,
    {
        match raw {
            0 => Some(SlideshowDirection::Forward),
            1 => Some(SlideshowDirection::Backward),
            _ => None,
        }
    }
}

/// The current status of the slideshow, as a set of flags.
#[derive(Clone, Copy, Debug, PartialEq, Eq, Structural)]
pub struct SlideshowState {
    /// Slideshows are enabled.
    pub enabled: bool,
    /// A slideshow is currently configured.
    pub slideshow: bool,
    /// The remote session has disabled the slideshow.
    pub disabled_by_remote_session: bool,
}

impl SlideshowState {
    /// The raw flag word of this state.
    pub open spec fn raw_spec(self) -> int {
        (if self.enabled {
            1int
        } else {
            0int
        }) + (if self.slideshow {
            2int
        } else {
            0int
        }) + (if self.disabled_by_remote_session {
            4int
        } else {
            0int
        })
    }

    /// Encodes this state as its raw flag word.
    pub fn to_raw(self) -> (r: u32)
        ensures
            r == self.raw_spec(),
    {
        (if self.enabled {
            1u32
        } else {
            0u32
        }) + (if self.slideshow {
            2u32
        } else {
            0u32
        }) + (if self.disabled_by_remote_session {
            4u32
        } else {
            0u32
        })
    }

    /// Decodes a raw state word; words with unknown flags set are rejected.
    pub fn from_raw(raw: u32) -> (r: Option<SlideshowState>)
        ensures
            (r is Some <==> raw <= 7),
            r matches Some(s) ==> s.raw_spec() == raw,
    {
        if raw <= 7 {
            let enabled = raw & 1 != 0;
            let slideshow = raw & 2 != 0;
            let disabled_by_remote_session = raw & 4 != 0;
            proof {
                assert(raw <= 7 ==> (raw & 1) + (raw & 2) + (raw & 4) == raw) by (bit_vector);
                assert((raw & 1 == 0 || raw & 1 == 1) && (raw & 2 == 0 || raw & 2 == 2) && (raw & 4
                    == 0 || raw & 4 == 4)) by (bit_vector);
            }
            Some(SlideshowState { enabled, slideshow, disabled_by_remote_session })
        } else {
            None
        }
    }
}

/// Encodes a flag for the native calls that take a boolean as an integer.
pub fn bool_to_raw(enable: bool) -> (r: i32)
    ensures
        r == (if enable {
            1int
        } else {
            0int
        }),
{
    if enable {
        1
    } else {
        0
    }
}

} // verus!
