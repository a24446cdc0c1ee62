//! The palette of tag colors.

use crate::util::text::{lowercase, str_eq, to_lowercase};
use vstd::prelude::*;

verus! {

/// The colors a tag can have.
#[derive(Debug, Clone, Copy, PartialEq, Eq, Structural)]
pub enum Color {
    Base,
    Blue,
    Green,
    Lime,
    Yellow,
    Orange,
    Red,
    Purple,
    Pink,
}

/// The name under which a color is stored and shown.
pub open spec fn color_name(color: Color) -> Seq<char> {
    match color {
        Color::Base => "base"@,
        Color::Blue => "blue"@,
        Color::Green => "green"@,
        Color::Lime => "lime"@,
        Color::Yellow => "yellow"@,
        Color::Orange => "orange"@,
        Color::Red => "red"@,
        Color::Purple => "purple"@,
        Color::Pink => "pink"@,
    }
}

/// The color that a lowercase name stands for. A name of no color stands
/// for `Base`.
pub open spec fn color_named(name: Seq<char>) -> Color {
    if name == "blue"@ {
        Color::Blue
    } else if name == "green"@ {
        Color::Green
    } else if name == "lime"@ {
        Color::Lime
    } else if name == "yellow"@ {
        Color::Yellow
    } else if name == "orange"@ {
        Color::Orange
    } else if name == "red"@ {
        Color::Red
    } else if name == "purple"@ {
        Color::Purple
    } else if name == "pink"@ {
        Color::Pink
    } else {
        Color::Base
    }
}

/// The color that a text stands for, whatever its case.
pub open spec fn color_of(text: Seq<char>) -> Color {
    color_named(lowercase(text))
}

impl Color {
    /// The color that a lowercase name stands for; `Base` for any other text.
    pub fn from_lowercase(name: &str) -> (color: Color)
        ensures
            color == color_named(name@),
    {
        if str_eq(name, "blue") {
            Color::Blue
        } else if str_eq(name, "green") {
            Color::Green
        } else if str_eq(name, "lime") {
            Color::Lime
        } else if str_eq(name, "yellow") {
            Color::Yellow
        } else if str_eq(name, "orange") {
            Color::Orange
        } else if str_eq(name, "red") {
            Color::Red
        } else if str_eq(name, "purple") {
            Color::Purple
        } else if str_eq(name, "pink") {
            Color::Pink
        } else {
            Color::Base
        }
    }

    /// The name of the color, in lowercase.
    pub fn to_string(&self) -> (name: String)
        ensures
            name@ == color_name(*self),
    {
        let text: &str = match self {
            Color::Base => "base",
            Color::Blue => "blue",
            Color::Green => "green",
            Color::Lime => "lime",
            Color::Yellow => "yellow",
            Color::Orange => "orange",
            Color::Red => "red",
            Color::Purple => "purple",
            Color::Pink => "pink",
        };
        text.to_owned()
    }
}

impl From<&str> for Color {
    /// Reads a color from its name in any case. A text that names no color
    /// gives `Base`, never an error.
    fn from(s: &str) -> (color: Color) {
        let lowered = to_lowercase(s);
        Color::from_lowercase(lowered.as_str())
    }
}

impl vstd::std_specs::convert::FromSpecImpl<&str> for Color {
    open spec fn obeys_from_spec() -> bool {
        true
    }

    open spec fn from_spec(s: &str) -> Color {
        color_of(s@)
    }
}

} // verus!
