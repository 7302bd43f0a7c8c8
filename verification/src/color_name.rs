//! The colours that a background can be named by.

use vstd::prelude::*;

use crate::text::{ascii_lower_char, is_ascii_text, lowercase, same_text, to_lowercase};

verus! {

/// A colour that the image engine knows by name.
#[derive(Debug, Clone, Copy, PartialEq, Eq, Structural)]
pub enum ColorName {
    /// #FFFFFF
    White,
    /// #000000
    Black,
    /// #FF0000
    Red,
    /// #00FF00
    Green,
    /// #0000FF
    Blue,
    /// #FFFF00
    Yellow,
    /// #00FFFF
    Cyan,
    /// #FF00FF
    Magenta,
}

/// The colour whose name is `name`, letter for letter.
pub open spec fn color_named(name: Seq<char>) -> Option<ColorName> {
    if name == "white"@ {
        Some(ColorName::White)
    } else if name == "black"@ {
        Some(ColorName::Black)
    } else if name == "red"@ {
        Some(ColorName::Red)
    } else if name == "green"@ {
        Some(ColorName::Green)
    } else if name == "blue"@ {
        Some(ColorName::Blue)
    } else if name == "yellow"@ {
        Some(ColorName::Yellow)
    } else if name == "cyan"@ {
        Some(ColorName::Cyan)
    } else if name == "magenta"@ {
        Some(ColorName::Magenta)
    } else {
        None
    }
}

impl ColorName {
    /// The name of this colour, in lower case.
    pub open spec fn name(self) -> Seq<char> {
        match self {
            ColorName::White => "white"@,
            ColorName::Black => "black"@,
            ColorName::Red => "red"@,
            ColorName::Green => "green"@,
            ColorName::Blue => "blue"@,
            ColorName::Yellow => "yellow"@,
            ColorName::Cyan => "cyan"@,
            ColorName::Magenta => "magenta"@,
        }
    }

    /// Get the static string slice of this color name.
    pub fn as_str(self) -> (text: &'static str)
        ensures
            text@ == self.name(),
            color_named(text@) == Some(self),
    {
        proof {
            lemma_name_names_color(self);
        }
        match self {
            ColorName::White => "white",
            ColorName::Black => "black",
            ColorName::Red => "red",
            ColorName::Green => "green",
            ColorName::Blue => "blue",
            ColorName::Yellow => "yellow",
            ColorName::Cyan => "cyan",
            ColorName::Magenta => "magenta",
        }
    }

    /// The colour whose lower case name is `name`, letter for letter.
    pub fn from_name(name: &str) -> (color: Option<ColorName>)
        ensures
            color == color_named(name@),
    {
        if same_text(name, "white") {
            Some(ColorName::White)
        } else if same_text(name, "black") {
            Some(ColorName::Black)
        } else if same_text(name, "red") {
            Some(ColorName::Red)
        } else if same_text(name, "green") {
            Some(ColorName::Green)
        } else if same_text(name, "blue") {
            Some(ColorName::Blue)
        } else if same_text(name, "yellow") {
            Some(ColorName::Yellow)
        } else if same_text(name, "cyan") {
            Some(ColorName::Cyan)
        } else if same_text(name, "magenta") {
            Some(ColorName::Magenta)
        } else {
            None
        }
    }

    /// The colour that `s` names, in any letter case.
    pub fn parse_str(s: &str) -> (color: Option<ColorName>)
        ensures
            color == color_named(lowercase(s@)),
            is_ascii_text(s@) ==> color == color_named(
                s@.map_values(|c: char| ascii_lower_char(c)),
            ),
    {
        let lower: String = to_lowercase(s);
        ColorName::from_name(lower.as_str())
    }
}

impl std::str::FromStr for ColorName {
    type Err = ();

    /// The colour that `s` names, in any letter case, as `parse_str` reads
    /// it.
    fn from_str(s: &str) -> (color: Result<ColorName, ()>)
        ensures
            color == (match color_named(lowercase(s@)) {
                Some(c) => Ok::<ColorName, ()>(c),
                None => Err::<ColorName, ()>(()),
            }),
    {
        match ColorName::parse_str(s) {
            Some(color) => Ok(color),
            None => Err(()),
        }
    }
}

/// The eight names are eight different texts, and each names its colour.
pub proof fn lemma_name_names_color(color: ColorName)
    ensures
        color_named(color.name()) == Some(color),
{
    reveal_strlit("white");
    reveal_strlit("black");
    reveal_strlit("red");
    reveal_strlit("green");
    reveal_strlit("blue");
    reveal_strlit("yellow");
    reveal_strlit("cyan");
    reveal_strlit("magenta");
    let name = color.name();
    match color {
        ColorName::White => {},
        ColorName::Black => {
            assert("black"@.len() == 5);
            assert("black"@[0] != "white"@[0]);
        },
        ColorName::Red => {
            assert("red"@.len() == 3);
        },
        ColorName::Green => {
            assert("green"@[0] != "white"@[0]);
            assert("green"@[0] != "black"@[0]);
        },
        ColorName::Blue => {
            assert("blue"@.len() == 4);
        },
        ColorName::Yellow => {
            assert("yellow"@.len() == 6);
        },
        ColorName::Cyan => {
            assert("cyan"@.len() == 4);
            assert("cyan"@[0] != "blue"@[0]);
        },
        ColorName::Magenta => {
            assert("magenta"@.len() == 7);
        },
    }
}

} // verus!
