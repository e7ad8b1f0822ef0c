//! Theme resolution and color palette definitions.

use vstd::prelude::*;
use crate::text::{
    chars_of, is_digit, digit_value, parse_unsigned, parse_usize_chars, starts_with, ends_with,
    sub_chars, trim, trim_chars, has_prefix, has_suffix, chars_eq_str, utf8_width, utf8_len,
    is_boundary, utf8_width_exec, lemma_utf8_len_prefix,
};

verus! {

/// A terminal color, as the renderer understands it.
#[derive(Debug, Clone, Copy, PartialEq, Eq, Structural)]
pub enum Color {
    Reset,
    Black,
    Red,
    Green,
    Yellow,
    Blue,
    Magenta,
    Cyan,
    Gray,
    DarkGray,
    LightRed,
    LightGreen,
    LightYellow,
    LightBlue,
    LightMagenta,
    LightCyan,
    White,
    Rgb(u8, u8, u8),
    Indexed(u8),
}

// ---------------------------------------------------------------------
// Lower-casing (std)
// ---------------------------------------------------------------------

/// The result of `str::to_lowercase` (Unicode lower-case mapping of the whole string).
pub uninterp spec fn lowercase(s: Seq<char>) -> Seq<char>;

/// `str::to_lowercase`.
#[verifier::external_body]
pub(crate) fn to_lowercase_string(s: &str) -> (r: String)
    ensures
        r@ == lowercase(s@),
{
    s.to_lowercase()
}

// ---------------------------------------------------------------------
// Specification
// ---------------------------------------------------------------------


pub open spec fn all_ascii(s: Seq<char>) -> bool {
    forall|i: int| 0 <= i < s.len() ==> (s[i] as u32) < 0x80
}

pub open spec fn is_hex(c: char) -> bool {
    is_digit(c) || (0x61 <= (c as u32) && (c as u32) <= 0x66) || (0x41 <= (c as u32) && (c as u32)
        <= 0x46)
}

pub open spec fn hex_value(c: char) -> nat {
    if is_digit(c) {
        digit_value(c)
    } else if 0x61 <= (c as u32) && (c as u32) <= 0x66 {
        ((c as u32) - 0x61 + 10) as nat
    } else {
        ((c as u32) - 0x41 + 10) as nat
    }
}

/// `u8::from_str_radix(_, 16)` on a string of at most two characters:
/// an optional `+` followed by at least one hex digit.
pub open spec fn hex_byte(p: Seq<char>) -> Option<u8> {
    let d = if p.len() > 0 && p[0] == '+' {
        p.drop_first()
    } else {
        p
    };
    if d.len() == 1 && is_hex(d[0]) {
        Some(hex_value(d[0]) as u8)
    } else if d.len() == 2 && is_hex(d[0]) && is_hex(d[1]) {
        Some((hex_value(d[0]) * 16 + hex_value(d[1])) as u8)
    } else {
        None
    }
}

/// Whether `parse_color` can slice `s` as it does: a `#` followed by six bytes
/// must have character boundaries after its second and fourth byte.
pub open spec fn color_input_ok(s: Seq<char>) -> bool {
    let t = trim(s);
    t.len() > 0 && t[0] == '#' && utf8_len(t.drop_first()) == 6 ==> is_boundary(t.drop_first(), 2)
        && is_boundary(t.drop_first(), 4)
}

pub open spec fn indexed_prefix() -> Seq<char> {
    seq!['i', 'n', 'd', 'e', 'x', 'e', 'd', '(']
}

/// The color a lower-case name stands for.
pub open spec fn named_color_spec(n: Seq<char>) -> Option<Color> {
    if n == "black"@ {
        Some(Color::Black)
    } else if n == "red"@ {
        Some(Color::Red)
    } else if n == "green"@ {
        Some(Color::Green)
    } else if n == "yellow"@ {
        Some(Color::Yellow)
    } else if n == "blue"@ {
        Some(Color::Blue)
    } else if n == "magenta"@ {
        Some(Color::Magenta)
    } else if n == "cyan"@ {
        Some(Color::Cyan)
    } else if n == "gray"@ || n == "grey"@ {
        Some(Color::Gray)
    } else if n == "dark_gray"@ || n == "dark_grey"@ || n == "darkgray"@ || n == "darkgrey"@ {
        Some(Color::DarkGray)
    } else if n == "light_red"@ || n == "lightred"@ {
        Some(Color::LightRed)
    } else if n == "light_green"@ || n == "lightgreen"@ {
        Some(Color::LightGreen)
    } else if n == "light_yellow"@ || n == "lightyellow"@ {
        Some(Color::LightYellow)
    } else if n == "light_blue"@ || n == "lightblue"@ {
        Some(Color::LightBlue)
    } else if n == "light_magenta"@ || n == "lightmagenta"@ {
        Some(Color::LightMagenta)
    } else if n == "light_cyan"@ || n == "lightcyan"@ {
        Some(Color::LightCyan)
    } else if n == "white"@ {
        Some(Color::White)
    } else {
        None
    }
}

/// The names a config may give a color by, its usual spelling first (none for the
/// colors that have no name).
pub open spec fn color_names(c: Color) -> Seq<Seq<char>> {
    match c {
        Color::Black => seq!["black"@],
        Color::Red => seq!["red"@],
        Color::Green => seq!["green"@],
        Color::Yellow => seq!["yellow"@],
        Color::Blue => seq!["blue"@],
        Color::Magenta => seq!["magenta"@],
        Color::Cyan => seq!["cyan"@],
        Color::Gray => seq!["gray"@, "grey"@],
        Color::DarkGray => seq!["dark_gray"@, "dark_grey"@, "darkgray"@, "darkgrey"@],
        Color::LightRed => seq!["light_red"@, "lightred"@],
        Color::LightGreen => seq!["light_green"@, "lightgreen"@],
        Color::LightYellow => seq!["light_yellow"@, "lightyellow"@],
        Color::LightBlue => seq!["light_blue"@, "lightblue"@],
        Color::LightMagenta => seq!["light_magenta"@, "lightmagenta"@],
        Color::LightCyan => seq!["light_cyan"@, "lightcyan"@],
        Color::White => seq!["white"@],
        _ => seq![],
    }
}

/// Each name of a color gives that color: no name stands for another color, so
/// distinct colors are never read from the same name.
pub proof fn law_color_names_mean_their_color(c: Color)
    ensures
        forall|i: int| 0 <= i < color_names(c).len() ==> named_color_spec(#[trigger] color_names(c)[i]) == Some(c),
{
    match c {
        Color::Black => {
            reveal_strlit("black");
            assert forall|i: int| 0 <= i < color_names(c).len() implies named_color_spec(#[trigger] color_names(c)[i]) == Some(c) by {
                if i == 0 {
                    assert(color_names(c)[i] == "black"@);
                }
            }
        },
        Color::Red => {
            reveal_strlit("red");
            reveal_strlit("black");
            assert("red"@.len() != "black"@.len());
            assert forall|i: int| 0 <= i < color_names(c).len() implies named_color_spec(#[trigger] color_names(c)[i]) == Some(c) by {
                if i == 0 {
                    assert(color_names(c)[i] == "red"@);
                }
            }
        },
        Color::Green => {
            reveal_strlit("green");
            reveal_strlit("black");
            assert("green"@[0] != "black"@[0]);
            reveal_strlit("red");
            assert("green"@.len() != "red"@.len());
            assert forall|i: int| 0 <= i < color_names(c).len() implies named_color_spec(#[trigger] color_names(c)[i]) == Some(c) by {
                if i == 0 {
                    assert(color_names(c)[i] == "green"@);
                }
            }
        },
        Color::Yellow => {
            reveal_strlit("yellow");
            reveal_strlit("black");
            assert("yellow"@.len() != "black"@.len());
            reveal_strlit("red");
            assert("yellow"@.len() != "red"@.len());
            reveal_strlit("green");
            assert("yellow"@.len() != "green"@.len());
            assert forall|i: int| 0 <= i < color_names(c).len() implies named_color_spec(#[trigger] color_names(c)[i]) == Some(c) by {
                if i == 0 {
                    assert(color_names(c)[i] == "yellow"@);
                }
            }
        },
        Color::Blue => {
            reveal_strlit("blue");
            reveal_strlit("black");
            assert("blue"@.len() != "black"@.len());
            reveal_strlit("red");
            assert("blue"@.len() != "red"@.len());
            reveal_strlit("green");
            assert("blue"@.len() != "green"@.len());
            reveal_strlit("yellow");
            assert("blue"@.len() != "yellow"@.len());
            assert forall|i: int| 0 <= i < color_names(c).len() implies named_color_spec(#[trigger] color_names(c)[i]) == Some(c) by {
                if i == 0 {
                    assert(color_names(c)[i] == "blue"@);
                }
            }
        },
        Color::Magenta => {
            reveal_strlit("magenta");
            reveal_strlit("black");
            assert("magenta"@.len() != "black"@.len());
            reveal_strlit("red");
            assert("magenta"@.len() != "red"@.len());
            reveal_strlit("green");
            assert("magenta"@.len() != "green"@.len());
            reveal_strlit("yellow");
            assert("magenta"@.len() != "yellow"@.len());
            reveal_strlit("blue");
            assert("magenta"@.len() != "blue"@.len());
            assert forall|i: int| 0 <= i < color_names(c).len() implies named_color_spec(#[trigger] color_names(c)[i]) == Some(c) by {
                if i == 0 {
                    assert(color_names(c)[i] == "magenta"@);
                }
            }
        },
        Color::Cyan => {
            reveal_strlit("cyan");
            reveal_strlit("black");
            assert("cyan"@.len() != "black"@.len());
            reveal_strlit("red");
            assert("cyan"@.len() != "red"@.len());
            reveal_strlit("green");
            assert("cyan"@.len() != "green"@.len());
            reveal_strlit("yellow");
            assert("cyan"@.len() != "yellow"@.len());
            reveal_strlit("blue");
            assert("cyan"@[0] != "blue"@[0]);
            reveal_strlit("magenta");
            assert("cyan"@.len() != "magenta"@.len());
            assert forall|i: int| 0 <= i < color_names(c).len() implies named_color_spec(#[trigger] color_names(c)[i]) == Some(c) by {
                if i == 0 {
                    assert(color_names(c)[i] == "cyan"@);
                }
            }
        },
        Color::Gray => {
            reveal_strlit("gray");
            reveal_strlit("grey");
            reveal_strlit("black");
            assert("gray"@.len() != "black"@.len());
            reveal_strlit("red");
            assert("gray"@.len() != "red"@.len());
            reveal_strlit("green");
            assert("gray"@.len() != "green"@.len());
            reveal_strlit("yellow");
            assert("gray"@.len() != "yellow"@.len());
            reveal_strlit("blue");
            assert("gray"@[0] != "blue"@[0]);
            reveal_strlit("magenta");
            assert("gray"@.len() != "magenta"@.len());
            reveal_strlit("cyan");
            assert("gray"@[0] != "cyan"@[0]);
            assert("grey"@.len() != "black"@.len());
            assert("grey"@.len() != "red"@.len());
            assert("grey"@.len() != "green"@.len());
            assert("grey"@.len() != "yellow"@.len());
            assert("grey"@[0] != "blue"@[0]);
            assert("grey"@.len() != "magenta"@.len());
            assert("grey"@[0] != "cyan"@[0]);
            assert forall|i: int| 0 <= i < color_names(c).len() implies named_color_spec(#[trigger] color_names(c)[i]) == Some(c) by {
                if i == 0 {
                    assert(color_names(c)[i] == "gray"@);
                }
                if i == 1 {
                    assert(color_names(c)[i] == "grey"@);
                }
            }
        },
        Color::DarkGray => {
            reveal_strlit("dark_gray");
            reveal_strlit("dark_grey");
            reveal_strlit("darkgray");
            reveal_strlit("darkgrey");
            reveal_strlit("black");
            assert("dark_gray"@.len() != "black"@.len());
            reveal_strlit("red");
            assert("dark_gray"@.len() != "red"@.len());
            reveal_strlit("green");
            assert("dark_gray"@.len() != "green"@.len());
            reveal_strlit("yellow");
            assert("dark_gray"@.len() != "yellow"@.len());
            reveal_strlit("blue");
            assert("dark_gray"@.len() != "blue"@.len());
            reveal_strlit("magenta");
            assert("dark_gray"@.len() != "magenta"@.len());
            reveal_strlit("cyan");
            assert("dark_gray"@.len() != "cyan"@.len());
            reveal_strlit("gray");
            assert("dark_gray"@.len() != "gray"@.len());
            reveal_strlit("grey");
            assert("dark_gray"@.len() != "grey"@.len());
            assert("dark_grey"@.len() != "black"@.len());
            assert("dark_grey"@.len() != "red"@.len());
            assert("dark_grey"@.len() != "green"@.len());
            assert("dark_grey"@.len() != "yellow"@.len());
            assert("dark_grey"@.len() != "blue"@.len());
            assert("dark_grey"@.len() != "magenta"@.len());
            assert("dark_grey"@.len() != "cyan"@.len());
            assert("dark_grey"@.len() != "gray"@.len());
            assert("dark_grey"@.len() != "grey"@.len());
            assert("darkgray"@.len() != "black"@.len());
            assert("darkgray"@.len() != "red"@.len());
            assert("darkgray"@.len() != "green"@.len());
            assert("darkgray"@.len() != "yellow"@.len());
            assert("darkgray"@.len() != "blue"@.len());
            assert("darkgray"@.len() != "magenta"@.len());
            assert("darkgray"@.len() != "cyan"@.len());
            assert("darkgray"@.len() != "gray"@.len());
            assert("darkgray"@.len() != "grey"@.len());
            assert("darkgrey"@.len() != "black"@.len());
            assert("darkgrey"@.len() != "red"@.len());
            assert("darkgrey"@.len() != "green"@.len());
            assert("darkgrey"@.len() != "yellow"@.len());
            assert("darkgrey"@.len() != "blue"@.len());
            assert("darkgrey"@.len() != "magenta"@.len());
            assert("darkgrey"@.len() != "cyan"@.len());
            assert("darkgrey"@.len() != "gray"@.len());
            assert("darkgrey"@.len() != "grey"@.len());
            assert forall|i: int| 0 <= i < color_names(c).len() implies named_color_spec(#[trigger] color_names(c)[i]) == Some(c) by {
                if i == 0 {
                    assert(color_names(c)[i] == "dark_gray"@);
                }
                if i == 1 {
                    assert(color_names(c)[i] == "dark_grey"@);
                }
                if i == 2 {
                    assert(color_names(c)[i] == "darkgray"@);
                }
                if i == 3 {
                    assert(color_names(c)[i] == "darkgrey"@);
                }
            }
        },
        Color::LightRed => {
            reveal_strlit("light_red");
            reveal_strlit("lightred");
            reveal_strlit("black");
            assert("light_red"@.len() != "black"@.len());
            reveal_strlit("red");
            assert("light_red"@.len() != "red"@.len());
            reveal_strlit("green");
            assert("light_red"@.len() != "green"@.len());
            reveal_strlit("yellow");
            assert("light_red"@.len() != "yellow"@.len());
            reveal_strlit("blue");
            assert("light_red"@.len() != "blue"@.len());
            reveal_strlit("magenta");
            assert("light_red"@.len() != "magenta"@.len());
            reveal_strlit("cyan");
            assert("light_red"@.len() != "cyan"@.len());
            reveal_strlit("gray");
            assert("light_red"@.len() != "gray"@.len());
            reveal_strlit("grey");
            assert("light_red"@.len() != "grey"@.len());
            reveal_strlit("dark_gray");
            assert("light_red"@[0] != "dark_gray"@[0]);
            reveal_strlit("dark_grey");
            assert("light_red"@[0] != "dark_grey"@[0]);
            reveal_strlit("darkgray");
            assert("light_red"@.len() != "darkgray"@.len());
            reveal_strlit("darkgrey");
            assert("light_red"@.len() != "darkgrey"@.len());
            assert("lightred"@.len() != "black"@.len());
            assert("lightred"@.len() != "red"@.len());
            assert("lightred"@.len() != "green"@.len());
            assert("lightred"@.len() != "yellow"@.len());
            assert("lightred"@.len() != "blue"@.len());
            assert("lightred"@.len() != "magenta"@.len());
            assert("lightred"@.len() != "cyan"@.len());
            assert("lightred"@.len() != "gray"@.len());
            assert("lightred"@.len() != "grey"@.len());
            assert("lightred"@.len() != "dark_gray"@.len());
            assert("lightred"@.len() != "dark_grey"@.len());
            assert("lightred"@[0] != "darkgray"@[0]);
            assert("lightred"@[0] != "darkgrey"@[0]);
            assert forall|i: int| 0 <= i < color_names(c).len() implies named_color_spec(#[trigger] color_names(c)[i]) == Some(c) by {
                if i == 0 {
                    assert(color_names(c)[i] == "light_red"@);
                }
                if i == 1 {
                    assert(color_names(c)[i] == "lightred"@);
                }
            }
        },
        Color::LightGreen => {
            reveal_strlit("light_green");
            reveal_strlit("lightgreen");
            reveal_strlit("black");
            assert("light_green"@.len() != "black"@.len());
            reveal_strlit("red");
            assert("light_green"@.len() != "red"@.len());
            reveal_strlit("green");
            assert("light_green"@.len() != "green"@.len());
            reveal_strlit("yellow");
            assert("light_green"@.len() != "yellow"@.len());
            reveal_strlit("blue");
            assert("light_green"@.len() != "blue"@.len());
            reveal_strlit("magenta");
            assert("light_green"@.len() != "magenta"@.len());
            reveal_strlit("cyan");
            assert("light_green"@.len() != "cyan"@.len());
            reveal_strlit("gray");
            assert("light_green"@.len() != "gray"@.len());
            reveal_strlit("grey");
            assert("light_green"@.len() != "grey"@.len());
            reveal_strlit("dark_gray");
            assert("light_green"@.len() != "dark_gray"@.len());
            reveal_strlit("dark_grey");
            assert("light_green"@.len() != "dark_grey"@.len());
            reveal_strlit("darkgray");
            assert("light_green"@.len() != "darkgray"@.len());
            reveal_strlit("darkgrey");
            assert("light_green"@.len() != "darkgrey"@.len());
            reveal_strlit("light_red");
            assert("light_green"@.len() != "light_red"@.len());
            reveal_strlit("lightred");
            assert("light_green"@.len() != "lightred"@.len());
            assert("lightgreen"@.len() != "black"@.len());
            assert("lightgreen"@.len() != "red"@.len());
            assert("lightgreen"@.len() != "green"@.len());
            assert("lightgreen"@.len() != "yellow"@.len());
            assert("lightgreen"@.len() != "blue"@.len());
            assert("lightgreen"@.len() != "magenta"@.len());
            assert("lightgreen"@.len() != "cyan"@.len());
            assert("lightgreen"@.len() != "gray"@.len());
            assert("lightgreen"@.len() != "grey"@.len());
            assert("lightgreen"@.len() != "dark_gray"@.len());
            assert("lightgreen"@.len() != "dark_grey"@.len());
            assert("lightgreen"@.len() != "darkgray"@.len());
            assert("lightgreen"@.len() != "darkgrey"@.len());
            assert("lightgreen"@.len() != "light_red"@.len());
            assert("lightgreen"@.len() != "lightred"@.len());
            assert forall|i: int| 0 <= i < color_names(c).len() implies named_color_spec(#[trigger] color_names(c)[i]) == Some(c) by {
                if i == 0 {
                    assert(color_names(c)[i] == "light_green"@);
                }
                if i == 1 {
                    assert(color_names(c)[i] == "lightgreen"@);
                }
            }
        },
        Color::LightYellow => {
            reveal_strlit("light_yellow");
            reveal_strlit("lightyellow");
            reveal_strlit("black");
            assert("light_yellow"@.len() != "black"@.len());
            reveal_strlit("red");
            assert("light_yellow"@.len() != "red"@.len());
            reveal_strlit("green");
            assert("light_yellow"@.len() != "green"@.len());
            reveal_strlit("yellow");
            assert("light_yellow"@.len() != "yellow"@.len());
            reveal_strlit("blue");
            assert("light_yellow"@.len() != "blue"@.len());
            reveal_strlit("magenta");
            assert("light_yellow"@.len() != "magenta"@.len());
            reveal_strlit("cyan");
            assert("light_yellow"@.len() != "cyan"@.len());
            reveal_strlit("gray");
            assert("light_yellow"@.len() != "gray"@.len());
            reveal_strlit("grey");
            assert("light_yellow"@.len() != "grey"@.len());
            reveal_strlit("dark_gray");
            assert("light_yellow"@.len() != "dark_gray"@.len());
            reveal_strlit("dark_grey");
            assert("light_yellow"@.len() != "dark_grey"@.len());
            reveal_strlit("darkgray");
            assert("light_yellow"@.len() != "darkgray"@.len());
            reveal_strlit("darkgrey");
            assert("light_yellow"@.len() != "darkgrey"@.len());
            reveal_strlit("light_red");
            assert("light_yellow"@.len() != "light_red"@.len());
            reveal_strlit("lightred");
            assert("light_yellow"@.len() != "lightred"@.len());
            reveal_strlit("light_green");
            assert("light_yellow"@.len() != "light_green"@.len());
            reveal_strlit("lightgreen");
            assert("light_yellow"@.len() != "lightgreen"@.len());
            assert("lightyellow"@.len() != "black"@.len());
            assert("lightyellow"@.len() != "red"@.len());
            assert("lightyellow"@.len() != "green"@.len());
            assert("lightyellow"@.len() != "yellow"@.len());
            assert("lightyellow"@.len() != "blue"@.len());
            assert("lightyellow"@.len() != "magenta"@.len());
            assert("lightyellow"@.len() != "cyan"@.len());
            assert("lightyellow"@.len() != "gray"@.len());
            assert("lightyellow"@.len() != "grey"@.len());
            assert("lightyellow"@.len() != "dark_gray"@.len());
            assert("lightyellow"@.len() != "dark_grey"@.len());
            assert("lightyellow"@.len() != "darkgray"@.len());
            assert("lightyellow"@.len() != "darkgrey"@.len());
            assert("lightyellow"@.len() != "light_red"@.len());
            assert("lightyellow"@.len() != "lightred"@.len());
            assert("lightyellow"@[5] != "light_green"@[5]);
            assert("lightyellow"@.len() != "lightgreen"@.len());
            assert forall|i: int| 0 <= i < color_names(c).len() implies named_color_spec(#[trigger] color_names(c)[i]) == Some(c) by {
                if i == 0 {
                    assert(color_names(c)[i] == "light_yellow"@);
                }
                if i == 1 {
                    assert(color_names(c)[i] == "lightyellow"@);
                }
            }
        },
        Color::LightBlue => {
            reveal_strlit("light_blue");
            reveal_strlit("lightblue");
            reveal_strlit("black");
            assert("light_blue"@.len() != "black"@.len());
            reveal_strlit("red");
            assert("light_blue"@.len() != "red"@.len());
            reveal_strlit("green");
            assert("light_blue"@.len() != "green"@.len());
            reveal_strlit("yellow");
            assert("light_blue"@.len() != "yellow"@.len());
            reveal_strlit("blue");
            assert("light_blue"@.len() != "blue"@.len());
            reveal_strlit("magenta");
            assert("light_blue"@.len() != "magenta"@.len());
            reveal_strlit("cyan");
            assert("light_blue"@.len() != "cyan"@.len());
            reveal_strlit("gray");
            assert("light_blue"@.len() != "gray"@.len());
            reveal_strlit("grey");
            assert("light_blue"@.len() != "grey"@.len());
            reveal_strlit("dark_gray");
            assert("light_blue"@.len() != "dark_gray"@.len());
            reveal_strlit("dark_grey");
            assert("light_blue"@.len() != "dark_grey"@.len());
            reveal_strlit("darkgray");
            assert("light_blue"@.len() != "darkgray"@.len());
            reveal_strlit("darkgrey");
            assert("light_blue"@.len() != "darkgrey"@.len());
            reveal_strlit("light_red");
            assert("light_blue"@.len() != "light_red"@.len());
            reveal_strlit("lightred");
            assert("light_blue"@.len() != "lightred"@.len());
            reveal_strlit("light_green");
            assert("light_blue"@.len() != "light_green"@.len());
            reveal_strlit("lightgreen");
            assert("light_blue"@[5] != "lightgreen"@[5]);
            reveal_strlit("light_yellow");
            assert("light_blue"@.len() != "light_yellow"@.len());
            reveal_strlit("lightyellow");
            assert("light_blue"@.len() != "lightyellow"@.len());
            assert("lightblue"@.len() != "black"@.len());
            assert("lightblue"@.len() != "red"@.len());
            assert("lightblue"@.len() != "green"@.len());
            assert("lightblue"@.len() != "yellow"@.len());
            assert("lightblue"@.len() != "blue"@.len());
            assert("lightblue"@.len() != "magenta"@.len());
            assert("lightblue"@.len() != "cyan"@.len());
            assert("lightblue"@.len() != "gray"@.len());
            assert("lightblue"@.len() != "grey"@.len());
            assert("lightblue"@[0] != "dark_gray"@[0]);
            assert("lightblue"@[0] != "dark_grey"@[0]);
            assert("lightblue"@.len() != "darkgray"@.len());
            assert("lightblue"@.len() != "darkgrey"@.len());
            assert("lightblue"@[5] != "light_red"@[5]);
            assert("lightblue"@.len() != "lightred"@.len());
            assert("lightblue"@.len() != "light_green"@.len());
            assert("lightblue"@.len() != "lightgreen"@.len());
            assert("lightblue"@.len() != "light_yellow"@.len());
            assert("lightblue"@.len() != "lightyellow"@.len());
            assert forall|i: int| 0 <= i < color_names(c).len() implies named_color_spec(#[trigger] color_names(c)[i]) == Some(c) by {
                if i == 0 {
                    assert(color_names(c)[i] == "light_blue"@);
                }
                if i == 1 {
                    assert(color_names(c)[i] == "lightblue"@);
                }
            }
        },
        Color::LightMagenta => {
            reveal_strlit("light_magenta");
            reveal_strlit("lightmagenta");
            reveal_strlit("black");
            assert("light_magenta"@.len() != "black"@.len());
            reveal_strlit("red");
            assert("light_magenta"@.len() != "red"@.len());
            reveal_strlit("green");
            assert("light_magenta"@.len() != "green"@.len());
            reveal_strlit("yellow");
            assert("light_magenta"@.len() != "yellow"@.len());
            reveal_strlit("blue");
            assert("light_magenta"@.len() != "blue"@.len());
            reveal_strlit("magenta");
            assert("light_magenta"@.len() != "magenta"@.len());
            reveal_strlit("cyan");
            assert("light_magenta"@.len() != "cyan"@.len());
            reveal_strlit("gray");
            assert("light_magenta"@.len() != "gray"@.len());
            reveal_strlit("grey");
            assert("light_magenta"@.len() != "grey"@.len());
            reveal_strlit("dark_gray");
            assert("light_magenta"@.len() != "dark_gray"@.len());
            reveal_strlit("dark_grey");
            assert("light_magenta"@.len() != "dark_grey"@.len());
            reveal_strlit("darkgray");
            assert("light_magenta"@.len() != "darkgray"@.len());
            reveal_strlit("darkgrey");
            assert("light_magenta"@.len() != "darkgrey"@.len());
            reveal_strlit("light_red");
            assert("light_magenta"@.len() != "light_red"@.len());
            reveal_strlit("lightred");
            assert("light_magenta"@.len() != "lightred"@.len());
            reveal_strlit("light_green");
            assert("light_magenta"@.len() != "light_green"@.len());
            reveal_strlit("lightgreen");
            assert("light_magenta"@.len() != "lightgreen"@.len());
            reveal_strlit("light_yellow");
            assert("light_magenta"@.len() != "light_yellow"@.len());
            reveal_strlit("lightyellow");
            assert("light_magenta"@.len() != "lightyellow"@.len());
            reveal_strlit("light_blue");
            assert("light_magenta"@.len() != "light_blue"@.len());
            reveal_strlit("lightblue");
            assert("light_magenta"@.len() != "lightblue"@.len());
            assert("lightmagenta"@.len() != "black"@.len());
            assert("lightmagenta"@.len() != "red"@.len());
            assert("lightmagenta"@.len() != "green"@.len());
            assert("lightmagenta"@.len() != "yellow"@.len());
            assert("lightmagenta"@.len() != "blue"@.len());
            assert("lightmagenta"@.len() != "magenta"@.len());
            assert("lightmagenta"@.len() != "cyan"@.len());
            assert("lightmagenta"@.len() != "gray"@.len());
            assert("lightmagenta"@.len() != "grey"@.len());
            assert("lightmagenta"@.len() != "dark_gray"@.len());
            assert("lightmagenta"@.len() != "dark_grey"@.len());
            assert("lightmagenta"@.len() != "darkgray"@.len());
            assert("lightmagenta"@.len() != "darkgrey"@.len());
            assert("lightmagenta"@.len() != "light_red"@.len());
            assert("lightmagenta"@.len() != "lightred"@.len());
            assert("lightmagenta"@.len() != "light_green"@.len());
            assert("lightmagenta"@.len() != "lightgreen"@.len());
            assert("lightmagenta"@[5] != "light_yellow"@[5]);
            assert("lightmagenta"@.len() != "lightyellow"@.len());
            assert("lightmagenta"@.len() != "light_blue"@.len());
            assert("lightmagenta"@.len() != "lightblue"@.len());
            assert forall|i: int| 0 <= i < color_names(c).len() implies named_color_spec(#[trigger] color_names(c)[i]) == Some(c) by {
                if i == 0 {
                    assert(color_names(c)[i] == "light_magenta"@);
                }
                if i == 1 {
                    assert(color_names(c)[i] == "lightmagenta"@);
                }
            }
        },
        Color::LightCyan => {
            reveal_strlit("light_cyan");
            reveal_strlit("lightcyan");
            reveal_strlit("black");
            assert("light_cyan"@.len() != "black"@.len());
            reveal_strlit("red");
            assert("light_cyan"@.len() != "red"@.len());
            reveal_strlit("green");
            assert("light_cyan"@.len() != "green"@.len());
            reveal_strlit("yellow");
            assert("light_cyan"@.len() != "yellow"@.len());
            reveal_strlit("blue");
            assert("light_cyan"@.len() != "blue"@.len());
            reveal_strlit("magenta");
            assert("light_cyan"@.len() != "magenta"@.len());
            reveal_strlit("cyan");
            assert("light_cyan"@.len() != "cyan"@.len());
            reveal_strlit("gray");
            assert("light_cyan"@.len() != "gray"@.len());
            reveal_strlit("grey");
            assert("light_cyan"@.len() != "grey"@.len());
            reveal_strlit("dark_gray");
            assert("light_cyan"@.len() != "dark_gray"@.len());
            reveal_strlit("dark_grey");
            assert("light_cyan"@.len() != "dark_grey"@.len());
            reveal_strlit("darkgray");
            assert("light_cyan"@.len() != "darkgray"@.len());
            reveal_strlit("darkgrey");
            assert("light_cyan"@.len() != "darkgrey"@.len());
            reveal_strlit("light_red");
            assert("light_cyan"@.len() != "light_red"@.len());
            reveal_strlit("lightred");
            assert("light_cyan"@.len() != "lightred"@.len());
            reveal_strlit("light_green");
            assert("light_cyan"@.len() != "light_green"@.len());
            reveal_strlit("lightgreen");
            assert("light_cyan"@[5] != "lightgreen"@[5]);
            reveal_strlit("light_yellow");
            assert("light_cyan"@.len() != "light_yellow"@.len());
            reveal_strlit("lightyellow");
            assert("light_cyan"@.len() != "lightyellow"@.len());
            reveal_strlit("light_blue");
            assert("light_cyan"@[6] != "light_blue"@[6]);
            reveal_strlit("lightblue");
            assert("light_cyan"@.len() != "lightblue"@.len());
            reveal_strlit("light_magenta");
            assert("light_cyan"@.len() != "light_magenta"@.len());
            reveal_strlit("lightmagenta");
            assert("light_cyan"@.len() != "lightmagenta"@.len());
            assert("lightcyan"@.len() != "black"@.len());
            assert("lightcyan"@.len() != "red"@.len());
            assert("lightcyan"@.len() != "green"@.len());
            assert("lightcyan"@.len() != "yellow"@.len());
            assert("lightcyan"@.len() != "blue"@.len());
            assert("lightcyan"@.len() != "magenta"@.len());
            assert("lightcyan"@.len() != "cyan"@.len());
            assert("lightcyan"@.len() != "gray"@.len());
            assert("lightcyan"@.len() != "grey"@.len());
            assert("lightcyan"@[0] != "dark_gray"@[0]);
            assert("lightcyan"@[0] != "dark_grey"@[0]);
            assert("lightcyan"@.len() != "darkgray"@.len());
            assert("lightcyan"@.len() != "darkgrey"@.len());
            assert("lightcyan"@[5] != "light_red"@[5]);
            assert("lightcyan"@.len() != "lightred"@.len());
            assert("lightcyan"@.len() != "light_green"@.len());
            assert("lightcyan"@.len() != "lightgreen"@.len());
            assert("lightcyan"@.len() != "light_yellow"@.len());
            assert("lightcyan"@.len() != "lightyellow"@.len());
            assert("lightcyan"@.len() != "light_blue"@.len());
            assert("lightcyan"@[5] != "lightblue"@[5]);
            assert("lightcyan"@.len() != "light_magenta"@.len());
            assert("lightcyan"@.len() != "lightmagenta"@.len());
            assert forall|i: int| 0 <= i < color_names(c).len() implies named_color_spec(#[trigger] color_names(c)[i]) == Some(c) by {
                if i == 0 {
                    assert(color_names(c)[i] == "light_cyan"@);
                }
                if i == 1 {
                    assert(color_names(c)[i] == "lightcyan"@);
                }
            }
        },
        Color::White => {
            reveal_strlit("white");
            reveal_strlit("black");
            assert("white"@[0] != "black"@[0]);
            reveal_strlit("red");
            assert("white"@.len() != "red"@.len());
            reveal_strlit("green");
            assert("white"@[0] != "green"@[0]);
            reveal_strlit("yellow");
            assert("white"@.len() != "yellow"@.len());
            reveal_strlit("blue");
            assert("white"@.len() != "blue"@.len());
            reveal_strlit("magenta");
            assert("white"@.len() != "magenta"@.len());
            reveal_strlit("cyan");
            assert("white"@.len() != "cyan"@.len());
            reveal_strlit("gray");
            assert("white"@.len() != "gray"@.len());
            reveal_strlit("grey");
            assert("white"@.len() != "grey"@.len());
            reveal_strlit("dark_gray");
            assert("white"@.len() != "dark_gray"@.len());
            reveal_strlit("dark_grey");
            assert("white"@.len() != "dark_grey"@.len());
            reveal_strlit("darkgray");
            assert("white"@.len() != "darkgray"@.len());
            reveal_strlit("darkgrey");
            assert("white"@.len() != "darkgrey"@.len());
            reveal_strlit("light_red");
            assert("white"@.len() != "light_red"@.len());
            reveal_strlit("lightred");
            assert("white"@.len() != "lightred"@.len());
            reveal_strlit("light_green");
            assert("white"@.len() != "light_green"@.len());
            reveal_strlit("lightgreen");
            assert("white"@.len() != "lightgreen"@.len());
            reveal_strlit("light_yellow");
            assert("white"@.len() != "light_yellow"@.len());
            reveal_strlit("lightyellow");
            assert("white"@.len() != "lightyellow"@.len());
            reveal_strlit("light_blue");
            assert("white"@.len() != "light_blue"@.len());
            reveal_strlit("lightblue");
            assert("white"@.len() != "lightblue"@.len());
            reveal_strlit("light_magenta");
            assert("white"@.len() != "light_magenta"@.len());
            reveal_strlit("lightmagenta");
            assert("white"@.len() != "lightmagenta"@.len());
            reveal_strlit("light_cyan");
            assert("white"@.len() != "light_cyan"@.len());
            reveal_strlit("lightcyan");
            assert("white"@.len() != "lightcyan"@.len());
            assert forall|i: int| 0 <= i < color_names(c).len() implies named_color_spec(#[trigger] color_names(c)[i]) == Some(c) by {
                if i == 0 {
                    assert(color_names(c)[i] == "white"@);
                }
            }
        },
        _ => {},
    }
}

/// Only the names of a color give it: whatever name is read as a color is one of
/// that color's names.
pub proof fn law_only_color_names_give_colors(n: Seq<char>)
    ensures
        named_color_spec(n) matches Some(c) ==> color_names(c).contains(n),
{
    if let Some(c) = named_color_spec(n) {
        if n == "black"@ {
            assert(color_names(c)[0] == n);
        } else if n == "red"@ {
            assert(color_names(c)[0] == n);
        } else if n == "green"@ {
            assert(color_names(c)[0] == n);
        } else if n == "yellow"@ {
            assert(color_names(c)[0] == n);
        } else if n == "blue"@ {
            assert(color_names(c)[0] == n);
        } else if n == "magenta"@ {
            assert(color_names(c)[0] == n);
        } else if n == "cyan"@ {
            assert(color_names(c)[0] == n);
        } else if n == "gray"@ {
            assert(color_names(c)[0] == n);
        } else if n == "grey"@ {
            assert(color_names(c)[1] == n);
        } else if n == "dark_gray"@ {
            assert(color_names(c)[0] == n);
        } else if n == "dark_grey"@ {
            assert(color_names(c)[1] == n);
        } else if n == "darkgray"@ {
            assert(color_names(c)[2] == n);
        } else if n == "darkgrey"@ {
            assert(color_names(c)[3] == n);
        } else if n == "light_red"@ {
            assert(color_names(c)[0] == n);
        } else if n == "lightred"@ {
            assert(color_names(c)[1] == n);
        } else if n == "light_green"@ {
            assert(color_names(c)[0] == n);
        } else if n == "lightgreen"@ {
            assert(color_names(c)[1] == n);
        } else if n == "light_yellow"@ {
            assert(color_names(c)[0] == n);
        } else if n == "lightyellow"@ {
            assert(color_names(c)[1] == n);
        } else if n == "light_blue"@ {
            assert(color_names(c)[0] == n);
        } else if n == "lightblue"@ {
            assert(color_names(c)[1] == n);
        } else if n == "light_magenta"@ {
            assert(color_names(c)[0] == n);
        } else if n == "lightmagenta"@ {
            assert(color_names(c)[1] == n);
        } else if n == "light_cyan"@ {
            assert(color_names(c)[0] == n);
        } else if n == "lightcyan"@ {
            assert(color_names(c)[1] == n);
        } else if n == "white"@ {
            assert(color_names(c)[0] == n);
        }
    }
}

/// What a color string in the config means: `#rrggbb`, `indexed(n)` or a color name
/// (in any case), surrounded by optional whitespace.
pub open spec fn parse_color_spec(s: Seq<char>) -> Option<Color> {
    let t = trim(s);
    if t.len() > 0 && t[0] == '#' {
        let hex = t.drop_first();
        if utf8_len(hex) == 6 && all_ascii(hex) {
            match (
                hex_byte(hex.subrange(0, 2)),
                hex_byte(hex.subrange(2, 4)),
                hex_byte(hex.subrange(4, 6)),
            ) {
                (Some(r), Some(g), Some(b)) => Some(Color::Rgb(r, g, b)),
                _ => None,
            }
        } else {
            None
        }
    } else if starts_with(t, indexed_prefix()) && ends_with(t.subrange(8, t.len() as int), seq![')']) {
        match parse_unsigned(trim(t.subrange(8, t.len() - 1)), 255) {
            Some(n) => Some(Color::Indexed(n as u8)),
            None => None,
        }
    } else {
        named_color_spec(lowercase(t))
    }
}

// ---------------------------------------------------------------------
// Executable code: colors
// ---------------------------------------------------------------------

proof fn lemma_ascii_utf8_len(s: Seq<char>)
    requires
        all_ascii(s),
    ensures
        utf8_len(s) == s.len(),
    decreases s.len(),
{
    if s.len() > 0 {
        lemma_ascii_utf8_len(s.drop_last());
    }
}


/// Whether every character is ASCII and there are exactly six of them.
fn six_ascii(v: &[char]) -> (b: bool)
    ensures
        b == (utf8_len(v@) == 6 && all_ascii(v@)),
        b ==> v.len() == 6,
{
    let mut i: usize = 0;
    while i < v.len()
        invariant
            i <= v.len(),
            all_ascii(v@.take(i as int)),
        decreases v.len() - i,
    {
        if (v[i] as u32) >= 0x80 {
            assert(!all_ascii(v@)) by {
                assert(v@[i as int] == v@[i as int]);
            }
            return false;
        }
        assert(all_ascii(v@.take(i + 1))) by {
            assert forall|k: int| 0 <= k < i + 1 implies (#[trigger] v@.take(i + 1)[k] as u32) < 0x80 by {
                if k < i {
                    assert(v@.take(i + 1)[k] == v@.take(i as int)[k]);
                }
            }
        }
        i = i + 1;
    }
    assert(v@.take(v.len() as int) =~= v@);
    proof {
        lemma_ascii_utf8_len(v@);
    }
    v.len() == 6
}

fn hex_digit_value(c: char) -> (r: Option<u8>)
    ensures
        r == (if is_hex(c) {
            Some(hex_value(c) as u8)
        } else {
            None::<u8>
        }),
        r matches Some(v) ==> v < 16,
{
    let u = c as u32;
    if 0x30 <= u && u <= 0x39 {
        Some((u - 0x30) as u8)
    } else if 0x61 <= u && u <= 0x66 {
        Some((u - 0x61 + 10) as u8)
    } else if 0x41 <= u && u <= 0x46 {
        Some((u - 0x41 + 10) as u8)
    } else {
        None
    }
}

/// `u8::from_str_radix(p, 16)` for a two-character `p`.
fn hex_pair(a: char, b: char) -> (r: Option<u8>)
    ensures
        r == hex_byte(seq![a, b]),
{
    let ghost p = seq![a, b];
    if a == '+' {
        assert(p.drop_first() =~= seq![b]);
        match hex_digit_value(b) {
            Some(v) => Some(v),
            None => None,
        }
    } else {
        match (hex_digit_value(a), hex_digit_value(b)) {
            (Some(x), Some(y)) => Some(x * 16 + y),
            _ => None,
        }
    }
}

/// The color a lower-case name stands for.
pub fn named_color(n: &str) -> (r: Option<Color>)
    ensures
        r == named_color_spec(n@),
{
    let v = chars_of(n);
    let v = v.as_slice();
    if chars_eq_str(v, "black") {
        Some(Color::Black)
    } else if chars_eq_str(v, "red") {
        Some(Color::Red)
    } else if chars_eq_str(v, "green") {
        Some(Color::Green)
    } else if chars_eq_str(v, "yellow") {
        Some(Color::Yellow)
    } else if chars_eq_str(v, "blue") {
        Some(Color::Blue)
    } else if chars_eq_str(v, "magenta") {
        Some(Color::Magenta)
    } else if chars_eq_str(v, "cyan") {
        Some(Color::Cyan)
    } else if chars_eq_str(v, "gray") || chars_eq_str(v, "grey") {
        Some(Color::Gray)
    } else if chars_eq_str(v, "dark_gray") || chars_eq_str(v, "dark_grey") || chars_eq_str(
        v,
        "darkgray",
    ) || chars_eq_str(v, "darkgrey") {
        Some(Color::DarkGray)
    } else if chars_eq_str(v, "light_red") || chars_eq_str(v, "lightred") {
        Some(Color::LightRed)
    } else if chars_eq_str(v, "light_green") || chars_eq_str(v, "lightgreen") {
        Some(Color::LightGreen)
    } else if chars_eq_str(v, "light_yellow") || chars_eq_str(v, "lightyellow") {
        Some(Color::LightYellow)
    } else if chars_eq_str(v, "light_blue") || chars_eq_str(v, "lightblue") {
        Some(Color::LightBlue)
    } else if chars_eq_str(v, "light_magenta") || chars_eq_str(v, "lightmagenta") {
        Some(Color::LightMagenta)
    } else if chars_eq_str(v, "light_cyan") || chars_eq_str(v, "lightcyan") {
        Some(Color::LightCyan)
    } else if chars_eq_str(v, "white") {
        Some(Color::White)
    } else {
        None
    }
}


/// Whether `parse_color` may be called on `s` (see `color_input_ok`).
pub fn color_input_checked(s: &str) -> (b: bool)
    ensures
        b == color_input_ok(s@),
{
    let cs = chars_of(s);
    let t = trim_chars(cs.as_slice());
    if !(t.len() > 0 && t[0] == '#') {
        return true;
    }
    let hex = sub_chars(t.as_slice(), 1, t.len());
    assert(hex@ =~= t@.drop_first());
    let ghost h = hex@;
    let mut acc: usize = 0;
    let mut seen2 = false;
    let mut seen4 = false;
    let mut i: usize = 0;
    while i < hex.len()
        invariant
            i <= hex.len(),
            h == hex@,
            t@ == trim(s@),
            t@.len() > 0 && t@[0] == '#',
            h == t@.drop_first(),
            acc as nat == utf8_len(h.take(i as int)),
            acc <= 6,
            seen2 == (exists|k: int| 0 <= k < i && utf8_len(#[trigger] h.take(k)) == 2),
            seen4 == (exists|k: int| 0 <= k < i && utf8_len(#[trigger] h.take(k)) == 4),
        decreases hex.len() - i,
    {
        if acc == 2 {
            seen2 = true;
        }
        if acc == 4 {
            seen4 = true;
        }
        let w = utf8_width_exec(hex[i]);
        assert(h.take(i + 1).drop_last() =~= h.take(i as int));
        proof {
            assert forall|k: int| 0 <= k < i + 1 && utf8_len(#[trigger] h.take(k)) == 2 implies (k < i
                || acc == 2) by {}
            assert forall|k: int| 0 <= k < i + 1 && utf8_len(#[trigger] h.take(k)) == 4 implies (k < i
                || acc == 4) by {}
        }
        if acc + w > 6 {
            proof {
                assert(h.take(i + 1).last() == h[i as int]);
                assert(utf8_len(h.take(i + 1)) == acc + w);
                lemma_utf8_len_prefix(h, i + 1);
            }
            return true;
        }
        acc = acc + w;
        i = i + 1;
    }
    assert(h.take(i as int) =~= h);
    if acc != 6 {
        return true;
    }
    proof {
        assert(utf8_len(h.take(i as int)) == 6);
        assert forall|k: int| 0 <= k <= h.len() && utf8_len(#[trigger] h.take(k)) == 2 implies k < i by {}
        assert forall|k: int| 0 <= k <= h.len() && utf8_len(#[trigger] h.take(k)) == 4 implies k < i by {}
    }
    seen2 && seen4
}

/// Parses a color string from the config.
pub fn parse_color(s: &str) -> (r: Option<Color>)
    requires
        color_input_ok(s@),
    ensures
        r == parse_color_spec(s@),
{
    let cs = chars_of(s);
    let t = trim_chars(cs.as_slice());
    if t.len() > 0 && t[0] == '#' {
        let hex = sub_chars(t.as_slice(), 1, t.len());
        assert(hex@ =~= t@.drop_first());
        if six_ascii(hex.as_slice()) {
            assert(hex@.subrange(0, 2) =~= seq![hex@[0], hex@[1]]);
            assert(hex@.subrange(2, 4) =~= seq![hex@[2], hex@[3]]);
            assert(hex@.subrange(4, 6) =~= seq![hex@[4], hex@[5]]);
            let r = hex_pair(hex[0], hex[1]);
            let g = hex_pair(hex[2], hex[3]);
            let b = hex_pair(hex[4], hex[5]);
            return match (r, g, b) {
                (Some(r), Some(g), Some(b)) => Some(Color::Rgb(r, g, b)),
                _ => None,
            };
        }
        return None;
    }
    let prefix: Vec<char> = vec!['i', 'n', 'd', 'e', 'x', 'e', 'd', '('];
    assert(prefix@ =~= indexed_prefix());
    if has_prefix(t.as_slice(), prefix.as_slice()) {
        let after = sub_chars(t.as_slice(), 8, t.len());
        let close: Vec<char> = vec![')'];
        assert(close@ =~= seq![')']);
        assert(after@ =~= t@.subrange(8, t@.len() as int));
        if has_suffix(after.as_slice(), close.as_slice()) {
            let inner = sub_chars(t.as_slice(), 8, t.len() - 1);
            let inner = trim_chars(inner.as_slice());
            return match parse_usize_chars(inner.as_slice()) {
                Some(n) => {
                    if n <= 255 {
                        Some(Color::Indexed(n as u8))
                    } else {
                        None
                    }
                },
                None => None,
            };
        }
    }
    let ts = crate::text::string_of(t.as_slice());
    let lower = to_lowercase_string(ts.as_str());
    named_color(lower.as_str())
}


// ---------------------------------------------------------------------
// Themes
// ---------------------------------------------------------------------

/// The colors of every part of the interface.
#[derive(Debug, Clone, Copy, PartialEq, Eq, Structural)]
pub struct Theme {
    pub user_message: Color,
    pub assistant_message_fg: Color,
    pub assistant_message_bg: Color,
    pub system_message: Color,
    pub border_focused: Color,
    pub border_unfocused: Color,
    pub status_bar_fg: Color,
    pub status_bar_bg: Color,
    pub status_error_fg: Color,
    pub status_error_bg: Color,
    pub status_info_fg: Color,
    pub status_info_bg: Color,
    pub status_warning_fg: Color,
    pub status_warning_bg: Color,
    pub dialogue: Color,
    pub nav_cursor_fg: Color,
    pub nav_cursor_bg: Color,
    pub hover_bg: Color,
    pub dimmed: Color,
    pub sidebar_highlight_fg: Color,
    pub sidebar_highlight_bg: Color,
    pub command_picker_fg: Color,
    pub command_picker_bg: Color,
    pub streaming_indicator: Color,
    pub api_unavailable: Color,
    pub summary_indicator: Color,
}

/// Color overrides from the config: each entry, where present, is a color string
/// for the field of the same name in `Theme`.
#[derive(Debug, Clone)]
pub struct ThemeColorOverrides {
    pub user_message: Option<String>,
    pub assistant_message_fg: Option<String>,
    pub assistant_message_bg: Option<String>,
    pub system_message: Option<String>,
    pub border_focused: Option<String>,
    pub border_unfocused: Option<String>,
    pub status_bar_fg: Option<String>,
    pub status_bar_bg: Option<String>,
    pub status_error_fg: Option<String>,
    pub status_error_bg: Option<String>,
    pub status_info_fg: Option<String>,
    pub status_info_bg: Option<String>,
    pub status_warning_fg: Option<String>,
    pub status_warning_bg: Option<String>,
    pub dialogue: Option<String>,
    pub nav_cursor_fg: Option<String>,
    pub nav_cursor_bg: Option<String>,
    pub hover_bg: Option<String>,
    pub dimmed: Option<String>,
    pub sidebar_highlight_fg: Option<String>,
    pub sidebar_highlight_bg: Option<String>,
    pub command_picker_fg: Option<String>,
    pub command_picker_bg: Option<String>,
    pub streaming_indicator: Option<String>,
    pub api_unavailable: Option<String>,
    pub summary_indicator: Option<String>,
}

impl Default for ThemeColorOverrides {
    fn default() -> (r: Self)
        ensures
            r.user_message is None,
            r.assistant_message_fg is None,
            r.assistant_message_bg is None,
            r.system_message is None,
            r.border_focused is None,
            r.border_unfocused is None,
            r.status_bar_fg is None,
            r.status_bar_bg is None,
            r.status_error_fg is None,
            r.status_error_bg is None,
            r.status_info_fg is None,
            r.status_info_bg is None,
            r.status_warning_fg is None,
            r.status_warning_bg is None,
            r.dialogue is None,
            r.nav_cursor_fg is None,
            r.nav_cursor_bg is None,
            r.hover_bg is None,
            r.dimmed is None,
            r.sidebar_highlight_fg is None,
            r.sidebar_highlight_bg is None,
            r.command_picker_fg is None,
            r.command_picker_bg is None,
            r.streaming_indicator is None,
            r.api_unavailable is None,
            r.summary_indicator is None,
    {
        ThemeColorOverrides {
            user_message: None,
            assistant_message_fg: None,
            assistant_message_bg: None,
            system_message: None,
            border_focused: None,
            border_unfocused: None,
            status_bar_fg: None,
            status_bar_bg: None,
            status_error_fg: None,
            status_error_bg: None,
            status_info_fg: None,
            status_info_bg: None,
            status_warning_fg: None,
            status_warning_bg: None,
            dialogue: None,
            nav_cursor_fg: None,
            nav_cursor_bg: None,
            hover_bg: None,
            dimmed: None,
            sidebar_highlight_fg: None,
            sidebar_highlight_bg: None,
            command_picker_fg: None,
            command_picker_bg: None,
            streaming_indicator: None,
            api_unavailable: None,
            summary_indicator: None,
        }
    }
}

/// The built-in dark palette.
pub open spec fn dark_palette() -> Theme {
    Theme {
        user_message: Color::Green,
        assistant_message_fg: Color::White,
        assistant_message_bg: Color::Blue,
        system_message: Color::DarkGray,
        border_focused: Color::Cyan,
        border_unfocused: Color::DarkGray,
        status_bar_fg: Color::White,
        status_bar_bg: Color::DarkGray,
        status_error_fg: Color::White,
        status_error_bg: Color::Red,
        status_info_fg: Color::White,
        status_info_bg: Color::Blue,
        status_warning_fg: Color::Black,
        status_warning_bg: Color::Yellow,
        dialogue: Color::LightBlue,
        nav_cursor_fg: Color::Black,
        nav_cursor_bg: Color::Yellow,
        hover_bg: Color::Indexed(236),
        dimmed: Color::DarkGray,
        sidebar_highlight_fg: Color::Black,
        sidebar_highlight_bg: Color::Cyan,
        command_picker_fg: Color::Black,
        command_picker_bg: Color::Yellow,
        streaming_indicator: Color::Yellow,
        api_unavailable: Color::Red,
        summary_indicator: Color::DarkGray,
    }
}

/// The built-in light palette.
pub open spec fn light_palette() -> Theme {
    Theme {
        user_message: Color::Blue,
        assistant_message_fg: Color::White,
        assistant_message_bg: Color::Magenta,
        system_message: Color::DarkGray,
        border_focused: Color::Blue,
        border_unfocused: Color::DarkGray,
        status_bar_fg: Color::White,
        status_bar_bg: Color::Indexed(238),
        status_error_fg: Color::White,
        status_error_bg: Color::Red,
        status_info_fg: Color::White,
        status_info_bg: Color::Blue,
        status_warning_fg: Color::Black,
        status_warning_bg: Color::Yellow,
        dialogue: Color::Magenta,
        nav_cursor_fg: Color::White,
        nav_cursor_bg: Color::Blue,
        hover_bg: Color::Indexed(254),
        dimmed: Color::DarkGray,
        sidebar_highlight_fg: Color::White,
        sidebar_highlight_bg: Color::Blue,
        command_picker_fg: Color::White,
        command_picker_bg: Color::Blue,
        streaming_indicator: Color::Blue,
        api_unavailable: Color::Red,
        summary_indicator: Color::Gray,
    }
}

/// The color that an optional override string gives in place of `c`: the parsed
/// color where the string parses, else `c` unchanged.
pub open spec fn override_color(c: Color, o: Option<String>) -> Color {
    match o {
        Some(s) => match parse_color_spec(s@) {
            Some(n) => n,
            None => c,
        },
        None => c,
    }
}

/// Whether an optional override string may be handed to `parse_color`.
pub open spec fn override_ok(o: Option<String>) -> bool {
    o matches Some(s) ==> color_input_ok(s@)
}

/// The theme a built-in name stands for.
pub open spec fn theme_named(n: Seq<char>) -> Option<Theme> {
    if n == "dark"@ {
        Some(dark_palette())
    } else if n == "light"@ {
        Some(light_palette())
    } else {
        None
    }
}

/// The names of the built-in themes, in order.
pub open spec fn theme_names() -> Seq<Seq<char>> {
    seq!["dark"@, "light"@]
}

impl ThemeColorOverrides {
    /// Whether every present override may be handed to `parse_color`.
    pub open spec fn parseable(self) -> bool {
        &&& override_ok(self.user_message)
        &&& override_ok(self.assistant_message_fg)
        &&& override_ok(self.assistant_message_bg)
        &&& override_ok(self.system_message)
        &&& override_ok(self.border_focused)
        &&& override_ok(self.border_unfocused)
        &&& override_ok(self.status_bar_fg)
        &&& override_ok(self.status_bar_bg)
        &&& override_ok(self.status_error_fg)
        &&& override_ok(self.status_error_bg)
        &&& override_ok(self.status_info_fg)
        &&& override_ok(self.status_info_bg)
        &&& override_ok(self.status_warning_fg)
        &&& override_ok(self.status_warning_bg)
        &&& override_ok(self.dialogue)
        &&& override_ok(self.nav_cursor_fg)
        &&& override_ok(self.nav_cursor_bg)
        &&& override_ok(self.hover_bg)
        &&& override_ok(self.dimmed)
        &&& override_ok(self.sidebar_highlight_fg)
        &&& override_ok(self.sidebar_highlight_bg)
        &&& override_ok(self.command_picker_fg)
        &&& override_ok(self.command_picker_bg)
        &&& override_ok(self.streaming_indicator)
        &&& override_ok(self.api_unavailable)
        &&& override_ok(self.summary_indicator)
    }

    /// Checks `parseable`.
    pub fn is_parseable(&self) -> (b: bool)
        ensures
            b == self.parseable(),
    {
        override_checked(&self.user_message) && override_checked(&self.assistant_message_fg) && override_checked(&self.assistant_message_bg) && override_checked(&self.system_message) && override_checked(&self.border_focused) && override_checked(&self.border_unfocused) && override_checked(&self.status_bar_fg) && override_checked(&self.status_bar_bg) && override_checked(&self.status_error_fg) && override_checked(&self.status_error_bg) && override_checked(&self.status_info_fg) && override_checked(&self.status_info_bg) && override_checked(&self.status_warning_fg) && override_checked(&self.status_warning_bg) && override_checked(&self.dialogue) && override_checked(&self.nav_cursor_fg) && override_checked(&self.nav_cursor_bg) && override_checked(&self.hover_bg) && override_checked(&self.dimmed) && override_checked(&self.sidebar_highlight_fg) && override_checked(&self.sidebar_highlight_bg) && override_checked(&self.command_picker_fg) && override_checked(&self.command_picker_bg) && override_checked(&self.streaming_indicator) && override_checked(&self.api_unavailable) && override_checked(&self.summary_indicator)
    }
}

/// Checks `override_ok`.
fn override_checked(o: &Option<String>) -> (b: bool)
    ensures
        b == override_ok(*o),
{
    match o {
        Some(s) => color_input_checked(s.as_str()),
        None => true,
    }
}

/// Replaces `*field` with the color `o` names, where it names one.
fn apply_one(field: &mut Color, o: &Option<String>)
    requires
        override_ok(*o),
    ensures
        *final(field) == override_color(*old(field), *o),
{
    if let Some(s) = o {
        if let Some(c) = parse_color(s.as_str()) {
            *field = c;
        }
    }
}

impl Theme {
    /// The theme with each overridden field replaced as `override_color` says.
    pub open spec fn with_overrides(self, o: ThemeColorOverrides) -> Theme {
        Theme {
            user_message: override_color(self.user_message, o.user_message),
            assistant_message_fg: override_color(self.assistant_message_fg, o.assistant_message_fg),
            assistant_message_bg: override_color(self.assistant_message_bg, o.assistant_message_bg),
            system_message: override_color(self.system_message, o.system_message),
            border_focused: override_color(self.border_focused, o.border_focused),
            border_unfocused: override_color(self.border_unfocused, o.border_unfocused),
            status_bar_fg: override_color(self.status_bar_fg, o.status_bar_fg),
            status_bar_bg: override_color(self.status_bar_bg, o.status_bar_bg),
            status_error_fg: override_color(self.status_error_fg, o.status_error_fg),
            status_error_bg: override_color(self.status_error_bg, o.status_error_bg),
            status_info_fg: override_color(self.status_info_fg, o.status_info_fg),
            status_info_bg: override_color(self.status_info_bg, o.status_info_bg),
            status_warning_fg: override_color(self.status_warning_fg, o.status_warning_fg),
            status_warning_bg: override_color(self.status_warning_bg, o.status_warning_bg),
            dialogue: override_color(self.dialogue, o.dialogue),
            nav_cursor_fg: override_color(self.nav_cursor_fg, o.nav_cursor_fg),
            nav_cursor_bg: override_color(self.nav_cursor_bg, o.nav_cursor_bg),
            hover_bg: override_color(self.hover_bg, o.hover_bg),
            dimmed: override_color(self.dimmed, o.dimmed),
            sidebar_highlight_fg: override_color(self.sidebar_highlight_fg, o.sidebar_highlight_fg),
            sidebar_highlight_bg: override_color(self.sidebar_highlight_bg, o.sidebar_highlight_bg),
            command_picker_fg: override_color(self.command_picker_fg, o.command_picker_fg),
            command_picker_bg: override_color(self.command_picker_bg, o.command_picker_bg),
            streaming_indicator: override_color(self.streaming_indicator, o.streaming_indicator),
            api_unavailable: override_color(self.api_unavailable, o.api_unavailable),
            summary_indicator: override_color(self.summary_indicator, o.summary_indicator),
        }
    }

    pub fn dark() -> (t: Self)
        ensures
            t == dark_palette(),
    {
        Theme {
            user_message: Color::Green,
            assistant_message_fg: Color::White,
            assistant_message_bg: Color::Blue,
            system_message: Color::DarkGray,
            border_focused: Color::Cyan,
            border_unfocused: Color::DarkGray,
            status_bar_fg: Color::White,
            status_bar_bg: Color::DarkGray,
            status_error_fg: Color::White,
            status_error_bg: Color::Red,
            status_info_fg: Color::White,
            status_info_bg: Color::Blue,
            status_warning_fg: Color::Black,
            status_warning_bg: Color::Yellow,
            dialogue: Color::LightBlue,
            nav_cursor_fg: Color::Black,
            nav_cursor_bg: Color::Yellow,
            hover_bg: Color::Indexed(236),
            dimmed: Color::DarkGray,
            sidebar_highlight_fg: Color::Black,
            sidebar_highlight_bg: Color::Cyan,
            command_picker_fg: Color::Black,
            command_picker_bg: Color::Yellow,
            streaming_indicator: Color::Yellow,
            api_unavailable: Color::Red,
            summary_indicator: Color::DarkGray,
        }
    }

    pub fn light() -> (t: Self)
        ensures
            t == light_palette(),
    {
        Theme {
            user_message: Color::Blue,
            assistant_message_fg: Color::White,
            assistant_message_bg: Color::Magenta,
            system_message: Color::DarkGray,
            border_focused: Color::Blue,
            border_unfocused: Color::DarkGray,
            status_bar_fg: Color::White,
            status_bar_bg: Color::Indexed(238),
            status_error_fg: Color::White,
            status_error_bg: Color::Red,
            status_info_fg: Color::White,
            status_info_bg: Color::Blue,
            status_warning_fg: Color::Black,
            status_warning_bg: Color::Yellow,
            dialogue: Color::Magenta,
            nav_cursor_fg: Color::White,
            nav_cursor_bg: Color::Blue,
            hover_bg: Color::Indexed(254),
            dimmed: Color::DarkGray,
            sidebar_highlight_fg: Color::White,
            sidebar_highlight_bg: Color::Blue,
            command_picker_fg: Color::White,
            command_picker_bg: Color::Blue,
            streaming_indicator: Color::Blue,
            api_unavailable: Color::Red,
            summary_indicator: Color::Gray,
        }
    }

    /// The built-in theme of that name, if there is one.
    pub fn from_name(name: &str) -> (r: Option<Self>)
        ensures
            r == theme_named(name@),
    {
        let v = chars_of(name);
        if chars_eq_str(v.as_slice(), "dark") {
            Some(Self::dark())
        } else if chars_eq_str(v.as_slice(), "light") {
            Some(Self::light())
        } else {
            None
        }
    }

    /// Applies every override whose string parses as a color.
    pub fn apply_overrides(&mut self, overrides: &ThemeColorOverrides)
        requires
            overrides.parseable(),
        ensures
            *final(self) == old(self).with_overrides(*overrides),
    {
        apply_one(&mut self.user_message, &overrides.user_message);
        apply_one(&mut self.assistant_message_fg, &overrides.assistant_message_fg);
        apply_one(&mut self.assistant_message_bg, &overrides.assistant_message_bg);
        apply_one(&mut self.system_message, &overrides.system_message);
        apply_one(&mut self.border_focused, &overrides.border_focused);
        apply_one(&mut self.border_unfocused, &overrides.border_unfocused);
        apply_one(&mut self.status_bar_fg, &overrides.status_bar_fg);
        apply_one(&mut self.status_bar_bg, &overrides.status_bar_bg);
        apply_one(&mut self.status_error_fg, &overrides.status_error_fg);
        apply_one(&mut self.status_error_bg, &overrides.status_error_bg);
        apply_one(&mut self.status_info_fg, &overrides.status_info_fg);
        apply_one(&mut self.status_info_bg, &overrides.status_info_bg);
        apply_one(&mut self.status_warning_fg, &overrides.status_warning_fg);
        apply_one(&mut self.status_warning_bg, &overrides.status_warning_bg);
        apply_one(&mut self.dialogue, &overrides.dialogue);
        apply_one(&mut self.nav_cursor_fg, &overrides.nav_cursor_fg);
        apply_one(&mut self.nav_cursor_bg, &overrides.nav_cursor_bg);
        apply_one(&mut self.hover_bg, &overrides.hover_bg);
        apply_one(&mut self.dimmed, &overrides.dimmed);
        apply_one(&mut self.sidebar_highlight_fg, &overrides.sidebar_highlight_fg);
        apply_one(&mut self.sidebar_highlight_bg, &overrides.sidebar_highlight_bg);
        apply_one(&mut self.command_picker_fg, &overrides.command_picker_fg);
        apply_one(&mut self.command_picker_bg, &overrides.command_picker_bg);
        apply_one(&mut self.streaming_indicator, &overrides.streaming_indicator);
        apply_one(&mut self.api_unavailable, &overrides.api_unavailable);
        apply_one(&mut self.summary_indicator, &overrides.summary_indicator);
    }

    /// The names that `from_name` knows.
    pub fn available_themes() -> (r: Vec<&'static str>)
        ensures
            r@.len() == theme_names().len(),
            forall|i: int| 0 <= i < r@.len() ==> (#[trigger] r@[i])@ == theme_names()[i],
    {
        let r: Vec<&'static str> = vec!["dark", "light"];
        r
    }
}

/// The theme-related part of the configuration.
#[derive(Debug, Clone)]
pub struct ThemeConfig {
    /// Name of the base theme (`dark` when absent or unknown).
    pub theme: Option<String>,
    /// Per-field color overrides.
    pub theme_colors: Option<ThemeColorOverrides>,
}

impl Default for ThemeConfig {
    fn default() -> (r: Self)
        ensures
            r.theme is None,
            r.theme_colors is None,
    {
        ThemeConfig { theme: None, theme_colors: None }
    }
}

impl ThemeConfig {
    /// Whether `resolve_theme` may be called: every present override is parseable.
    pub open spec fn resolvable(self) -> bool {
        self.theme_colors matches Some(o) ==> o.parseable()
    }
}

/// The theme a configuration selects: its named base theme (`dark` when the name is
/// absent or unknown), with the overrides applied.
pub open spec fn resolve_theme_spec(c: ThemeConfig) -> Theme {
    let base = match c.theme {
        Some(n) => match theme_named(n@) {
            Some(t) => t,
            None => dark_palette(),
        },
        None => dark_palette(),
    };
    match c.theme_colors {
        Some(o) => base.with_overrides(o),
        None => base,
    }
}

/// Builds the theme the configuration selects.
pub fn resolve_theme(config: &ThemeConfig) -> (t: Theme)
    requires
        config.resolvable(),
    ensures
        t == resolve_theme_spec(*config),
{
    let mut theme = match &config.theme {
        Some(n) => match Theme::from_name(n.as_str()) {
            Some(t) => t,
            None => Theme::dark(),
        },
        None => Theme::dark(),
    };
    if let Some(overrides) = &config.theme_colors {
        theme.apply_overrides(overrides);
    }
    theme
}


/// Every name that `Theme::available_themes` lists is one that `Theme::from_name` knows.
pub proof fn law_available_themes_known(i: int)
    requires
        0 <= i < theme_names().len(),
    ensures
        theme_named(theme_names()[i]) is Some,
{
}

} // verus!
