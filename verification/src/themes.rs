//! The built-in color themes.

use vstd::prelude::*;

use crate::seq_util::{first_index, lemma_first_index};
use crate::text::{all_ascii, ascii_lower, lowercase, str_eq, to_lowercase};

verus! {

/// A 24-bit color.
#[derive(Debug, Clone, Copy, PartialEq, Eq, Structural)]
pub struct Rgb {
    pub r: u8,
    pub g: u8,
    pub b: u8,
}

/// The colors of a theme.
#[derive(Debug, Clone, Copy)]
pub struct Theme {
    pub name: &'static str,
    pub bg: Rgb,
    pub fg: Rgb,
    pub accent: Rgb,
    pub border: Rgb,
    pub selection: Rgb,
    pub user_msg: Rgb,
    pub assistant_msg: Rgb,
    pub error: Rgb,
    pub warning: Rgb,
    pub success: Rgb,
    pub muted: Rgb,
    pub tool_pending: Rgb,
    pub tool_running: Rgb,
    pub tool_complete: Rgb,
    pub tool_error: Rgb,
}

/// Number of built-in themes.
pub const THEME_COUNT: usize = 7;

/// The built-in theme with index `i`; the first one is the default.
pub open spec fn theme_spec(i: int) -> Theme {
        if i == 0 {
        Theme {
            name: "Default",
            bg: Rgb { r: 30, g: 30, b: 46 },
            fg: Rgb { r: 205, g: 214, b: 244 },
            accent: Rgb { r: 137, g: 180, b: 250 },
            border: Rgb { r: 88, g: 91, b: 112 },
            selection: Rgb { r: 69, g: 71, b: 90 },
            user_msg: Rgb { r: 166, g: 227, b: 161 },
            assistant_msg: Rgb { r: 205, g: 214, b: 244 },
            error: Rgb { r: 243, g: 139, b: 168 },
            warning: Rgb { r: 249, g: 226, b: 175 },
            success: Rgb { r: 166, g: 227, b: 161 },
            muted: Rgb { r: 108, g: 112, b: 134 },
            tool_pending: Rgb { r: 249, g: 226, b: 175 },
            tool_running: Rgb { r: 137, g: 180, b: 250 },
            tool_complete: Rgb { r: 166, g: 227, b: 161 },
            tool_error: Rgb { r: 243, g: 139, b: 168 },
        }
        } else if i == 1 {
        Theme {
            name: "Catppuccin Mocha",
            bg: Rgb { r: 30, g: 30, b: 46 },
            fg: Rgb { r: 205, g: 214, b: 244 },
            accent: Rgb { r: 180, g: 190, b: 254 },
            border: Rgb { r: 88, g: 91, b: 112 },
            selection: Rgb { r: 69, g: 71, b: 90 },
            user_msg: Rgb { r: 148, g: 226, b: 213 },
            assistant_msg: Rgb { r: 205, g: 214, b: 244 },
            error: Rgb { r: 243, g: 139, b: 168 },
            warning: Rgb { r: 249, g: 226, b: 175 },
            success: Rgb { r: 166, g: 227, b: 161 },
            muted: Rgb { r: 108, g: 112, b: 134 },
            tool_pending: Rgb { r: 249, g: 226, b: 175 },
            tool_running: Rgb { r: 116, g: 199, b: 236 },
            tool_complete: Rgb { r: 166, g: 227, b: 161 },
            tool_error: Rgb { r: 243, g: 139, b: 168 },
        }
        } else if i == 2 {
        Theme {
            name: "Dracula",
            bg: Rgb { r: 40, g: 42, b: 54 },
            fg: Rgb { r: 248, g: 248, b: 242 },
            accent: Rgb { r: 189, g: 147, b: 249 },
            border: Rgb { r: 68, g: 71, b: 90 },
            selection: Rgb { r: 68, g: 71, b: 90 },
            user_msg: Rgb { r: 80, g: 250, b: 123 },
            assistant_msg: Rgb { r: 248, g: 248, b: 242 },
            error: Rgb { r: 255, g: 85, b: 85 },
            warning: Rgb { r: 241, g: 250, b: 140 },
            success: Rgb { r: 80, g: 250, b: 123 },
            muted: Rgb { r: 98, g: 114, b: 164 },
            tool_pending: Rgb { r: 241, g: 250, b: 140 },
            tool_running: Rgb { r: 139, g: 233, b: 253 },
            tool_complete: Rgb { r: 80, g: 250, b: 123 },
            tool_error: Rgb { r: 255, g: 85, b: 85 },
        }
        } else if i == 3 {
        Theme {
            name: "Gruvbox",
            bg: Rgb { r: 40, g: 40, b: 40 },
            fg: Rgb { r: 235, g: 219, b: 178 },
            accent: Rgb { r: 215, g: 153, b: 33 },
            border: Rgb { r: 80, g: 73, b: 69 },
            selection: Rgb { r: 60, g: 56, b: 54 },
            user_msg: Rgb { r: 184, g: 187, b: 38 },
            assistant_msg: Rgb { r: 235, g: 219, b: 178 },
            error: Rgb { r: 204, g: 36, b: 29 },
            warning: Rgb { r: 250, g: 189, b: 47 },
            success: Rgb { r: 152, g: 151, b: 26 },
            muted: Rgb { r: 146, g: 131, b: 116 },
            tool_pending: Rgb { r: 250, g: 189, b: 47 },
            tool_running: Rgb { r: 69, g: 133, b: 136 },
            tool_complete: Rgb { r: 152, g: 151, b: 26 },
            tool_error: Rgb { r: 204, g: 36, b: 29 },
        }
        } else if i == 4 {
        Theme {
            name: "Tokyo Night",
            bg: Rgb { r: 26, g: 27, b: 38 },
            fg: Rgb { r: 192, g: 202, b: 245 },
            accent: Rgb { r: 122, g: 162, b: 247 },
            border: Rgb { r: 59, g: 66, b: 97 },
            selection: Rgb { r: 41, g: 46, b: 66 },
            user_msg: Rgb { r: 158, g: 206, b: 106 },
            assistant_msg: Rgb { r: 192, g: 202, b: 245 },
            error: Rgb { r: 247, g: 118, b: 142 },
            warning: Rgb { r: 224, g: 175, b: 104 },
            success: Rgb { r: 158, g: 206, b: 106 },
            muted: Rgb { r: 84, g: 93, b: 134 },
            tool_pending: Rgb { r: 224, g: 175, b: 104 },
            tool_running: Rgb { r: 125, g: 207, b: 255 },
            tool_complete: Rgb { r: 158, g: 206, b: 106 },
            tool_error: Rgb { r: 247, g: 118, b: 142 },
        }
        } else if i == 5 {
        Theme {
            name: "One Dark",
            bg: Rgb { r: 40, g: 44, b: 52 },
            fg: Rgb { r: 171, g: 178, b: 191 },
            accent: Rgb { r: 97, g: 175, b: 239 },
            border: Rgb { r: 76, g: 82, b: 99 },
            selection: Rgb { r: 62, g: 68, b: 81 },
            user_msg: Rgb { r: 152, g: 195, b: 121 },
            assistant_msg: Rgb { r: 171, g: 178, b: 191 },
            error: Rgb { r: 224, g: 108, b: 117 },
            warning: Rgb { r: 229, g: 192, b: 123 },
            success: Rgb { r: 152, g: 195, b: 121 },
            muted: Rgb { r: 92, g: 99, b: 112 },
            tool_pending: Rgb { r: 229, g: 192, b: 123 },
            tool_running: Rgb { r: 86, g: 182, b: 194 },
            tool_complete: Rgb { r: 152, g: 195, b: 121 },
            tool_error: Rgb { r: 224, g: 108, b: 117 },
        }
        } else {
        Theme {
            name: "Monokai",
            bg: Rgb { r: 39, g: 40, b: 34 },
            fg: Rgb { r: 248, g: 248, b: 242 },
            accent: Rgb { r: 102, g: 217, b: 239 },
            border: Rgb { r: 73, g: 72, b: 62 },
            selection: Rgb { r: 62, g: 61, b: 50 },
            user_msg: Rgb { r: 166, g: 226, b: 46 },
            assistant_msg: Rgb { r: 248, g: 248, b: 242 },
            error: Rgb { r: 249, g: 38, b: 114 },
            warning: Rgb { r: 253, g: 151, b: 31 },
            success: Rgb { r: 166, g: 226, b: 46 },
            muted: Rgb { r: 117, g: 113, b: 94 },
            tool_pending: Rgb { r: 253, g: 151, b: 31 },
            tool_running: Rgb { r: 102, g: 217, b: 239 },
            tool_complete: Rgb { r: 166, g: 226, b: 46 },
            tool_error: Rgb { r: 249, g: 38, b: 114 },
        }
    }
}

/// The built-in theme with index `i`.
pub fn builtin_theme(i: usize) -> (t: Theme)
    requires
        i < THEME_COUNT,
    ensures
        t == theme_spec(i as int),
{
    match i {
        0 => Theme {
            name: "Default",
            bg: Rgb { r: 30, g: 30, b: 46 },
            fg: Rgb { r: 205, g: 214, b: 244 },
            accent: Rgb { r: 137, g: 180, b: 250 },
            border: Rgb { r: 88, g: 91, b: 112 },
            selection: Rgb { r: 69, g: 71, b: 90 },
            user_msg: Rgb { r: 166, g: 227, b: 161 },
            assistant_msg: Rgb { r: 205, g: 214, b: 244 },
            error: Rgb { r: 243, g: 139, b: 168 },
            warning: Rgb { r: 249, g: 226, b: 175 },
            success: Rgb { r: 166, g: 227, b: 161 },
            muted: Rgb { r: 108, g: 112, b: 134 },
            tool_pending: Rgb { r: 249, g: 226, b: 175 },
            tool_running: Rgb { r: 137, g: 180, b: 250 },
            tool_complete: Rgb { r: 166, g: 227, b: 161 },
            tool_error: Rgb { r: 243, g: 139, b: 168 },
        },
        1 => Theme {
            name: "Catppuccin Mocha",
            bg: Rgb { r: 30, g: 30, b: 46 },
            fg: Rgb { r: 205, g: 214, b: 244 },
            accent: Rgb { r: 180, g: 190, b: 254 },
            border: Rgb { r: 88, g: 91, b: 112 },
            selection: Rgb { r: 69, g: 71, b: 90 },
            user_msg: Rgb { r: 148, g: 226, b: 213 },
            assistant_msg: Rgb { r: 205, g: 214, b: 244 },
            error: Rgb { r: 243, g: 139, b: 168 },
            warning: Rgb { r: 249, g: 226, b: 175 },
            success: Rgb { r: 166, g: 227, b: 161 },
            muted: Rgb { r: 108, g: 112, b: 134 },
            tool_pending: Rgb { r: 249, g: 226, b: 175 },
            tool_running: Rgb { r: 116, g: 199, b: 236 },
            tool_complete: Rgb { r: 166, g: 227, b: 161 },
            tool_error: Rgb { r: 243, g: 139, b: 168 },
        },
        2 => Theme {
            name: "Dracula",
            bg: Rgb { r: 40, g: 42, b: 54 },
            fg: Rgb { r: 248, g: 248, b: 242 },
            accent: Rgb { r: 189, g: 147, b: 249 },
            border: Rgb { r: 68, g: 71, b: 90 },
            selection: Rgb { r: 68, g: 71, b: 90 },
            user_msg: Rgb { r: 80, g: 250, b: 123 },
            assistant_msg: Rgb { r: 248, g: 248, b: 242 },
            error: Rgb { r: 255, g: 85, b: 85 },
            warning: Rgb { r: 241, g: 250, b: 140 },
            success: Rgb { r: 80, g: 250, b: 123 },
            muted: Rgb { r: 98, g: 114, b: 164 },
            tool_pending: Rgb { r: 241, g: 250, b: 140 },
            tool_running: Rgb { r: 139, g: 233, b: 253 },
            tool_complete: Rgb { r: 80, g: 250, b: 123 },
            tool_error: Rgb { r: 255, g: 85, b: 85 },
        },
        3 => Theme {
            name: "Gruvbox",
            bg: Rgb { r: 40, g: 40, b: 40 },
            fg: Rgb { r: 235, g: 219, b: 178 },
            accent: Rgb { r: 215, g: 153, b: 33 },
            border: Rgb { r: 80, g: 73, b: 69 },
            selection: Rgb { r: 60, g: 56, b: 54 },
            user_msg: Rgb { r: 184, g: 187, b: 38 },
            assistant_msg: Rgb { r: 235, g: 219, b: 178 },
            error: Rgb { r: 204, g: 36, b: 29 },
            warning: Rgb { r: 250, g: 189, b: 47 },
            success: Rgb { r: 152, g: 151, b: 26 },
            muted: Rgb { r: 146, g: 131, b: 116 },
            tool_pending: Rgb { r: 250, g: 189, b: 47 },
            tool_running: Rgb { r: 69, g: 133, b: 136 },
            tool_complete: Rgb { r: 152, g: 151, b: 26 },
            tool_error: Rgb { r: 204, g: 36, b: 29 },
        },
        4 => Theme {
            name: "Tokyo Night",
            bg: Rgb { r: 26, g: 27, b: 38 },
            fg: Rgb { r: 192, g: 202, b: 245 },
            accent: Rgb { r: 122, g: 162, b: 247 },
            border: Rgb { r: 59, g: 66, b: 97 },
            selection: Rgb { r: 41, g: 46, b: 66 },
            user_msg: Rgb { r: 158, g: 206, b: 106 },
            assistant_msg: Rgb { r: 192, g: 202, b: 245 },
            error: Rgb { r: 247, g: 118, b: 142 },
            warning: Rgb { r: 224, g: 175, b: 104 },
            success: Rgb { r: 158, g: 206, b: 106 },
            muted: Rgb { r: 84, g: 93, b: 134 },
            tool_pending: Rgb { r: 224, g: 175, b: 104 },
            tool_running: Rgb { r: 125, g: 207, b: 255 },
            tool_complete: Rgb { r: 158, g: 206, b: 106 },
            tool_error: Rgb { r: 247, g: 118, b: 142 },
        },
        5 => Theme {
            name: "One Dark",
            bg: Rgb { r: 40, g: 44, b: 52 },
            fg: Rgb { r: 171, g: 178, b: 191 },
            accent: Rgb { r: 97, g: 175, b: 239 },
            border: Rgb { r: 76, g: 82, b: 99 },
            selection: Rgb { r: 62, g: 68, b: 81 },
            user_msg: Rgb { r: 152, g: 195, b: 121 },
            assistant_msg: Rgb { r: 171, g: 178, b: 191 },
            error: Rgb { r: 224, g: 108, b: 117 },
            warning: Rgb { r: 229, g: 192, b: 123 },
            success: Rgb { r: 152, g: 195, b: 121 },
            muted: Rgb { r: 92, g: 99, b: 112 },
            tool_pending: Rgb { r: 229, g: 192, b: 123 },
            tool_running: Rgb { r: 86, g: 182, b: 194 },
            tool_complete: Rgb { r: 152, g: 195, b: 121 },
            tool_error: Rgb { r: 224, g: 108, b: 117 },
        },
        _ => Theme {
            name: "Monokai",
            bg: Rgb { r: 39, g: 40, b: 34 },
            fg: Rgb { r: 248, g: 248, b: 242 },
            accent: Rgb { r: 102, g: 217, b: 239 },
            border: Rgb { r: 73, g: 72, b: 62 },
            selection: Rgb { r: 62, g: 61, b: 50 },
            user_msg: Rgb { r: 166, g: 226, b: 46 },
            assistant_msg: Rgb { r: 248, g: 248, b: 242 },
            error: Rgb { r: 249, g: 38, b: 114 },
            warning: Rgb { r: 253, g: 151, b: 31 },
            success: Rgb { r: 166, g: 226, b: 46 },
            muted: Rgb { r: 117, g: 113, b: 94 },
            tool_pending: Rgb { r: 253, g: 151, b: 31 },
            tool_running: Rgb { r: 102, g: 217, b: 239 },
            tool_complete: Rgb { r: 166, g: 226, b: 46 },
            tool_error: Rgb { r: 249, g: 38, b: 114 },
        },
    }
}

/// The names of the built-in themes, in order.
pub open spec fn theme_names() -> Seq<Seq<char>> {
    Seq::new(THEME_COUNT as nat, |i: int| theme_spec(i).name@)
}

/// A theme name that equals `name` ignoring case.
pub open spec fn name_matches(name: Seq<char>) -> spec_fn(Seq<char>) -> bool {
    |n: Seq<char>| lowercase(n) == lowercase(name)
}

/// The theme called `name`, ignoring case; the default theme when none is.
pub open spec fn get_theme_spec(name: Seq<char>) -> Theme {
    let k = first_index(theme_names(), name_matches(name));
    if k >= 0 {
        theme_spec(k)
    } else {
        theme_spec(0)
    }
}

/// The names of all built-in themes.
pub fn list_themes() -> (r: Vec<&'static str>)
    ensures
        r@.len() == THEME_COUNT,
        forall|i: int| 0 <= i < THEME_COUNT ==> (#[trigger] r@[i])@ == theme_spec(i).name@,
{
    let mut r: Vec<&'static str> = Vec::new();
    for i in 0..THEME_COUNT
        invariant
            r@.len() == i,
            forall|j: int| 0 <= j < i ==> (#[trigger] r@[j])@ == theme_spec(j).name@,
    {
        r.push(builtin_theme(i).name);
    }
    r
}

/// The built-in themes' names are ASCII, and no two of them are equal ignoring case.
proof fn lemma_theme_names(k: int, i: int)
    requires
        0 <= k < THEME_COUNT,
        0 <= i < THEME_COUNT,
    ensures
        all_ascii(theme_spec(i).name@),
        k != i ==> theme_spec(k).name@.map_values(|c: char| ascii_lower(c)) != theme_spec(
            i,
        ).name@.map_values(|c: char| ascii_lower(c)),
{
    reveal_strlit("Default");
    reveal_strlit("Catppuccin Mocha");
    reveal_strlit("Dracula");
    reveal_strlit("Gruvbox");
    reveal_strlit("Tokyo Night");
    reveal_strlit("One Dark");
    reveal_strlit("Monokai");
    let f = |c: char| ascii_lower(c);
    let a = theme_spec(k).name@;
    let b = theme_spec(i).name@;
    assert(a.map_values(f).len() == a.len());
    assert(b.map_values(f).len() == b.len());
    if k != i && a.map_values(f) == b.map_values(f) {
        assert(a.len() == b.len());
        assert(a.map_values(f)[0] == b.map_values(f)[0]);
        assert(a.map_values(f)[1] == b.map_values(f)[1]);
    }
}

/// `a` is ASCII text equal to `b` when letters are compared ignoring case.
pub open spec fn same_ignoring_case(a: Seq<char>, b: Seq<char>) -> bool {
    all_ascii(a) && a.map_values(|c: char| ascii_lower(c)) == b.map_values(|c: char| ascii_lower(c))
}

/// The theme called `name`, ignoring case; falls back to the default theme.
/// Asked by the name of a built-in theme, in any letter case, it gives that theme.
pub fn get_theme(name: &str) -> (t: Theme)
    ensures
        t == get_theme_spec(name@),
        forall|i: int|
            0 <= i < THEME_COUNT && name@ == (#[trigger] theme_spec(i)).name@ ==> t == theme_spec(i),
        forall|i: int|
            0 <= i < THEME_COUNT && same_ignoring_case(name@, (#[trigger] theme_spec(i)).name@) ==> t
                == theme_spec(i),
{
    let lower = to_lowercase(name);
    for i in 0..THEME_COUNT
        invariant
            lower@ == lowercase(name@),
            all_ascii(name@) ==> lower@ == name@.map_values(|c: char| ascii_lower(c)),
            forall|j: int| 0 <= j < i ==> !name_matches(name@)(#[trigger] theme_names()[j]),
            forall|j: int| 0 <= j < i ==> name@ != (#[trigger] theme_spec(j)).name@,
            forall|j: int| 0 <= j < i ==> !same_ignoring_case(name@, (#[trigger] theme_spec(j)).name@),
    {
        let t = builtin_theme(i);
        let tl = to_lowercase(t.name);
        proof {
            lemma_theme_names(i as int, i as int);
        }
        assert(tl@ == t.name@.map_values(|c: char| ascii_lower(c)));
        if str_eq(tl.as_str(), lower.as_str()) {
            proof {
                assert(theme_names()[i as int] == t.name@);
                lemma_first_index(theme_names(), name_matches(name@), i as int);
                assert forall|k: int|
                    0 <= k < THEME_COUNT && name@ == (#[trigger] theme_spec(k)).name@ implies t
                    == theme_spec(k) by {
                    lemma_theme_names(i as int, k);
                    if k != i {
                        assert(k > i);
                    }
                }
                assert forall|k: int|
                    0 <= k < THEME_COUNT && same_ignoring_case(name@, (#[trigger] theme_spec(k)).name@)
                    implies t == theme_spec(k) by {
                    lemma_theme_names(i as int, k);
                }
            }
            return t;
        }
        assert(theme_names()[i as int] == t.name@);
        assert(!same_ignoring_case(name@, theme_spec(i as int).name@));
    }
    proof {
        lemma_first_index(theme_names(), name_matches(name@), THEME_COUNT as int);
    }
    builtin_theme(0)
}

} // verus!
