use vstd::prelude::*;
use vstd::string::StringExecFns;
use crate::text::lower_of;
use crate::text::lowercase;

verus! {

/// The primary background / foreground pair of a palette.
#[derive(Debug, Clone)]
pub struct PrimaryColors {
    pub background: String,
    pub foreground: String,
}

/// The eight named terminal colors of a palette.
#[derive(Debug, Clone)]
pub struct TerminalColors {
    pub black: String,
    pub red: String,
    pub green: String,
    pub yellow: String,
    pub blue: String,
    pub magenta: String,
    pub cyan: String,
    pub white: String,
}

/// A theme's color palette: primary colors plus the named terminal colors.
#[derive(Debug, Clone)]
pub struct ThemeColors {
    pub primary: PrimaryColors,
    pub terminal: TerminalColors,
}

impl PrimaryColors {
    /// A field-by-field copy.
    pub fn duplicate(&self) -> (r: PrimaryColors)
        ensures
            r == *self,
    {
        PrimaryColors { background: self.background.clone(), foreground: self.foreground.clone() }
    }
}

impl TerminalColors {
    /// A field-by-field copy.
    pub fn duplicate(&self) -> (r: TerminalColors)
        ensures
            r == *self,
    {
        TerminalColors {
            black: self.black.clone(),
            red: self.red.clone(),
            green: self.green.clone(),
            yellow: self.yellow.clone(),
            blue: self.blue.clone(),
            magenta: self.magenta.clone(),
            cyan: self.cyan.clone(),
            white: self.white.clone(),
        }
    }
}

impl ThemeColors {
    /// A field-by-field copy.
    pub fn duplicate(&self) -> (r: ThemeColors)
        ensures
            r == *self,
    {
        ThemeColors { primary: self.primary.duplicate(), terminal: self.terminal.duplicate() }
    }
}

/// A copy of an optional palette.
pub fn duplicate_colors(c: &Option<ThemeColors>) -> (r: Option<ThemeColors>)
    ensures
        r == *c,
{
    match c {
        Some(p) => Some(p.duplicate()),
        None => None,
    }
}

/// The color strings that a configuration source gave, before normalization.
#[derive(Debug, Clone)]
pub struct PaletteFields {
    pub background: Option<String>,
    pub foreground: Option<String>,
    pub black: Option<String>,
    pub red: Option<String>,
    pub green: Option<String>,
    pub yellow: Option<String>,
    pub blue: Option<String>,
    pub magenta: Option<String>,
    pub cyan: Option<String>,
    pub white: Option<String>,
}

/// A given color in lowercase, or the default when none was given.
pub open spec fn normalized(given: Option<Seq<char>>, default: Seq<char>) -> Seq<char> {
    match given {
        Some(c) => lower_of(c),
        None => default,
    }
}

/// The view of an optional string.
pub open spec fn opt_view(s: Option<String>) -> Option<Seq<char>> {
    match s {
        Some(x) => Some(x@),
        None => None,
    }
}

/// The colors of `f` in the order background, foreground, black, red, green,
/// yellow, blue, magenta, cyan, white.
pub open spec fn fields_view(f: PaletteFields) -> Seq<Option<Seq<char>>> {
    seq![
        opt_view(f.background),
        opt_view(f.foreground),
        opt_view(f.black),
        opt_view(f.red),
        opt_view(f.green),
        opt_view(f.yellow),
        opt_view(f.blue),
        opt_view(f.magenta),
        opt_view(f.cyan),
        opt_view(f.white),
    ]
}

fn normalize(given: &Option<String>, default: &str) -> (r: String)
    ensures
        r@ == normalized(opt_view(*given), default@),
{
    match given {
        Some(c) => lowercase(c.as_str()),
        None => String::from_str(default),
    }
}

/// Whether `p` is the palette that the colors `v` (ordered as in `fields_view`)
/// describe: both primary colors are required; every color is lowercased, and a
/// missing terminal color takes the pure color of its name.
pub open spec fn palette_of(v: Seq<Option<Seq<char>>>, p: ThemeColors) -> bool {
    &&& v.len() == 10
    &&& v[0] matches Some(b) && p.primary.background@ == lower_of(b)
    &&& v[1] matches Some(g) && p.primary.foreground@ == lower_of(g)
    &&& p.terminal.black@ == normalized(v[2], "#000000"@)
    &&& p.terminal.red@ == normalized(v[3], "#ff0000"@)
    &&& p.terminal.green@ == normalized(v[4], "#00ff00"@)
    &&& p.terminal.yellow@ == normalized(v[5], "#ffff00"@)
    &&& p.terminal.blue@ == normalized(v[6], "#0000ff"@)
    &&& p.terminal.magenta@ == normalized(v[7], "#ff00ff"@)
    &&& p.terminal.cyan@ == normalized(v[8], "#00ffff"@)
    &&& p.terminal.white@ == normalized(v[9], "#ffffff"@)
}

/// Builds a palette from the colors a source gave: `None` when a primary color
/// is missing, since a palette is never partial.
pub fn palette_from_fields(f: &PaletteFields) -> (r: Option<ThemeColors>)
    ensures
        r is Some <==> (f.background is Some && f.foreground is Some),
        r matches Some(p) ==> palette_of(fields_view(*f), p),
{
    let (background, foreground) = match (&f.background, &f.foreground) {
        (Some(b), Some(g)) => (lowercase(b.as_str()), lowercase(g.as_str())),
        _ => {
            return None;
        },
    };
    Some(
        ThemeColors {
            primary: PrimaryColors { background, foreground },
            terminal: TerminalColors {
                black: normalize(&f.black, "#000000"),
                red: normalize(&f.red, "#ff0000"),
                green: normalize(&f.green, "#00ff00"),
                yellow: normalize(&f.yellow, "#ffff00"),
                blue: normalize(&f.blue, "#0000ff"),
                magenta: normalize(&f.magenta, "#ff00ff"),
                cyan: normalize(&f.cyan, "#00ffff"),
                white: normalize(&f.white, "#ffffff"),
            },
        },
    )
}

} // verus!
