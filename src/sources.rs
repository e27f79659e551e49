use vstd::prelude::*;
use crate::palette::PaletteFields;
use crate::palette::ThemeColors;
use crate::palette::opt_view;
use crate::palette::palette_from_fields;
use crate::palette::palette_of;

verus! {

/// The string that the JSON document `text` holds at JSON pointer `pointer`, if
/// the document parses and a string stands there.
pub uninterp spec fn json_string_in(text: Seq<char>, pointer: Seq<char>) -> Option<Seq<char>>;

/// The string that the TOML document `text` holds under the keys `a`, `b`, `c`,
/// if the document parses and a string stands there.
pub uninterp spec fn toml_string_in(text: Seq<char>, a: Seq<char>, b: Seq<char>, c: Seq<char>) -> Option<
    Seq<char>,
>;

/// Relies on `serde_json::from_str` into a `serde_json::Value`, `Value::pointer`
/// and `Value::as_str`: looks up one string of a JSON document.
#[verifier::external_body]
fn json_string_at(text: &str, pointer: &str) -> (r: Option<String>)
    ensures
        opt_view(r) == json_string_in(text@, pointer@),
{
    let doc: serde_json::Value = serde_json::from_str(text).ok()?;
    doc.pointer(pointer)?.as_str().map(|s| s.to_string())
}

/// Relies on `toml::from_str` into a `toml::Table`, `Table::get`, `toml::Value::get`
/// and `toml::Value::as_str`: looks up one string of a TOML document.
#[verifier::external_body]
fn toml_string_at(text: &str, a: &str, b: &str, c: &str) -> (r: Option<String>)
    ensures
        opt_view(r) == toml_string_in(text@, a@, b@, c@),
{
    let doc: toml::Table = toml::from_str(text).ok()?;
    doc.get(a)?.get(b)?.get(c)?.as_str().map(|s| s.to_string())
}

/// The colors that a custom theme's metadata document gives, under
/// `alacritty.colors.primary` and `alacritty.colors.normal`.
pub open spec fn metadata_colors(text: Seq<char>) -> Seq<Option<Seq<char>>> {
    seq![
        json_string_in(text, "/alacritty/colors/primary/background"@),
        json_string_in(text, "/alacritty/colors/primary/foreground"@),
        json_string_in(text, "/alacritty/colors/normal/black"@),
        json_string_in(text, "/alacritty/colors/normal/red"@),
        json_string_in(text, "/alacritty/colors/normal/green"@),
        json_string_in(text, "/alacritty/colors/normal/yellow"@),
        json_string_in(text, "/alacritty/colors/normal/blue"@),
        json_string_in(text, "/alacritty/colors/normal/magenta"@),
        json_string_in(text, "/alacritty/colors/normal/cyan"@),
        json_string_in(text, "/alacritty/colors/normal/white"@),
    ]
}

/// The colors that a terminal configuration document gives, under
/// `colors.primary` and `colors.normal`.
pub open spec fn config_colors(text: Seq<char>) -> Seq<Option<Seq<char>>> {
    seq![
        toml_string_in(text, "colors"@, "primary"@, "background"@),
        toml_string_in(text, "colors"@, "primary"@, "foreground"@),
        toml_string_in(text, "colors"@, "normal"@, "black"@),
        toml_string_in(text, "colors"@, "normal"@, "red"@),
        toml_string_in(text, "colors"@, "normal"@, "green"@),
        toml_string_in(text, "colors"@, "normal"@, "yellow"@),
        toml_string_in(text, "colors"@, "normal"@, "blue"@),
        toml_string_in(text, "colors"@, "normal"@, "magenta"@),
        toml_string_in(text, "colors"@, "normal"@, "cyan"@),
        toml_string_in(text, "colors"@, "normal"@, "white"@),
    ]
}

/// The palette of a custom theme's metadata document (JSON): `None` unless
/// both primary colors are there.
pub fn palette_from_metadata_text(text: &str) -> (r: Option<ThemeColors>)
    ensures
        r is Some <==> (metadata_colors(text@)[0] is Some && metadata_colors(text@)[1] is Some),
        r matches Some(p) ==> palette_of(metadata_colors(text@), p),
{
    let f = PaletteFields {
        background: json_string_at(text, "/alacritty/colors/primary/background"),
        foreground: json_string_at(text, "/alacritty/colors/primary/foreground"),
        black: json_string_at(text, "/alacritty/colors/normal/black"),
        red: json_string_at(text, "/alacritty/colors/normal/red"),
        green: json_string_at(text, "/alacritty/colors/normal/green"),
        yellow: json_string_at(text, "/alacritty/colors/normal/yellow"),
        blue: json_string_at(text, "/alacritty/colors/normal/blue"),
        magenta: json_string_at(text, "/alacritty/colors/normal/magenta"),
        cyan: json_string_at(text, "/alacritty/colors/normal/cyan"),
        white: json_string_at(text, "/alacritty/colors/normal/white"),
    };
    assert(crate::palette::fields_view(f) =~= metadata_colors(text@));
    palette_from_fields(&f)
}

/// The palette of a terminal configuration document (TOML): `None` unless both
/// primary colors are there.
pub fn palette_from_config_text(text: &str) -> (r: Option<ThemeColors>)
    ensures
        r is Some <==> (config_colors(text@)[0] is Some && config_colors(text@)[1] is Some),
        r matches Some(p) ==> palette_of(config_colors(text@), p),
{
    let f = PaletteFields {
        background: toml_string_at(text, "colors", "primary", "background"),
        foreground: toml_string_at(text, "colors", "primary", "foreground"),
        black: toml_string_at(text, "colors", "normal", "black"),
        red: toml_string_at(text, "colors", "normal", "red"),
        green: toml_string_at(text, "colors", "normal", "green"),
        yellow: toml_string_at(text, "colors", "normal", "yellow"),
        blue: toml_string_at(text, "colors", "normal", "blue"),
        magenta: toml_string_at(text, "colors", "normal", "magenta"),
        cyan: toml_string_at(text, "colors", "normal", "cyan"),
        white: toml_string_at(text, "colors", "normal", "white"),
    };
    assert(crate::palette::fields_view(f) =~= config_colors(text@));
    palette_from_fields(&f)
}

} // verus!
