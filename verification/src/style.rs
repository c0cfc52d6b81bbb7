//! The looks of the user interface: colour themes and widget schemes, by
//! their names on the command line and in the configuration file.

use vstd::prelude::*;

use crate::text::{holds, same_ignoring_case, same_text_ignoring_case};

verus! {

/// A colour theme.
#[derive(Clone, Copy, Debug, PartialEq, Eq, Structural)]
pub enum ThemeOpt {
    Light,
    Dark1,
    Dark2,
    Tan,
    DarkTan,
    Marine,
    Blueish,
    Nord,
    HighContrast,
    Forest,
    SolarizedLight,
    GruvboxLight,
    GruvboxDark,
    Dracula,
    PurpleDusk,
    Monokai,
    Cyberpunk,
    SolarizedDark,
    MaterialDark,
    OceanicNext,
    Minimalist,
    Autumn,
    Mint,
    Vintage,
    Gray,
}

/// A widget scheme.
#[derive(Clone, Copy, Debug, PartialEq, Eq, Structural)]
pub enum SchemeOpt {
    Fleet1,
    Fleet2,
}

/// The theme that is used where none is chosen.
pub const DEFAULT_THEME: ThemeOpt = ThemeOpt::Dark2;

/// The scheme that is used where none is chosen.
pub const DEFAULT_SCHEME: SchemeOpt = SchemeOpt::Fleet1;

/// The looks that are in force.
#[derive(Clone, Copy, Debug, PartialEq, Eq, Structural)]
pub struct Style {
    pub theme: ThemeOpt,
    pub scheme: SchemeOpt,
}

/// The first of two choices that was made.
pub open spec fn first_of<T>(a: Option<T>, b: Option<T>) -> Option<T> {
    match a {
        Some(_) => a,
        None => b,
    }
}

/// The looks that are in force: for the theme and for the scheme, what the
/// command line chose, else what the configuration file chose, else the
/// default.
pub open spec fn resolved(
    cli_theme: Option<ThemeOpt>,
    cli_scheme: Option<SchemeOpt>,
    cfg_theme: Option<ThemeOpt>,
    cfg_scheme: Option<SchemeOpt>,
) -> Style {
    Style {
        theme: match first_of(cli_theme, cfg_theme) {
            Some(t) => t,
            None => DEFAULT_THEME,
        },
        scheme: match first_of(cli_scheme, cfg_scheme) {
            Some(s) => s,
            None => DEFAULT_SCHEME,
        },
    }
}

/// Settles the looks that are in force.
pub fn resolve(
    cli_theme: Option<ThemeOpt>,
    cli_scheme: Option<SchemeOpt>,
    cfg_theme: Option<ThemeOpt>,
    cfg_scheme: Option<SchemeOpt>,
) -> (r: Style)
    ensures
        r == resolved(cli_theme, cli_scheme, cfg_theme, cfg_scheme),
{
    let theme = match cli_theme {
        Some(t) => t,
        None => match cfg_theme {
            Some(t) => t,
            None => DEFAULT_THEME,
        },
    };
    let scheme = match cli_scheme {
        Some(s) => s,
        None => match cfg_scheme {
            Some(s) => s,
            None => DEFAULT_SCHEME,
        },
    };
    Style { theme, scheme }
}

/// The themes, in the order in which they are listed.
pub open spec fn all_themes() -> Seq<ThemeOpt> {
    seq![
        ThemeOpt::Light,
        ThemeOpt::Dark1,
        ThemeOpt::Dark2,
        ThemeOpt::Tan,
        ThemeOpt::DarkTan,
        ThemeOpt::Marine,
        ThemeOpt::Blueish,
        ThemeOpt::Nord,
        ThemeOpt::HighContrast,
        ThemeOpt::Forest,
        ThemeOpt::SolarizedLight,
        ThemeOpt::GruvboxLight,
        ThemeOpt::GruvboxDark,
        ThemeOpt::Dracula,
        ThemeOpt::PurpleDusk,
        ThemeOpt::Monokai,
        ThemeOpt::Cyberpunk,
        ThemeOpt::SolarizedDark,
        ThemeOpt::MaterialDark,
        ThemeOpt::OceanicNext,
        ThemeOpt::Minimalist,
        ThemeOpt::Autumn,
        ThemeOpt::Mint,
        ThemeOpt::Vintage,
        ThemeOpt::Gray,
    ]
}

/// The schemes, in the order in which they are listed.
pub open spec fn all_schemes() -> Seq<SchemeOpt> {
    seq![SchemeOpt::Fleet1, SchemeOpt::Fleet2]
}

/// The name of a theme: its words in capitals, with `_` between them.
pub open spec fn theme_name(t: ThemeOpt) -> Seq<char> {
    match t {
        ThemeOpt::Light => "LIGHT"@,
        ThemeOpt::Dark1 => "DARK1"@,
        ThemeOpt::Dark2 => "DARK2"@,
        ThemeOpt::Tan => "TAN"@,
        ThemeOpt::DarkTan => "DARK_TAN"@,
        ThemeOpt::Marine => "MARINE"@,
        ThemeOpt::Blueish => "BLUEISH"@,
        ThemeOpt::Nord => "NORD"@,
        ThemeOpt::HighContrast => "HIGH_CONTRAST"@,
        ThemeOpt::Forest => "FOREST"@,
        ThemeOpt::SolarizedLight => "SOLARIZED_LIGHT"@,
        ThemeOpt::GruvboxLight => "GRUVBOX_LIGHT"@,
        ThemeOpt::GruvboxDark => "GRUVBOX_DARK"@,
        ThemeOpt::Dracula => "DRACULA"@,
        ThemeOpt::PurpleDusk => "PURPLE_DUSK"@,
        ThemeOpt::Monokai => "MONOKAI"@,
        ThemeOpt::Cyberpunk => "CYBERPUNK"@,
        ThemeOpt::SolarizedDark => "SOLARIZED_DARK"@,
        ThemeOpt::MaterialDark => "MATERIAL_DARK"@,
        ThemeOpt::OceanicNext => "OCEANIC_NEXT"@,
        ThemeOpt::Minimalist => "MINIMALIST"@,
        ThemeOpt::Autumn => "AUTUMN"@,
        ThemeOpt::Mint => "MINT"@,
        ThemeOpt::Vintage => "VINTAGE"@,
        ThemeOpt::Gray => "GRAY"@,
    }
}

/// The name of a scheme.
pub open spec fn scheme_name(s: SchemeOpt) -> Seq<char> {
    match s {
        SchemeOpt::Fleet1 => "Fleet1"@,
        SchemeOpt::Fleet2 => "Fleet2"@,
    }
}

/// The first of `themes` whose name is `v`, the case of ASCII letters left
/// aside.
pub open spec fn theme_among(themes: Seq<ThemeOpt>, v: Seq<char>) -> Option<ThemeOpt>
    decreases themes.len(),
{
    if themes.len() == 0 {
        None
    } else if same_ignoring_case(theme_name(themes[0]), v) {
        Some(themes[0])
    } else {
        theme_among(themes.skip(1), v)
    }
}

/// The theme that `v` names, the case of ASCII letters left aside.
pub open spec fn theme_named(v: Seq<char>) -> Option<ThemeOpt> {
    theme_among(all_themes(), v)
}

/// The scheme that `v` names, the case of ASCII letters left aside.
pub open spec fn scheme_named(v: Seq<char>) -> Option<SchemeOpt> {
    if same_ignoring_case(scheme_name(SchemeOpt::Fleet1), v) {
        Some(SchemeOpt::Fleet1)
    } else if same_ignoring_case(scheme_name(SchemeOpt::Fleet2), v) {
        Some(SchemeOpt::Fleet2)
    } else {
        None
    }
}

fn theme_name_str(t: ThemeOpt) -> (r: &'static str)
    ensures
        r@ == theme_name(t),
{
    match t {
        ThemeOpt::Light => "LIGHT",
        ThemeOpt::Dark1 => "DARK1",
        ThemeOpt::Dark2 => "DARK2",
        ThemeOpt::Tan => "TAN",
        ThemeOpt::DarkTan => "DARK_TAN",
        ThemeOpt::Marine => "MARINE",
        ThemeOpt::Blueish => "BLUEISH",
        ThemeOpt::Nord => "NORD",
        ThemeOpt::HighContrast => "HIGH_CONTRAST",
        ThemeOpt::Forest => "FOREST",
        ThemeOpt::SolarizedLight => "SOLARIZED_LIGHT",
        ThemeOpt::GruvboxLight => "GRUVBOX_LIGHT",
        ThemeOpt::GruvboxDark => "GRUVBOX_DARK",
        ThemeOpt::Dracula => "DRACULA",
        ThemeOpt::PurpleDusk => "PURPLE_DUSK",
        ThemeOpt::Monokai => "MONOKAI",
        ThemeOpt::Cyberpunk => "CYBERPUNK",
        ThemeOpt::SolarizedDark => "SOLARIZED_DARK",
        ThemeOpt::MaterialDark => "MATERIAL_DARK",
        ThemeOpt::OceanicNext => "OCEANIC_NEXT",
        ThemeOpt::Minimalist => "MINIMALIST",
        ThemeOpt::Autumn => "AUTUMN",
        ThemeOpt::Mint => "MINT",
        ThemeOpt::Vintage => "VINTAGE",
        ThemeOpt::Gray => "GRAY",
    }
}

fn scheme_name_str(s: SchemeOpt) -> (r: &'static str)
    ensures
        r@ == scheme_name(s),
{
    match s {
        SchemeOpt::Fleet1 => "Fleet1",
        SchemeOpt::Fleet2 => "Fleet2",
    }
}

/// The name of a theme, as it is written on the command line and in the
/// configuration file.
pub fn canonical_theme_name(t: ThemeOpt) -> (r: String)
    ensures
        r@ == theme_name(t),
{
    String::from_str(theme_name_str(t))
}

/// The name of a scheme, as it is written on the command line and in the
/// configuration file.
pub fn canonical_scheme_name(s: SchemeOpt) -> (r: String)
    ensures
        r@ == scheme_name(s),
{
    String::from_str(scheme_name_str(s))
}

/// The themes, in the order in which they are listed.
pub fn theme_variants() -> (r: Vec<ThemeOpt>)
    ensures
        r@ == all_themes(),
{
    let mut r: Vec<ThemeOpt> = Vec::new();
    r.push(ThemeOpt::Light);
    r.push(ThemeOpt::Dark1);
    r.push(ThemeOpt::Dark2);
    r.push(ThemeOpt::Tan);
    r.push(ThemeOpt::DarkTan);
    r.push(ThemeOpt::Marine);
    r.push(ThemeOpt::Blueish);
    r.push(ThemeOpt::Nord);
    r.push(ThemeOpt::HighContrast);
    r.push(ThemeOpt::Forest);
    r.push(ThemeOpt::SolarizedLight);
    r.push(ThemeOpt::GruvboxLight);
    r.push(ThemeOpt::GruvboxDark);
    r.push(ThemeOpt::Dracula);
    r.push(ThemeOpt::PurpleDusk);
    r.push(ThemeOpt::Monokai);
    r.push(ThemeOpt::Cyberpunk);
    r.push(ThemeOpt::SolarizedDark);
    r.push(ThemeOpt::MaterialDark);
    r.push(ThemeOpt::OceanicNext);
    r.push(ThemeOpt::Minimalist);
    r.push(ThemeOpt::Autumn);
    r.push(ThemeOpt::Mint);
    r.push(ThemeOpt::Vintage);
    r.push(ThemeOpt::Gray);
    r
}

/// The schemes, in the order in which they are listed.
pub fn scheme_variants() -> (r: Vec<SchemeOpt>)
    ensures
        r@ == all_schemes(),
{
    let mut r: Vec<SchemeOpt> = Vec::new();
    r.push(SchemeOpt::Fleet1);
    r.push(SchemeOpt::Fleet2);
    r
}

/// The names of all themes, in the order in which they are listed.
pub fn valid_theme_names() -> (r: Vec<String>)
    ensures
        holds(r@, all_themes().map_values(|t: ThemeOpt| theme_name(t))),
{
    let themes = theme_variants();
    let mut r: Vec<String> = Vec::new();
    let mut i: usize = 0;
    while i < themes.len()
        invariant
            i <= themes.len(),
            themes@ == all_themes(),
            r@.len() == i,
            forall|j: int| 0 <= j < i ==> (#[trigger] r@[j])@ == theme_name(themes@[j]),
        decreases themes.len() - i,
    {
        r.push(canonical_theme_name(themes[i]));
        i += 1;
    }
    r
}

/// The names of all schemes, in the order in which they are listed.
pub fn valid_scheme_names() -> (r: Vec<String>)
    ensures
        holds(r@, all_schemes().map_values(|s: SchemeOpt| scheme_name(s))),
{
    let mut r: Vec<String> = Vec::new();
    r.push(canonical_scheme_name(SchemeOpt::Fleet1));
    r.push(canonical_scheme_name(SchemeOpt::Fleet2));
    r
}

/// Reads the name of a scheme.
pub fn parse_scheme(v: &str) -> (r: Option<SchemeOpt>)
    ensures
        r == scheme_named(v@),
{
    if same_text_ignoring_case(scheme_name_str(SchemeOpt::Fleet1), v) {
        Some(SchemeOpt::Fleet1)
    } else if same_text_ignoring_case(scheme_name_str(SchemeOpt::Fleet2), v) {
        Some(SchemeOpt::Fleet2)
    } else {
        None
    }
}

/// Reads the name of a theme.
pub fn parse_theme(v: &str) -> (r: Option<ThemeOpt>)
    ensures
        r == theme_named(v@),
{
    let themes = theme_variants();
    let mut i: usize = 0;
    assert(themes@.skip(0) =~= themes@);
    while i < themes.len()
        invariant
            i <= themes.len(),
            themes@ == all_themes(),
            theme_named(v@) == theme_among(themes@.skip(i as int), v@),
        decreases themes.len() - i,
    {
        let ghost rest = themes@.skip(i as int);
        assert(rest.skip(1) =~= themes@.skip(i + 1));
        if same_text_ignoring_case(theme_name_str(themes[i]), v) {
            return Some(themes[i]);
        }
        i += 1;
    }
    None
}

/// What tells the names of the themes apart: the length of a name, its
/// first letter and its fifth, the case of ASCII letters left aside.
spec fn name_mark(v: Seq<char>) -> (nat, u32, u32) {
    (
        v.len(),
        if v.len() > 0 {
            crate::text::ascii_lower(v[0])
        } else {
            0
        },
        if v.len() > 4 {
            crate::text::ascii_lower(v[4])
        } else {
            0
        },
    )
}

proof fn lemma_same_names_same_mark(a: Seq<char>, b: Seq<char>)
    requires
        same_ignoring_case(a, b),
    ensures
        name_mark(a) == name_mark(b),
{
    if a.len() > 0 {
        assert(crate::text::ascii_lower(a[0]) == crate::text::ascii_lower(b[0]));
    }
    if a.len() > 4 {
        assert(crate::text::ascii_lower(a[4]) == crate::text::ascii_lower(b[4]));
    }
}

proof fn lemma_theme_marks_differ(t: ThemeOpt, u: ThemeOpt)
    requires
        t != u,
    ensures
        name_mark(theme_name(t)) != name_mark(theme_name(u)),
{
    reveal_strlit("LIGHT");
    reveal_strlit("DARK1");
    reveal_strlit("DARK2");
    reveal_strlit("TAN");
    reveal_strlit("DARK_TAN");
    reveal_strlit("MARINE");
    reveal_strlit("BLUEISH");
    reveal_strlit("NORD");
    reveal_strlit("HIGH_CONTRAST");
    reveal_strlit("FOREST");
    reveal_strlit("SOLARIZED_LIGHT");
    reveal_strlit("GRUVBOX_LIGHT");
    reveal_strlit("GRUVBOX_DARK");
    reveal_strlit("DRACULA");
    reveal_strlit("PURPLE_DUSK");
    reveal_strlit("MONOKAI");
    reveal_strlit("CYBERPUNK");
    reveal_strlit("SOLARIZED_DARK");
    reveal_strlit("MATERIAL_DARK");
    reveal_strlit("OCEANIC_NEXT");
    reveal_strlit("MINIMALIST");
    reveal_strlit("AUTUMN");
    reveal_strlit("MINT");
    reveal_strlit("VINTAGE");
    reveal_strlit("GRAY");
}

/// Every theme is found again by its name, in whatever case the name is
/// written.
pub proof fn lemma_theme_name_round_trip(t: ThemeOpt, written: Seq<char>)
    requires
        same_ignoring_case(theme_name(t), written),
    ensures
        theme_named(written) == Some(t),
{
    lemma_theme_listed(t);
    let k = choose|k: int| 0 <= k < all_themes().len() && all_themes()[k] == t;
    lemma_theme_among_written(all_themes(), k, written);
    let found = theme_named(written)->0;
    lemma_same_names_same_mark(theme_name(found), written);
    lemma_same_names_same_mark(theme_name(t), written);
    if found != t {
        lemma_theme_marks_differ(found, t);
    }
}

/// Every scheme is found again by its name, in whatever case the name is
/// written.
pub proof fn lemma_scheme_name_round_trip(s: SchemeOpt, written: Seq<char>)
    requires
        same_ignoring_case(scheme_name(s), written),
    ensures
        scheme_named(written) == Some(s),
{
    reveal_strlit("Fleet1");
    reveal_strlit("Fleet2");
    let one = scheme_name(SchemeOpt::Fleet1);
    let two = scheme_name(SchemeOpt::Fleet2);
    if same_ignoring_case(one, written) && same_ignoring_case(two, written) {
        assert(crate::text::ascii_lower(one[5]) == crate::text::ascii_lower(written[5]));
        assert(crate::text::ascii_lower(two[5]) == crate::text::ascii_lower(written[5]));
    }
}

proof fn lemma_theme_listed(t: ThemeOpt)
    ensures
        exists|k: int| 0 <= k < all_themes().len() && all_themes()[k] == t,
{
    let k: int = match t {
        ThemeOpt::Light => 0,
        ThemeOpt::Dark1 => 1,
        ThemeOpt::Dark2 => 2,
        ThemeOpt::Tan => 3,
        ThemeOpt::DarkTan => 4,
        ThemeOpt::Marine => 5,
        ThemeOpt::Blueish => 6,
        ThemeOpt::Nord => 7,
        ThemeOpt::HighContrast => 8,
        ThemeOpt::Forest => 9,
        ThemeOpt::SolarizedLight => 10,
        ThemeOpt::GruvboxLight => 11,
        ThemeOpt::GruvboxDark => 12,
        ThemeOpt::Dracula => 13,
        ThemeOpt::PurpleDusk => 14,
        ThemeOpt::Monokai => 15,
        ThemeOpt::Cyberpunk => 16,
        ThemeOpt::SolarizedDark => 17,
        ThemeOpt::MaterialDark => 18,
        ThemeOpt::OceanicNext => 19,
        ThemeOpt::Minimalist => 20,
        ThemeOpt::Autumn => 21,
        ThemeOpt::Mint => 22,
        ThemeOpt::Vintage => 23,
        ThemeOpt::Gray => 24,
    };
    assert(all_themes()[k] == t);
}

proof fn lemma_theme_among_written(themes: Seq<ThemeOpt>, k: int, written: Seq<char>)
    requires
        0 <= k < themes.len(),
        same_ignoring_case(theme_name(themes[k]), written),
    ensures
        theme_among(themes, written) is Some,
        same_ignoring_case(theme_name(theme_among(themes, written)->0), written),
    decreases k,
{
    if k > 0 && !same_ignoring_case(theme_name(themes[0]), written) {
        lemma_theme_among_written(themes.skip(1), k - 1, written);
    }
}

} // verus!
