use ini::Ini;
use vstd::prelude::*;

use crate::rgb::{parse_rgb, rgb_line_valid, Rgb};
use crate::text::{parse_u8, parse_u8_exec};

verus! {

#[verifier::external_type_specification]
#[verifier::external_body]
pub struct ExIni(Ini);

#[verifier::external_type_specification]
#[verifier::external_body]
pub struct ExIniError(ini::Error);

/// What a parsed INI document holds, as seen through `Ini::get_from`: for a
/// (section, key) pair, the value that `get_from` returns.
pub uninterp spec fn ini_contents(ini: Ini) -> Map<(Seq<char>, Seq<char>), Seq<char>>;

/// What `Ini::read_from` makes of the given bytes: `None` when it fails (the
/// bytes are not UTF-8 or not INI syntax), otherwise the contents of the
/// document.
pub uninterp spec fn ini_document(bytes: Seq<u8>) -> Option<Map<(Seq<char>, Seq<char>), Seq<char>>>;

/// `Ini::read_from` on the bytes. Claimed: the call succeeds exactly when
/// `ini_document` of the bytes is defined, and the document then holds what
/// `ini_document` names. The parsing rules themselves are not stated.
#[verifier::external_body]
fn ini_read_from(bytes: &[u8]) -> (r: Result<Ini, ini::Error>)
    ensures
        r is Ok <==> ini_document(bytes@) is Some,
        r matches Ok(i) ==> ini_contents(i) == ini_document(bytes@).unwrap(),
{
    Ini::read_from(&mut std::io::Cursor::new(bytes))
}

/// `Ini::get_from` with a named section. Claimed: the value returned is the
/// one that `ini_contents` maps the (section, key) pair to, and `None` comes
/// exactly when the pair has no value.
#[verifier::external_body]
fn ini_get_from<'a>(ini: &'a Ini, section: &str, key: &str) -> (r: Option<&'a str>)
    ensures
        match r {
            Some(v) => ini_contents(*ini).contains_key((section@, key@)) && v@ == ini_contents(
                *ini,
            )[(section@, key@)],
            None => !ini_contents(*ini).contains_key((section@, key@)),
        },
{
    ini.get_from(Some(section), key)
}

/// Why a skin configuration could not be read.
#[derive(Debug)]
pub enum SkinParseError {
    /// The bytes are not an INI document.
    ParseError(ini::Error),
    /// A field that every skin must have is missing.
    MissingRequiredField(String),
}

impl SkinParseError {
    pub fn field(name: &str) -> (r: Self)
        ensures
            r matches SkinParseError::MissingRequiredField(f) && f@ == name@,
    {
        SkinParseError::MissingRequiredField(name.to_owned())
    }
}

#[derive(Debug)]
pub struct Colours {
    pub combo_colors: Vec<Rgb>,
    pub slider_border: Rgb,
    pub slider_body: Rgb,
}

#[derive(Debug)]
pub struct General {
    pub name: String,
    pub author: String,
}

/// The parts of a skin's `skin.ini` that the game uses.
#[derive(Debug)]
pub struct SkinIni {
    pub general: General,
    pub colours: Colours,
}

/// The value of `key` in `section`, if any.
pub open spec fn lookup(
    m: Map<(Seq<char>, Seq<char>), Seq<char>>,
    section: Seq<char>,
    key: Seq<char>,
) -> Option<Seq<char>> {
    if m.contains_key((section, key)) {
        Some(m[(section, key)])
    } else {
        None
    }
}

/// Key of the `k`-th combo colour.
pub open spec fn combo_key(k: int) -> Seq<char> {
    if k == 1 {
        "Combo1"@
    } else if k == 2 {
        "Combo2"@
    } else if k == 3 {
        "Combo3"@
    } else if k == 4 {
        "Combo4"@
    } else if k == 5 {
        "Combo5"@
    } else if k == 6 {
        "Combo6"@
    } else if k == 7 {
        "Combo7"@
    } else {
        "Combo8"@
    }
}

fn combo_key_exec(k: usize) -> (r: &'static str)
    requires
        1 <= k <= 8,
    ensures
        r@ == combo_key(k as int),
{
    if k == 1 {
        "Combo1"
    } else if k == 2 {
        "Combo2"
    } else if k == 3 {
        "Combo3"
    } else if k == 4 {
        "Combo4"
    } else if k == 5 {
        "Combo5"
    } else if k == 6 {
        "Combo6"
    } else if k == 7 {
        "Combo7"
    } else {
        "Combo8"
    }
}

/// The text of an optional string slice.
pub open spec fn opt_chars(o: Option<&str>) -> Option<Seq<char>> {
    match o {
        Some(s) => Some(s@),
        None => None,
    }
}

/// The texts of a sequence of optional string slices.
pub open spec fn opt_chars_seq(v: Seq<Option<&str>>) -> Seq<Option<Seq<char>>> {
    v.map_values(|o: Option<&str>| opt_chars(o))
}

/// The combo colours among the given lines that are present and parse, in
/// order.
pub open spec fn combo_colours_of(lines: Seq<Option<Seq<char>>>) -> Seq<(u8, u8, u8)>
    decreases lines.len(),
{
    if lines.len() == 0 {
        Seq::empty()
    } else {
        let prev = combo_colours_of(lines.drop_last());
        match lines.last() {
            Some(line) => match parse_rgb(line) {
                Some(c) => prev.push(c),
                None => prev,
            },
            None => prev,
        }
    }
}

/// The combo colours of a skin: those found among the lines, or white alone
/// when none is.
pub open spec fn combo_colours_or_white(lines: Seq<Option<Seq<char>>>) -> Seq<(u8, u8, u8)> {
    let found = combo_colours_of(lines);
    if found.len() == 0 {
        seq![(255u8, 255u8, 255u8)]
    } else {
        found
    }
}

/// The colour of a given line, or `default` when the line is absent.
pub open spec fn colour_line_or(line: Option<Seq<char>>, default: (u8, u8, u8)) -> (u8, u8, u8) {
    match line {
        Some(l) => parse_rgb(l).unwrap(),
        None => default,
    }
}

/// A slider colour line that is absent or a valid colour.
pub open spec fn slider_line_readable(line: Option<Seq<char>>) -> bool {
    line matches Some(l) ==> rgb_line_valid(l) && parse_rgb(l) is Some
}

/// Lines of a skin configuration that can be turned into a skin without
/// failure: a required field is missing, or the slider colours are absent or
/// valid and every combo colour given has valid numbers.
pub open spec fn lines_readable(
    name: Option<Seq<char>>,
    author: Option<Seq<char>>,
    border: Option<Seq<char>>,
    body: Option<Seq<char>>,
    combos: Seq<Option<Seq<char>>>,
) -> bool {
    name is None || author is None || {
        &&& slider_line_readable(border)
        &&& slider_line_readable(body)
        &&& forall|i: int|
            0 <= i < combos.len() ==> (#[trigger] combos[i] matches Some(l) ==> rgb_line_valid(l))
    }
}

/// What a skin made from the given lines is: an error naming `Name` or
/// `Author` when that field is missing, otherwise the skin with that name
/// and author, the slider border colour (white when absent), the slider body
/// colour (black when absent) and the combo colours (white alone when none
/// is found).
pub open spec fn lines_outcome(
    name: Option<Seq<char>>,
    author: Option<Seq<char>>,
    border: Option<Seq<char>>,
    body: Option<Seq<char>>,
    combos: Seq<Option<Seq<char>>>,
    r: Result<SkinIni, SkinParseError>,
) -> bool {
    match (name, author) {
        (None, _) => r matches Err(SkinParseError::MissingRequiredField(f)) && f@ == "Name"@,
        (Some(_), None) => r matches Err(SkinParseError::MissingRequiredField(f)) && f@
            == "Author"@,
        (Some(n), Some(a)) => r matches Ok(skin) && {
            &&& skin.general.name@ == n
            &&& skin.general.author@ == a
            &&& skin.colours.slider_border@ == colour_line_or(border, (255u8, 255u8, 255u8))
            &&& skin.colours.slider_body@ == colour_line_or(body, (0u8, 0u8, 0u8))
            &&& skin.colours.combo_view() == combo_colours_or_white(combos)
        },
    }
}

/// The lines `Combo1` to `Combo8` of the `Colours` section.
pub open spec fn combo_lines(m: Map<(Seq<char>, Seq<char>), Seq<char>>) -> Seq<Option<Seq<char>>> {
    Seq::new(8, |i: int| lookup(m, "Colours"@, combo_key(i + 1)))
}

/// Bytes that `SkinIni::parse` can handle: either they are no INI document,
/// or the lines that a skin is made from are readable.
pub open spec fn skin_readable(bytes: Seq<u8>) -> bool {
    match ini_document(bytes) {
        None => true,
        Some(m) => lines_readable(
            lookup(m, "General"@, "Name"@),
            lookup(m, "General"@, "Author"@),
            lookup(m, "Colours"@, "SliderBorder"@),
            lookup(m, "Colours"@, "SliderTrackOverride"@),
            combo_lines(m),
        ),
    }
}

impl Colours {
    pub open spec fn combo_view(&self) -> Seq<(u8, u8, u8)> {
        self.combo_colors@.map_values(|c: Rgb| c@)
    }
}

/// What `SkinIni::parse` gives for the bytes: a parse error when they are no
/// INI document, otherwise the skin made from the document's lines.
pub open spec fn parse_outcome(bytes: Seq<u8>, r: Result<SkinIni, SkinParseError>) -> bool {
    match ini_document(bytes) {
        None => r matches Err(SkinParseError::ParseError(_)),
        Some(m) => lines_outcome(
            lookup(m, "General"@, "Name"@),
            lookup(m, "General"@, "Author"@),
            lookup(m, "Colours"@, "SliderBorder"@),
            lookup(m, "Colours"@, "SliderTrackOverride"@),
            combo_lines(m),
            r,
        ),
    }
}

/// Whether a slider colour line can be read: it is a valid colour.
fn slider_line_readable_exec(line: Option<&str>) -> (r: bool)
    ensures
        r == slider_line_readable(opt_chars(line)),
{
    match line {
        Some(l) => match Rgb::parse_fields(l) {
            Some((r, g, b)) => r.is_some() && g.is_some() && b.is_some(),
            None => false,
        },
        None => true,
    }
}

/// Whether a combo colour line has valid numbers.
fn combo_line_valid_exec(line: &str) -> (r: bool)
    ensures
        r == rgb_line_valid(line@),
{
    match Rgb::parse_fields(line) {
        Some((r, g, b)) => r.is_some() && g.is_some() && b.is_some(),
        None => true,
    }
}

fn colour_from_line(line: Option<&str>, default: (u8, u8, u8)) -> (r: Rgb)
    requires
        slider_line_readable(opt_chars(line)),
    ensures
        r@ == colour_line_or(opt_chars(line), default),
{
    match line {
        Some(l) => match Rgb::parse(l) {
            Some(c) => c,
            None => Rgb::new(default.0, default.1, default.2),
        },
        None => Rgb::new(default.0, default.1, default.2),
    }
}

/// The lines a skin is made from, as the document holds them: name, author,
/// slider border, slider body, and `Combo1` to `Combo8`.
fn document_lines<'a>(ini: &'a Ini) -> (r: (
    Option<&'a str>,
    Option<&'a str>,
    Option<&'a str>,
    Option<&'a str>,
    Vec<Option<&'a str>>,
))
    ensures
        opt_chars(r.0) == lookup(ini_contents(*ini), "General"@, "Name"@),
        opt_chars(r.1) == lookup(ini_contents(*ini), "General"@, "Author"@),
        opt_chars(r.2) == lookup(ini_contents(*ini), "Colours"@, "SliderBorder"@),
        opt_chars(r.3) == lookup(ini_contents(*ini), "Colours"@, "SliderTrackOverride"@),
        opt_chars_seq(r.4@) == combo_lines(ini_contents(*ini)),
{
    let ghost m = ini_contents(*ini);
    let name = ini_get_from(ini, "General", "Name");
    let author = ini_get_from(ini, "General", "Author");
    let border = ini_get_from(ini, "Colours", "SliderBorder");
    let body = ini_get_from(ini, "Colours", "SliderTrackOverride");
    let mut combos: Vec<Option<&'a str>> = Vec::new();
    let mut k: usize = 1;
    while k <= 8
        invariant
            1 <= k <= 9,
            m == ini_contents(*ini),
            combos@.len() == k - 1,
            forall|i: int|
                0 <= i < k - 1 ==> opt_chars(#[trigger] combos@[i]) == lookup(
                    m,
                    "Colours"@,
                    combo_key(i + 1),
                ),
        decreases 9 - k,
    {
        let key = combo_key_exec(k);
        combos.push(ini_get_from(ini, "Colours", key));
        k = k + 1;
    }
    assert(opt_chars_seq(combos@) =~= combo_lines(m));
    (name, author, border, body, combos)
}

/// Whether the lines are readable (see `lines_readable`).
fn lines_readable_exec(
    name: Option<&str>,
    author: Option<&str>,
    border: Option<&str>,
    body: Option<&str>,
    combos: &Vec<Option<&str>>,
) -> (r: bool)
    ensures
        r == lines_readable(
            opt_chars(name),
            opt_chars(author),
            opt_chars(border),
            opt_chars(body),
            opt_chars_seq(combos@),
        ),
{
    if name.is_none() || author.is_none() {
        return true;
    }
    if !slider_line_readable_exec(border) || !slider_line_readable_exec(body) {
        return false;
    }
    let ghost lines = opt_chars_seq(combos@);
    let n = combos.len();
    let mut i: usize = 0;
    while i < n
        invariant
            n == combos@.len(),
            i <= n,
            lines == opt_chars_seq(combos@),
            name is Some,
            author is Some,
            forall|q: int| 0 <= q < i ==> (#[trigger] lines[q] matches Some(l) ==> rgb_line_valid(l)),
        decreases n - i,
    {
        match combos[i] {
            Some(l) => {
                if !combo_line_valid_exec(l) {
                    assert(lines[i as int] == Some(l@));
                    assert(!(lines[i as int] matches Some(l) ==> rgb_line_valid(l)));
                    return false;
                }
            },
            None => {},
        }
        i = i + 1;
    }
    true
}

impl SkinIni {
    /// Makes a skin from the lines of its configuration: the `Name` and
    /// `Author` of the `General` section (both required), the `SliderBorder`
    /// and `SliderTrackOverride` colours of the `Colours` section (white and
    /// black when absent) and the combo colours `Combo1` to `Combo8` (those
    /// that are present and have three fields; white alone when none has).
    pub fn from_lines(
        name: Option<&str>,
        author: Option<&str>,
        slider_border: Option<&str>,
        slider_body: Option<&str>,
        combos: &Vec<Option<&str>>,
    ) -> (r: Result<Self, SkinParseError>)
        requires
            lines_readable(
                opt_chars(name),
                opt_chars(author),
                opt_chars(slider_border),
                opt_chars(slider_body),
                opt_chars_seq(combos@),
            ),
        ensures
            lines_outcome(
                opt_chars(name),
                opt_chars(author),
                opt_chars(slider_border),
                opt_chars(slider_body),
                opt_chars_seq(combos@),
                r,
            ),
    {
        let name = match name {
            Some(n) => n,
            None => {
                return Err(SkinParseError::field("Name"));
            },
        };
        let author = match author {
            Some(a) => a,
            None => {
                return Err(SkinParseError::field("Author"));
            },
        };
        let general = General { name: name.to_owned(), author: author.to_owned() };
        let slider_border = colour_from_line(slider_border, (255, 255, 255));
        let slider_body = colour_from_line(slider_body, (0, 0, 0));

        let ghost lines = opt_chars_seq(combos@);
        let n = combos.len();
        let mut colors: Vec<Rgb> = Vec::new();
        let mut i: usize = 0;
        while i < n
            invariant
                n == combos@.len(),
                i <= n,
                lines == opt_chars_seq(combos@),
                forall|q: int|
                    0 <= q < lines.len() ==> (#[trigger] lines[q] matches Some(l) ==> rgb_line_valid(l)),
                colors@.map_values(|c: Rgb| c@) == combo_colours_of(lines.take(i as int)),
            decreases n - i,
        {
            let ghost before = colors@;
            assert(lines.take(i + 1).drop_last() =~= lines.take(i as int));
            assert(lines.take(i + 1).last() == lines[i as int]);
            assert(lines[i as int] == opt_chars(combos@[i as int]));
            match combos[i] {
                Some(line) => {
                    match Rgb::parse(line) {
                        Some(c) => {
                            colors.push(c);
                            assert(colors@.map_values(|c: Rgb| c@) =~= before.map_values(
                                |c: Rgb| c@,
                            ).push(c@));
                        },
                        None => {},
                    }
                },
                None => {},
            }
            i = i + 1;
        }
        assert(lines.take(n as int) =~= lines);
        if colors.len() == 0 {
            colors.push(Rgb::new(255, 255, 255));
            assert(colors@.map_values(|c: Rgb| c@) =~= seq![(255u8, 255u8, 255u8)]);
        }
        let colours = Colours { combo_colors: colors, slider_border, slider_body };
        Ok(SkinIni { general, colours })
    }

    /// Reads a skin's `skin.ini`: a parse error when the bytes are no INI
    /// document, otherwise the skin made from its lines (see `from_lines`).
    pub fn parse(bytes: &[u8]) -> (r: Result<Self, SkinParseError>)
        requires
            skin_readable(bytes@),
        ensures
            parse_outcome(bytes@, r),
    {
        let ini = match ini_read_from(bytes) {
            Ok(ini) => ini,
            Err(e) => {
                return Err(SkinParseError::ParseError(e));
            },
        };
        let (name, author, border, body, combos) = document_lines(&ini);
        Self::from_lines(name, author, border, body, &combos)
    }

    /// `parse` for any bytes: `None` exactly when the bytes are not
    /// readable (see `skin_readable`), otherwise what `parse` gives.
    pub fn try_parse(bytes: &[u8]) -> (r: Option<Result<Self, SkinParseError>>)
        ensures
            r is Some <==> skin_readable(bytes@),
            r matches Some(res) ==> parse_outcome(bytes@, res),
    {
        let ini = match ini_read_from(bytes) {
            Ok(ini) => ini,
            Err(_) => {
                return Some(Self::parse(bytes));
            },
        };
        let (name, author, border, body, combos) = document_lines(&ini);
        if lines_readable_exec(name, author, border, body, &combos) {
            Some(Self::parse(bytes))
        } else {
            None
        }
    }
}

impl Default for SkinIni {
    fn default() -> (r: Self)
        ensures
            r.general.name@ == "Default"@,
            r.general.author@ == "486c"@,
            r.colours.combo_view() == seq![(255u8, 255u8, 255u8)],
            r.colours.slider_border@ == (255u8, 255u8, 255u8),
            r.colours.slider_body@ == (0u8, 0u8, 0u8),
    {
        let general = General { name: "Default".to_owned(), author: "486c".to_owned() };
        let mut combo_colors = Vec::new();
        combo_colors.push(Rgb::new(255, 255, 255));
        assert(combo_colors@.map_values(|c: Rgb| c@) =~= seq![(255u8, 255u8, 255u8)]);
        let colours = Colours {
            combo_colors,
            slider_border: Rgb::new(255, 255, 255),
            slider_body: Rgb::new(0, 0, 0),
        };
        SkinIni { colours, general }
    }
}

/// A skin always has at least one combo colour.
pub proof fn lemma_combo_colours_nonempty(lines: Seq<Option<Seq<char>>>)
    ensures
        combo_colours_or_white(lines).len() >= 1,
{
}

/// The `k`-th combo line is read from the key `Combo` followed by the
/// decimal digit `k`, for `k` from 1 to 8, so the combo colours come in the
/// order `Combo1`, `Combo2`, ..., `Combo8`.
pub proof fn lemma_combo_key_spelling(k: int)
    requires
        1 <= k <= 8,
    ensures
        combo_key(k).len() == 6,
        combo_key(k).take(5) == "Combo"@,
        combo_key(k)[5] as int == '0' as int + k,
{
    reveal_strlit("Combo");
    reveal_strlit("Combo1");
    reveal_strlit("Combo2");
    reveal_strlit("Combo3");
    reveal_strlit("Combo4");
    reveal_strlit("Combo5");
    reveal_strlit("Combo6");
    reveal_strlit("Combo7");
    reveal_strlit("Combo8");
    assert(combo_key(k).take(5) =~= "Combo"@);
}

} // verus!
