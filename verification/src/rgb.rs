use vstd::prelude::*;

use crate::text::{
    comment_exec, comment_from, lemma_comment_from_bounds, lemma_position_from_bounds, parse_u8,
    parse_u8_exec, position_exec, position_from, slice_chars, str_chars, trim, trim_chars,
};

verus! {

/// An 8-bit RGB colour.
#[derive(Debug)]
pub struct Rgb {
    r: u8,
    g: u8,
    b: u8,
}

impl View for Rgb {
    type V = (u8, u8, u8);

    closed spec fn view(&self) -> (u8, u8, u8) {
        (self.r, self.g, self.b)
    }
}

/// A colour field of a skin configuration line: the text is trimmed, a
/// `//` comment is cut off, and what is left is trimmed again.
pub open spec fn clean_field(p: Seq<char>) -> Seq<char> {
    let t = trim(p);
    let c = comment_from(t, 0);
    if c >= 0 {
        trim(t.take(c))
    } else {
        t
    }
}

/// The first three comma-separated fields of `line`, cleaned, when the line
/// has at least three of them.
pub open spec fn rgb_fields(line: Seq<char>) -> Option<(Seq<char>, Seq<char>, Seq<char>)> {
    let c0 = position_from(line, ',', 0);
    if c0 >= line.len() {
        None
    } else {
        let c1 = position_from(line, ',', c0 + 1);
        if c1 >= line.len() {
            None
        } else {
            let c2 = position_from(line, ',', c1 + 1);
            Some(
                (
                    clean_field(line.take(c0)),
                    clean_field(line.subrange(c0 + 1, c1)),
                    clean_field(line.subrange(c1 + 1, c2)),
                ),
            )
        }
    }
}

/// A line that can be parsed without failure: when it has three fields,
/// each of them is a decimal number from 0 to 255.
pub open spec fn rgb_line_valid(line: Seq<char>) -> bool {
    match rgb_fields(line) {
        Some((r, g, b)) => parse_u8(r) is Some && parse_u8(g) is Some && parse_u8(b) is Some,
        None => true,
    }
}

/// The colour a line stands for, when it has three fields.
pub open spec fn parse_rgb(line: Seq<char>) -> Option<(u8, u8, u8)> {
    match rgb_fields(line) {
        Some((r, g, b)) => Some((parse_u8(r).unwrap(), parse_u8(g).unwrap(), parse_u8(b).unwrap())),
        None => None,
    }
}

fn clean_field_exec(p: &Vec<char>) -> (r: Vec<char>)
    ensures
        r@ == clean_field(p@),
{
    let t = trim_chars(p);
    proof {
        lemma_comment_from_bounds(t@, 0);
    }
    match comment_exec(&t) {
        Some(c) => {
            let h = slice_chars(&t, 0, c);
            assert(h@ =~= t@.take(c as int));
            let r = trim_chars(&h);
            assert(comment_from(t@, 0) == c);
            assert(r@ == trim(t@.take(comment_from(t@, 0))));
            r
        },
        None => {
            assert(comment_from(t@, 0) < 0);
            t
        },
    }
}

impl Rgb {
    pub fn r(&self) -> (r: u8)
        ensures
            r == self@.0,
    {
        self.r
    }

    pub fn g(&self) -> (g: u8)
        ensures
            g == self@.1,
    {
        self.g
    }

    pub fn b(&self) -> (b: u8)
        ensures
            b == self@.2,
    {
        self.b
    }

    pub fn new(r: u8, g: u8, b: u8) -> (c: Self)
        ensures
            c@ == (r, g, b),
    {
        Self { r, g, b }
    }

    /// The three fields of a colour line, each parsed as a number when it
    /// is one; `None` when the line has fewer than three fields.
    pub fn parse_fields(line: &str) -> (r: Option<(Option<u8>, Option<u8>, Option<u8>)>)
        ensures
            match rgb_fields(line@) {
                Some((a, b, c)) => r == Some((parse_u8(a), parse_u8(b), parse_u8(c))),
                None => r is None,
            },
    {
        let s = str_chars(line);
        let n = s.len();
        proof {
            lemma_position_from_bounds(s@, ',', 0);
        }
        let c0 = position_exec(&s, ',', 0);
        if c0 >= n {
            return None;
        }
        proof {
            lemma_position_from_bounds(s@, ',', c0 + 1);
        }
        let c1 = position_exec(&s, ',', c0 + 1);
        if c1 >= n {
            return None;
        }
        proof {
            lemma_position_from_bounds(s@, ',', c1 + 1);
        }
        let c2 = position_exec(&s, ',', c1 + 1);
        let f0 = slice_chars(&s, 0, c0);
        assert(f0@ =~= s@.take(c0 as int));
        let f1 = slice_chars(&s, c0 + 1, c1);
        let f2 = slice_chars(&s, c1 + 1, c2);
        let r = parse_u8_exec(&clean_field_exec(&f0));
        let g = parse_u8_exec(&clean_field_exec(&f1));
        let b = parse_u8_exec(&clean_field_exec(&f2));
        Some((r, g, b))
    }

    /// Parses a colour written as `r, g, b`, with optional white space
    /// around each number and an optional `//` comment after a number.
    /// Fields after the third are ignored; a line with fewer than three
    /// fields gives `None`.
    pub fn parse(line: &str) -> (c: Option<Self>)
        requires
            rgb_line_valid(line@),
        ensures
            match c {
                Some(c) => parse_rgb(line@) == Some(c@),
                None => parse_rgb(line@) is None,
            },
    {
        match Self::parse_fields(line) {
            Some((Some(r), Some(g), Some(b))) => Some(Self { r, g, b }),
            _ => None,
        }
    }
}

impl Default for Rgb {
    fn default() -> (c: Self)
        ensures
            c@ == (255u8, 255u8, 255u8),
    {
        Self::new(255, 255, 255)
    }
}

} // verus!
