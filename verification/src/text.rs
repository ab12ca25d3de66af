use vstd::prelude::*;

verus! {

/// The characters with the Unicode `White_Space` property, which is what
/// `char::is_whitespace` and `str::trim` go by.
pub open spec fn is_white_space(c: char) -> bool {
    let u = c as u32;
    ||| 0x9 <= u <= 0xd
    ||| u == 0x20
    ||| u == 0x85
    ||| u == 0xa0
    ||| u == 0x1680
    ||| 0x2000 <= u <= 0x200a
    ||| u == 0x2028
    ||| u == 0x2029
    ||| u == 0x202f
    ||| u == 0x205f
    ||| u == 0x3000
}

pub fn is_white_space_exec(c: char) -> (r: bool)
    ensures
        r == is_white_space(c),
{
    let u = c as u32;
    (0x9 <= u && u <= 0xd) || u == 0x20 || u == 0x85 || u == 0xa0 || u == 0x1680 || (0x2000 <= u
        && u <= 0x200a) || u == 0x2028 || u == 0x2029 || u == 0x202f || u == 0x205f || u == 0x3000
}

/// First position at or after `i` that does not hold white space.
pub open spec fn lead_end(s: Seq<char>, i: int) -> int
    decreases s.len() - i,
{
    if i >= s.len() || !is_white_space(s[i]) {
        i
    } else {
        lead_end(s, i + 1)
    }
}

/// Going down from `j`, the first position whose predecessor is not white
/// space, or `lo`.
pub open spec fn trail_start(s: Seq<char>, j: int, lo: int) -> int
    decreases j - lo,
{
    if j <= lo || !is_white_space(s[j - 1]) {
        j
    } else {
        trail_start(s, j - 1, lo)
    }
}

/// `s` without leading and trailing white space.
pub open spec fn trim(s: Seq<char>) -> Seq<char> {
    let a = lead_end(s, 0);
    s.subrange(a, trail_start(s, s.len() as int, a))
}

/// Position of the first `c` at or after `i`, or the length of `s` when
/// there is none.
pub open spec fn position_from(s: Seq<char>, c: char, i: int) -> int
    decreases s.len() - i,
{
    if i >= s.len() {
        s.len() as int
    } else if s[i] == c {
        i
    } else {
        position_from(s, c, i + 1)
    }
}

/// Position of the first `//` at or after `i`, or -1 when there is none.
pub open spec fn comment_from(s: Seq<char>, i: int) -> int
    decreases s.len() - i,
{
    if i + 1 >= s.len() {
        -1
    } else if s[i] == '/' && s[i + 1] == '/' {
        i
    } else {
        comment_from(s, i + 1)
    }
}

pub proof fn lemma_lead_end_bounds(s: Seq<char>, i: int)
    requires
        0 <= i <= s.len(),
    ensures
        i <= lead_end(s, i) <= s.len(),
        forall|k: int| i <= k < lead_end(s, i) ==> is_white_space(#[trigger] s[k]),
    decreases s.len() - i,
{
    if i < s.len() && is_white_space(s[i]) {
        lemma_lead_end_bounds(s, i + 1);
    }
}

pub proof fn lemma_trail_start_bounds(s: Seq<char>, j: int, lo: int)
    requires
        0 <= lo <= j <= s.len(),
    ensures
        lo <= trail_start(s, j, lo) <= j,
    decreases j - lo,
{
    if j > lo && is_white_space(s[j - 1]) {
        lemma_trail_start_bounds(s, j - 1, lo);
    }
}

pub proof fn lemma_position_from_bounds(s: Seq<char>, c: char, i: int)
    requires
        0 <= i <= s.len(),
    ensures
        i <= position_from(s, c, i) <= s.len(),
        position_from(s, c, i) < s.len() ==> s[position_from(s, c, i)] == c,
    decreases s.len() - i,
{
    if i < s.len() && s[i] != c {
        lemma_position_from_bounds(s, c, i + 1);
    }
}

pub proof fn lemma_comment_from_bounds(s: Seq<char>, i: int)
    requires
        0 <= i,
    ensures
        comment_from(s, i) == -1 || (i <= comment_from(s, i) && comment_from(s, i) + 1 < s.len()),
    decreases s.len() - i,
{
    if i + 1 < s.len() && !(s[i] == '/' && s[i + 1] == '/') {
        lemma_comment_from_bounds(s, i + 1);
    }
}

/// Copies the characters of a string slice.
pub fn str_chars(s: &str) -> (r: Vec<char>)
    ensures
        r@ == s@,
{
    let mut v: Vec<char> = Vec::new();
    for c in it: s.chars()
        invariant
            it.seq() == s@,
            v@ == it.seq().take(it.index() as int),
    {
        assert(it.seq().take(it.index() + 1) =~= v@.push(c));
        v.push(c);
    }
    assert(s@.take(s@.len() as int) =~= s@);
    v
}

/// The characters of `s` from position `a` up to, not including, `b`.
pub fn slice_chars(s: &Vec<char>, a: usize, b: usize) -> (r: Vec<char>)
    requires
        a <= b <= s@.len(),
    ensures
        r@ == s@.subrange(a as int, b as int),
{
    let mut v: Vec<char> = Vec::new();
    let mut i = a;
    while i < b
        invariant
            a <= i <= b <= s@.len(),
            v@ == s@.subrange(a as int, i as int),
        decreases b - i,
    {
        assert(s@.subrange(a as int, i + 1) =~= v@.push(s@[i as int]));
        v.push(s[i]);
        i = i + 1;
    }
    v
}

/// `s` without leading and trailing white space.
pub fn trim_chars(s: &Vec<char>) -> (r: Vec<char>)
    ensures
        r@ == trim(s@),
{
    let n = s.len();
    let mut a: usize = 0;
    while a < n && is_white_space_exec(s[a])
        invariant
            a <= n == s@.len(),
            lead_end(s@, 0) == lead_end(s@, a as int),
        decreases n - a,
    {
        a = a + 1;
    }
    let mut b: usize = n;
    while b > a && is_white_space_exec(s[b - 1])
        invariant
            a <= b <= n == s@.len(),
            lead_end(s@, 0) == a,
            trail_start(s@, n as int, a as int) == trail_start(s@, b as int, a as int),
        decreases b,
    {
        b = b - 1;
    }
    slice_chars(s, a, b)
}

/// Position of the first `c` at or after `i`, or the length of `s`.
pub fn position_exec(s: &Vec<char>, c: char, i: usize) -> (r: usize)
    requires
        i <= s@.len(),
    ensures
        r == position_from(s@, c, i as int),
{
    let n = s.len();
    let mut k = i;
    while k < n && s[k] != c
        invariant
            i <= k <= n == s@.len(),
            position_from(s@, c, i as int) == position_from(s@, c, k as int),
        decreases n - k,
    {
        k = k + 1;
    }
    k
}

/// Position of the first `//`, if any.
pub fn comment_exec(s: &Vec<char>) -> (r: Option<usize>)
    ensures
        match r {
            Some(k) => k as int == comment_from(s@, 0),
            None => comment_from(s@, 0) < 0,
        },
{
    let n = s.len();
    let mut k: usize = 0;
    while n > 0 && k < n - 1
        invariant
            n == s@.len(),
            k <= n,
            comment_from(s@, 0) == comment_from(s@, k as int),
        decreases n - k,
    {
        if s[k] == '/' && s[k + 1] == '/' {
            return Some(k);
        }
        k = k + 1;
    }
    None
}

/// Whether every character is an ASCII digit.
pub open spec fn all_digits(d: Seq<char>) -> bool {
    forall|i: int| 0 <= i < d.len() ==> '0' <= #[trigger] d[i] <= '9'
}

/// Value of a sequence of decimal digits.
pub open spec fn decimal_value(d: Seq<char>) -> int
    decreases d.len(),
{
    if d.len() == 0 {
        0
    } else {
        decimal_value(d.drop_last()) * 10 + (d.last() as int - '0' as int)
    }
}

/// What `str::parse::<u8>` gives: an optional `+` followed by at least one
/// ASCII digit, of value at most 255.
pub open spec fn parse_u8(s: Seq<char>) -> Option<u8> {
    let d = if s.len() > 0 && s[0] == '+' {
        s.skip(1)
    } else {
        s
    };
    if d.len() > 0 && all_digits(d) && decimal_value(d) <= 255 {
        Some(decimal_value(d) as u8)
    } else {
        None
    }
}

pub proof fn lemma_decimal_value_prefix(d: Seq<char>, i: int)
    requires
        all_digits(d),
        0 <= i <= d.len(),
    ensures
        0 <= decimal_value(d.take(i)) <= decimal_value(d),
    decreases d.len(),
{
    if i == d.len() {
        assert(d.take(i) =~= d);
        if d.len() > 0 {
            lemma_decimal_value_prefix(d.drop_last(), 0);
            assert(d.drop_last().take(0) =~= Seq::<char>::empty());
        }
    } else {
        let p = d.drop_last();
        assert(all_digits(p));
        lemma_decimal_value_prefix(p, i);
        assert(p.take(i) =~= d.take(i));
        lemma_decimal_value_prefix(p, p.len() as int);
        assert(p.take(p.len() as int) =~= p);
    }
}

/// Parses a decimal `u8` as `str::parse::<u8>` does.
pub fn parse_u8_exec(s: &Vec<char>) -> (r: Option<u8>)
    ensures
        r == parse_u8(s@),
{
    let n = s.len();
    let start: usize = if n > 0 && s[0] == '+' {
        1
    } else {
        0
    };
    let ghost d = if s@.len() > 0 && s@[0] == '+' {
        s@.skip(1)
    } else {
        s@
    };
    assert(d =~= s@.skip(start as int));
    if start == n {
        return None;
    }
    let mut v: u32 = 0;
    let mut k: usize = start;
    while k < n
        invariant
            start <= k <= n == s@.len(),
            start < n,
            d == s@.skip(start as int),
            d == (if s@.len() > 0 && s@[0] == '+' { s@.skip(1) } else { s@ }),
            all_digits(d.take(k - start)),
            v == decimal_value(d.take(k - start)),
            v <= 255,
        decreases n - k,
    {
        let c = s[k];
        let ghost j = k - start;
        if !('0' <= c && c <= '9') {
            assert(d[j] == c);
            assert(!('0' <= d[j] <= '9'));
            assert(!all_digits(d));
            assert(parse_u8(s@) is None);
            return None;
        }
        assert(d.take(j + 1).drop_last() =~= d.take(j));
        assert(d.take(j + 1).last() == c);
        assert(all_digits(d.take(j + 1)));
        let digit = (c as u32) - ('0' as u32);
        v = v * 10 + digit;
        assert(v == decimal_value(d.take(j + 1)));
        if v > 255 {
            proof {
                if all_digits(d) {
                    lemma_decimal_value_prefix(d, j + 1);
                }
                assert(parse_u8(s@) is None);
            }
            return None;
        }
        k = k + 1;
    }
    assert(d.take(n - start) =~= d);
    Some(v as u8)
}

} // verus!
