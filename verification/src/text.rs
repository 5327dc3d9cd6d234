//! Text as sequences of characters: searching, scanning, number formats.
//!
//! Every contract here speaks of the characters of a string (`s@`), never of
//! its bytes.

use vstd::prelude::*;

verus! {

/// What `String::push` of the standard library does: it appends `c`.
///
/// Trusted: Verus has no specification of its own for this method.
pub assume_specification[ String::push ](s: &mut String, c: char)
    ensures
        final(s)@ == old(s)@.push(c),
;

/// The characters of `s`, in order.
pub fn chars_of(s: &str) -> (out: Vec<char>)
    ensures
        out@ == s@,
{
    let mut out: Vec<char> = Vec::new();
    for c in it: s.chars()
        invariant
            it.seq() == s@,
            out@ == s@.subrange(0, it.index() as int),
    {
        out.push(c);
    }
    out
}

/// Whether two strings hold the same characters.
pub fn same_text(a: &str, b: &str) -> (r: bool)
    ensures
        r == (a@ == b@),
{
    let x = chars_of(a);
    let y = chars_of(b);
    if x.len() != y.len() {
        return false;
    }
    let mut i: usize = 0;
    while i < x.len()
        invariant
            i <= x.len(),
            x.len() == y.len(),
            x@ == a@,
            y@ == b@,
            x@.subrange(0, i as int) == y@.subrange(0, i as int),
        decreases x.len() - i,
    {
        if x[i] != y[i] {
            return false;
        }
        assert(x@.subrange(0, i + 1) == x@.subrange(0, i as int).push(x@[i as int]));
        assert(y@.subrange(0, i + 1) == y@.subrange(0, i as int).push(y@[i as int]));
        i += 1;
    }
    assert(x@ == x@.subrange(0, x@.len() as int));
    assert(y@ == y@.subrange(0, y@.len() as int));
    true
}

// ---------------------------------------------------------------------------
// Substring search
// ---------------------------------------------------------------------------

/// `pat` stands in `hay` at offset `at`.
pub open spec fn occurs_at(hay: Seq<char>, pat: Seq<char>, at: int) -> bool {
    &&& 0 <= at
    &&& at + pat.len() <= hay.len()
    &&& hay.subrange(at, at + pat.len()) == pat
}

/// `pat` stands somewhere in `hay`: literal containment, no wildcards. The
/// empty pattern stands in every text.
pub open spec fn is_substring(pat: Seq<char>, hay: Seq<char>) -> bool {
    exists|at: int| occurs_at(hay, pat, at)
}

fn occurs_at_in(v: &Vec<char>, from: usize, to: usize, pat: &Vec<char>, at: usize) -> (r: bool)
    requires
        from <= to <= v.len(),
        from + at + pat.len() <= to,
    ensures
        r == occurs_at(v@.subrange(from as int, to as int), pat@, at as int),
{
    let ghost hay = v@.subrange(from as int, to as int);
    let mut j: usize = 0;
    while j < pat.len()
        invariant
            j <= pat.len(),
            from <= to <= v.len(),
            from + at + pat.len() <= to,
            hay == v@.subrange(from as int, to as int),
            forall|k: int| 0 <= k < j ==> hay[at + k] == pat@[k],
        decreases pat.len() - j,
    {
        if v[from + at + j] != pat[j] {
            proof {
                let w = hay.subrange(at as int, at + pat@.len());
                assert(w[j as int] == hay[at + j]);
                assert(w[j as int] != pat@[j as int]);
            }
            return false;
        }
        j += 1;
    }
    assert(hay.subrange(at as int, at + pat@.len()) =~= pat@);
    true
}

/// Whether `pat` stands somewhere in `v[from..to]`.
pub fn contains_in(v: &Vec<char>, from: usize, to: usize, pat: &Vec<char>) -> (r: bool)
    requires
        from <= to <= v.len(),
    ensures
        r == is_substring(pat@, v@.subrange(from as int, to as int)),
{
    let ghost hay = v@.subrange(from as int, to as int);
    if pat.len() == 0 {
        assert(hay.subrange(0, 0) =~= pat@);
        assert(occurs_at(hay, pat@, 0));
        return true;
    }
    if pat.len() > to - from {
        return false;
    }
    let last: usize = to - from - pat.len();
    let mut at: usize = 0;
    while at <= last
        invariant
            from <= to <= v.len(),
            0 < pat.len() <= to - from,
            last == to - from - pat.len(),
            at <= last + 1,
            hay == v@.subrange(from as int, to as int),
            forall|k: int| 0 <= k < at ==> !occurs_at(hay, pat@, k),
        decreases last + 1 - at,
    {
        if occurs_at_in(v, from, to, pat, at) {
            return true;
        }
        at += 1;
    }
    false
}

/// Whether `pat` stands somewhere in `hay`.
pub fn contains(hay: &str, pat: &str) -> (r: bool)
    ensures
        r == is_substring(pat@, hay@),
{
    let h = chars_of(hay);
    let p = chars_of(pat);
    assert(h@.subrange(0, h@.len() as int) == h@);
    contains_in(&h, 0, h.len(), &p)
}

// ---------------------------------------------------------------------------
// Scanning runs of characters
// ---------------------------------------------------------------------------

/// White space as Unicode defines it (the property `White_Space`).
pub open spec fn is_whitespace(c: char) -> bool {
    let n = c as u32;
    ||| 0x09 <= n <= 0x0D
    ||| n == 0x20
    ||| n == 0x85
    ||| n == 0xA0
    ||| n == 0x1680
    ||| 0x2000 <= n <= 0x200A
    ||| n == 0x2028
    ||| n == 0x2029
    ||| n == 0x202F
    ||| n == 0x205F
    ||| n == 0x3000
}

/// Decides `is_whitespace`.
pub fn char_is_whitespace(c: char) -> (r: bool)
    ensures
        r == is_whitespace(c),
{
    let n: u32 = c as u32;
    (0x09 <= n && n <= 0x0D) || n == 0x20 || n == 0x85 || n == 0xA0 || n == 0x1680 || (0x2000 <= n
        && n <= 0x200A) || n == 0x2028 || n == 0x2029 || n == 0x202F || n == 0x205F || n == 0x3000
}

/// A set of characters that a scan runs over.
#[derive(Clone, Copy, Debug)]
pub enum CharClass {
    /// Every character but this one.
    Except(char),
    /// White space.
    Space,
    /// Everything but white space.
    Solid,
}

impl CharClass {
    /// Whether `c` belongs to the class.
    pub open spec fn has(self, c: char) -> bool {
        match self {
            CharClass::Except(x) => c != x,
            CharClass::Space => is_whitespace(c),
            CharClass::Solid => !is_whitespace(c),
        }
    }

    /// Decides `has`.
    pub fn holds(&self, c: char) -> (r: bool)
        ensures
            r == self.has(c),
    {
        match self {
            CharClass::Except(x) => c != *x,
            CharClass::Space => char_is_whitespace(c),
            CharClass::Solid => !char_is_whitespace(c),
        }
    }
}

/// The length of the longest prefix of `s` whose characters all belong to
/// `class`.
pub open spec fn run_length(s: Seq<char>, class: CharClass) -> nat
    decreases s.len(),
{
    if s.len() == 0 || !class.has(s[0]) {
        0
    } else {
        1 + run_length(s.drop_first(), class)
    }
}

/// `run_length` is the one `n` with: the first `n` characters belong to the
/// class, and the next one, if there is one, does not.
pub proof fn lemma_run_length(s: Seq<char>, class: CharClass, n: int)
    requires
        0 <= n <= s.len(),
        forall|i: int| 0 <= i < n ==> class.has(s[i]),
        n < s.len() ==> !class.has(s[n]),
    ensures
        run_length(s, class) == n,
    decreases s.len(),
{
    if n > 0 {
        let t = s.drop_first();
        assert forall|i: int| 0 <= i < n - 1 implies class.has(t[i]) by {
            assert(t[i] == s[i + 1]);
        }
        lemma_run_length(t, class, n - 1);
    }
}

/// The end of the run of `class` that starts at `from` in `v[from..to]`.
pub fn scan(v: &Vec<char>, from: usize, to: usize, class: &CharClass) -> (end: usize)
    requires
        from <= to <= v.len(),
    ensures
        from <= end <= to,
        end == from + run_length(v@.subrange(from as int, to as int), *class),
{
    let ghost s = v@.subrange(from as int, to as int);
    let mut i: usize = from;
    while i < to && class.holds(v[i])
        invariant
            from <= i <= to <= v.len(),
            s == v@.subrange(from as int, to as int),
            forall|k: int| 0 <= k < i - from ==> class.has(s[k]),
        decreases to - i,
    {
        i += 1;
    }
    proof {
        if i < to {
            assert(s[i - from] == v@[i as int]);
        }
        lemma_run_length(s, *class, i - from);
    }
    i
}

// ---------------------------------------------------------------------------
// Decimal numbers
// ---------------------------------------------------------------------------

/// The character for one decimal digit.
pub open spec fn digit_char(d: nat) -> char {
    if d == 0 {
        '0'
    } else if d == 1 {
        '1'
    } else if d == 2 {
        '2'
    } else if d == 3 {
        '3'
    } else if d == 4 {
        '4'
    } else if d == 5 {
        '5'
    } else if d == 6 {
        '6'
    } else if d == 7 {
        '7'
    } else if d == 8 {
        '8'
    } else {
        '9'
    }
}

/// Whether `c` is one of `0` to `9`.
pub open spec fn is_digit(c: char) -> bool {
    '0' <= c <= '9'
}

/// The value of a digit character.
pub open spec fn digit_value(c: char) -> nat {
    (c as u32 - '0' as u32) as nat
}

/// `n` in decimal, without sign or leading zeros.
pub open spec fn decimal(n: nat) -> Seq<char>
    decreases n,
{
    if n < 10 {
        seq![digit_char(n)]
    } else {
        decimal(n / 10).push(digit_char(n % 10))
    }
}

fn digit_to_char(d: u64) -> (c: char)
    requires
        d < 10,
    ensures
        c == digit_char(d as nat),
{
    if d == 0 {
        '0'
    } else if d == 1 {
        '1'
    } else if d == 2 {
        '2'
    } else if d == 3 {
        '3'
    } else if d == 4 {
        '4'
    } else if d == 5 {
        '5'
    } else if d == 6 {
        '6'
    } else if d == 7 {
        '7'
    } else if d == 8 {
        '8'
    } else {
        '9'
    }
}

/// Appends `n` in decimal to `out`.
pub fn push_decimal(out: &mut String, n: u64)
    ensures
        final(out)@ == old(out)@ + decimal(n as nat),
    decreases n,
{
    if n >= 10 {
        push_decimal(out, n / 10);
    }
    out.push(digit_to_char(n % 10));
}

/// The value of a run of digits, read as a decimal number.
pub open spec fn digits_value(s: Seq<char>) -> nat
    decreases s.len(),
{
    if s.len() == 0 {
        0
    } else {
        digits_value(s.drop_last()) * 10 + digit_value(s.last())
    }
}

/// Every character of `s` is a digit.
pub open spec fn all_digits(s: Seq<char>) -> bool {
    forall|i: int| 0 <= i < s.len() ==> is_digit(#[trigger] s[i])
}

/// What an unsigned decimal number reads as: an optional `+`, then one digit
/// or more and nothing else, with a value that fits in 64 bits.
pub open spec fn parse_u64_spec(s: Seq<char>) -> Option<u64> {
    let body = if s.len() > 0 && s[0] == '+' {
        s.drop_first()
    } else {
        s
    };
    if body.len() > 0 && all_digits(body) && digits_value(body) <= u64::MAX {
        Some(digits_value(body) as u64)
    } else {
        None
    }
}

/// A longer run of digits has no smaller value than its prefix.
pub proof fn lemma_digits_value_grows(s: Seq<char>, n: int)
    requires
        0 <= n <= s.len(),
    ensures
        digits_value(s.subrange(0, n)) <= digits_value(s),
    decreases s.len() - n,
{
    if n < s.len() {
        let t = s.subrange(0, n + 1);
        assert(t.drop_last() == s.subrange(0, n));
        assert(digits_value(t) >= digits_value(s.subrange(0, n))) by (nonlinear_arith)
            requires
                digits_value(t) == digits_value(s.subrange(0, n)) * 10 + digit_value(t.last()),
        ;
        lemma_digits_value_grows(s, n + 1);
    } else {
        assert(s.subrange(0, n) == s);
    }
}

/// Reads `v[from..to]` as an unsigned decimal number.
pub fn parse_u64(v: &Vec<char>, from: usize, to: usize) -> (r: Option<u64>)
    requires
        from <= to <= v.len(),
    ensures
        r == parse_u64_spec(v@.subrange(from as int, to as int)),
{
    let ghost s = v@.subrange(from as int, to as int);
    let start: usize = if from < to && v[from] == '+' {
        from + 1
    } else {
        from
    };
    let ghost body = v@.subrange(start as int, to as int);
    assert(body == if s.len() > 0 && s[0] == '+' {
        s.drop_first()
    } else {
        s
    });
    if start == to {
        return None;
    }
    let mut acc: u64 = 0;
    let mut i: usize = start;
    while i < to
        invariant
            from <= start <= i <= to <= v.len(),
            start < to,
            s == v@.subrange(from as int, to as int),
            body == v@.subrange(start as int, to as int),
            body == if s.len() > 0 && s[0] == '+' {
                s.drop_first()
            } else {
                s
            },
            all_digits(body.subrange(0, i - start)),
            acc == digits_value(body.subrange(0, i - start)),
        decreases to - i,
    {
        let c: char = v[i];
        assert(body[i - start] == c);
        if !('0' <= c && c <= '9') {
            assert(!is_digit(body[i - start]));
            return None;
        }
        let d: u64 = (c as u32 - '0' as u32) as u64;
        let ghost next = body.subrange(0, i - start + 1);
        proof {
            assert(next.drop_last() == body.subrange(0, i - start));
            assert(next.last() == c);
            assert(digits_value(next) == acc * 10 + d);
            assert forall|k: int| 0 <= k < next.len() implies is_digit(#[trigger] next[k]) by {
                if k < i - start {
                    assert(body.subrange(0, i - start)[k] == next[k]);
                }
            }
        }
        if acc > (u64::MAX - d) / 10 {
            proof {
                lemma_digits_value_grows(body, i - start + 1);
                assert(acc * 10 + d > u64::MAX);
                assert(digits_value(body) > u64::MAX);
            }
            return None;
        }
        acc = acc * 10 + d;
        i += 1;
    }
    assert(body.subrange(0, body.len() as int) == body);
    Some(acc)
}

} // verus!
