//! Character-level helpers shared by the other modules: building strings one
//! character at a time, decimal rendering of integers, zero padding, and
//! trimming by a character class.
use vstd::prelude::*;
use vstd::string::*;

verus! {

/// Appends one character to a string.
///
/// Trusted: calls `String::push`, which std documents as appending the
/// given `char` to the end of the string.
#[verifier::external_body]
pub fn push_char(s: &mut String, c: char)
    ensures
        final(s)@ == old(s)@.push(c),
{
    s.push(c);
}

/// ASCII letters and digits, as `char::is_ascii_alphanumeric` answers.
pub open spec fn is_ascii_alnum(c: char) -> bool {
    ('0' <= c && c <= '9') || ('a' <= c && c <= 'z') || ('A' <= c && c <= 'Z')
}

/// The text of an optional string.
pub open spec fn opt_text(o: Option<String>) -> Option<Seq<char>> {
    match o {
        Some(s) => Some(s@),
        None => None,
    }
}

/// Appends a string slice to a string.
pub fn push_str(s: &mut String, t: &str)
    ensures
        final(s)@ == old(s)@ + t@,
{
    s.append(t);
}

/// A new string holding the characters of `t`.
pub fn owned(t: &str) -> (r: String)
    ensures
        r@ == t@,
{
    String::from_str(t)
}

/// The characters of a string slice, in order.
pub fn chars_of(s: &str) -> (v: Vec<char>)
    ensures
        v@ == s@,
{
    let mut out: Vec<char> = Vec::new();
    for c in it: s.chars()
        invariant
            it.seq() == s@,
            out@ == s@.take(it.index() as int),
    {
        out.push(c);
        proof {
            assert(s@.take(it.index() as int).push(c) =~= s@.take(it.index() + 1));
        }
    }
    proof {
        assert(s@.take(s@.len() as int) =~= s@);
    }
    out
}

/// A string made of the characters `v[lo..hi]`.
pub fn string_of_range(v: &Vec<char>, lo: usize, hi: usize) -> (r: String)
    requires
        lo <= hi <= v.len(),
    ensures
        r@ == v@.subrange(lo as int, hi as int),
{
    let mut out = String::new();
    let mut i = lo;
    while i < hi
        invariant
            lo <= i <= hi <= v.len(),
            out@ == v@.subrange(lo as int, i as int),
        decreases hi - i,
    {
        push_char(&mut out, v[i]);
        proof {
            assert(v@.subrange(lo as int, i as int).push(v@[i as int]) =~= v@.subrange(
                lo as int,
                i + 1,
            ));
        }
        i = i + 1;
    }
    out
}

/// Whether two strings hold the same characters.
pub fn same_text(a: &str, b: &str) -> (r: bool)
    ensures
        r == (a@ == b@),
{
    let x = String::from_str(a);
    let y = String::from_str(b);
    x == y
}

// ---------------------------------------------------------------------------
// Decimal rendering
// ---------------------------------------------------------------------------

/// The ASCII digit for `d` (meaningful for `d < 10`).
pub open spec fn digit_char(d: nat) -> char {
    (d + 48) as char
}

/// The shortest decimal rendering of `n`, as `to_string` writes it.
pub open spec fn decimal(n: nat) -> Seq<char>
    decreases n,
{
    if n < 10 {
        seq![digit_char(n)]
    } else {
        decimal(n / 10).push(digit_char(n % 10))
    }
}

fn digit(d: u64) -> (c: char)
    requires
        d < 10,
    ensures
        c == digit_char(d as nat),
{
    let b: u8 = d as u8;
    let c = (b + 48u8) as char;
    c
}

/// Appends the decimal rendering of `n` to `out`.
pub fn append_decimal(out: &mut String, n: u64)
    ensures
        final(out)@ == old(out)@ + decimal(n as nat),
    decreases n,
{
    if n >= 10 {
        append_decimal(out, n / 10);
    }
    let c = digit(n % 10);
    push_char(out, c);
    proof {
        if n >= 10 {
            assert(decimal(n as nat) == decimal((n / 10) as nat).push(digit_char((n % 10) as nat)));
        }
    }
}

/// The decimal rendering of `n`.
pub fn decimal_text(n: u64) -> (r: String)
    ensures
        r@ == decimal(n as nat),
{
    let mut out = String::new();
    append_decimal(&mut out, n);
    proof {
        assert(Seq::<char>::empty() + decimal(n as nat) =~= decimal(n as nat));
    }
    out
}

/// `s` preceded by as many `'0'` as it takes to reach `width` characters.
pub open spec fn zero_pad(s: Seq<char>, width: nat) -> Seq<char> {
    if s.len() < width {
        Seq::new((width - s.len()) as nat, |i: int| '0') + s
    } else {
        s
    }
}

/// Appends `s` to `out`, zero padded to `width` characters.
pub fn append_zero_padded(out: &mut String, s: &String, width: usize)
    ensures
        final(out)@ == old(out)@ + zero_pad(s@, width as nat),
{
    let digits = chars_of(s.as_str());
    let ghost start = out@;
    let mut k: usize = digits.len();
    let ghost mut pad: Seq<char> = Seq::empty();
    while k < width
        invariant
            digits.len() <= k <= width || (width < digits.len() && k == digits.len()),
            pad.len() == k - digits.len(),
            forall|i: int| 0 <= i < pad.len() ==> pad[i] == '0',
            out@ == start + pad,
        decreases width - k,
    {
        push_char(out, '0');
        proof {
            pad = pad.push('0');
        }
        k = k + 1;
    }
    push_str(out, s.as_str());
    proof {
        if s@.len() < width {
            assert(pad =~= Seq::new((width - s@.len()) as nat, |i: int| '0'));
            assert(out@ =~= start + zero_pad(s@, width as nat));
        } else {
            assert(pad =~= Seq::<char>::empty());
            assert(out@ =~= start + zero_pad(s@, width as nat));
        }
    }
}

/// The number that a string of ASCII digits denotes.
pub open spec fn digits_value(s: Seq<char>) -> int
    decreases s.len(),
{
    if s.len() == 0 {
        0
    } else {
        digits_value(s.drop_last()) * 10 + (s.last() as int - 48)
    }
}

/// A decimal rendering is a non-empty string of ASCII digits that begins
/// with `0` only for the number 0.
pub proof fn decimal_digits(n: nat)
    ensures
        decimal(n).len() > 0,
        forall|i: int| 0 <= i < decimal(n).len() ==> '0' <= #[trigger] decimal(n)[i] && decimal(n)[i] <= '9',
        (decimal(n)[0] == '0') == (n == 0),
    decreases n,
{
    if n >= 10 {
        decimal_digits(n / 10);
        let d = decimal(n);
        let p = decimal(n / 10);
        assert(d == p.push(digit_char(n % 10)));
        assert(digit_char(n % 10) as int == n % 10 + 48);
        assert forall|i: int| 0 <= i < d.len() implies '0' <= #[trigger] d[i] && d[i] <= '9' by {
            if i < p.len() {
                assert(d[i] == p[i]);
            }
        }
        assert(d[0] == p[0]);
    } else {
        assert(digit_char(n) as int == n + 48);
    }
}

/// Reading back a decimal rendering gives the number rendered.
pub proof fn decimal_reads_back(n: nat)
    ensures
        digits_value(decimal(n)) == n,
    decreases n,
{
    if n >= 10 {
        decimal_reads_back(n / 10);
        let d = decimal(n);
        assert(d.drop_last() == decimal(n / 10));
        assert(d.last() == digit_char(n % 10));
        assert(digit_char(n % 10) as int == n % 10 + 48);
        assert(n == (n / 10) * 10 + n % 10) by (nonlinear_arith);
        assert(digits_value(d) == digits_value(d.drop_last()) * 10 + (d.last() as int - 48));
    } else {
        let d = decimal(n);
        assert(d.drop_last() =~= Seq::<char>::empty());
        assert(digits_value(d.drop_last()) == 0);
        assert(digit_char(n) as int == n + 48);
        assert(digits_value(d) == digits_value(d.drop_last()) * 10 + (d.last() as int - 48));
    }
}

/// Leading zeros do not change the number a string of digits denotes.
pub proof fn leading_zeros_keep_value(z: nat, s: Seq<char>)
    ensures
        digits_value(Seq::new(z, |i: int| '0') + s) == digits_value(s),
    decreases s.len(), z,
{
    let zs = Seq::new(z, |i: int| '0');
    if s.len() == 0 {
        assert(zs + s =~= zs);
        if z > 0 {
            assert(zs.drop_last() =~= Seq::new((z - 1) as nat, |i: int| '0'));
            leading_zeros_keep_value((z - 1) as nat, s);
            assert(Seq::new((z - 1) as nat, |i: int| '0') + s =~= Seq::new((z - 1) as nat, |i: int| '0'));
        }
    } else {
        assert((zs + s).drop_last() =~= zs + s.drop_last());
        leading_zeros_keep_value(z, s.drop_last());
    }
}

/// A zero-padded decimal rendering reads back as the number rendered.
pub proof fn zero_padded_decimal_reads_back(n: nat, width: nat)
    ensures
        digits_value(zero_pad(decimal(n), width)) == n,
{
    decimal_reads_back(n);
    let d = decimal(n);
    if d.len() < width {
        leading_zeros_keep_value((width - d.len()) as nat, d);
    }
}

// ---------------------------------------------------------------------------
// Trimming by a character class
// ---------------------------------------------------------------------------

/// Characters with the Unicode `White_Space` property, which is what
/// `char::is_whitespace` and `str::trim` go by.
pub open spec fn is_white_space(c: char) -> bool {
    ||| ('\u{9}' <= c && c <= '\u{d}')
    ||| c == ' '
    ||| c == '\u{85}'
    ||| c == '\u{a0}'
    ||| c == '\u{1680}'
    ||| ('\u{2000}' <= c && c <= '\u{200a}')
    ||| c == '\u{2028}'
    ||| c == '\u{2029}'
    ||| c == '\u{202f}'
    ||| c == '\u{205f}'
    ||| c == '\u{3000}'
}

/// A class of characters that trimming removes from both ends.
#[derive(Clone, Copy, PartialEq, Eq, Debug)]
pub enum TrimClass {
    /// Unicode white space, as `str::trim` removes.
    WhiteSpace,
    /// The `'-'` character, as `trim_matches('-')` removes.
    Dash,
}

impl TrimClass {
    pub open spec fn holds(self, c: char) -> bool {
        match self {
            TrimClass::WhiteSpace => is_white_space(c),
            TrimClass::Dash => c == '-',
        }
    }

    pub fn matches(&self, c: char) -> (b: bool)
        ensures
            b == self.holds(c),
    {
        match self {
            TrimClass::WhiteSpace => {
                ('\u{9}' <= c && c <= '\u{d}') || c == ' ' || c == '\u{85}' || c == '\u{a0}'
                    || c == '\u{1680}' || ('\u{2000}' <= c && c <= '\u{200a}') || c == '\u{2028}'
                    || c == '\u{2029}' || c == '\u{202f}' || c == '\u{205f}' || c == '\u{3000}'
            },
            TrimClass::Dash => c == '-',
        }
    }
}

/// `s` without the characters of class `k` at its start.
pub open spec fn trim_start(s: Seq<char>, k: TrimClass) -> Seq<char>
    decreases s.len(),
{
    if s.len() > 0 && k.holds(s[0]) {
        trim_start(s.drop_first(), k)
    } else {
        s
    }
}

/// `s` without the characters of class `k` at its end.
pub open spec fn trim_end(s: Seq<char>, k: TrimClass) -> Seq<char>
    decreases s.len(),
{
    if s.len() > 0 && k.holds(s.last()) {
        trim_end(s.drop_last(), k)
    } else {
        s
    }
}

/// `s` without the characters of class `k` at either end.
pub open spec fn trim_both(s: Seq<char>, k: TrimClass) -> Seq<char> {
    trim_end(trim_start(s, k), k)
}

/// The result of `str::trim`.
pub open spec fn trimmed(s: Seq<char>) -> Seq<char> {
    trim_both(s, TrimClass::WhiteSpace)
}

/// Removing a prefix of class characters does not change what trimming the
/// start gives.
proof fn lemma_trim_start_step(s: Seq<char>, a: int, k: TrimClass)
    requires
        0 <= a < s.len(),
        k.holds(s[a]),
    ensures
        trim_start(s.subrange(a, s.len() as int), k) == trim_start(
            s.subrange(a + 1, s.len() as int),
            k,
        ),
{
    assert(s.subrange(a, s.len() as int).drop_first() =~= s.subrange(a + 1, s.len() as int));
}

proof fn lemma_trim_end_step(s: Seq<char>, b: int, k: TrimClass)
    requires
        0 < b <= s.len(),
        k.holds(s[b - 1]),
    ensures
        trim_end(s.subrange(0, b), k) == trim_end(s.subrange(0, b - 1), k),
{
    assert(s.subrange(0, b).drop_last() =~= s.subrange(0, b - 1));
}

/// `trim_start(s)` is a suffix of `s` that is empty or begins outside the
/// class; `trim_end(s)` is a prefix that is empty or ends outside it.
pub proof fn lemma_trim_shapes(s: Seq<char>, k: TrimClass)
    ensures
        exists|a: int|
            0 <= a <= s.len() && #[trigger] s.subrange(a, s.len() as int) == trim_start(s, k),
        trim_start(s, k).len() > 0 ==> !k.holds(trim_start(s, k)[0]),
        exists|b: int| 0 <= b <= s.len() && #[trigger] s.subrange(0, b) == trim_end(s, k),
        trim_end(s, k).len() > 0 ==> !k.holds(trim_end(s, k).last()),
    decreases s.len(),
{
    if s.len() > 0 && k.holds(s[0]) {
        lemma_trim_shapes(s.drop_first(), k);
        let a = choose|a: int|
            0 <= a <= s.drop_first().len() && #[trigger] s.drop_first().subrange(
                a,
                s.drop_first().len() as int,
            ) == trim_start(s.drop_first(), k);
        assert(s.drop_first().subrange(a, s.drop_first().len() as int) =~= s.subrange(
            a + 1,
            s.len() as int,
        ));
    } else {
        assert(s.subrange(0, s.len() as int) =~= s);
    }
    if s.len() > 0 && k.holds(s.last()) {
        lemma_trim_shapes(s.drop_last(), k);
        let b = choose|b: int|
            0 <= b <= s.drop_last().len() && #[trigger] s.drop_last().subrange(0, b) == trim_end(
                s.drop_last(),
                k,
            );
        assert(s.drop_last().subrange(0, b) =~= s.subrange(0, b));
    } else {
        assert(s.subrange(0, s.len() as int) =~= s);
    }
}

/// Trimming both ends leaves a contiguous part of `s` that is empty or both
/// begins and ends outside the class.
pub proof fn lemma_trim_both_shape(s: Seq<char>, k: TrimClass)
    ensures
        exists|a: int, b: int|
            0 <= a <= b <= s.len() && #[trigger] s.subrange(a, b) == trim_both(s, k),
        trim_both(s, k).len() > 0 ==> !k.holds(trim_both(s, k)[0]) && !k.holds(
            trim_both(s, k).last(),
        ),
{
    let t = trim_start(s, k);
    lemma_trim_shapes(s, k);
    lemma_trim_shapes(t, k);
    let a = choose|a: int| 0 <= a <= s.len() && #[trigger] s.subrange(a, s.len() as int) == t;
    let b = choose|b: int| 0 <= b <= t.len() && #[trigger] t.subrange(0, b) == trim_end(t, k);
    assert(s.subrange(a, s.len() as int).subrange(0, b) =~= s.subrange(a, a + b));
    if trim_both(s, k).len() > 0 {
        assert(trim_both(s, k)[0] == t[0]);
    }
}

/// Trimming the start of a sequence made only of class characters leaves
/// nothing, and so does trimming both ends.
pub proof fn lemma_trim_start_of_class(s: Seq<char>, k: TrimClass)
    requires
        forall|i: int| 0 <= i < s.len() ==> k.holds(#[trigger] s[i]),
    ensures
        trim_start(s, k).len() == 0,
        trim_both(s, k).len() == 0,
    decreases s.len(),
{
    if s.len() > 0 {
        assert(k.holds(s[0]));
        let t = s.drop_first();
        assert forall|i: int| 0 <= i < t.len() implies k.holds(#[trigger] t[i]) by {
            assert(t[i] == s[i + 1]);
        }
        lemma_trim_start_of_class(t, k);
    }
}

/// A sequence that is empty or begins and ends outside the class is left
/// as it is by trimming.
pub proof fn lemma_trim_both_fixed(s: Seq<char>, k: TrimClass)
    requires
        s.len() > 0 ==> !k.holds(s[0]) && !k.holds(s.last()),
    ensures
        trim_both(s, k) == s,
{
}

/// The position of the first character of `v` outside class `k`, or
/// `v.len()` where there is none, together with what that leaves.
fn skip_start(v: &Vec<char>, k: TrimClass) -> (a: usize)
    ensures
        a <= v.len(),
        v@.subrange(a as int, v.len() as int) == trim_start(v@, k),
{
    let mut a: usize = 0;
    proof {
        assert(v@.subrange(0, v.len() as int) =~= v@);
    }
    while a < v.len() && k.matches(v[a])
        invariant
            a <= v.len(),
            trim_start(v@.subrange(a as int, v.len() as int), k) == trim_start(v@, k),
        decreases v.len() - a,
    {
        proof {
            lemma_trim_start_step(v@, a as int, k);
        }
        a = a + 1;
    }
    proof {
        let r = v@.subrange(a as int, v.len() as int);
        if a < v.len() {
            assert(r[0] == v@[a as int]);
        }
    }
    a
}

/// The length of the longest prefix of `v[..hi]` that does not end in a
/// class character, and what trimming the end gives.
fn skip_end(v: &Vec<char>, lo: usize, k: TrimClass) -> (b: usize)
    requires
        lo <= v.len(),
    ensures
        lo <= b <= v.len(),
        v@.subrange(lo as int, b as int) == trim_end(v@.subrange(lo as int, v.len() as int), k),
{
    let ghost t = v@.subrange(lo as int, v.len() as int);
    let mut b: usize = v.len();
    proof {
        assert(t.subrange(0, t.len() as int) =~= t);
    }
    while b > lo && k.matches(v[b - 1])
        invariant
            lo <= b <= v.len(),
            t == v@.subrange(lo as int, v.len() as int),
            trim_end(t.subrange(0, b - lo), k) == trim_end(t, k),
        decreases b,
    {
        proof {
            assert(t[b - lo - 1] == v@[b - 1]);
            lemma_trim_end_step(t, b - lo, k);
        }
        b = b - 1;
    }
    proof {
        let r = t.subrange(0, b - lo);
        assert(r =~= v@.subrange(lo as int, b as int));
        if b > lo {
            assert(r.last() == v@[b - 1]);
        }
    }
    b
}

/// `s` without the characters of class `k` at either end.
pub fn trim_class(s: &str, k: TrimClass) -> (r: String)
    ensures
        r@ == trim_both(s@, k),
{
    let v = chars_of(s);
    let a = skip_start(&v, k);
    let b = skip_end(&v, a, k);
    string_of_range(&v, a, b)
}

/// `s` without leading and trailing white space, as `str::trim` gives it.
pub fn trim(s: &str) -> (r: String)
    ensures
        r@ == trimmed(s@),
{
    trim_class(s, TrimClass::WhiteSpace)
}

} // verus!
