//! Character-level facts the rest of the library is stated over: Unicode
//! white space and trimming, and unsigned decimal notation.

use vstd::prelude::*;

verus! {

/// The Unicode `White_Space` property, which `char::is_whitespace` and
/// `str::trim` follow.
pub open spec fn is_white_space(c: char) -> bool {
    let u = c as int;
    ||| 0x09 <= u <= 0x0d
    ||| u == 0x20
    ||| u == 0x85
    ||| u == 0xa0
    ||| u == 0x1680
    ||| 0x2000 <= u <= 0x200a
    ||| u == 0x2028
    ||| u == 0x2029
    ||| u == 0x202f
    ||| u == 0x205f
    ||| u == 0x3000
}

/// Every character of `s` is white space.
pub open spec fn all_white_space(s: Seq<char>) -> bool {
    forall|i: int| 0 <= i < s.len() ==> is_white_space(#[trigger] s[i])
}

/// `s` without its leading white space.
pub open spec fn trim_start(s: Seq<char>) -> Seq<char>
    decreases s.len(),
{
    if s.len() > 0 && is_white_space(s[0]) {
        trim_start(s.drop_first())
    } else {
        s
    }
}

/// `s` without its trailing white space.
pub open spec fn trim_end(s: Seq<char>) -> Seq<char>
    decreases s.len(),
{
    if s.len() > 0 && is_white_space(s.last()) {
        trim_end(s.drop_last())
    } else {
        s
    }
}

/// `s` without its leading and trailing white space.
pub open spec fn trimmed(s: Seq<char>) -> Seq<char> {
    trim_end(trim_start(s))
}

/// The character of the decimal digit `d` (`d < 10`).
pub open spec fn digit_char(d: nat) -> char {
    (48 + d) as char
}

/// The decimal notation of `n`, without sign or leading zeros.
pub open spec fn decimal(n: nat) -> Seq<char>
    decreases n,
{
    if n < 10 {
        seq![digit_char(n)]
    } else {
        decimal(n / 10).push(digit_char(n % 10))
    }
}

/// Every character of `d` is an ASCII digit.
pub open spec fn all_ascii_digits(d: Seq<char>) -> bool {
    forall|i: int| 0 <= i < d.len() ==> 48 <= #[trigger] (d[i] as int) <= 57
}

/// The number that the ASCII digits `d` denote.
pub open spec fn digits_value(d: Seq<char>) -> int
    decreases d.len(),
{
    if d.len() == 0 {
        0
    } else {
        digits_value(d.drop_last()) * 10 + (d.last() as int - 48)
    }
}

/// `s` without one leading `+`, if it has one.
pub open spec fn unsigned_digits(s: Seq<char>) -> Seq<char> {
    if s.len() > 0 && s[0] == '+' {
        s.drop_first()
    } else {
        s
    }
}

/// The value of `s` read as an unsigned decimal: an optional `+` followed
/// by at least one ASCII digit and nothing else; `None` for anything else.
pub open spec fn unsigned_value(s: Seq<char>) -> Option<int> {
    let d = unsigned_digits(s);
    if d.len() > 0 && all_ascii_digits(d) {
        Some(digits_value(d))
    } else {
        None
    }
}

/// `str::trim`: the slice of `s` without leading and trailing characters
/// that have the Unicode `White_Space` property.
#[verifier::external_body]
pub(crate) fn trim_white_space(s: &str) -> (t: &str)
    ensures
        t@ == trimmed(s@),
{
    s.trim()
}

/// The one-character text of the decimal digit `d`.
fn digit_text(d: u64) -> (t: &'static str)
    requires
        d < 10,
    ensures
        t@ == seq![digit_char(d as nat)],
{
    proof {
        reveal_strlit("0");
        reveal_strlit("1");
        reveal_strlit("2");
        reveal_strlit("3");
        reveal_strlit("4");
        reveal_strlit("5");
        reveal_strlit("6");
        reveal_strlit("7");
        reveal_strlit("8");
        reveal_strlit("9");
    }
    if d == 0 {
        "0"
    } else if d == 1 {
        "1"
    } else if d == 2 {
        "2"
    } else if d == 3 {
        "3"
    } else if d == 4 {
        "4"
    } else if d == 5 {
        "5"
    } else if d == 6 {
        "6"
    } else if d == 7 {
        "7"
    } else if d == 8 {
        "8"
    } else {
        "9"
    }
}

/// The decimal notation of `n`.
pub fn decimal_string(n: u64) -> (s: String)
    ensures
        s@ == decimal(n as nat),
    decreases n,
{
    if n < 10 {
        digit_text(n).to_owned()
    } else {
        let mut s = decimal_string(n / 10);
        s.append(digit_text(n % 10));
        s
    }
}

/// The part after the optional `+` of `p` followed by `c`.
proof fn lemma_unsigned_digits_push(p: Seq<char>, c: char)
    ensures
        unsigned_digits(p.push(c)) == if p.len() == 0 && c == '+' {
            Seq::<char>::empty()
        } else if p.len() == 0 {
            seq![c]
        } else {
            unsigned_digits(p).push(c)
        },
{
    if p.len() > 0 {
        assert(p.push(c)[0] == p[0]);
        if p[0] == '+' {
            assert(p.push(c).drop_first() =~= p.drop_first().push(c));
        }
    } else {
        if c == '+' {
            assert(seq![c].drop_first() =~= Seq::<char>::empty());
        }
        assert(p.push(c) =~= seq![c]);
    }
}

/// Appending a character to a run of digits.
proof fn lemma_digits_push(d: Seq<char>, c: char)
    ensures
        digits_value(d.push(c)) == digits_value(d) * 10 + (c as int - 48),
        all_ascii_digits(d.push(c)) == (all_ascii_digits(d) && 48 <= c as int <= 57),
{
    assert(d.push(c).drop_last() =~= d);
    if all_ascii_digits(d.push(c)) {
        assert forall|i: int| 0 <= i < d.len() implies 48 <= #[trigger] (d[i] as int) <= 57 by {
            assert(d.push(c)[i] == d[i]);
        }
        assert(48 <= (d.push(c)[d.len() as int] as int) <= 57);
    }
    if all_ascii_digits(d) && 48 <= c as int <= 57 {
        assert forall|i: int| 0 <= i < d.push(c).len() implies 48 <= #[trigger] (d.push(c)[i] as int) <= 57 by {
            if i < d.len() { assert(d.push(c)[i] == d[i]); }
        }
    }
}

/// Reads an unsigned decimal as `str::parse::<u64>` does: an optional `+`
/// followed by at least one ASCII digit and nothing else, whose value fits
/// in a `u64`; `None` for anything else.
pub fn parse_u64(s: &str) -> (r: Option<u64>)
    ensures
        r == (match unsigned_value(s@) {
            Some(v) => if v <= u64::MAX { Some(v as u64) } else { None::<u64> },
            None => None::<u64>,
        }),
{
    broadcast use vstd::string::group_string_axioms;
    let mut value: u64 = 0;
    let mut has_digits = false;
    let mut valid = true;
    let mut overflow = false;
    let mut first = true;
    for c in it: s.chars()
        invariant
            it.seq() == s@,
            first == (it.index() == 0),
            valid == all_ascii_digits(unsigned_digits(s@.take(it.index() as int))),
            has_digits == (unsigned_digits(s@.take(it.index() as int)).len() > 0),
            valid && !overflow ==> value == digits_value(unsigned_digits(s@.take(it.index() as int))),
            valid && overflow ==> digits_value(unsigned_digits(s@.take(it.index() as int))) > u64::MAX,
    {
        let ghost p = s@.take(it.index() as int);
        proof {
            assert(s@.take(it.index() + 1) =~= p.push(c));
            lemma_unsigned_digits_push(p, c);
            lemma_digits_push(unsigned_digits(p), c);
            if first && c == '+' {
                assert(all_ascii_digits(Seq::<char>::empty()));
            }
            if first && c != '+' {
                lemma_digits_push(Seq::<char>::empty(), c);
                assert(Seq::<char>::empty().push(c) =~= seq![c]);
                assert(all_ascii_digits(Seq::<char>::empty()));
            }
        }
        if first && c == '+' {
        } else if '0' <= c && c <= '9' {
            has_digits = true;
            if valid && !overflow {
                let digit = (c as u32 - 48) as u64;
                match value.checked_mul(10) {
                    Some(tens) => match tens.checked_add(digit) {
                        Some(next) => value = next,
                        None => overflow = true,
                    },
                    None => overflow = true,
                }
            }
        } else {
            has_digits = true;
            valid = false;
        }
        first = false;
    }
    proof {
        assert(s@.take(s@.len() as int) =~= s@);
    }
    if valid && has_digits && !overflow {
        Some(value)
    } else {
        None
    }
}

/// ASCII digits denote a number that is not negative.
pub proof fn lemma_digits_value_nonnegative(d: Seq<char>)
    requires
        all_ascii_digits(d),
    ensures
        digits_value(d) >= 0,
    decreases d.len(),
{
    if d.len() > 0 {
        assert(48 <= (d[d.len() - 1] as int) <= 57);
        assert(all_ascii_digits(d.drop_last()));
        lemma_digits_value_nonnegative(d.drop_last());
    }
}

/// The value of an unsigned decimal is not negative.
pub proof fn lemma_unsigned_value_nonnegative(s: Seq<char>)
    ensures
        unsigned_value(s) matches Some(v) ==> v >= 0,
{
    if unsigned_value(s) is Some {
        lemma_digits_value_nonnegative(unsigned_digits(s));
    }
}

/// The decimal notation of `n` consists of ASCII digits that denote `n`.
pub proof fn lemma_decimal_digits(n: nat)
    ensures
        decimal(n).len() > 0,
        all_ascii_digits(decimal(n)),
        digits_value(decimal(n)) == n,
    decreases n,
{
    let last = n % 10;
    assert(digit_char(last) as int == 48 + last);
    if n < 10 {
        assert(decimal(n).drop_last() =~= Seq::<char>::empty());
        assert(last == n);
        assert(digits_value(decimal(n)) == digits_value(Seq::<char>::empty()) * 10 + (
        decimal(n).last() as int - 48));
    } else {
        lemma_decimal_digits(n / 10);
        vstd::arithmetic::div_mod::lemma_fundamental_div_mod(n as int, 10);
        let d = decimal(n);
        assert(d.drop_last() == decimal(n / 10));
        assert(d.last() == digit_char(last));
        assert(digits_value(d) == digits_value(decimal(n / 10)) * 10 + (d.last() as int - 48));
        assert(digits_value(d) == (n / 10) * 10 + last);
        assert forall|i: int| 0 <= i < d.len() implies 48 <= #[trigger] (d[i] as int) <= 57 by {
            if i < d.len() - 1 {
                assert(d[i] == decimal(n / 10)[i]);
            }
        }
    }
}

/// Reading the decimal notation of a number back gives the number: what
/// `decimal_string` prints, `parse_u64` reads back unchanged.
pub proof fn decimal_reads_back(n: nat)
    ensures
        unsigned_value(decimal(n)) == Some(n as int),
{
    lemma_decimal_digits(n);
    assert(48 <= (decimal(n)[0] as int) <= 57);
    assert(unsigned_digits(decimal(n)) == decimal(n));
}

/// The leading white space of `s` is gone from `trim_start(s)`, which is a
/// suffix of `s`.
pub proof fn lemma_trim_start(s: Seq<char>)
    ensures
        trim_start(s).len() <= s.len(),
        trim_start(s) == s.subrange(s.len() - trim_start(s).len(), s.len() as int),
        trim_start(s).len() > 0 ==> !is_white_space(trim_start(s)[0]),
        all_white_space(s.subrange(0, s.len() - trim_start(s).len())),
    decreases s.len(),
{
    if s.len() > 0 && is_white_space(s[0]) {
        lemma_trim_start(s.drop_first());
        assert(trim_start(s) == s.subrange(s.len() - trim_start(s).len(), s.len() as int));
        let k = s.len() - trim_start(s).len();
        assert forall|i: int| 0 <= i < k implies is_white_space(#[trigger] s.subrange(0, k)[i]) by {
            if i > 0 {
                assert(s.subrange(0, k)[i] == s.drop_first().subrange(0, k - 1)[i - 1]);
            }
        }
    } else {
        assert(s == s.subrange(0, s.len() as int));
    }
}

/// The trailing white space of `s` is gone from `trim_end(s)`, which is a
/// prefix of `s`.
pub proof fn lemma_trim_end(s: Seq<char>)
    ensures
        trim_end(s).len() <= s.len(),
        trim_end(s) == s.subrange(0, trim_end(s).len() as int),
        trim_end(s).len() > 0 ==> !is_white_space(trim_end(s).last()),
        all_white_space(s.subrange(trim_end(s).len() as int, s.len() as int)),
    decreases s.len(),
{
    if s.len() > 0 && is_white_space(s.last()) {
        lemma_trim_end(s.drop_last());
        assert(trim_end(s) == s.subrange(0, trim_end(s).len() as int));
        let m = trim_end(s).len() as int;
        assert forall|i: int| 0 <= i < s.len() - m implies is_white_space(
            #[trigger] s.subrange(m, s.len() as int)[i],
        ) by {
            if i < s.len() - m - 1 {
                assert(s.subrange(m, s.len() as int)[i] == s.drop_last().subrange(m, s.len() - 1)[i]);
            }
        }
    } else {
        assert(s == s.subrange(0, s.len() as int));
    }
}

/// A trimmed text has no white space at either end, and trimming it again
/// changes nothing.
pub proof fn lemma_trimmed_is_trimmed(s: Seq<char>)
    ensures
        trimmed(s).len() > 0 ==> !is_white_space(trimmed(s)[0]),
        trimmed(s).len() > 0 ==> !is_white_space(trimmed(s).last()),
        trimmed(trimmed(s)) == trimmed(s),
{
    let u = trim_start(s);
    let t = trim_end(u);
    lemma_trim_start(s);
    lemma_trim_end(u);
    if t.len() > 0 {
        assert(t[0] == u[0]);
    }
    assert(trim_start(t) == t);
    assert(trim_end(t) == t);
}

/// Leading white space in front of a text that starts with another
/// character is removed, and nothing else.
proof fn lemma_trim_start_of_padded(pad: Seq<char>, u: Seq<char>)
    requires
        all_white_space(pad),
        u.len() == 0 || !is_white_space(u[0]),
    ensures
        trim_start(pad + u) == u,
    decreases pad.len(),
{
    if pad.len() > 0 {
        assert((pad + u)[0] == pad[0]);
        assert((pad + u).drop_first() =~= pad.drop_first() + u);
        lemma_trim_start_of_padded(pad.drop_first(), u);
    } else {
        assert(pad + u =~= u);
    }
}

/// Trailing white space after a text that ends with another character is
/// removed, and nothing else.
proof fn lemma_trim_end_of_padded(u: Seq<char>, pad: Seq<char>)
    requires
        all_white_space(pad),
        u.len() == 0 || !is_white_space(u.last()),
    ensures
        trim_end(u + pad) == u,
    decreases pad.len(),
{
    if pad.len() > 0 {
        assert((u + pad).last() == pad.last());
        assert((u + pad).drop_last() =~= u + pad.drop_last());
        lemma_trim_end_of_padded(u, pad.drop_last());
    } else {
        assert(u + pad =~= u);
    }
}

/// Trimming a text wrapped in white space gives the text back, when the
/// text itself starts and ends with characters that are not white space.
pub proof fn trimmed_removes_exactly_the_padding(before: Seq<char>, core: Seq<char>, after: Seq<char>)
    requires
        all_white_space(before),
        all_white_space(after),
        core.len() > 0,
        !is_white_space(core[0]),
        !is_white_space(core.last()),
    ensures
        trimmed(before + core + after) == core,
{
    assert(before + core + after =~= before + (core + after));
    assert((core + after)[0] == core[0]);
    lemma_trim_start_of_padded(before, core + after);
    lemma_trim_end_of_padded(core, after);
}

/// A text of white space alone trims to nothing.
pub proof fn trimmed_white_space_is_empty(s: Seq<char>)
    requires
        all_white_space(s),
    ensures
        trimmed(s).len() == 0,
{
    lemma_trim_start_of_padded(s, Seq::<char>::empty());
    assert(s + Seq::<char>::empty() =~= s);
}

/// What trimming keeps is a stretch of the text whose surroundings are white
/// space and whose ends are not.
pub proof fn trimmed_is_the_core(s: Seq<char>)
    ensures
        exists|i: int, j: int|
            0 <= i <= j <= s.len() && #[trigger] s.subrange(i, j) == trimmed(s) && all_white_space(
                s.subrange(0, i),
            ) && all_white_space(s.subrange(j, s.len() as int)),
{
    let u = trim_start(s);
    let t = trim_end(u);
    lemma_trim_start(s);
    lemma_trim_end(u);
    let i = s.len() - u.len();
    let j = i + t.len();
    assert(s.subrange(i, j) =~= t);
    assert(s.subrange(j, s.len() as int) =~= u.subrange(t.len() as int, u.len() as int));
}

/// A leading non-zero digit makes a number of at least one.
proof fn lemma_leading_digit_positive(d: Seq<char>)
    requires
        d.len() > 0,
        all_ascii_digits(d),
        d[0] != '0',
    ensures
        digits_value(d) >= 1,
    decreases d.len(),
{
    assert(48 <= (d[0] as int) <= 57);
    assert(digits_value(d) == digits_value(d.drop_last()) * 10 + (d.last() as int - 48));
    if d.len() == 1 {
        assert(d.drop_last() =~= Seq::<char>::empty());
        assert(d.last() == d[0]);
        assert(d[0] as int != 48);
    } else {
        let e = d.drop_last();
        assert(e[0] == d[0]);
        assert(all_ascii_digits(e)) by {
            assert forall|i: int| 0 <= i < e.len() implies 48 <= #[trigger] (e[i] as int) <= 57 by {
                assert(e[i] == d[i]);
            }
        }
        lemma_leading_digit_positive(e);
        assert(48 <= (d.last() as int) <= 57);
    }
}

/// The decimal notation of a positive number starts with a non-zero digit.
proof fn lemma_decimal_leading_digit(n: nat)
    requires
        n >= 1,
    ensures
        decimal(n)[0] != '0',
    decreases n,
{
    if n < 10 {
        assert(digit_char(n) as int == 48 + n);
    } else {
        lemma_decimal_leading_digit(n / 10);
        lemma_decimal_digits(n / 10);
        assert(decimal(n)[0] == decimal(n / 10)[0]);
    }
}

/// The decimal notation of a number is its canonical notation: ASCII
/// digits that denote the number, with no leading zero unless the number
/// is zero itself.
pub proof fn decimal_is_canonical(n: nat)
    ensures
        decimal(n).len() > 0,
        all_ascii_digits(decimal(n)),
        digits_value(decimal(n)) == n,
        decimal(n).len() > 1 ==> decimal(n)[0] != '0',
{
    lemma_decimal_digits(n);
    if n >= 10 {
        lemma_decimal_leading_digit(n);
    }
}

/// There is only one canonical notation of a number: any ASCII digits with
/// no leading zero (except a lone `0`) that denote `n` are `decimal(n)`.
pub proof fn canonical_notation_is_unique(d: Seq<char>, n: nat)
    requires
        d.len() > 0,
        all_ascii_digits(d),
        d.len() == 1 || d[0] != '0',
        digits_value(d) == n,
    ensures
        d == decimal(n),
    decreases d.len(),
{
    let c = d.last();
    assert(48 <= (c as int) <= 57);
    let e = d.drop_last();
    assert(digits_value(d) == digits_value(e) * 10 + (c as int - 48));
    if d.len() == 1 {
        assert(e =~= Seq::<char>::empty());
        assert(n == c as int - 48);
        assert(digit_char(n) as int == c as int);
        assert(d =~= seq![c]);
    } else {
        assert(e[0] == d[0]);
        assert(all_ascii_digits(e)) by {
            assert forall|i: int| 0 <= i < e.len() implies 48 <= #[trigger] (e[i] as int) <= 57 by {
                assert(e[i] == d[i]);
            }
        }
        lemma_leading_digit_positive(e);
        lemma_digits_value_nonnegative(e);
        let m = digits_value(e);
        assert(n == m * 10 + (c as int - 48));
        assert(n / 10 == m && n % 10 == c as int - 48) by {
            vstd::arithmetic::div_mod::lemma_fundamental_div_mod_converse(
                n as int,
                10,
                m,
                c as int - 48,
            );
        }
        canonical_notation_is_unique(e, m as nat);
        assert(digit_char(n % 10) as int == c as int);
        assert(d =~= e.push(c));
    }
}

} // verus!
