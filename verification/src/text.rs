//! Text helpers: whitespace, decimal numbers.

use vstd::prelude::*;
use vstd::string::*;

verus! {

/// The characters with the Unicode property `White_Space`.
pub open spec fn is_whitespace(c: char) -> bool {
    ||| '\u{9}' <= c <= '\u{d}'
    ||| c == ' '
    ||| c == '\u{85}'
    ||| c == '\u{a0}'
    ||| c == '\u{1680}'
    ||| '\u{2000}' <= c <= '\u{200a}'
    ||| c == '\u{2028}'
    ||| c == '\u{2029}'
    ||| c == '\u{202f}'
    ||| c == '\u{205f}'
    ||| c == '\u{3000}'
}

/// A text is blank when nothing is left of it once the whitespace at both
/// ends is trimmed away: every character of it is whitespace.
pub open spec fn blank(s: Seq<char>) -> bool {
    forall|i: int| 0 <= i < s.len() ==> is_whitespace(#[trigger] s[i])
}

/// Decides whether a character is whitespace.
pub fn char_is_whitespace(c: char) -> (b: bool)
    ensures
        b == is_whitespace(c),
{
    ('\u{9}' <= c && c <= '\u{d}') || c == ' ' || c == '\u{85}' || c == '\u{a0}' || c == '\u{1680}'
        || ('\u{2000}' <= c && c <= '\u{200a}') || c == '\u{2028}' || c == '\u{2029}' || c
        == '\u{202f}' || c == '\u{205f}' || c == '\u{3000}'
}

/// Decides whether a text is blank.
pub fn is_blank(s: &str) -> (b: bool)
    ensures
        b == blank(s@),
{
    for c in it: s.chars()
        invariant
            it.seq() == s@,
            forall|i: int| 0 <= i < it.index() ==> is_whitespace(#[trigger] s@[i]),
    {
        if !char_is_whitespace(c) {
            return false;
        }
    }
    true
}

/// A text without the whitespace at its end.
pub open spec fn trimmed_end(s: Seq<char>) -> Seq<char>
    decreases s.len(),
{
    if s.len() > 0 && is_whitespace(s.last()) {
        trimmed_end(s.drop_last())
    } else {
        s
    }
}

/// A text is cut to its trimmed form at `keep`, where `keep` is the
/// position behind its last character that is no whitespace.
pub proof fn lemma_trimmed_end_at(s: Seq<char>, keep: int)
    requires
        0 <= keep <= s.len(),
        keep == 0 || !is_whitespace(s[keep - 1]),
        forall|i: int| keep <= i < s.len() ==> is_whitespace(#[trigger] s[i]),
    ensures
        trimmed_end(s) == s.subrange(0, keep),
    decreases s.len(),
{
    if keep == s.len() {
        assert(s.subrange(0, keep) =~= s);
    } else {
        assert(is_whitespace(s[s.len() - 1]));
        lemma_trimmed_end_at(s.drop_last(), keep);
        assert(s.drop_last().subrange(0, keep) =~= s.subrange(0, keep));
    }
}

/// Cuts the whitespace off the end of a text.
pub fn trim_end(s: &str) -> (r: String)
    ensures
        r@ == trimmed_end(s@),
{
    let total = s.unicode_len();
    let mut keep: usize = 0;
    let mut seen: usize = 0;
    for c in it: s.chars()
        invariant
            it.seq() == s@,
            total == s@.len(),
            seen == it.index(),
            keep <= seen,
            keep == 0 || !is_whitespace(s@[keep - 1]),
            forall|i: int| keep <= i < seen ==> is_whitespace(#[trigger] s@[i]),
    {
        seen = seen + 1;
        if !char_is_whitespace(c) {
            keep = seen;
        }
    }
    proof {
        lemma_trimmed_end_at(s@, keep as int);
    }
    String::from_str(s.substring_char(0, keep))
}

/// The decimal digit that stands for `d`, for `d` below ten.
pub open spec fn digit_char(d: nat) -> char {
    if d == 0 {
        '0'
    } else if d == 1 {
        '1'
    } else if d == 2 {
        '2'
    } else if d == 3 {
        '3'
    } else if d == 4 {
        '4'
    } else if d == 5 {
        '5'
    } else if d == 6 {
        '6'
    } else if d == 7 {
        '7'
    } else if d == 8 {
        '8'
    } else {
        '9'
    }
}

/// The decimal numeral of `n`, without sign or leading zeros.
pub open spec fn decimal_text(n: nat) -> Seq<char>
    decreases n,
{
    if n < 10 {
        seq![digit_char(n)]
    } else {
        decimal_text(n / 10).push(digit_char(n % 10))
    }
}

fn digit_str(d: u64) -> (s: &'static str)
    requires
        d < 10,
    ensures
        s@ == seq![digit_char(d as nat)],
{
    proof {
        reveal_strlit("0");
        reveal_strlit("1");
        reveal_strlit("2");
        reveal_strlit("3");
        reveal_strlit("4");
        reveal_strlit("5");
        reveal_strlit("6");
        reveal_strlit("7");
        reveal_strlit("8");
        reveal_strlit("9");
    }
    if d == 0 {
        "0"
    } else if d == 1 {
        "1"
    } else if d == 2 {
        "2"
    } else if d == 3 {
        "3"
    } else if d == 4 {
        "4"
    } else if d == 5 {
        "5"
    } else if d == 6 {
        "6"
    } else if d == 7 {
        "7"
    } else if d == 8 {
        "8"
    } else {
        "9"
    }
}

/// Writes `n` as a decimal numeral.
pub fn decimal(n: u64) -> (s: String)
    ensures
        s@ == decimal_text(n as nat),
    decreases n,
{
    if n < 10 {
        String::from_str(digit_str(n))
    } else {
        let mut s = decimal(n / 10);
        s.append(digit_str(n % 10));
        s
    }
}

/// `c` is one of the ten ASCII digits.
pub open spec fn is_digit(c: char) -> bool {
    '0' <= c <= '9'
}

/// The number that a digit stands for; zero for any other character.
pub open spec fn digit_value(c: char) -> nat {
    if is_digit(c) {
        (c as nat - '0' as nat) as nat
    } else {
        0
    }
}

/// Every character of `s` is an ASCII digit.
pub open spec fn all_digits(s: Seq<char>) -> bool {
    forall|i: int| 0 <= i < s.len() ==> is_digit(#[trigger] s[i])
}

/// The number that a run of digits stands for, read in base ten.
pub open spec fn digits_value(s: Seq<char>) -> nat
    decreases s.len(),
{
    if s.len() == 0 {
        0
    } else {
        digits_value(s.drop_last()) * 10 + digit_value(s.last())
    }
}

/// What is left of a numeral once an optional leading `+` is taken away.
pub open spec fn unsigned_part(s: Seq<char>) -> Seq<char> {
    if s.len() > 0 && s[0] == '+' {
        s.skip(1)
    } else {
        s
    }
}

/// The number that a text stands for: an optional `+`, then one or more
/// ASCII digits and nothing else, naming a number that fits in 32 bits.
pub open spec fn parsed_u32(s: Seq<char>) -> Option<u32> {
    let body = unsigned_part(s);
    if body.len() > 0 && all_digits(body) && digits_value(body) <= u32::MAX {
        Some(digits_value(body) as u32)
    } else {
        None
    }
}

/// A run of digits stands for at least as much as any of its prefixes.
pub proof fn lemma_digits_value_monotonic(s: Seq<char>, k: int)
    requires
        0 <= k <= s.len(),
    ensures
        digits_value(s.subrange(0, k)) <= digits_value(s),
    decreases s.len() - k,
{
    if k == s.len() {
        assert(s.subrange(0, k) =~= s);
    } else {
        lemma_digits_value_monotonic(s.drop_last(), k);
        assert(s.drop_last().subrange(0, k) =~= s.subrange(0, k));
    }
}

/// Reads an unsigned 32-bit number from its decimal numeral.
pub fn parse_u32(s: &str) -> (r: Option<u32>)
    ensures
        r == parsed_u32(s@),
{
    let mut value: u32 = 0;
    let mut signed: bool = false;
    let mut started: bool = false;
    let mut any_digit: bool = false;
    let ghost body = unsigned_part(s@);
    for c in it: s.chars()
        invariant
            it.seq() == s@,
            body == unsigned_part(s@),
            started <==> it.index() > 0,
            signed <==> (started && s@[0] == '+'),
            any_digit <==> it.index() - if signed { 1int } else { 0int } > 0,
            all_digits(body.subrange(0, it.index() - if signed { 1int } else { 0int })),
            value == digits_value(body.subrange(0, it.index() - if signed { 1int } else { 0int })),
    {
        let ghost done = it.index() - if signed { 1int } else { 0int };
        if !started && c == '+' {
            signed = true;
            assert(body.subrange(0, 0) =~= Seq::<char>::empty());
        } else {
            if !('0' <= c && c <= '9') {
                assert(!is_digit(body[done]));
                return None;
            }
            let d: u32 = c as u32 - '0' as u32;
            proof {
                let next = body.subrange(0, done + 1);
                assert(next.drop_last() =~= body.subrange(0, done));
                assert(next.last() == c);
                lemma_digits_value_monotonic(body, done + 1);
            }
            if value > (u32::MAX - d) / 10 {
                assert(value * 10 + d > u32::MAX) by (nonlinear_arith)
                    requires
                        value > (u32::MAX - d) / 10,
                        d < 10,
                ;
                return None;
            }
            assert(value * 10 + d <= u32::MAX) by (nonlinear_arith)
                requires
                    value <= (u32::MAX - d) / 10,
                    d < 10,
            ;
            value = value * 10 + d;
            any_digit = true;
        }
        started = true;
    }
    proof {
        let done = s@.len() - if signed { 1int } else { 0int };
        assert(body.subrange(0, done) =~= body);
    }
    if any_digit {
        Some(value)
    } else {
        None
    }
}

} // verus!
