//! Small operations on text that the rest of the library shares.
use vstd::prelude::*;
use vstd::string::*;

verus! {

/// Whether two texts are the same.
pub fn same_text(a: &str, b: &str) -> (same: bool)
    ensures
        same == (a@ == b@),
{
    let x = String::from_str(a);
    let y = String::from_str(b);
    x == y
}

/// Whether `c` is white space, as `char::is_whitespace` has it: the
/// characters of the Unicode property `White_Space`.
pub open spec fn is_white_space(c: char) -> bool {
    let n = c as u32;
    ||| 0x9 <= n <= 0xd
    ||| n == 0x20
    ||| n == 0x85
    ||| n == 0xa0
    ||| n == 0x1680
    ||| 0x2000 <= n <= 0x200a
    ||| n == 0x2028
    ||| n == 0x2029
    ||| n == 0x202f
    ||| n == 0x205f
    ||| n == 0x3000
}

/// White space is the blank, the ASCII controls from tab to carriage return
/// and a few Unicode spaces: no visible ASCII character is white space, nor
/// is any other ASCII control, while tab, line feed, carriage return and the
/// blank are.
pub proof fn lemma_white_space_in_ascii(c: char)
    ensures
        (c as u32) < 0x80 ==> (is_white_space(c) <==> (0x9 <= (c as u32) <= 0xd || c == ' ')),
        0x21 <= (c as u32) <= 0x7e ==> !is_white_space(c),
        is_white_space(' ') && is_white_space('\t') && is_white_space('\n') && is_white_space('\r'),
        !is_white_space('.') && !is_white_space('0') && !is_white_space('a'),
{
}

/// Whether `c` is white space.
pub fn white_space(c: char) -> (w: bool)
    ensures
        w == is_white_space(c),
{
    let n = c as u32;
    (0x9 <= n && n <= 0xd) || n == 0x20 || n == 0x85 || n == 0xa0 || n == 0x1680 || (0x2000 <= n
        && n <= 0x200a) || n == 0x2028 || n == 0x2029 || n == 0x202f || n == 0x205f || n == 0x3000
}

/// Whether `t` is `s` without its leading and trailing white space.
pub open spec fn is_trim_of(s: Seq<char>, t: Seq<char>) -> bool {
    exists|a: int, b: int| trims_at(s, t, a, b)
}

/// Whether `t` is `s.subrange(a, b)`, with white space only before `a` and
/// from `b` on, and none at the ends of what is kept.
pub open spec fn trims_at(s: Seq<char>, t: Seq<char>, a: int, b: int) -> bool {
    &&& 0 <= a <= b <= s.len()
    &&& t == s.subrange(a, b)
    &&& forall|i: int| 0 <= i < a ==> is_white_space(#[trigger] s[i])
    &&& forall|i: int| b <= i < s.len() ==> is_white_space(#[trigger] s[i])
    &&& a < b ==> !is_white_space(s[a]) && !is_white_space(s[b - 1])
}

/// A text has one trim: the contract of `trim` pins its result down.
pub proof fn lemma_trim_is_unique(s: Seq<char>, t1: Seq<char>, t2: Seq<char>)
    requires
        is_trim_of(s, t1),
        is_trim_of(s, t2),
    ensures
        t1 == t2,
{
    let (a1, b1) = choose|a: int, b: int| trims_at(s, t1, a, b);
    let (a2, b2) = choose|a: int, b: int| trims_at(s, t2, a, b);
    assert(trims_at(s, t1, a1, b1));
    assert(trims_at(s, t2, a2, b2));
    if a1 < b1 && a2 < b2 {
        if a1 < a2 {
            assert(is_white_space(s[a1]));
        }
        if a2 < a1 {
            assert(is_white_space(s[a2]));
        }
        if b1 < b2 {
            assert(is_white_space(s[b2 - 1]));
        }
        if b2 < b1 {
            assert(is_white_space(s[b1 - 1]));
        }
    } else if a1 < b1 {
        if a1 < a2 {
            assert(is_white_space(s[a1]));
        } else {
            assert(is_white_space(s[a1]));
        }
    } else if a2 < b2 {
        if a2 < a1 {
            assert(is_white_space(s[a2]));
        } else {
            assert(is_white_space(s[a2]));
        }
    }
    assert(t1 =~= t2);
}

/// Trimming a trimmed text changes nothing.
pub proof fn lemma_trim_twice(s: Seq<char>, t: Seq<char>)
    requires
        is_trim_of(s, t),
    ensures
        is_trim_of(t, t),
{
    let (a, b) = choose|a: int, b: int| trims_at(s, t, a, b);
    assert(trims_at(s, t, a, b));
    assert(t.subrange(0, t.len() as int) =~= t);
    if 0 < t.len() {
        assert(t[0] == s[a]);
        assert(t[t.len() - 1] == s[b - 1]);
    }
    assert(trims_at(t, t, 0, t.len() as int));
}

/// Trimming keeps a visible ASCII character at either end of a text: only
/// white space is taken away.
pub proof fn lemma_trim_keeps_visible_ends(s: Seq<char>, t: Seq<char>)
    requires
        is_trim_of(s, t),
        s.len() > 0,
    ensures
        0x21 <= (s.last() as u32) <= 0x7e ==> t.len() > 0 && t.last() == s.last(),
        0x21 <= (s[0] as u32) <= 0x7e ==> t.len() > 0 && t[0] == s[0],
{
    let (a, b) = choose|a: int, b: int| trims_at(s, t, a, b);
    assert(trims_at(s, t, a, b));
    lemma_white_space_in_ascii(s.last());
    lemma_white_space_in_ascii(s[0]);
    if 0x21 <= (s.last() as u32) <= 0x7e {
        if b < s.len() {
            assert(is_white_space(s[s.len() - 1]));
        }
        if a == b {
            assert(is_white_space(s[s.len() - 1]));
        }
        assert(t.last() == s[b - 1]);
    }
    if 0x21 <= (s[0] as u32) <= 0x7e {
        if a > 0 {
            assert(is_white_space(s[0]));
        }
        if a == b {
            assert(is_white_space(s[0]));
        }
        assert(t[0] == s[a]);
    }
}

/// `text` without its leading and trailing white space.
pub fn trim(text: &str) -> (t: String)
    ensures
        is_trim_of(text@, t@),
{
    let len = text.unicode_len();
    let mut a: usize = 0;
    while a < len && white_space(text.get_char(a))
        invariant
            len == text@.len(),
            0 <= a <= len,
            forall|i: int| 0 <= i < a ==> is_white_space(#[trigger] text@[i]),
        decreases len - a,
    {
        a = a + 1;
    }
    let mut b: usize = len;
    while b > a && white_space(text.get_char(b - 1))
        invariant
            len == text@.len(),
            0 <= a <= b <= len,
            forall|i: int| b <= i < len ==> is_white_space(#[trigger] text@[i]),
        decreases b,
    {
        b = b - 1;
    }
    let t = String::from_str(text.substring_char(a, b));
    assert(a < b ==> !is_white_space(text@[a as int]));
    assert(trims_at(text@, t@, a as int, b as int));
    t
}

/// Whether `c` is an ASCII decimal digit.
pub open spec fn is_digit(c: char) -> bool {
    '0' <= c <= '9'
}

/// The value of the decimal digit `c`.
pub open spec fn digit_value(c: char) -> nat {
    (c as u32 - 48) as nat
}

/// The value of a string of decimal digits.
pub open spec fn digits_value(s: Seq<char>) -> nat
    decreases s.len(),
{
    if s.len() == 0 {
        0
    } else {
        digits_value(s.drop_last()) * 10 + digit_value(s.last())
    }
}

/// The digits of an unsigned number as `str::parse` reads them: the text
/// without one leading `+`.
pub open spec fn unsigned_digits(s: Seq<char>) -> Seq<char> {
    if s.len() > 0 && s[0] == '+' {
        s.drop_first()
    } else {
        s
    }
}

/// The number an unsigned decimal text stands for: an optional `+` and at
/// least one digit, nothing else.
pub open spec fn unsigned_value(s: Seq<char>) -> Option<nat> {
    let d = unsigned_digits(s);
    if d.len() > 0 && forall|i: int| 0 <= i < d.len() ==> is_digit(#[trigger] d[i]) {
        Some(digits_value(d))
    } else {
        None
    }
}

proof fn lemma_digits_value_grows(s: Seq<char>, k: int)
    requires
        0 <= k <= s.len(),
    ensures
        digits_value(s.take(k)) <= digits_value(s),
    decreases s.len() - k,
{
    if k < s.len() {
        lemma_digits_value_grows(s, k + 1);
        assert(s.take(k + 1).drop_last() =~= s.take(k));
    } else {
        assert(s.take(k) =~= s);
    }
}

/// The `usize` a text stands for, as `str::parse::<usize>` reads it: an
/// optional `+` and at least one decimal digit, nothing else, and a value
/// that fits.
pub fn parse_usize(text: &str) -> (n: Option<usize>)
    ensures
        match n {
            Some(v) => unsigned_value(text@) == Some(v as nat),
            None => unsigned_value(text@) matches Some(v) ==> v > usize::MAX,
        },
{
    let len = text.unicode_len();
    let mut i: usize = 0;
    if len > 0 && text.get_char(0) == '+' {
        i = 1;
    }
    let start = i;
    let ghost d = unsigned_digits(text@);
    assert(d =~= text@.skip(start as int));
    if start == len {
        return None;
    }
    let mut value: usize = 0;
    while i < len
        invariant
            len == text@.len(),
            start <= i <= len,
            start < len,
            d == text@.skip(start as int),
            d == unsigned_digits(text@),
            forall|j: int| 0 <= j < i - start ==> is_digit(#[trigger] d[j]),
            value as nat == digits_value(d.take(i - start)),
        decreases len - i,
    {
        let c = text.get_char(i);
        assert(d[i - start] == c);
        if !('0' <= c && c <= '9') {
            assert(!is_digit(d[i - start]));
            return None;
        }
        let digit = (c as u32 - 48) as usize;
        assert(d.take(i - start + 1).drop_last() =~= d.take(i - start));
        assert(d.take(i - start + 1).last() == c);
        assert(digits_value(d.take(i - start + 1)) == value * 10 + digit);
        match value.checked_mul(10) {
            None => {
                proof {
                    lemma_digits_value_grows(d, i - start + 1);
                }
                return None;
            },
            Some(tens) => match tens.checked_add(digit) {
                None => {
                    proof {
                        lemma_digits_value_grows(d, i - start + 1);
                    }
                    return None;
                },
                Some(next) => {
                    value = next;
                },
            },
        }
        i = i + 1;
    }
    assert(d.take(len - start) =~= d);
    Some(value)
}

} // verus!
