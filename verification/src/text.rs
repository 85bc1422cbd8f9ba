//! Texts as sequences of characters: the one delimiter of a text, and unsigned
//! decimal numbers.

use vstd::prelude::*;

verus! {

/// `d` stands in `s` at `p` and nowhere else.
pub open spec fn splits_at(s: Seq<char>, d: char, p: int) -> bool {
    &&& 0 <= p < s.len()
    &&& s[p] == d
    &&& forall|j: int| 0 <= j < s.len() && j != p ==> s[j] != d
}

/// `d` occurs in `s` exactly once.
pub open spec fn delimited_once(s: Seq<char>, d: char) -> bool {
    exists|p: int| splits_at(s, d, p)
}

/// Where the one `d` of `s` stands, if `delimited_once(s, d)`.
pub open spec fn split_point(s: Seq<char>, d: char) -> int {
    choose|p: int| splits_at(s, d, p)
}

/// What stands before the one `d` of `s`.
pub open spec fn head(s: Seq<char>, d: char) -> Seq<char> {
    s.take(split_point(s, d))
}

/// What stands behind the one `d` of `s`.
pub open spec fn tail(s: Seq<char>, d: char) -> Seq<char> {
    s.skip(split_point(s, d) + 1)
}

/// How often a delimiter occurs in a text: never, once (and where), or more often.
#[derive(Clone, Copy, Debug, PartialEq, Eq, Structural)]
pub enum Delimited {
    Never,
    Once(usize),
    Repeatedly,
}

/// The one place of `d` in `s` is `p`.
pub proof fn lemma_split_point(s: Seq<char>, d: char, p: int)
    requires
        splits_at(s, d, p),
    ensures
        delimited_once(s, d),
        split_point(s, d) == p,
{
    let q = split_point(s, d);
    assert(splits_at(s, d, q));
    if q != p {
        assert(s[p] != d);
    }
}

/// Counts the occurrences of `d` in `s` up to two, and finds the first.
pub fn find_delimiter(s: &Vec<char>, d: char) -> (r: Delimited)
    ensures
        match r {
            Delimited::Never => !s@.contains(d),
            Delimited::Once(p) => splits_at(s@, d, p as int),
            Delimited::Repeatedly => s@.contains(d) && !delimited_once(s@, d),
        },
{
    let mut found: Option<usize> = None;
    let mut i: usize = 0;
    while i < s.len()
        invariant
            i <= s.len(),
            match found {
                None => forall|j: int| 0 <= j < i ==> s@[j] != d,
                Some(p) => p < i && s@[p as int] == d && forall|j: int|
                    0 <= j < i && j != p ==> s@[j] != d,
            },
        decreases s.len() - i,
    {
        if s[i] == d {
            match found {
                None => {
                    found = Some(i);
                },
                Some(p) => {
                    proof {
                        let first = p as int;
                        let second = i as int;
                        assert forall|q: int| !splits_at(s@, d, q) by {
                            if splits_at(s@, d, q) {
                                if q != first {
                                    assert(s@[first] != d);
                                } else {
                                    assert(s@[second] != d);
                                }
                            }
                        }
                    }
                    return Delimited::Repeatedly;
                },
            }
        }
        i += 1;
    }
    match found {
        None => Delimited::Never,
        Some(p) => Delimited::Once(p),
    }
}

/// The characters of `s` from `from` up to `to`.
pub fn slice_of(s: &Vec<char>, from: usize, to: usize) -> (v: Vec<char>)
    requires
        from <= to <= s.len(),
    ensures
        v@ == s@.subrange(from as int, to as int),
{
    let mut v: Vec<char> = Vec::new();
    let mut i: usize = from;
    while i < to
        invariant
            from <= i <= to <= s.len(),
            v@ == s@.subrange(from as int, i as int),
        decreases to - i,
    {
        v.push(s[i]);
        i += 1;
    }
    v
}

/// The characters of a text, one by one.
pub fn chars_of(s: &str) -> (v: Vec<char>)
    ensures
        v@ == s@,
{
    let mut v: Vec<char> = Vec::new();
    for c in it: s.chars()
        invariant
            v@ == it.seq().take(it.index() as int),
            it.seq() == s@,
    {
        v.push(c);
    }
    v
}

/// Whether two texts hold the same characters.
pub fn same_text(a: &str, b: &str) -> (r: bool)
    ensures
        r == (a@ == b@),
{
    let x = chars_of(a);
    let y = chars_of(b);
    if x.len() != y.len() {
        return false;
    }
    let mut i: usize = 0;
    while i < x.len()
        invariant
            i <= x.len(),
            x.len() == y.len(),
            x@ == a@,
            y@ == b@,
            forall|j: int| 0 <= j < i ==> x@[j] == y@[j],
        decreases x.len() - i,
    {
        if x[i] != y[i] {
            return false;
        }
        i += 1;
    }
    assert(x@ =~= y@);
    true
}

/// A decimal digit.
pub open spec fn is_digit(c: char) -> bool {
    '0' <= c <= '9'
}

/// The number a decimal digit stands for.
pub open spec fn digit_value(c: char) -> nat {
    if is_digit(c) {
        (c as u32 - '0' as u32) as nat
    } else {
        0
    }
}

/// The number that a run of decimal digits stands for, most significant first.
pub open spec fn digits_value(s: Seq<char>) -> nat
    decreases s.len(),
{
    if s.len() == 0 {
        0
    } else {
        10 * digits_value(s.drop_last()) + digit_value(s.last())
    }
}

/// Whether `s` holds decimal digits only.
pub open spec fn all_digits(s: Seq<char>) -> bool {
    forall|i: int| 0 <= i < s.len() ==> is_digit(#[trigger] s[i])
}

/// `s` without the `+` that it may begin with.
pub open spec fn unsigned_part(s: Seq<char>) -> Seq<char> {
    if s.len() > 0 && s[0] == '+' {
        s.skip(1)
    } else {
        s
    }
}

/// The number written in `s`: an optional `+`, then one decimal digit or more and
/// nothing else. Any other text writes no number.
pub open spec fn decimal(s: Seq<char>) -> Option<nat> {
    let digits = unsigned_part(s);
    if digits.len() > 0 && all_digits(digits) {
        Some(digits_value(digits))
    } else {
        None
    }
}

/// The number written in `s`, if it is `max` at most.
pub open spec fn bounded_decimal(s: Seq<char>, max: nat) -> Option<nat> {
    match decimal(s) {
        Some(n) => if n <= max {
            Some(n)
        } else {
            None
        },
        None => None,
    }
}

/// A run of digits stands for no less than any of its beginnings.
pub proof fn lemma_digits_value_grows(s: Seq<char>, n: int)
    requires
        0 <= n <= s.len(),
    ensures
        digits_value(s.take(n)) <= digits_value(s),
    decreases s.len(),
{
    if n == s.len() {
        assert(s.take(n) =~= s);
    } else {
        lemma_digits_value_grows(s.drop_last(), n);
        assert(s.drop_last().take(n) =~= s.take(n));
    }
}

/// Reads an unsigned decimal number of at most `max`.
pub fn parse_unsigned(s: &Vec<char>, max: u32) -> (r: Option<u32>)
    ensures
        match r {
            Some(n) => bounded_decimal(s@, max as nat) == Some(n as nat),
            None => bounded_decimal(s@, max as nat).is_none(),
        },
{
    let start: usize = if s.len() > 0 && s[0] == '+' {
        1
    } else {
        0
    };
    if start == s.len() {
        return None;
    }
    let ghost digits = s@.skip(start as int);
    let mut value: u64 = 0;
    let mut i: usize = start;
    while i < s.len()
        invariant
            start <= i <= s.len(),
            digits == s@.skip(start as int),
            digits == unsigned_part(s@),
            all_digits(digits.take(i - start)),
            value == digits_value(digits.take(i - start)),
            value <= max,
        decreases s.len() - i,
    {
        let c = s[i];
        assert(c == digits[i - start]);
        if !('0' <= c && c <= '9') {
            assert(!is_digit(digits[i - start]));
            return None;
        }
        let digit: u64 = (c as u32 - '0' as u32) as u64;
        let next: u64 = value * 10 + digit;
        proof {
            let upto = digits.take(i - start + 1);
            assert(upto.drop_last() =~= digits.take(i - start));
            assert(upto.last() == c);
            assert(next == digits_value(upto));
            if next > max {
                lemma_digits_value_grows(digits, i - start + 1);
            }
        }
        if next > max as u64 {
            return None;
        }
        value = next;
        i += 1;
    }
    assert(digits.take(i - start) =~= digits);
    Some(value as u32)
}

} // verus!
