//! Text as sequences of characters: the few operations on `str` and `String`
//! that the rest of the library is built from.

use vstd::prelude::*;

verus! {

/// `String::push` appends one character to the end of the string and leaves
/// what was there as it is.
pub assume_specification[ String::push ](s: &mut String, ch: char)
    ensures
        final(s)@ == old(s)@.push(ch),
;

/// The characters of `s`, in order.
pub fn chars_of(s: &str) -> (out: Vec<char>)
    ensures
        out@ == s@,
{
    let mut out: Vec<char> = Vec::new();
    let chars = s.chars();
    for c in it: chars
        invariant
            it.seq() == s@,
            out@ == it.seq().take(it.index() as int),
    {
        out.push(c);
    }
    out
}

/// The string made of `chars[from..to]`.
pub fn string_of(chars: &Vec<char>, from: usize, to: usize) -> (out: String)
    requires
        from <= to <= chars@.len(),
    ensures
        out@ == chars@.subrange(from as int, to as int),
{
    let mut out = String::new();
    let mut i: usize = from;
    while i < to
        invariant
            from <= i <= to <= chars@.len(),
            out@ == chars@.subrange(from as int, i as int),
        decreases to - i,
    {
        out.push(chars[i]);
        i += 1;
    }
    out
}

/// Whether the characters of `word` stand in `chars` from position `at` on.
pub open spec fn stands_at(chars: Seq<char>, at: int, word: Seq<char>) -> bool {
    &&& 0 <= at
    &&& at + word.len() <= chars.len()
    &&& chars.subrange(at, at + word.len()) == word
}

/// Tells whether `word` stands in `chars` from position `at` on.
pub fn word_at(chars: &Vec<char>, at: usize, word: &Vec<char>) -> (found: bool)
    ensures
        found == stands_at(chars@, at as int, word@),
{
    if at > chars.len() || word.len() > chars.len() - at {
        return false;
    }
    let mut i: usize = 0;
    while i < word.len()
        invariant
            at + word.len() <= chars.len(),
            i <= word.len(),
            chars@.subrange(at as int, at + i) == word@.take(i as int),
        decreases word.len() - i,
    {
        if chars[at + i] != word[i] {
            assert(chars@.subrange(at as int, at + word@.len())[i as int] != word@[i as int]);
            return false;
        }
        assert(chars@.subrange(at as int, at + i + 1) =~= chars@.subrange(at as int, at + i).push(
            chars@[at + i],
        ));
        assert(word@.take(i + 1) =~= word@.take(i as int).push(word@[i as int]));
        i += 1;
    }
    assert(word@.take(word@.len() as int) =~= word@);
    true
}

/// A copy of each string of `items`, in order.
pub fn copy_all(items: &Vec<String>) -> (out: Vec<String>)
    ensures
        out.deep_view() == items.deep_view(),
{
    let mut out: Vec<String> = Vec::new();
    let mut i: usize = 0;
    while i < items.len()
        invariant
            i <= items@.len(),
            out@.len() == i,
            forall|k: int| 0 <= k < i ==> out@[k]@ == items@[k]@,
        decreases items@.len() - i,
    {
        out.push(items[i].clone());
        i += 1;
    }
    assert(out.deep_view() =~= items.deep_view());
    out
}

/// A copy of an optional string.
pub fn copy_opt(item: &Option<String>) -> (out: Option<String>)
    ensures
        out.deep_view() == item.deep_view(),
{
    match item {
        Some(s) => Some(s.clone()),
        None => None,
    }
}

/// `a` followed by `b`.
pub fn join2(a: &str, b: &str) -> (out: String)
    ensures
        out@ == a@ + b@,
{
    let mut out = a.to_owned();
    out.append(b);
    out
}

/// `a`, then `b`, then `c`.
pub fn join3(a: &str, b: &str, c: &str) -> (out: String)
    ensures
        out@ == a@ + b@ + c@,
{
    let mut out = a.to_owned();
    out.append(b);
    out.append(c);
    out
}

/// The character that shows a single decimal digit.
pub open spec fn digit_char(d: nat) -> char
    recommends
        d < 10,
{
    ((48 + d) as u8) as char
}

/// The decimal digits of a natural number, most significant first.
pub open spec fn digits(n: nat) -> Seq<char>
    decreases n,
{
    if n < 10 {
        seq![digit_char(n)]
    } else {
        digits(n / 10).push(digit_char(n % 10))
    }
}

/// The decimal writing of an integer, with a minus sign before a negative one.
pub open spec fn decimal(n: int) -> Seq<char> {
    if n < 0 {
        seq!['-'] + digits((-n) as nat)
    } else {
        digits(n as nat)
    }
}

/// Writes a natural number in decimal.
pub fn decimal_u64(n: u64) -> (out: String)
    ensures
        out@ == digits(n as nat),
{
    // The digits but the first, least significant first.
    let mut low_first: Vec<char> = Vec::new();
    let mut rest: u64 = n;
    while rest >= 10
        invariant
            digits(n as nat) == digits(rest as nat) + low_first@.reverse(),
        decreases rest,
    {
        let d: u8 = (rest % 10) as u8;
        let ghost before = low_first@;
        low_first.push((48 + d) as char);
        proof {
            assert(low_first@.reverse() =~= seq![digit_char((rest % 10) as nat)]
                + before.reverse());
            assert(digits(rest as nat) == digits((rest / 10) as nat).push(
                digit_char((rest % 10) as nat),
            ));
            assert(digits(rest as nat) + before.reverse() =~= digits((rest / 10) as nat)
                + low_first@.reverse());
        }
        rest = rest / 10;
    }
    let top: u8 = rest as u8;
    let mut out = String::new();
    out.push((48 + top) as char);
    let mut i: usize = low_first.len();
    while i > 0
        invariant
            i <= low_first.len(),
            out@ == seq![digit_char(rest as nat)] + low_first@.reverse().take(
                low_first.len() - i,
            ),
        decreases i,
    {
        i -= 1;
        out.push(low_first[i]);
        proof {
            let r = low_first@.reverse();
            let k = low_first.len() - i - 1;
            assert(r[k] == low_first@[i as int]);
            assert(r.take(k + 1) =~= r.take(k).push(r[k]));
        }
    }
    proof {
        let r = low_first@.reverse();
        assert(r.take(low_first.len() as int) =~= r);
        assert(digits(rest as nat) =~= seq![digit_char(rest as nat)]);
    }
    out
}

/// Writes an integer in decimal, with a minus sign before a negative one.
pub fn decimal_string(n: i32) -> (out: String)
    ensures
        out@ == decimal(n as int),
{
    if n < 0 {
        let wide: i64 = n as i64;
        let magnitude = decimal_u64((-wide) as u64);
        let out = join2("-", magnitude.as_str());
        proof {
            reveal_strlit("-");
            assert("-"@ =~= seq!['-']);
        }
        out
    } else {
        decimal_u64(n as u64)
    }
}

} // verus!
