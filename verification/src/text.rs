use vstd::prelude::*;
use vstd::string::{StrSliceExecFns, StringExecFns};
use vstd::utf8::{decode_utf8, valid_utf8};

verus! {

/// Relies on `String::from_utf8`: it succeeds exactly when the bytes are a
/// valid UTF-8 encoding, and the returned string holds the characters those
/// bytes encode.
#[verifier::external_body]
pub(crate) fn string_from_utf8(bytes: Vec<u8>) -> (r: Option<String>)
    ensures
        match r {
            Some(s) => valid_utf8(bytes@) && s@ == decode_utf8(bytes@),
            None => !valid_utf8(bytes@),
        },
{
    String::from_utf8(bytes).ok()
}

/// The decimal digit character for `d`, for `0 <= d <= 9`.
pub open spec fn spec_digit_char(d: int) -> char {
    if d == 0 {
        '0'
    } else if d == 1 {
        '1'
    } else if d == 2 {
        '2'
    } else if d == 3 {
        '3'
    } else if d == 4 {
        '4'
    } else if d == 5 {
        '5'
    } else if d == 6 {
        '6'
    } else if d == 7 {
        '7'
    } else if d == 8 {
        '8'
    } else {
        '9'
    }
}

/// The decimal rendering of a non-negative integer, most significant digit
/// first, with no sign and no leading zeroes (a single `'0'` for zero).
pub open spec fn spec_dec_digits(n: int) -> Seq<char>
    recommends
        n >= 0,
    decreases n,
{
    if n < 10 {
        seq![spec_digit_char(n)]
    } else {
        spec_dec_digits(n / 10) + seq![spec_digit_char(n % 10)]
    }
}

fn digit_str(d: u64) -> (r: &'static str)
    requires
        d < 10,
    ensures
        r@ == seq![spec_digit_char(d as int)],
{
    proof {
        reveal_strlit("0");
        reveal_strlit("1");
        reveal_strlit("2");
        reveal_strlit("3");
        reveal_strlit("4");
        reveal_strlit("5");
        reveal_strlit("6");
        reveal_strlit("7");
        reveal_strlit("8");
        reveal_strlit("9");
    }
    let r = if d == 0 {
        "0"
    } else if d == 1 {
        "1"
    } else if d == 2 {
        "2"
    } else if d == 3 {
        "3"
    } else if d == 4 {
        "4"
    } else if d == 5 {
        "5"
    } else if d == 6 {
        "6"
    } else if d == 7 {
        "7"
    } else if d == 8 {
        "8"
    } else {
        "9"
    };
    proof {
        assert(r@ =~= seq![spec_digit_char(d as int)]);
    }
    r
}

/// Renders `n` in decimal.
pub fn u64_to_dec_string(n: u64) -> (r: String)
    ensures
        r@ == spec_dec_digits(n as int),
    decreases n,
{
    if n < 10 {
        digit_str(n).to_owned()
    } else {
        let mut s = u64_to_dec_string(n / 10);
        s.append(digit_str(n % 10));
        s
    }
}

/// True when `needle` occurs in `hay` starting at character index `i`.
pub open spec fn matches_at(hay: Seq<char>, needle: Seq<char>, i: int) -> bool {
    &&& 0 <= i
    &&& i + needle.len() <= hay.len()
    &&& hay.subrange(i, i + needle.len()) == needle
}

/// True when `needle` occurs somewhere in `hay`.
pub open spec fn contains_seq(hay: Seq<char>, needle: Seq<char>) -> bool {
    exists|i: int| matches_at(hay, needle, i)
}

fn match_at_idx(hay: &str, needle: &str, i: usize) -> (r: bool)
    requires
        i + needle@.len() <= hay@.len(),
    ensures
        r == matches_at(hay@, needle@, i as int),
{
    let hl = hay.unicode_len();
    let nl = needle.unicode_len();
    let mut j: usize = 0;
    while j < nl
        invariant
            j <= nl,
            hl == hay@.len(),
            nl == needle@.len(),
            i + nl <= hl,
            forall|k: int| 0 <= k < j ==> hay@[i + k] == needle@[k],
        decreases nl - j,
    {
        if hay.get_char(i + j) != needle.get_char(j) {
            proof {
                assert(hay@.subrange(i as int, i + needle@.len())[j as int] == hay@[i + j]);
            }
            return false;
        }
        j = j + 1;
    }
    proof {
        assert(hay@.subrange(i as int, i + needle@.len()) =~= needle@);
    }
    true
}

/// The first index at or after `from` where `needle` occurs in `hay`, if
/// any.
pub open spec fn find_idx(hay: Seq<char>, needle: Seq<char>, from: int) -> Option<int>
    decreases hay.len() - from + 1,
{
    if from < 0 || from + needle.len() > hay.len() {
        None
    } else if hay.subrange(from, from + needle.len()) == needle {
        Some(from)
    } else {
        find_idx(hay, needle, from + 1)
    }
}

/// A search from `from` succeeds exactly when a match exists at or after
/// `from`, and what it finds is the first such match.
pub proof fn lemma_find_idx(hay: Seq<char>, needle: Seq<char>, from: int)
    requires
        from >= 0,
    ensures
        match find_idx(hay, needle, from) {
            Some(i) => matches_at(hay, needle, i) && from <= i && forall|j: int|
                from <= j < i ==> !matches_at(hay, needle, j),
            None => forall|j: int| j >= from ==> !matches_at(hay, needle, j),
        },
    decreases hay.len() - from + 1,
{
    if from + needle.len() > hay.len() {
        assert forall|j: int| j >= from implies !matches_at(hay, needle, j) by {}
    } else if hay.subrange(from, from + needle.len()) == needle {
    } else {
        lemma_find_idx(hay, needle, from + 1);
    }
}

/// Finds the first occurrence of `needle` in `hay`, by character index.
pub fn find_sub(hay: &str, needle: &str) -> (r: Option<usize>)
    ensures
        match find_idx(hay@, needle@, 0) {
            Some(i) => r is Some && r->0 == i,
            None => r is None,
        },
{
    let hl = hay.unicode_len();
    let nl = needle.unicode_len();
    if nl > hl {
        return None;
    }
    if nl == 0 {
        proof {
            assert(hay@.subrange(0, 0) =~= needle@);
        }
        return Some(0);
    }
    let bound = hl - nl;
    let mut i: usize = 0;
    while i <= bound
        invariant
            1 <= nl <= hl,
            bound == hl - nl,
            hl == hay@.len(),
            nl == needle@.len(),
            i <= bound + 1,
            find_idx(hay@, needle@, 0) == find_idx(hay@, needle@, i as int),
        decreases bound + 1 - i,
    {
        if match_at_idx(hay, needle, i) {
            return Some(i);
        }
        i = i + 1;
    }
    None
}

/// True when `hay` contains `needle` as a contiguous run of characters.
pub fn str_contains(hay: &str, needle: &str) -> (r: bool)
    ensures
        r == contains_seq(hay@, needle@),
{
    proof {
        lemma_find_idx(hay@, needle@, 0);
    }
    match find_sub(hay, needle) {
        Some(_) => true,
        None => false,
    }
}

/// The first index at or after `from` holding character `c` in `hay`, if
/// any.
pub open spec fn find_char_idx(hay: Seq<char>, c: char, from: int) -> Option<int>
    decreases hay.len() - from,
{
    if from < 0 || from >= hay.len() {
        None
    } else if hay[from] == c {
        Some(from)
    } else {
        find_char_idx(hay, c, from + 1)
    }
}

/// Finds the first occurrence of character `c` in `hay` at or after index
/// `start`.
pub fn find_char_from(hay: &str, c: char, start: usize) -> (r: Option<usize>)
    requires
        start <= hay@.len(),
    ensures
        match find_char_idx(hay@, c, start as int) {
            Some(i) => r is Some && r->0 == i,
            None => r is None,
        },
{
    let hl = hay.unicode_len();
    let mut i: usize = start;
    while i < hl
        invariant
            start <= i <= hl,
            hl == hay@.len(),
            find_char_idx(hay@, c, start as int) == find_char_idx(hay@, c, i as int),
        decreases hl - i,
    {
        if hay.get_char(i) == c {
            return Some(i);
        }
        i = i + 1;
    }
    None
}

/// True when two runs of characters are the same, character for character.
pub fn str_eq_chars(a: &str, b: &str) -> (r: bool)
    ensures
        r == (a@ == b@),
{
    let al = a.unicode_len();
    let bl = b.unicode_len();
    if al != bl {
        return false;
    }
    let mut i: usize = 0;
    while i < al
        invariant
            i <= al,
            al == a@.len(),
            al == b@.len(),
            forall|j: int| 0 <= j < i ==> a@[j] == b@[j],
        decreases al - i,
    {
        if a.get_char(i) != b.get_char(i) {
            return false;
        }
        i = i + 1;
    }
    proof {
        assert(a@ =~= b@);
    }
    true
}

/// True when `c` is one of the characters `'0'` through `'9'`.
pub open spec fn is_dec_digit(c: char) -> bool {
    48 <= c as u32 <= 57
}

/// The numeric value of a decimal digit character.
pub open spec fn digit_val(c: char) -> int
    recommends
        is_dec_digit(c),
{
    c as u32 - 48
}

/// True when every character of `s` is a decimal digit.
pub open spec fn all_dec_digits(s: Seq<char>) -> bool {
    forall|i: int| 0 <= i < s.len() ==> is_dec_digit(#[trigger] s[i])
}

/// The integer value of a run of decimal digit characters, read most
/// significant digit first.
pub open spec fn dec_value(s: Seq<char>) -> int
    recommends
        all_dec_digits(s),
    decreases s.len(),
{
    if s.len() == 0 {
        0
    } else {
        dec_value(s.drop_last()) * 10 + digit_val(s.last())
    }
}

/// The digits of a decimal number: the characters after an optional leading
/// `'+'` sign.
pub open spec fn parse_body(s: Seq<char>) -> Seq<char> {
    if s.len() >= 1 && s[0] == '+' {
        s.drop_first()
    } else {
        s
    }
}

/// What parsing a run of characters as an unsigned 32-bit decimal number
/// yields: an optional leading `'+'`, then at least one digit, with the value
/// within range; anything else is rejected.
pub open spec fn spec_parse_u32(s: Seq<char>) -> Option<u32> {
    let body = parse_body(s);
    if body.len() >= 1 && all_dec_digits(body) && dec_value(body) <= u32::MAX {
        Some(dec_value(body) as u32)
    } else {
        None
    }
}

proof fn lemma_dec_value_nonneg(s: Seq<char>)
    requires
        all_dec_digits(s),
    ensures
        dec_value(s) >= 0,
    decreases s.len(),
{
    if s.len() > 0 {
        assert(all_dec_digits(s.drop_last()));
        lemma_dec_value_nonneg(s.drop_last());
    }
}

proof fn lemma_dec_value_prefix(s: Seq<char>, i: int)
    requires
        all_dec_digits(s),
        0 <= i <= s.len(),
    ensures
        dec_value(s.take(i)) <= dec_value(s),
    decreases s.len() - i,
{
    if i < s.len() {
        let t = s.take(i + 1);
        assert(t.drop_last() =~= s.take(i));
        assert(all_dec_digits(s.take(i)));
        lemma_dec_value_nonneg(s.take(i));
        assert(dec_value(t) == dec_value(s.take(i)) * 10 + digit_val(s[i]));
        lemma_dec_value_prefix(s, i + 1);
    } else {
        assert(s.take(i) =~= s);
    }
}

/// Parses the characters of `hay` at indices `from..to` as an unsigned
/// 32-bit decimal number.
pub fn parse_u32_in(hay: &str, from: usize, to: usize) -> (r: Option<u32>)
    requires
        from <= to <= hay@.len(),
    ensures
        r == spec_parse_u32(hay@.subrange(from as int, to as int)),
{
    let ghost s = hay@.subrange(from as int, to as int);
    let mut i: usize = from;
    if i < to && hay.get_char(i) == '+' {
        i = i + 1;
    }
    let ghost body = s.subrange(i - from, s.len() as int);
    proof {
        if s.len() >= 1 && s[0] == '+' {
            assert(body =~= s.drop_first());
        } else {
            assert(body =~= s);
        }
    }
    if i == to {
        return None;
    }
    let ghost start = i as int;
    let mut acc: u32 = 0;
    while i < to
        invariant
            start <= i <= to,
            to <= hay@.len(),
            from <= start,
            s == hay@.subrange(from as int, to as int),
            body == s.subrange(start - from, s.len() as int),
            body == parse_body(s),
            body.len() == to - start,
            forall|k: int| 0 <= k < i - start ==> is_dec_digit(#[trigger] body[k]),
            acc == dec_value(body.take(i - start)),
        decreases to - i,
    {
        let c = hay.get_char(i);
        let cu = c as u32;
        proof {
            assert(body[i - start] == hay@[i as int]);
        }
        if cu < 48 || cu > 57 {
            proof {
                assert(!is_dec_digit(body[i - start]));
            }
            return None;
        }
        let d = cu - 48;
        let ghost taken = body.take(i - start + 1);
        proof {
            assert(taken.drop_last() =~= body.take(i - start));
            assert(all_dec_digits(body.take(i - start)));
            assert(dec_value(taken) == acc * 10 + d);
        }
        let next = match acc.checked_mul(10) {
            Some(x) => x.checked_add(d),
            None => None,
        };
        match next {
            Some(x) => {
                acc = x;
            },
            None => {
                proof {
                    if all_dec_digits(body) {
                        assert(taken =~= body.take(i - start + 1));
                        lemma_dec_value_prefix(body, i - start + 1);
                        assert(dec_value(body) > u32::MAX);
                    }
                }
                return None;
            },
        }
        i = i + 1;
    }
    proof {
        assert(body.take(to - start) =~= body);
        assert(all_dec_digits(body));
    }
    Some(acc)
}

} // verus!
