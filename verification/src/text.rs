//! Text as a sequence of characters: trimming, ASCII letter case, decimal
//! numerals and the order of names.
use vstd::prelude::*;
use vstd::string::*;

verus! {

/// The characters that Unicode gives the `White_Space` property.
pub open spec fn is_white_space(c: char) -> bool {
    let point = c as u32;
    ||| 0x9 <= point <= 0xd
    ||| point == 0x20
    ||| point == 0x85
    ||| point == 0xa0
    ||| point == 0x1680
    ||| 0x2000 <= point <= 0x200a
    ||| 0x2028 <= point <= 0x2029
    ||| point == 0x202f
    ||| point == 0x205f
    ||| point == 0x3000
}

/// `s` without the white space at its start.
pub open spec fn trim_start(s: Seq<char>) -> Seq<char>
    decreases s.len(),
{
    if s.len() > 0 && is_white_space(s.first()) {
        trim_start(s.drop_first())
    } else {
        s
    }
}

/// `s` without the white space at its end.
pub open spec fn trim_end(s: Seq<char>) -> Seq<char>
    decreases s.len(),
{
    if s.len() > 0 && is_white_space(s.last()) {
        trim_end(s.drop_last())
    } else {
        s
    }
}

/// `s` without the white space at either end.
pub open spec fn trimmed(s: Seq<char>) -> Seq<char> {
    trim_end(trim_start(s))
}

/// `s` without the slashes at its end.
pub open spec fn without_end_slashes(s: Seq<char>) -> Seq<char>
    decreases s.len(),
{
    if s.len() > 0 && s.last() == '/' {
        without_end_slashes(s.drop_last())
    } else {
        s
    }
}

/// `c`, with `A` to `Z` as `a` to `z`.
pub open spec fn lower_char(c: char) -> char {
    if 'A' <= c <= 'Z' {
        (c as u32 + 32) as char
    } else {
        c
    }
}

/// `s` with its ASCII letters in lower case.
pub open spec fn lower(s: Seq<char>) -> Seq<char> {
    s.map_values(|c: char| lower_char(c))
}

/// The numeral of one decimal digit.
pub open spec fn digit(d: nat) -> char {
    ('0' as u32 + d) as char
}

/// `n` in decimal, without leading zeros.
pub open spec fn decimal(n: nat) -> Seq<char>
    decreases n,
{
    if n < 10 {
        seq![digit(n)]
    } else {
        decimal(n / 10).push(digit(n % 10))
    }
}

/// The order of names: by the first character in which they differ, a proper
/// prefix before what it begins.
pub open spec fn precedes(a: Seq<char>, b: Seq<char>) -> bool
    decreases a.len(),
{
    if b.len() == 0 {
        false
    } else if a.len() == 0 {
        true
    } else if a.first() == b.first() {
        precedes(a.drop_first(), b.drop_first())
    } else {
        a.first() < b.first()
    }
}

/// The view of an optional text.
pub open spec fn opt_text(s: Option<String>) -> Option<Seq<char>> {
    match s {
        Some(s) => Some(s@),
        None => None,
    }
}

/// The view of a text or the text of a failure.
pub open spec fn text_result(result: Result<String, String>) -> Result<Seq<char>, Seq<char>> {
    match result {
        Ok(text) => Ok(text@),
        Err(message) => Err(message@),
    }
}

fn white_space(c: char) -> (white: bool)
    ensures
        white == is_white_space(c),
{
    let point: u32 = c as u32;
    (0x9 <= point && point <= 0xd) || point == 0x20 || point == 0x85 || point == 0xa0 || point
        == 0x1680 || (0x2000 <= point && point <= 0x200a) || (0x2028 <= point && point <= 0x2029)
        || point == 0x202f || point == 0x205f || point == 0x3000
}

/// `s` without the white space at either end.
pub fn trim(s: &str) -> (inner: &str)
    ensures
        inner@ == trimmed(s@),
{
    let len: usize = s.unicode_len();
    let mut start: usize = 0;
    proof {
        assert(s@.skip(0) =~= s@);
    }
    while start < len && white_space(s.get_char(start))
        invariant
            start <= len,
            len == s@.len(),
            trim_start(s@) == trim_start(s@.skip(start as int)),
        decreases len - start,
    {
        proof {
            assert(s@.skip(start as int).drop_first() =~= s@.skip(start + 1));
        }
        start += 1;
    }
    let mut end: usize = len;
    let ghost rest = s@.skip(start as int);
    proof {
        assert(trim_start(s@) == rest);
        assert(rest =~= s@.subrange(start as int, end as int));
    }
    while start < end && white_space(s.get_char(end - 1))
        invariant
            start <= end <= len,
            len == s@.len(),
            trim_end(rest) == trim_end(s@.subrange(start as int, end as int)),
        decreases end,
    {
        proof {
            assert(s@.subrange(start as int, end as int).drop_last() =~= s@.subrange(
                start as int,
                end - 1,
            ));
        }
        end -= 1;
    }
    s.substring_char(start, end)
}

/// `s` without the slashes at its end.
pub fn trim_end_slashes(s: &str) -> (head: &str)
    ensures
        head@ == without_end_slashes(s@),
{
    let len: usize = s.unicode_len();
    let mut end: usize = len;
    proof {
        assert(s@.take(end as int) =~= s@);
    }
    while 0 < end && s.get_char(end - 1) == '/'
        invariant
            end <= len,
            len == s@.len(),
            without_end_slashes(s@) == without_end_slashes(s@.take(end as int)),
        decreases end,
    {
        proof {
            assert(s@.take(end as int).drop_last() =~= s@.take(end - 1));
        }
        end -= 1;
    }
    proof {
        assert(s@.take(end as int) =~= s@.subrange(0, end as int));
    }
    s.substring_char(0, end)
}

/// Calls `str::to_ascii_lowercase`, which maps the ASCII letters `A` to `Z` to
/// `a` to `z` and leaves every other character as it is.
#[verifier::external_body]
pub(crate) fn ascii_lowercase(s: &str) -> (lowered: String)
    ensures
        lowered@ == lower(s@),
{
    s.to_ascii_lowercase()
}

/// Whether two texts hold the same characters.
pub fn same_text(a: &str, b: &str) -> (same: bool)
    ensures
        same == (a@ == b@),
{
    a.to_owned() == b.to_owned()
}

/// Whether two texts are the same but for the case of ASCII letters.
pub fn same_ignoring_ascii_case(a: &str, b: &str) -> (same: bool)
    ensures
        same == (lower(a@) == lower(b@)),
{
    ascii_lowercase(a) == ascii_lowercase(b)
}

/// Whether `a` stands before `b` in the order of names.
pub fn text_precedes(a: &str, b: &str) -> (before: bool)
    ensures
        before == precedes(a@, b@),
{
    let a_len: usize = a.unicode_len();
    let b_len: usize = b.unicode_len();
    let mut i: usize = 0;
    proof {
        assert(a@.skip(0) =~= a@);
        assert(b@.skip(0) =~= b@);
    }
    while i < a_len && i < b_len
        invariant
            i <= a_len,
            i <= b_len,
            a_len == a@.len(),
            b_len == b@.len(),
            precedes(a@, b@) == precedes(a@.skip(i as int), b@.skip(i as int)),
        decreases a_len - i,
    {
        let x: char = a.get_char(i);
        let y: char = b.get_char(i);
        if x != y {
            return x < y;
        }
        proof {
            assert(a@.skip(i as int).drop_first() =~= a@.skip(i + 1));
            assert(b@.skip(i as int).drop_first() =~= b@.skip(i + 1));
        }
        i += 1;
    }
    i < b_len
}

fn digit_text(d: u64) -> (numeral: &'static str)
    requires
        d < 10,
    ensures
        numeral@ == seq![digit(d as nat)],
{
    proof {
        reveal_strlit("0");
        reveal_strlit("1");
        reveal_strlit("2");
        reveal_strlit("3");
        reveal_strlit("4");
        reveal_strlit("5");
        reveal_strlit("6");
        reveal_strlit("7");
        reveal_strlit("8");
        reveal_strlit("9");
    }
    if d == 0 {
        "0"
    } else if d == 1 {
        "1"
    } else if d == 2 {
        "2"
    } else if d == 3 {
        "3"
    } else if d == 4 {
        "4"
    } else if d == 5 {
        "5"
    } else if d == 6 {
        "6"
    } else if d == 7 {
        "7"
    } else if d == 8 {
        "8"
    } else {
        "9"
    }
}

/// `n` in decimal, without leading zeros.
pub fn decimal_text(n: u64) -> (numeral: String)
    ensures
        numeral@ == decimal(n as nat),
    decreases n,
{
    if n < 10 {
        digit_text(n).to_owned()
    } else {
        let mut numeral: String = decimal_text(n / 10);
        numeral.append(digit_text(n % 10));
        numeral
    }
}

/// The text of `a` and then of `b`.
pub fn joined(a: &str, b: &str) -> (whole: String)
    ensures
        whole@ == a@ + b@,
{
    let mut whole: String = a.to_owned();
    whole.append(b);
    whole
}

/// A copy of an optional text.
pub fn copy_text(s: &Option<String>) -> (copy: Option<String>)
    ensures
        opt_text(copy) == opt_text(*s),
{
    match s {
        Some(s) => Some(s.clone()),
        None => None,
    }
}

/// No name stands before itself.
pub proof fn lemma_precedes_irreflexive(a: Seq<char>)
    ensures
        !precedes(a, a),
    decreases a.len(),
{
    if a.len() > 0 {
        lemma_precedes_irreflexive(a.drop_first());
    }
}

/// The order of names is transitive.
pub proof fn lemma_precedes_transitive(a: Seq<char>, b: Seq<char>, c: Seq<char>)
    requires
        precedes(a, b),
        precedes(b, c),
    ensures
        precedes(a, c),
    decreases a.len(),
{
    if a.len() > 0 && a.first() == b.first() && b.first() == c.first() {
        lemma_precedes_transitive(a.drop_first(), b.drop_first(), c.drop_first());
    }
}

/// Of two different names one stands before the other.
pub proof fn lemma_precedes_total(a: Seq<char>, b: Seq<char>)
    ensures
        a == b || precedes(a, b) || precedes(b, a),
    decreases a.len(),
{
    if a.len() > 0 && b.len() > 0 && a.first() == b.first() {
        lemma_precedes_total(a.drop_first(), b.drop_first());
        if a.drop_first() == b.drop_first() {
            assert(a =~= seq![a.first()] + a.drop_first());
            assert(b =~= seq![b.first()] + b.drop_first());
        }
    } else if a.len() == 0 && b.len() == 0 {
        assert(a =~= b);
    }
}

} // verus!
