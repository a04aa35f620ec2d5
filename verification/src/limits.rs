//! How much the parsers of the `url` and `serde_json` crates can count.
//!
//! `url` counts the slashes before an authority in a `u32` and the characters of
//! the authority in an `i32`. `serde_json` counts in an `i32` the digits of an
//! integer that a `u64` cannot hold, and the digits behind the decimal point up
//! to there. What overflows such a counter makes the parser panic.
use crate::text::{lower, lower_char, precedes};
use vstd::prelude::*;
use vstd::string::*;

verus! {

/// A kind of characters that are counted in a run.
#[derive(Clone, Copy)]
pub enum CharClass {
    /// Those of a scheme.
    Scheme,
    /// Slashes and backslashes.
    Slash,
    /// Those of an authority before a path that may start with a backslash.
    SpecialAuthority,
    /// Those of any other authority.
    Authority,
    /// Decimal digits.
    Digit,
    /// Zeros.
    Zero,
}

/// Whether a character is of that class.
pub open spec fn in_class(c: char, class: CharClass) -> bool {
    match class {
        CharClass::Scheme => 'a' <= c <= 'z' || 'A' <= c <= 'Z' || '0' <= c <= '9' || c == '+' || c
            == '-' || c == '.',
        CharClass::Slash => c == '/' || c == '\\',
        CharClass::SpecialAuthority => c != '/' && c != '\\' && c != '?' && c != '#',
        CharClass::Authority => c != '/' && c != '?' && c != '#',
        CharClass::Digit => '0' <= c <= '9',
        CharClass::Zero => c == '0',
    }
}

/// How many characters from `from` on are of that class, without a gap.
pub open spec fn run_from(s: Seq<char>, from: int, class: CharClass) -> int
    decreases s.len() - from,
{
    if 0 <= from < s.len() && in_class(s[from], class) {
        1 + run_from(s, from + 1, class)
    } else {
        0
    }
}

// What is counted in a URL
/// The text without the control characters and spaces at its start.
pub open spec fn without_start_controls(s: Seq<char>) -> Seq<char>
    decreases s.len(),
{
    if s.len() > 0 && s.first() <= ' ' {
        without_start_controls(s.drop_first())
    } else {
        s
    }
}

/// The text without the control characters and spaces at its end.
pub open spec fn without_end_controls(s: Seq<char>) -> Seq<char>
    decreases s.len(),
{
    if s.len() > 0 && s.last() <= ' ' {
        without_end_controls(s.drop_last())
    } else {
        s
    }
}

/// Whether a character is left out wherever it stands in a URL.
pub open spec fn is_left_out(c: char) -> bool {
    c == '\t' || c == '\n' || c == '\r'
}

/// The text without tabs and line ends.
pub open spec fn without_left_out(s: Seq<char>) -> Seq<char>
    decreases s.len(),
{
    if s.len() == 0 {
        s
    } else if is_left_out(s.last()) {
        without_left_out(s.drop_last())
    } else {
        without_left_out(s.drop_last()).push(s.last())
    }
}

/// What is read of the text of a URL.
pub open spec fn url_input(text: Seq<char>) -> Seq<char> {
    without_left_out(without_end_controls(without_start_controls(text)))
}

/// Whether what is read starts with a scheme and its colon.
pub open spec fn has_scheme(input: Seq<char>) -> bool {
    let end = run_from(input, 0, CharClass::Scheme);
    &&& end < input.len()
    &&& input[end] == ':'
    &&& 'a' <= input[0] <= 'z' || 'A' <= input[0] <= 'Z'
}

/// Whether any number of slashes and backslashes stands between a scheme and the
/// authority behind it.
pub open spec fn is_special_scheme(scheme: Seq<char>) -> bool {
    ||| scheme == "http"@
    ||| scheme == "https"@
    ||| scheme == "ws"@
    ||| scheme == "wss"@
    ||| scheme == "ftp"@
}

/// Whether the counters of the `url` parser hold what they count in the text. A
/// text without a scheme is refused before anything is counted, and a file has no
/// authority that is. Where there is neither authority nor file, `url` adds 2 to
/// where the path starts, once it has found that to be a `u32`.
pub open spec fn url_counters_hold(text: Seq<char>) -> bool {
    let input = url_input(text);
    let end = run_from(input, 0, CharClass::Scheme);
    let scheme = lower(input.take(end));
    has_scheme(input) ==> if is_special_scheme(scheme) {
        let slashes = run_from(input, end + 1, CharClass::Slash);
        &&& slashes <= u32::MAX
        &&& run_from(input, end + 1 + slashes, CharClass::SpecialAuthority) <= i32::MAX
    } else if scheme == "file"@ {
        true
    } else if end + 2 < input.len() && input[end + 1] == '/' && input[end + 2] == '/' {
        run_from(input, end + 3, CharClass::Authority) <= i32::MAX
    } else {
        end < u32::MAX - 2 || end >= u32::MAX
    }
}

// What is counted in JSON
/// Where in a JSON text one is.
pub enum JsonPlace {
    /// Outside of strings.
    Outside,
    /// In a string.
    Inside,
    /// In a string, behind a backslash.
    Escaped,
}

/// Where in a JSON text one is behind that character.
pub open spec fn next_place(place: JsonPlace, c: char) -> JsonPlace {
    match place {
        JsonPlace::Outside => if c == '"' {
            JsonPlace::Inside
        } else {
            JsonPlace::Outside
        },
        JsonPlace::Inside => if c == '"' {
            JsonPlace::Outside
        } else if c == '\\' {
            JsonPlace::Escaped
        } else {
            JsonPlace::Inside
        },
        JsonPlace::Escaped => JsonPlace::Inside,
    }
}

/// Where in a JSON text one is before the character at `i`.
pub open spec fn place_at(text: Seq<char>, i: int) -> JsonPlace
    decreases i,
{
    if i <= 0 {
        JsonPlace::Outside
    } else {
        next_place(place_at(text, i - 1), text[i - 1])
    }
}

/// How many of the digits from `from` on, of which the first is not zero, a `u64`
/// can hold.
pub open spec fn digits_held(text: Seq<char>, from: int) -> int {
    let digits = run_from(text, from, CharClass::Digit);
    if digits < 20 {
        digits
    } else if precedes("18446744073709551615"@, text.subrange(from, from + 20)) {
        19
    } else {
        20
    }
}

/// Whether an exponent starts at `i`, behind its sign if it has one.
pub open spec fn starts_exponent(text: Seq<char>, i: int) -> bool {
    ||| i >= 1 && (text[i - 1] == 'e' || text[i - 1] == 'E')
    ||| i >= 2 && (text[i - 1] == '+' || text[i - 1] == '-') && (text[i - 2] == 'e' || text[i - 2]
        == 'E')
}

/// Whether the character before `i` is the point behind a whole part of zero.
pub open spec fn follows_zero_point(text: Seq<char>, i: int) -> bool {
    &&& i >= 2
    &&& text[i - 1] == '.'
    &&& text[i - 2] == '0'
    &&& i == 2 || !in_class(text[i - 3], CharClass::Digit)
}

/// Whether the counters of the JSON parser hold what they count in the digits
/// that start at `i`. Behind the point these are the zeros, and then the digits
/// that a `u64` holds, unless the whole part already fills it. Of a whole part
/// they are the digits that a `u64` does not hold. The digits of an exponent are
/// not counted.
pub open spec fn digits_hold_at(text: Seq<char>, i: int) -> bool {
    let digits = run_from(text, i, CharClass::Digit);
    let zeros = run_from(text, i, CharClass::Zero);
    if digits == 0 || i > 0 && in_class(text[i - 1], CharClass::Digit) || !(place_at(
        text,
        i,
    ) is Outside) {
        true
    } else if i > 0 && text[i - 1] == '.' {
        follows_zero_point(text, i) ==> zeros + digits_held(text, i + zeros) <= 0x8000_0000
    } else if starts_exponent(text, i) || text[i] == '0' {
        true
    } else {
        digits - digits_held(text, i) <= i32::MAX
    }
}

/// Whether the counters of the JSON parser hold what they count in the text.
pub open spec fn json_counters_hold(text: Seq<char>) -> bool {
    forall|i: int| 0 <= i < text.len() ==> #[trigger] digits_hold_at(text, i)
}

// Runs of characters
/// A run is no longer than what is left of the text.
pub(crate) proof fn lemma_run(s: Seq<char>, from: int, class: CharClass)
    requires
        0 <= from <= s.len(),
    ensures
        0 <= run_from(s, from, class) <= s.len() - from,
    decreases s.len() - from,
{
    if from < s.len() && in_class(s[from], class) {
        lemma_run(s, from + 1, class);
    }
}

/// A run of digits starts with its zeros.
pub(crate) proof fn lemma_zeros(s: Seq<char>, from: int)
    requires
        0 <= from <= s.len(),
    ensures
        run_from(s, from, CharClass::Digit) == run_from(s, from, CharClass::Zero) + run_from(
            s,
            from + run_from(s, from, CharClass::Zero),
            CharClass::Digit,
        ),
    decreases s.len() - from,
{
    if from < s.len() && s[from] == '0' {
        lemma_zeros(s, from + 1);
    }
}

/// Whether a character is of that class.
fn is_in_class(c: char, class: CharClass) -> (is_in: bool)
    ensures
        is_in == in_class(c, class),
{
    match class {
        CharClass::Scheme => ('a' <= c && c <= 'z') || ('A' <= c && c <= 'Z') || ('0' <= c && c
            <= '9') || c == '+' || c == '-' || c == '.',
        CharClass::Slash => c == '/' || c == '\\',
        CharClass::SpecialAuthority => c != '/' && c != '\\' && c != '?' && c != '#',
        CharClass::Authority => c != '/' && c != '?' && c != '#',
        CharClass::Digit => '0' <= c && c <= '9',
        CharClass::Zero => c == '0',
    }
}

/// How many characters from `from` on are of that class, without a gap.
fn count_run(s: &Vec<char>, from: usize, class: CharClass) -> (count: usize)
    requires
        from <= s@.len(),
    ensures
        count == run_from(s@, from as int, class),
        count <= s@.len() - from,
{
    let mut at: usize = from;
    while at < s.len() && is_in_class(s[at], class)
        invariant
            from <= at <= s@.len(),
            run_from(s@, from as int, class) == at - from + run_from(s@, at as int, class),
        decreases s@.len() - at,
    {
        at += 1;
    }
    at - from
}

/// The characters of a text.
fn char_list(text: &str) -> (list: Vec<char>)
    ensures
        list@ == text@,
{
    let mut list: Vec<char> = Vec::new();
    for c in it: text.chars()
        invariant
            it.seq() == text@,
            list@ == text@.take(it.index()),
    {
        proof {
            assert(text@.take(it.index() + 1) =~= text@.take(it.index()).push(text@[it.index()]));
        }
        list.push(c);
    }
    proof {
        assert(text@.take(text@.len() as int) =~= text@);
    }
    list
}

/// What is read of a URL is no longer than its text.
proof fn lemma_url_input_len(text: Seq<char>)
    ensures
        url_input(text).len() <= text.len(),
{
    lemma_controls_len(text);
    lemma_controls_len(without_start_controls(text));
    lemma_left_out_len(without_end_controls(without_start_controls(text)));
}

/// Nothing grows when the controls at its ends go.
proof fn lemma_controls_len(s: Seq<char>)
    ensures
        without_start_controls(s).len() <= s.len(),
        without_end_controls(s).len() <= s.len(),
    decreases s.len(),
{
    if s.len() > 0 {
        lemma_controls_len(s.drop_first());
        lemma_controls_len(s.drop_last());
    }
}

/// Nothing grows when tabs and line ends go.
proof fn lemma_left_out_len(s: Seq<char>)
    ensures
        without_left_out(s).len() <= s.len(),
    decreases s.len(),
{
    if s.len() > 0 {
        lemma_left_out_len(s.drop_last());
    }
}

/// What is read of the text of a URL.
fn url_input_list(text: &str) -> (input: Vec<char>)
    ensures
        input@ == url_input(text@),
{
    let list = char_list(text);
    let mut start: usize = 0;
    proof {
        assert(list@.skip(0) =~= list@);
    }
    while start < list.len() && list[start] <= ' '
        invariant
            start <= list@.len(),
            list@ == text@,
            without_start_controls(text@) == without_start_controls(list@.skip(start as int)),
        decreases list@.len() - start,
    {
        proof {
            assert(list@.skip(start as int).drop_first() =~= list@.skip(start + 1));
        }
        start += 1;
    }
    let ghost rest = list@.skip(start as int);
    let mut end: usize = list.len();
    proof {
        assert(rest == without_start_controls(text@));
        assert(rest =~= list@.subrange(start as int, end as int));
    }
    while start < end && list[end - 1] <= ' '
        invariant
            start <= end <= list@.len(),
            without_end_controls(rest) == without_end_controls(
                list@.subrange(start as int, end as int),
            ),
        decreases end,
    {
        proof {
            assert(list@.subrange(start as int, end as int).drop_last() =~= list@.subrange(
                start as int,
                end - 1,
            ));
        }
        end -= 1;
    }
    let ghost inner = list@.subrange(start as int, end as int);
    proof {
        assert(inner == without_end_controls(rest));
        assert(inner.take(0) =~= Seq::<char>::empty());
    }
    let mut input: Vec<char> = Vec::new();
    let mut at: usize = start;
    while at < end
        invariant
            start <= at <= end <= list@.len(),
            inner == list@.subrange(start as int, end as int),
            input@ == without_left_out(inner.take(at - start)),
        decreases end - at,
    {
        let c: char = list[at];
        proof {
            let next = inner.take(at - start + 1);
            assert(next.drop_last() =~= inner.take(at - start));
            assert(next.last() == c);
        }
        if !(c == '\t' || c == '\n' || c == '\r') {
            input.push(c);
        }
        at += 1;
    }
    proof {
        assert(inner.take(end - start) =~= inner);
    }
    input
}

/// Whether the first `end` characters are that name but for the case of ASCII
/// letters.
fn is_scheme_named(input: &Vec<char>, end: usize, name: &str) -> (named: bool)
    requires
        end <= input@.len(),
    ensures
        named == (lower(input@.take(end as int)) == name@),
{
    let ghost scheme = lower(input@.take(end as int));
    if name.unicode_len() != end {
        return false;
    }
    let mut i: usize = 0;
    while i < end
        invariant
            i <= end <= input@.len(),
            end == name@.len(),
            scheme == lower(input@.take(end as int)),
            forall|k: int| 0 <= k < i ==> scheme[k] == name@[k],
        decreases end - i,
    {
        let c: char = input[i];
        let low: char = lower_letter(c);
        assert(scheme[i as int] == low);
        if low != name.get_char(i) {
            return false;
        }
        i += 1;
    }
    assert(scheme =~= name@);
    true
}

/// `c`, with `A` to `Z` as `a` to `z`.
fn lower_letter(c: char) -> (low: char)
    ensures
        low == lower_char(c),
{
    if 'A' <= c && c <= 'Z' {
        ((c as u8) + 32) as char
    } else {
        c
    }
}

/// Whether the counters of the `url` parser hold what they count in the text. A
/// short text need not be counted through.
pub fn url_text_fits(text: &str) -> (fits: bool)
    ensures
        fits == url_counters_hold(text@),
{
    if text.unicode_len() <= 0x7fff_ffff {
        proof {
            lemma_short_url_fits(text@);
        }
        return true;
    }
    url_counts_fit(text)
}

/// Whether the counters of the `url` parser hold what they count in the text, by
/// counting it.
pub fn url_counts_fit(text: &str) -> (fits: bool)
    ensures
        fits == url_counters_hold(text@),
{
    let input = url_input_list(text);
    let end: usize = count_run(&input, 0, CharClass::Scheme);
    if end == input.len() || input[end] != ':' {
        return true;
    }
    let first: char = input[0];
    if !(('a' <= first && first <= 'z') || ('A' <= first && first <= 'Z')) {
        return true;
    }
    if is_scheme_named(&input, end, "http") || is_scheme_named(&input, end, "https")
        || is_scheme_named(&input, end, "ws") || is_scheme_named(&input, end, "wss")
        || is_scheme_named(&input, end, "ftp") {
        let slashes: usize = count_run(&input, end + 1, CharClass::Slash);
        return slashes <= 0xffff_ffff && count_run(
            &input,
            end + 1 + slashes,
            CharClass::SpecialAuthority,
        ) <= 0x7fff_ffff;
    }
    if is_scheme_named(&input, end, "file") {
        return true;
    }
    if input.len() - end > 2 && input[end + 1] == '/' && input[end + 2] == '/' {
        return count_run(&input, end + 3, CharClass::Authority) <= 0x7fff_ffff;
    }
    end < 0xffff_fffd || end >= 0xffff_ffff
}

/// In a short text the counters of the `url` parser hold what they count.
pub(crate) proof fn lemma_short_url_fits(text: Seq<char>)
    requires
        text.len() <= i32::MAX,
    ensures
        url_counters_hold(text),
{
    let input = url_input(text);
    lemma_url_input_len(text);
    lemma_run(input, 0, CharClass::Scheme);
    let end = run_from(input, 0, CharClass::Scheme);
    if has_scheme(input) {
        lemma_run(input, end + 1, CharClass::Slash);
        let slashes = run_from(input, end + 1, CharClass::Slash);
        lemma_run(input, end + 1 + slashes, CharClass::SpecialAuthority);
        if end + 2 < input.len() {
            lemma_run(input, end + 3, CharClass::Authority);
        }
    }
}

/// In a short text the counters of the JSON parser hold what they count.
pub(crate) proof fn lemma_short_json_fits(text: Seq<char>)
    requires
        text.len() <= i32::MAX,
    ensures
        json_counters_hold(text),
{
    assert forall|i: int| 0 <= i < text.len() implies #[trigger] digits_hold_at(text, i) by {
        lemma_run(text, i, CharClass::Digit);
        lemma_run(text, i, CharClass::Zero);
        lemma_zeros(text, i);
        let zeros = run_from(text, i, CharClass::Zero);
        lemma_run(text, i + zeros, CharClass::Digit);
    }
}

/// How many of the digits from `from` on, of which the first is not zero, a `u64`
/// can hold.
fn count_held(list: &Vec<char>, from: usize) -> (held: usize)
    requires
        from <= list@.len(),
    ensures
        held == digits_held(list@, from as int),
        held <= run_from(list@, from as int, CharClass::Digit),
{
    let digits: usize = count_run(list, from, CharClass::Digit);
    if digits < 20 {
        return digits;
    }
    let len: usize = list.len();
    let most = char_list("18446744073709551615");
    proof {
        reveal_strlit("18446744073709551615");
    }
    let ghost rest = list@.subrange(from as int, from + 20);
    let mut i: usize = 0;
    proof {
        assert(most@.skip(0) =~= most@);
        assert(rest.skip(0) =~= rest);
    }
    while i < 20
        invariant
            i <= 20,
            from + 20 <= len,
            len == list@.len(),
            most@.len() == 20,
            most@ == "18446744073709551615"@,
            rest == list@.subrange(from as int, from + 20),
            digits >= 20,
            digits == run_from(list@, from as int, CharClass::Digit),
            precedes(most@, rest) == precedes(most@.skip(i as int), rest.skip(i as int)),
        decreases 20 - i,
    {
        let x: char = most[i];
        let y: char = list[from + i];
        assert(rest[i as int] == y);
        if x < y {
            return 19;
        }
        if y < x {
            return 20;
        }
        proof {
            assert(most@.skip(i as int).drop_first() =~= most@.skip(i + 1));
            assert(rest.skip(i as int).drop_first() =~= rest.skip(i + 1));
        }
        i += 1;
    }
    20
}

/// Whether the counters of the JSON parser hold what they count in the digits
/// that start at `i`.
fn digits_fit(list: &Vec<char>, i: usize, outside: bool) -> (fits: bool)
    requires
        i < list@.len(),
        outside == (place_at(list@, i as int) is Outside),
    ensures
        fits == digits_hold_at(list@, i as int),
{
    if !outside || !is_in_class(list[i], CharClass::Digit) || (i > 0 && is_in_class(
        list[i - 1],
        CharClass::Digit,
    )) {
        proof {
            lemma_run(list@, i + 1, CharClass::Digit);
        }
        return true;
    }
    let digits: usize = count_run(list, i, CharClass::Digit);
    proof {
        lemma_run(list@, i + 1, CharClass::Digit);
    }
    if i > 0 && list[i - 1] == '.' {
        if i < 2 || list[i - 2] != '0' || (i > 2 && is_in_class(list[i - 3], CharClass::Digit)) {
            return true;
        }
        let len: usize = list.len();
        let zeros: usize = count_run(list, i, CharClass::Zero);
        assert(i + zeros <= len);
        let held: usize = count_held(list, i + zeros);
        proof {
            lemma_zeros(list@, i as int);
        }
        return zeros + held <= 0x8000_0000;
    }
    if i >= 1 && (list[i - 1] == 'e' || list[i - 1] == 'E') {
        return true;
    }
    if i >= 2 && (list[i - 1] == '+' || list[i - 1] == '-') && (list[i - 2] == 'e' || list[i - 2]
        == 'E') {
        return true;
    }
    list[i] == '0' || digits - count_held(list, i) <= 0x7fff_ffff
}

/// Whether the counters of the JSON parser hold what they count in the text. A
/// short text need not be counted through.
pub fn json_text_fits(text: &str) -> (fits: bool)
    ensures
        fits == json_counters_hold(text@),
{
    if text.unicode_len() <= 0x7fff_ffff {
        proof {
            lemma_short_json_fits(text@);
        }
        return true;
    }
    json_counts_fit(text)
}

/// Whether the counters of the JSON parser hold what they count in the text, by
/// counting it.
pub fn json_counts_fit(text: &str) -> (fits: bool)
    ensures
        fits == json_counters_hold(text@),
{
    let list = char_list(text);
    let mut place = JsonPlace::Outside;
    let mut i: usize = 0;
    while i < list.len()
        invariant
            i <= list@.len(),
            list@ == text@,
            place == place_at(text@, i as int),
            forall|k: int| 0 <= k < i ==> #[trigger] digits_hold_at(text@, k),
        decreases list@.len() - i,
    {
        let outside = match place {
            JsonPlace::Outside => true,
            _ => false,
        };
        if !digits_fit(&list, i, outside) {
            return false;
        }
        let c: char = list[i];
        place = match place {
            JsonPlace::Outside => if c == '"' {
                JsonPlace::Inside
            } else {
                JsonPlace::Outside
            },
            JsonPlace::Inside => if c == '"' {
                JsonPlace::Outside
            } else if c == '\\' {
                JsonPlace::Escaped
            } else {
                JsonPlace::Inside
            },
            JsonPlace::Escaped => JsonPlace::Inside,
        };
        i += 1;
    }
    true
}

} // verus!
