//! What holds of texts: each law takes a text apart, or says what a text comes
//! to, so that only one text can be meant.
use crate::limits::{
    digits_hold_at, in_class, json_counters_hold, lemma_run, lemma_short_json_fits,
    lemma_short_url_fits, lemma_zeros, place_at, run_from, url_counters_hold, url_input,
    without_left_out, CharClass,
};
use crate::text::{
    decimal, is_white_space, lower, precedes, trim_end, trim_start, trimmed, without_end_slashes,
};
use vstd::prelude::*;

verus! {

/// The white space of Unicode, one by one.
pub open spec fn is_space(c: char) -> bool {
    ||| c == '\u{9}' || c == '\u{a}' || c == '\u{b}' || c == '\u{c}' || c == '\u{d}'
    ||| c == '\u{20}' || c == '\u{85}' || c == '\u{a0}' || c == '\u{1680}'
    ||| c == '\u{2000}' || c == '\u{2001}' || c == '\u{2002}' || c == '\u{2003}'
    ||| c == '\u{2004}' || c == '\u{2005}' || c == '\u{2006}' || c == '\u{2007}'
    ||| c == '\u{2008}' || c == '\u{2009}' || c == '\u{200a}'
    ||| c == '\u{2028}' || c == '\u{2029}' || c == '\u{202f}' || c == '\u{205f}'
    ||| c == '\u{3000}'
}

/// Whether a text is white space and nothing else.
pub open spec fn is_blank(s: Seq<char>) -> bool {
    forall|i: int| 0 <= i < s.len() ==> is_space(#[trigger] s[i])
}

/// White space is what is listed.
pub proof fn law_white_space_is_listed(c: char)
    ensures
        is_white_space(c) <==> is_space(c),
{
}

/// To trim a text is to take off the white space around it: what stands between
/// white space and has none at its own ends is left, and nothing of a blank text.
pub proof fn law_trimmed_is_what_stands_between(
    before: Seq<char>,
    inner: Seq<char>,
    after: Seq<char>,
)
    requires
        is_blank(before),
        is_blank(after),
        inner.len() == 0 || !is_space(inner.first()) && !is_space(inner.last()),
    ensures
        trimmed(before + inner + after) == inner,
{
    let rest = inner + after;
    assert(before + inner + after =~= before + rest);
    if inner.len() == 0 {
        assert(rest =~= after);
        assert(before + rest =~= before + after + Seq::<char>::empty());
        assert(is_blank(before + after)) by {
            assert forall|i: int| 0 <= i < (before + after).len() implies is_space(
                #[trigger] (before + after)[i],
            ) by {
                if i >= before.len() {
                    assert((before + after)[i] == after[i - before.len()]);
                } else {
                    assert((before + after)[i] == before[i]);
                }
            }
        }
        lemma_trim_start(before + after, Seq::empty());
        assert(trimmed(before + rest) =~= inner);
    } else {
        assert(rest.first() == inner.first());
        lemma_trim_start(before, rest);
        lemma_trim_end(inner, after);
    }
}

/// White space before a text that starts with none goes.
proof fn lemma_trim_start(before: Seq<char>, rest: Seq<char>)
    requires
        is_blank(before),
        rest.len() == 0 || !is_space(rest.first()),
    ensures
        trim_start(before + rest) == rest,
    decreases before.len(),
{
    if before.len() > 0 {
        assert(is_space(before[0]));
        assert((before + rest).first() == before[0]);
        law_white_space_is_listed(before[0]);
        assert((before + rest).drop_first() =~= before.drop_first() + rest);
        assert forall|i: int| 0 <= i < before.drop_first().len() implies is_space(
            #[trigger] before.drop_first()[i],
        ) by {
            assert(is_space(before[i + 1]));
        }
        lemma_trim_start(before.drop_first(), rest);
    } else {
        assert(before + rest =~= rest);
        if rest.len() > 0 {
            law_white_space_is_listed(rest.first());
        }
    }
}

/// White space behind a text that ends with none goes.
proof fn lemma_trim_end(inner: Seq<char>, after: Seq<char>)
    requires
        is_blank(after),
        inner.len() > 0 && !is_space(inner.last()),
    ensures
        trim_end(inner + after) == inner,
    decreases after.len(),
{
    if after.len() > 0 {
        assert(is_space(after[after.len() - 1]));
        assert((inner + after).last() == after[after.len() - 1]);
        law_white_space_is_listed(after.last());
        assert((inner + after).drop_last() =~= inner + after.drop_last());
        assert forall|i: int| 0 <= i < after.drop_last().len() implies is_space(
            #[trigger] after.drop_last()[i],
        ) by {
            assert(is_space(after[i]));
        }
        lemma_trim_end(inner, after.drop_last());
    } else {
        assert(inner + after =~= inner);
        law_white_space_is_listed(inner.last());
    }
}

/// The slashes at the end go, and nothing else.
pub proof fn law_only_end_slashes_go(kept: Seq<char>, slashes: Seq<char>)
    requires
        kept.len() == 0 || kept.last() != '/',
        forall|i: int| 0 <= i < slashes.len() ==> slashes[i] == '/',
    ensures
        without_end_slashes(kept + slashes) == kept,
    decreases slashes.len(),
{
    if slashes.len() > 0 {
        assert((kept + slashes).drop_last() =~= kept + slashes.drop_last());
        law_only_end_slashes_go(kept, slashes.drop_last());
    } else {
        assert(kept + slashes =~= kept);
    }
}

/// In lower case `A` to `Z` are 32 places on, and every other character is as it
/// was.
pub proof fn law_lower_case(s: Seq<char>)
    ensures
        lower(s).len() == s.len(),
        forall|i: int|
            0 <= i < s.len() ==> if 'A' <= s[i] <= 'Z' {
                #[trigger] lower(s)[i] as int == s[i] as int + 32
            } else {
                lower(s)[i] == s[i]
            },
{
}

/// The number that a numeral stands for.
pub open spec fn numeral_value(s: Seq<char>) -> int
    decreases s.len(),
{
    if s.len() == 0 {
        0
    } else {
        10 * numeral_value(s.drop_last()) + (s.last() as int - '0' as int)
    }
}

/// A decimal numeral is made of digits, starts with zero for zero alone, and
/// stands for its number.
pub proof fn law_decimal_stands_for_its_number(n: nat)
    ensures
        numeral_value(decimal(n)) == n,
        decimal(n).len() > 0,
        decimal(n)[0] == '0' <==> n == 0,
        n == 0 ==> decimal(n).len() == 1,
        forall|i: int| 0 <= i < decimal(n).len() ==> '0' <= #[trigger] decimal(n)[i] <= '9',
    decreases n,
{
    if n < 10 {
        assert(decimal(n).drop_last() =~= Seq::<char>::empty());
        assert(numeral_value(Seq::<char>::empty()) == 0);
    } else {
        law_decimal_stands_for_its_number(n / 10);
        assert(decimal(n).drop_last() =~= decimal(n / 10));
        assert(decimal(n)[0] == decimal(n / 10)[0]);
    }
}

/// Names are ordered by the first character in which they differ, and a name
/// that ends there comes first.
pub proof fn law_first_difference_decides(a: Seq<char>, b: Seq<char>, k: int)
    requires
        0 <= k <= a.len(),
        k <= b.len(),
        forall|i: int| 0 <= i < k ==> a[i] == b[i],
        k < a.len() && k < b.len() ==> a[k] != b[k],
    ensures
        precedes(a, b) <==> k < b.len() && (k == a.len() || a[k] < b[k]),
    decreases k,
{
    if k > 0 {
        let x = a.drop_first();
        let y = b.drop_first();
        assert forall|i: int| 0 <= i < k - 1 implies x[i] == y[i] by {
            assert(a[i + 1] == b[i + 1]);
        }
        assert(a[0] == b[0]);
        law_first_difference_decides(x, y, k - 1);
    }
}

/// Texts of up to 2^31 - 1 characters can always be parsed.
pub proof fn law_short_texts_can_be_parsed(text: Seq<char>)
    requires
        text.len() <= 0x7fff_ffff,
    ensures
        url_counters_hold(text),
        json_counters_hold(text),
{
    lemma_short_url_fits(text);
    lemma_short_json_fits(text);
}

/// A text in which no 2^31 - 1 digits stand in a row can be parsed as JSON,
/// however long it is.
pub proof fn law_texts_of_short_numbers_can_be_parsed(text: Seq<char>)
    requires
        forall|i: int|
            0 <= i && i + 0x7fff_ffff <= text.len() ==> !#[trigger] are_digits(
                text,
                i,
                i + 0x7fff_ffff,
            ),
    ensures
        json_counters_hold(text),
{
    assert forall|i: int| 0 <= i < text.len() implies #[trigger] digits_hold_at(text, i) by {
        let digits = run_from(text, i, CharClass::Digit);
        let zeros = run_from(text, i, CharClass::Zero);
        lemma_run(text, i, CharClass::Digit);
        lemma_run(text, i, CharClass::Zero);
        lemma_zeros(text, i);
        lemma_run(text, i + zeros, CharClass::Digit);
        lemma_run_of_digits(text, i);
        if digits >= 0x7fff_ffff {
            assert(are_digits(text, i, i + 0x7fff_ffff));
        }
    }
}

/// Whether the characters from `start` to `end` are all digits.
pub open spec fn are_digits(text: Seq<char>, start: int, end: int) -> bool {
    forall|i: int| start <= i < end ==> '0' <= #[trigger] text[i] <= '9'
}

/// A run of digits is made of digits.
proof fn lemma_run_of_digits(text: Seq<char>, i: int)
    requires
        0 <= i <= text.len(),
    ensures
        are_digits(text, i, i + run_from(text, i, CharClass::Digit)),
    decreases text.len() - i,
{
    if i < text.len() && in_class(text[i], CharClass::Digit) {
        lemma_run_of_digits(text, i + 1);
    }
}

/// A string can be parsed as JSON, however many digits it holds.
pub proof fn law_strings_can_be_parsed(inner: Seq<char>)
    requires
        !inner.contains('"'),
        !inner.contains('\\'),
    ensures
        json_counters_hold(seq!['"'] + inner + seq!['"']),
{
    let text = seq!['"'] + inner + seq!['"'];
    assert forall|i: int| 0 <= i < text.len() implies #[trigger] digits_hold_at(text, i) by {
        if i == 0 {
            assert(text[0] == '"');
        } else {
            lemma_place_in_string(inner, i);
        }
    }
}

/// Behind its first quote one is inside of a string.
proof fn lemma_place_in_string(inner: Seq<char>, i: int)
    requires
        !inner.contains('"'),
        !inner.contains('\\'),
        1 <= i <= inner.len() + 1,
    ensures
        place_at(seq!['"'] + inner + seq!['"'], i) is Inside,
    decreases i,
{
    let text = seq!['"'] + inner + seq!['"'];
    if i == 1 {
        assert(text[0] == '"');
        assert(place_at(text, 0) is Outside);
    } else {
        lemma_place_in_string(inner, i - 1);
        assert(text[i - 1] == inner[i - 2]);
        assert(inner.contains(inner[i - 2]));
    }
}

/// A number can be parsed as JSON however many digits stand behind its point or
/// in its exponent, where its whole part is not zero and has less than 2^31
/// digits.
pub proof fn law_digits_behind_the_whole_part_need_no_length(
    whole: Seq<char>,
    mark: Seq<char>,
    digits: Seq<char>,
)
    requires
        0 < whole.len() <= 0x7fff_ffff,
        are_digits(whole, 0, whole.len() as int),
        whole[0] != '0',
        mark == seq!['.'] || mark == seq!['e'] || mark == seq!['E'] || mark == seq!['e', '-']
            || mark == seq!['e', '+'],
        are_digits(digits, 0, digits.len() as int),
    ensures
        json_counters_hold(whole + mark + digits),
{
    let text = whole + mark + digits;
    let w = whole.len() as int;
    let m = mark.len() as int;
    assert forall|i: int| 0 <= i < w implies in_class(#[trigger] text[i], CharClass::Digit) by {
        assert(text[i] == whole[i]);
        assert('0' <= whole[i] <= '9');
    }
    assert forall|i: int| w <= i < w + m implies text[i] == #[trigger] mark[i - w] by {}
    assert(text[w] == mark[0]);
    assert(text[w + m - 1] == mark[m - 1]);
    assert forall|i: int| w + m <= i < text.len() implies in_class(
        #[trigger] text[i],
        CharClass::Digit,
    ) by {
        assert(text[i] == digits[i - w - m]);
        assert('0' <= digits[i - w - m] <= '9');
    }
    lemma_run_is(text, 0, CharClass::Digit, w);
    assert forall|i: int| 0 <= i < text.len() implies #[trigger] digits_hold_at(text, i) by {
        if 0 < i < w {
            assert(in_class(text[i - 1], CharClass::Digit));
        } else if w <= i < w + m {
            assert(text[i] == mark[i - w]);
        } else if i > w + m {
            assert(in_class(text[i - 1], CharClass::Digit));
        } else if i == w + m {
            if w > 1 {
                assert(in_class(text[w - 2], CharClass::Digit));
            }
            assert(text[w - 1] == whole[w - 1]);
        }
    }
}

/// A URL whose scheme has no authority behind it can be parsed, whatever stands
/// behind the scheme and however long that is.
pub proof fn law_urls_without_authority_can_be_parsed(scheme: Seq<char>, rest: Seq<char>)
    requires
        0 < scheme.len() <= 0x7fff_ffff,
        forall|i: int| 0 <= i < scheme.len() ==> 'a' <= #[trigger] scheme[i] <= 'z',
        scheme != "http"@ && scheme != "https"@ && scheme != "ws"@ && scheme != "wss"@ && scheme
            != "ftp"@,
        forall|i: int| 0 <= i < rest.len() ==> ' ' < #[trigger] rest[i],
        scheme == "file"@ || rest.len() < 2 || rest[0] != '/' || rest[1] != '/',
    ensures
        url_counters_hold(scheme + seq![':'] + rest),
{
    let text = scheme + seq![':'] + rest;
    let n = scheme.len() as int;
    assert forall|i: int| 0 <= i < text.len() implies ' ' < #[trigger] text[i] by {
        if i < n {
            assert(text[i] == scheme[i]);
        } else if i > n {
            assert(text[i] == rest[i - n - 1]);
        }
    }
    assert(text.first() > ' ' && text.last() > ' ');
    lemma_nothing_left_out(text);
    assert(url_input(text) == text);
    assert forall|i: int| 0 <= i < n implies in_class(#[trigger] text[i], CharClass::Scheme) by {
        assert(text[i] == scheme[i]);
    }
    assert(text[n] == ':');
    lemma_run_is(text, 0, CharClass::Scheme, n);
    assert(text.take(n) =~= scheme);
    assert(lower(scheme) =~= scheme);
    if n + 2 < text.len() {
        assert(text[n + 1] == rest[0] && text[n + 2] == rest[1]);
    }
}

/// A web URL with an authority of up to 2^31 - 1 characters can be parsed,
/// whatever stands behind it and however long that is.
pub proof fn law_long_paths_can_be_parsed(scheme: Seq<char>, authority: Seq<char>, rest: Seq<char>)
    requires
        scheme == "http"@ || scheme == "https"@,
        0 < authority.len() <= 0x7fff_ffff,
        forall|i: int|
            0 <= i < authority.len() ==> ' ' < #[trigger] authority[i] && authority[i] != '/'
                && authority[i] != '\\' && authority[i] != '?' && authority[i] != '#',
        forall|i: int| 0 <= i < rest.len() ==> ' ' < #[trigger] rest[i],
        rest.len() == 0 || rest[0] == '/' || rest[0] == '?' || rest[0] == '#',
    ensures
        url_counters_hold(scheme + "://"@ + authority + rest),
{
    reveal_strlit("http");
    reveal_strlit("https");
    reveal_strlit("://");
    let text = scheme + "://"@ + authority + rest;
    let n = scheme.len() as int;
    let a = authority.len() as int;
    assert forall|i: int| 0 <= i < text.len() implies ' ' < #[trigger] text[i] by {
        if i < n {
            assert(text[i] == scheme[i]);
        } else if i < n + 3 {
            assert(text[i] == "://"@[i - n]);
        } else if i < n + 3 + a {
            assert(text[i] == authority[i - n - 3]);
        } else {
            assert(text[i] == rest[i - n - 3 - a]);
        }
    }
    assert(text.first() > ' ' && text.last() > ' ');
    lemma_nothing_left_out(text);
    assert(url_input(text) == text);
    assert forall|i: int| 0 <= i < n implies in_class(#[trigger] text[i], CharClass::Scheme) by {
        assert(text[i] == scheme[i]);
    }
    assert(text[n] == ':' && text[n + 1] == '/' && text[n + 2] == '/');
    lemma_run_is(text, 0, CharClass::Scheme, n);
    assert(text.take(n) =~= scheme);
    assert(lower(scheme) =~= scheme);
    assert(text[n + 3] == authority[0]);
    lemma_run_is(text, n + 1, CharClass::Slash, 2);
    assert forall|i: int| n + 3 <= i < n + 3 + a implies in_class(
        #[trigger] text[i],
        CharClass::SpecialAuthority,
    ) by {
        assert(text[i] == authority[i - n - 3]);
    }
    if rest.len() > 0 {
        assert(text[n + 3 + a] == rest[0]);
    }
    lemma_run_is(text, n + 3, CharClass::SpecialAuthority, a);
}

/// A run ends where the first character of another class stands.
proof fn lemma_run_is(s: Seq<char>, from: int, class: CharClass, count: int)
    requires
        0 <= from,
        0 <= count,
        from + count <= s.len(),
        forall|i: int| from <= i < from + count ==> in_class(#[trigger] s[i], class),
        from + count < s.len() ==> !in_class(s[from + count], class),
    ensures
        run_from(s, from, class) == count,
    decreases count,
{
    if count > 0 {
        assert(in_class(s[from], class));
        lemma_run_is(s, from + 1, class, count - 1);
    }
}

/// Nothing is left out of a text without tabs and line ends.
proof fn lemma_nothing_left_out(s: Seq<char>)
    requires
        forall|i: int| 0 <= i < s.len() ==> ' ' < #[trigger] s[i],
    ensures
        without_left_out(s) == s,
    decreases s.len(),
{
    if s.len() > 0 {
        lemma_nothing_left_out(s.drop_last());
        assert(' ' < s[s.len() - 1]);
        assert(s.drop_last().push(s.last()) =~= s);
    }
}

/// A text without digits can be parsed as JSON, however long it is.
pub proof fn law_texts_without_digits_can_be_parsed(text: Seq<char>)
    requires
        forall|i: int| 0 <= i < text.len() ==> !('0' <= #[trigger] text[i] <= '9'),
    ensures
        json_counters_hold(text),
{
    assert forall|i: int| 0 <= i < text.len() implies
        #[trigger] digits_hold_at(text, i) by {
        assert(!('0' <= text[i] <= '9'));
    }
}

} // verus!
