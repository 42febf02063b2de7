//! What trimming, splitting, comparing and writing numbers do to every text.
use crate::text::{
    all_digits, ascii_lower, ascii_lowercase, decimal, digit_char, digits_value, is_char, is_digit,
    is_white, lemma_lex_total, lemma_span, lemma_span_is, lex_less, not_white,
    same_ignoring_ascii_case, span, split_on, trim_end, trim_start, trimmed, unsigned_value, white,
    words,
};
use vstd::prelude::*;

verus! {

/// Nothing but white space.
pub open spec fn all_white(s: Seq<char>) -> bool {
    forall|i: int| 0 <= i < s.len() ==> is_white(#[trigger] s[i])
}

/// A text that neither starts nor ends in white space.
pub open spec fn has_firm_ends(s: Seq<char>) -> bool {
    s.len() > 0 ==> !is_white(s[0]) && !is_white(s[s.len() - 1])
}

proof fn lemma_trim_end_cuts(core: Seq<char>, right: Seq<char>)
    requires
        all_white(right),
        core.len() > 0 ==> !is_white(core[core.len() - 1]),
    ensures
        trim_end(core + right) == core,
    decreases right.len(),
{
    let s = core + right;
    if right.len() == 0 {
        assert(s =~= core);
    } else {
        assert(s.last() == right[right.len() - 1]);
        assert(s.drop_last() =~= core + right.drop_last());
        assert forall|i: int| 0 <= i < right.drop_last().len() implies is_white(
            #[trigger] right.drop_last()[i],
        ) by {
            assert(right.drop_last()[i] == right[i]);
        }
        lemma_trim_end_cuts(core, right.drop_last());
    }
}

/// Trimming takes away the white space on either side of a text, all of it, and nothing else.
pub proof fn law_trimming_cuts_the_white_ends(left: Seq<char>, core: Seq<char>, right: Seq<char>)
    requires
        all_white(left),
        has_firm_ends(core),
        all_white(right),
    ensures
        trimmed(left + core + right) == core,
        trim_start(left + core) == core,
        trim_end(core + right) == core,
{
    let s = left + core + right;
    let at = if core.len() > 0 {
        left.len() as int
    } else {
        s.len() as int
    };
    assert forall|i: int| 0 <= i < at implies !not_white()(#[trigger] s[i]) by {
        if i < left.len() {
            assert(s[i] == left[i]);
        } else {
            assert(s[i] == right[i - left.len()]);
        }
    }
    if core.len() > 0 {
        assert(s[at] == core[0]);
    }
    lemma_span_is(s, not_white(), at);
    lemma_trim_end_cuts(core, right);
    if core.len() > 0 {
        assert(trim_start(s) =~= core + right);
    } else {
        assert(trim_start(s) =~= Seq::<char>::empty());
        assert(core =~= Seq::<char>::empty());
    }
    let t = left + core;
    assert forall|i: int| 0 <= i < left.len() implies !not_white()(#[trigger] t[i]) by {
        assert(t[i] == left[i]);
    }
    if core.len() > 0 {
        assert(t[left.len() as int] == core[0]);
    }
    lemma_span_is(t, not_white(), left.len() as int);
    assert(trim_start(t) =~= core);
}

/// A text between two ends of a larger one that white space, or an end of the larger one, bounds on
/// either side, and that has no white space in it.
pub open spec fn word_at(s: Seq<char>, i: int, j: int) -> bool {
    &&& 0 <= i < j <= s.len()
    &&& forall|k: int| i <= k < j ==> !is_white(#[trigger] s[k])
    &&& i == 0 || is_white(s[i - 1])
    &&& j == s.len() || is_white(s[j])
}

/// Where the first word of a text starts and ends.
proof fn lemma_first_word(s: Seq<char>)
    ensures
        ({
            let start = span(s, not_white()) as int;
            let body = s.skip(start);
            let n = span(body, white()) as int;
            let from = start + n;
            &&& start <= s.len()
            &&& forall|k: int| 0 <= k < start ==> is_white(#[trigger] s[k])
            &&& start >= s.len() ==> words(s) == Seq::<Seq<char>>::empty()
            &&& start < s.len() ==> {
                &&& word_at(s, start, from)
                &&& words(s) == seq![s.subrange(start, from)] + words(s.skip(from))
            }
        }),
{
    let start = span(s, not_white()) as int;
    lemma_span(s, not_white());
    assert forall|k: int| 0 <= k < start implies is_white(#[trigger] s[k]) by {
        assert(!not_white()(s[k]));
    }
    if start < s.len() {
        let body = s.skip(start);
        let n = span(body, white()) as int;
        lemma_span(body, white());
        assert(not_white()(s[start]));
        assert(body[0] == s[start]);
        if n == 0 {
            assert(white()(body[0]));
        }
        let from = start + n;
        assert(body.skip(n) =~= s.skip(from));
        assert(body.take(n) =~= s.subrange(start, from));
        assert forall|k: int| start <= k < from implies !is_white(#[trigger] s[k]) by {
            assert(!white()(body[k - start]));
        }
        if from < s.len() {
            assert(white()(body[n]));
        }
        if start > 0 {
            assert(is_white(s[start - 1]));
        }
    }
}

/// A word of what is left of a text behind a word is a word of the text.
proof fn lemma_word_behind(s: Seq<char>, from: int, i: int, j: int)
    requires
        0 <= from <= s.len(),
        from == s.len() || is_white(s[from]),
    ensures
        word_at(s.skip(from), i, j) ==> word_at(s, from + i, from + j) && s.skip(from).subrange(i, j)
            == s.subrange(from + i, from + j),
        0 <= i && word_at(s, from + i, from + j) ==> word_at(s.skip(from), i, j) && s.skip(
            from,
        ).subrange(i, j) == s.subrange(from + i, from + j),
{
    let rest = s.skip(from);
    if word_at(rest, i, j) {
        assert forall|k: int| from + i <= k < from + j implies !is_white(#[trigger] s[k]) by {
            assert(rest[k - from] == s[k]);
        }
        assert(rest[i] == s[from + i]);
        if i == 0 {
            assert(!is_white(rest[0]));
            assert(false);
        }
        assert(rest[i - 1] == s[from + i - 1]);
        if j < rest.len() {
            assert(rest[j] == s[from + j]);
        }
        assert(rest.subrange(i, j) =~= s.subrange(from + i, from + j));
    }
    if 0 <= i && word_at(s, from + i, from + j) {
        assert forall|k: int| i <= k < j implies !is_white(#[trigger] rest[k]) by {
            assert(rest[k] == s[k + from]);
        }
        if i > 0 {
            assert(rest[i - 1] == s[from + i - 1]);
        }
        if j < rest.len() {
            assert(rest[j] == s[from + j]);
        }
        assert(rest.subrange(i, j) =~= s.subrange(from + i, from + j));
    }
}

proof fn lemma_word_is_a_stretch(s: Seq<char>, word: Seq<char>)
    requires
        words(s).contains(word),
    ensures
        exists|i: int, j: int| #[trigger] word_at(s, i, j) && s.subrange(i, j) == word,
    decreases s.len(),
{
    lemma_first_word(s);
    let start = span(s, not_white()) as int;
    let from = start + span(s.skip(start), white()) as int;
    let at = choose|at: int| 0 <= at < words(s).len() && words(s)[at] == word;
    assert(start < s.len());
    if at == 0 {
        assert(s.subrange(start, from) == word);
    } else {
        let rest = s.skip(from);
        assert(words(rest)[at - 1] == word);
        lemma_word_is_a_stretch(rest, word);
        let (i, j) = choose|i: int, j: int| #[trigger]
            word_at(rest, i, j) && rest.subrange(i, j) == word;
        lemma_word_behind(s, from, i, j);
        assert(word_at(s, from + i, from + j));
    }
}

proof fn lemma_stretch_is_a_word(s: Seq<char>, i: int, j: int)
    requires
        word_at(s, i, j),
    ensures
        words(s).contains(s.subrange(i, j)),
    decreases s.len(),
{
    lemma_first_word(s);
    let start = span(s, not_white()) as int;
    let from = start + span(s.skip(start), white()) as int;
    assert(!is_white(s[i]));
    assert(start <= i);
    assert(start < s.len());
    if i < from {
        if i > start {
            assert(!is_white(s[i - 1]));
        }
        if j < from {
            assert(!is_white(s[j]));
        }
        if j > from {
            assert(!is_white(s[from]));
        }
        assert(words(s)[0] == s.subrange(i, j));
    } else {
        let rest = s.skip(from);
        lemma_word_behind(s, from, i - from, j - from);
        lemma_stretch_is_a_word(rest, i - from, j - from);
        let word = s.subrange(i, j);
        let at = choose|at: int| 0 <= at < words(rest).len() && words(rest)[at] == word;
        assert(words(s)[at + 1] == word);
    }
}

/// The words of a text are its longest stretches without white space: each of these is a word, and
/// each word is one of these.
pub proof fn law_words_are_the_longest_firm_stretches(s: Seq<char>, word: Seq<char>)
    ensures
        words(s).contains(word) <==> exists|i: int, j: int| #[trigger]
            word_at(s, i, j) && s.subrange(i, j) == word,
{
    if words(s).contains(word) {
        lemma_word_is_a_stretch(s, word);
    }
    if exists|i: int, j: int| #[trigger] word_at(s, i, j) && s.subrange(i, j) == word {
        let (i, j) = choose|i: int, j: int| #[trigger]
            word_at(s, i, j) && s.subrange(i, j) == word;
        lemma_stretch_is_a_word(s, i, j);
    }
}

/// A text is cut at each separator, and only there: what stands before the first one is the first
/// piece, and the rest is cut on.
pub proof fn law_a_text_is_cut_at_its_separators(piece: Seq<char>, rest: Seq<char>, sep: char)
    requires
        !piece.contains(sep),
    ensures
        split_on(piece, sep) == seq![piece],
        split_on(piece.push(sep) + rest, sep) == seq![piece] + split_on(rest, sep),
{
    assert forall|i: int| 0 <= i < piece.len() implies !is_char(sep)(#[trigger] piece[i]) by {
        assert(piece.contains(piece[i]));
    }
    lemma_span_is(piece, is_char(sep), piece.len() as int);
    let s = piece.push(sep) + rest;
    let n = piece.len() as int;
    assert forall|i: int| 0 <= i < n implies !is_char(sep)(#[trigger] s[i]) by {
        assert(s[i] == piece[i]);
    }
    assert(s[n] == sep);
    lemma_span_is(s, is_char(sep), n);
    assert(s.take(n) =~= piece);
    assert(s.skip(n + 1) =~= rest);
}

/// A number that is written down reads back, with or without a sign.
pub proof fn law_a_written_number_reads_back(n: nat)
    ensures
        unsigned_value(decimal(n)) == Some(n),
        unsigned_value(seq!['+'] + decimal(n)) == Some(n),
        decimal(n).len() >= 1,
        decimal(n)[0] == '0' ==> n == 0 && decimal(n).len() == 1,
{
    lemma_first_digit(n);
    lemma_decimal(n);
    let digits = decimal(n);
    assert(is_digit(digits[0]));
    assert((seq!['+'] + digits).drop_first() =~= digits);
}

proof fn lemma_first_digit(n: nat)
    ensures
        decimal(n).len() >= 1,
        decimal(n)[0] == '0' ==> n == 0 && decimal(n).len() == 1,
    decreases n,
{
    if n >= 10 {
        lemma_first_digit(n / 10);
        assert(decimal(n)[0] == decimal(n / 10)[0]);
    }
}

proof fn lemma_decimal(n: nat)
    ensures
        decimal(n).len() > 0,
        all_digits(decimal(n)),
        digits_value(decimal(n)) == n,
    decreases n,
{
    reveal_with_fuel(digits_value, 2);
    if n >= 10 {
        lemma_decimal(n / 10);
        let s = decimal(n);
        assert(s.drop_last() =~= decimal(n / 10));
        assert(s.last() == digit_char(n % 10));
        assert forall|i: int| 0 <= i < s.len() implies is_digit(#[trigger] s[i]) by {
            if i < s.len() - 1 {
                assert(s[i] == decimal(n / 10)[i]);
            }
        }
    } else {
        assert(decimal(n) == seq![digit_char(n)]);
        assert(decimal(n).drop_last() =~= Seq::<char>::empty());
    }
}

/// Only digits make a number, and each digit counts ten times the one behind it.
pub proof fn law_digits_make_the_number(s: Seq<char>, c: char)
    ensures
        unsigned_value(Seq::empty()) is None,
        !('0' <= c <= '9') && s.len() > 0 ==> unsigned_value(s.push(c)) is None,
        '0' <= c <= '9' && s.len() > 0 ==> match unsigned_value(s) {
            Some(n) => unsigned_value(s.push(c)) == Some(
                (10 * n + (c as u32 - '0' as u32)) as nat,
            ),
            None => s == seq!['+'] || unsigned_value(s.push(c)) is None,
        },
        '0' <= c <= '9' ==> unsigned_value(seq![c]) == Some((c as u32 - '0' as u32) as nat),
{
    reveal_with_fuel(digits_value, 2);
    assert(seq![c].drop_last() =~= Seq::<char>::empty());
    if s.len() > 0 {
        let t = s.push(c);
        let digits = if s[0] == '+' {
            s.drop_first()
        } else {
            s
        };
        let more = if t[0] == '+' {
            t.drop_first()
        } else {
            t
        };
        assert(more =~= digits.push(c));
        assert(more.drop_last() =~= digits);
        assert(more[more.len() - 1] == c);
        if all_digits(more) {
            assert forall|i: int| 0 <= i < digits.len() implies is_digit(#[trigger] digits[i]) by {
                assert(more[i] == digits[i]);
            }
        }
        if all_digits(digits) && is_digit(c) {
            assert forall|i: int| 0 <= i < more.len() implies is_digit(#[trigger] more[i]) by {
                if i < digits.len() {
                    assert(more[i] == digits[i]);
                }
            }
        }
        if digits.len() == 0 {
            assert(s =~= seq!['+']);
        }
    }
}

/// Letters of the alphabet are the same in either case, and no other characters are the same but to
/// themselves.
pub proof fn law_case_is_that_of_letters(a: Seq<char>, b: Seq<char>)
    ensures
        same_ignoring_ascii_case(a, b) <==> a.len() == b.len() && forall|i: int|
            0 <= i < a.len() ==> {
                ||| (#[trigger] a[i]) == b[i]
                ||| 'A' <= a[i] <= 'Z' && b[i] as u32 == a[i] as u32 + 32
                ||| 'A' <= b[i] <= 'Z' && a[i] as u32 == b[i] as u32 + 32
            },
        same_ignoring_ascii_case(a, b) <==> ascii_lowercase(a) == ascii_lowercase(b),
{
    assert forall|c: char, d: char| #![trigger ascii_lower(c), ascii_lower(d)]
        ascii_lower(c) == ascii_lower(d) <==> {
            ||| c == d
            ||| 'A' <= c <= 'Z' && d as u32 == c as u32 + 32
            ||| 'A' <= d <= 'Z' && c as u32 == d as u32 + 32
        } by {}
    if ascii_lowercase(a) == ascii_lowercase(b) {
        assert(ascii_lowercase(a).len() == a.len());
        assert(ascii_lowercase(b).len() == b.len());
        assert forall|i: int| 0 <= i < a.len() implies ascii_lower(#[trigger] a[i]) == ascii_lower(
            b[i],
        ) by {
            assert(ascii_lowercase(a)[i] == ascii_lower(a[i]));
            assert(ascii_lowercase(b)[i] == ascii_lower(b[i]));
        }
    }
    if same_ignoring_ascii_case(a, b) {
        assert(ascii_lowercase(a) =~= ascii_lowercase(b));
    }
}

/// Of two texts the one with the lesser character at the first difference comes first; where one
/// begins the other, the shorter one does.
pub proof fn law_the_first_difference_orders(
    shared: Seq<char>,
    a: char,
    x: Seq<char>,
    b: char,
    y: Seq<char>,
)
    requires
        a != b,
    ensures
        lex_less(shared.push(a) + x, shared.push(b) + y) <==> a < b,
        lex_less(shared, shared.push(b) + y),
        !lex_less(shared.push(b) + y, shared),
        !lex_less(shared, shared),
    decreases shared.len(),
{
    let left = shared.push(a) + x;
    let right = shared.push(b) + y;
    lemma_lex_total(shared, shared);
    if shared.len() == 0 {
        assert(left[0] == a && right[0] == b);
    } else {
        let less = shared.drop_first();
        law_the_first_difference_orders(less, a, x, b, y);
        assert(left.drop_first() =~= less.push(a) + x);
        assert(right.drop_first() =~= less.push(b) + y);
        assert(left[0] == shared[0] && right[0] == shared[0]);
    }
}

/// White space is a tab, a line feed, a vertical tab, a form feed, a carriage return, a blank, and
/// the further separators that Unicode has; no other character of ASCII is.
pub proof fn law_white_space_is_what_separates(c: char)
    ensures
        c == ' ' || c == '\t' || c == '\n' || c == '\r' ==> is_white(c),
        (c as u32) < 0x80 ==> (is_white(c) <==> c == ' ' || (9 <= (c as u32) && (c as u32) <= 13)),
        0x80 <= (c as u32) && (c as u32) < 0x2000 ==> (is_white(c) <==> c as u32 == 0x85 || c as u32
            == 0xa0 || c as u32 == 0x1680),
        0x2000 <= c as u32 ==> (is_white(c) <==> (c as u32) <= 0x200a || c as u32 == 0x2028
            || c as u32 == 0x2029 || c as u32 == 0x202f || c as u32 == 0x205f || c as u32
            == 0x3000),
{
}

} // verus!
