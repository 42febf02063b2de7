//! Operations on text, stated over the sequence of characters a string holds.
use vstd::prelude::*;

verus! {

/// `String::push` appends one character to the end of the string.
pub assume_specification[ String::push ](s: &mut String, c: char)
    ensures
        final(s)@ == old(s)@.push(c),
;

/// Unicode's `White_Space` property.
pub open spec fn is_white(c: char) -> bool {
    let n = c as u32;
    ||| 0x9 <= n <= 0xd
    ||| n == 0x20
    ||| n == 0x85
    ||| n == 0xa0
    ||| n == 0x1680
    ||| 0x2000 <= n <= 0x200a
    ||| n == 0x2028
    ||| n == 0x2029
    ||| n == 0x202f
    ||| n == 0x205f
    ||| n == 0x3000
}

pub fn is_whitespace(c: char) -> (r: bool)
    ensures
        r == is_white(c),
{
    let n: u32 = c as u32;
    (0x9 <= n && n <= 0xd) || n == 0x20 || n == 0x85 || n == 0xa0 || n == 0x1680
        || (0x2000 <= n && n <= 0x200a) || n == 0x2028 || n == 0x2029 || n == 0x202f
        || n == 0x205f || n == 0x3000
}

/// The characters of `s`, as a vector.
pub fn to_chars(s: &str) -> (r: Vec<char>)
    ensures
        r@ == s@,
{
    let mut r: Vec<char> = Vec::new();
    for c in it: s.chars()
        invariant
            it.seq() == s@,
            r@ == s@.take(it.index()),
    {
        r.push(c);
        assert(s@.take(it.index() + 1) =~= s@.take(it.index()).push(c));
    }
    assert(s@.take(s@.len() as int) =~= s@);
    r
}

/// The string made of `chars`.
pub fn from_chars(chars: &[char]) -> (r: String)
    ensures
        r@ == chars@,
{
    let mut r = String::new();
    let mut i: usize = 0;
    while i < chars.len()
        invariant
            i <= chars.len(),
            r@ == chars@.take(i as int),
        decreases chars.len() - i,
    {
        r.push(chars[i]);
        i = i + 1;
        assert(chars@.take(i as int) =~= chars@.take(i - 1).push(chars@[i - 1]));
    }
    assert(chars@.take(i as int) =~= chars@);
    r
}

/// How many characters `s` has before the first one on which `stop` holds; all of them where it
/// holds on none.
pub open spec fn span(s: Seq<char>, stop: spec_fn(char) -> bool) -> nat
    decreases s.len(),
{
    if s.len() == 0 || stop(s[0]) {
        0
    } else {
        1 + span(s.drop_first(), stop)
    }
}

pub open spec fn is_char(sep: char) -> spec_fn(char) -> bool {
    |c: char| c == sep
}

pub open spec fn white() -> spec_fn(char) -> bool {
    |c: char| is_white(c)
}

pub open spec fn not_white() -> spec_fn(char) -> bool {
    |c: char| !is_white(c)
}

/// A position up to which `stop` never holds, and at which it holds or the text ends, is the span.
pub proof fn lemma_span_is(s: Seq<char>, stop: spec_fn(char) -> bool, k: int)
    requires
        0 <= k <= s.len(),
        forall|i: int| 0 <= i < k ==> !stop(#[trigger] s[i]),
        k == s.len() || stop(s[k]),
    ensures
        span(s, stop) == k,
    decreases s.len(),
{
    if s.len() > 0 && k > 0 {
        assert(!stop(s[0]));
        let rest = s.drop_first();
        assert forall|i: int| 0 <= i < k - 1 implies !stop(#[trigger] rest[i]) by {
            assert(rest[i] == s[i + 1]);
        }
        if k < s.len() {
            assert(rest[k - 1] == s[k]);
        }
        lemma_span_is(rest, stop, k - 1);
    }
}

/// What a span says of the characters before it and of the one at it.
pub proof fn lemma_span(s: Seq<char>, stop: spec_fn(char) -> bool)
    ensures
        span(s, stop) <= s.len(),
        forall|i: int| 0 <= i < span(s, stop) ==> !stop(#[trigger] s[i]),
        span(s, stop) < s.len() ==> stop(s[span(s, stop) as int]),
    decreases s.len(),
{
    if s.len() > 0 && !stop(s[0]) {
        let rest = s.drop_first();
        lemma_span(rest, stop);
        assert forall|i: int| 0 <= i < span(s, stop) implies !stop(#[trigger] s[i]) by {
            if i > 0 {
                assert(s[i] == rest[i - 1]);
            }
        }
    }
}

/// The first position at or after `from` that holds `sep`, or the length where none does.
pub fn find_char(chars: &Vec<char>, from: usize, sep: char) -> (r: usize)
    requires
        from <= chars.len(),
    ensures
        from <= r <= chars.len(),
        r - from == span(chars@.skip(from as int), is_char(sep)),
{
    let mut i: usize = from;
    while i < chars.len() && chars[i] != sep
        invariant
            from <= i <= chars.len(),
            forall|k: int| from <= k < i ==> chars@[k] != sep,
        decreases chars.len() - i,
    {
        i = i + 1;
    }
    proof {
        lemma_span_is(chars@.skip(from as int), is_char(sep), i - from);
    }
    i
}

/// The first position at or after `from` whose character is white space exactly if `wanted`, or
/// the length where none is.
pub(crate) fn find_white(chars: &Vec<char>, from: usize, wanted: bool) -> (r: usize)
    requires
        from <= chars.len(),
    ensures
        from <= r <= chars.len(),
        r - from == span(chars@.skip(from as int), if wanted { white() } else { not_white() }),
{
    let mut i: usize = from;
    while i < chars.len() && is_whitespace(chars[i]) != wanted
        invariant
            from <= i <= chars.len(),
            forall|k: int| from <= k < i ==> is_white(#[trigger] chars@[k]) != wanted,
        decreases chars.len() - i,
    {
        i = i + 1;
    }
    proof {
        lemma_span_is(
            chars@.skip(from as int),
            if wanted { white() } else { not_white() },
            i - from,
        );
    }
    i
}

/// `s` without its leading white space.
pub open spec fn trim_start(s: Seq<char>) -> Seq<char> {
    s.skip(span(s, not_white()) as int)
}

/// `s` without its trailing white space.
pub open spec fn trim_end(s: Seq<char>) -> Seq<char>
    decreases s.len(),
{
    if s.len() > 0 && is_white(s.last()) {
        trim_end(s.drop_last())
    } else {
        s
    }
}

/// `s` without leading and trailing white space.
pub open spec fn trimmed(s: Seq<char>) -> Seq<char> {
    trim_end(trim_start(s))
}

pub fn trim_left(s: &str) -> (r: &str)
    ensures
        r@ == trim_start(s@),
{
    let chars = to_chars(s);
    let start: usize = find_white(&chars, 0, false);
    assert(chars@.skip(0) =~= chars@);
    assert(s@.subrange(start as int, chars.len() as int) =~= s@.skip(start as int));
    s.substring_char(start, chars.len())
}

pub fn trim(s: &str) -> (r: &str)
    ensures
        r@ == trimmed(s@),
{
    let chars = to_chars(s);
    let start: usize = find_white(&chars, 0, false);
    assert(chars@.skip(0) =~= chars@);
    let ghost body = s@.skip(start as int);
    let mut end: usize = chars.len();
    assert(body.take(end - start) =~= body);
    while end > start && is_whitespace(chars[end - 1])
        invariant
            start <= end <= chars.len(),
            chars@ == s@,
            body == s@.skip(start as int),
            trim_end(body) == trim_end(body.take(end - start)),
        decreases end,
    {
        let ghost cur = body.take(end - start);
        assert(cur.last() == chars@[end - 1]);
        assert(cur.drop_last() =~= body.take(end - 1 - start));
        end = end - 1;
    }
    proof {
        let cur = body.take(end - start);
        if cur.len() > 0 {
            assert(cur.last() == chars@[end - 1]);
        }
        assert(cur =~= s@.subrange(start as int, end as int));
    }
    s.substring_char(start, end)
}

/// The pieces of `s` between the occurrences of `sep`.
pub open spec fn split_on(s: Seq<char>, sep: char) -> Seq<Seq<char>>
    decreases s.len(),
{
    let n = span(s, is_char(sep));
    if n >= s.len() {
        seq![s]
    } else {
        seq![s.take(n as int)] + split_on(s.skip(n as int + 1), sep)
    }
}

/// The character sequences that a vector of strings holds.
pub open spec fn texts(v: Seq<String>) -> Seq<Seq<char>> {
    v.map_values(|s: String| s@)
}

pub fn split(s: &str, sep: char) -> (r: Vec<String>)
    ensures
        texts(r@) == split_on(s@, sep),
{
    let chars = to_chars(s);
    let mut r: Vec<String> = Vec::new();
    let mut from: usize = 0;
    assert(s@.skip(0) =~= s@);
    assert(texts(r@) + split_on(s@, sep) =~= split_on(s@, sep));
    loop
        invariant
            from <= chars.len(),
            chars@ == s@,
            split_on(s@, sep) == texts(r@) + split_on(s@.skip(from as int), sep),
        decreases chars.len() - from,
    {
        let end: usize = find_char(&chars, from, sep);
        let ghost rest = s@.skip(from as int);
        let piece = from_chars(slice_of(&chars, from, end));
        assert(piece@ =~= rest.take(end - from));
        let ghost before = r@;
        r.push(piece);
        assert(texts(r@) =~= texts(before).push(piece@));
        if end == chars.len() {
            assert(piece@ =~= rest);
            assert(texts(r@) =~= texts(before) + seq![rest]);
            return r;
        }
        assert(rest.skip(end - from + 1) =~= s@.skip(end + 1));
        assert(texts(r@) + split_on(s@.skip(end + 1), sep) =~= texts(before) + (seq![piece@]
            + split_on(s@.skip(end + 1), sep)));
        from = end + 1;
    }
}

/// `chars[from..to]`.
pub fn slice_of(chars: &Vec<char>, from: usize, to: usize) -> (r: &[char])
    requires
        from <= to <= chars.len(),
    ensures
        r@ == chars@.subrange(from as int, to as int),
{
    vstd::slice::slice_subrange(chars.as_slice(), from, to)
}

/// The maximal pieces of `s` that hold no white space.
pub open spec fn words(s: Seq<char>) -> Seq<Seq<char>>
    decreases s.len(),
{
    let start = span(s, not_white());
    if start >= s.len() {
        Seq::empty()
    } else {
        let body = s.skip(start as int);
        let n = span(body, white());
        if n == 0 || n > body.len() {
            Seq::empty()
        } else {
            seq![body.take(n as int)] + words(body.skip(n as int))
        }
    }
}

pub fn split_whitespace(s: &str) -> (r: Vec<String>)
    ensures
        texts(r@) == words(s@),
{
    let chars = to_chars(s);
    let mut r: Vec<String> = Vec::new();
    let mut from: usize = 0;
    assert(s@.skip(0) =~= s@);
    assert(texts(r@) + words(s@) =~= words(s@));
    loop
        invariant
            from <= chars.len(),
            chars@ == s@,
            words(s@) == texts(r@) + words(s@.skip(from as int)),
        decreases chars.len() - from,
    {
        let start: usize = find_white(&chars, from, false);
        let ghost rest = s@.skip(from as int);
        if start == chars.len() {
            assert(texts(r@) + words(rest) =~= texts(r@));
            return r;
        }
        let end: usize = find_white(&chars, start, true);
        proof {
            lemma_span(rest, not_white());
            assert(rest[start - from] == chars@[start as int]);
            lemma_span(s@.skip(start as int), white());
            assert(s@.skip(start as int)[0] == chars@[start as int]);
            assert(rest.skip(start - from) =~= s@.skip(start as int));
        }
        let piece = from_chars(slice_of(&chars, start, end));
        let ghost body = s@.skip(start as int);
        assert(piece@ =~= body.take(end - start));
        assert(body.skip(end - start) =~= s@.skip(end as int));
        let ghost before = r@;
        r.push(piece);
        assert(texts(r@) =~= texts(before).push(piece@));
        assert(texts(r@) + words(s@.skip(end as int)) =~= texts(before) + (seq![piece@] + words(
            s@.skip(end as int),
        )));
        from = end;
    }
}

/// `pat` occurs in `s` at position `i`.
pub open spec fn occurs_at(s: Seq<char>, pat: Seq<char>, i: int) -> bool {
    0 <= i && i + pat.len() <= s.len() && s.subrange(i, i + pat.len()) == pat
}

/// `pat` occurs somewhere in `s`.
pub open spec fn contains_text(s: Seq<char>, pat: Seq<char>) -> bool {
    exists|i: int| occurs_at(s, pat, i)
}

fn matches_at(s: &Vec<char>, pat: &Vec<char>, at: usize) -> (r: bool)
    requires
        at <= s.len(),
    ensures
        r == occurs_at(s@, pat@, at as int),
{
    if s.len() - at < pat.len() {
        return false;
    }
    let mut k: usize = 0;
    while k < pat.len()
        invariant
            k <= pat.len(),
            at + pat.len() <= s.len(),
            forall|j: int| 0 <= j < k ==> s@[at + j] == pat@[j],
        decreases pat.len() - k,
    {
        if s[at + k] != pat[k] {
            assert(s@.subrange(at as int, at + pat.len())[k as int] != pat@[k as int]);
            return false;
        }
        k = k + 1;
    }
    assert(s@.subrange(at as int, at + pat.len()) =~= pat@);
    true
}

pub fn contains(s: &str, pat: &str) -> (r: bool)
    ensures
        r == contains_text(s@, pat@),
{
    let chars = to_chars(s);
    let wanted = to_chars(pat);
    let mut i: usize = 0;
    while i < chars.len()
        invariant
            i <= chars.len(),
            chars@ == s@,
            wanted@ == pat@,
            forall|k: int| 0 <= k < i ==> !occurs_at(s@, pat@, k),
        decreases chars.len() - i,
    {
        if matches_at(&chars, &wanted, i) {
            return true;
        }
        i = i + 1;
    }
    matches_at(&chars, &wanted, i)
}

pub fn starts_with(s: &str, pat: &str) -> (r: bool)
    ensures
        r == pat@.is_prefix_of(s@),
{
    let chars = to_chars(s);
    let wanted = to_chars(pat);
    let r = matches_at(&chars, &wanted, 0);
    r
}

/// `s` without the prefix `pat`, where it has it.
pub fn strip_prefix<'a>(s: &'a str, pat: &str) -> (r: Option<&'a str>)
    ensures
        r is Some <==> pat@.is_prefix_of(s@),
        r is Some ==> s@ == pat@ + r->0@,
{
    if starts_with(s, pat) {
        let from: usize = pat.unicode_len();
        let to: usize = s.unicode_len();
        let rest = s.substring_char(from, to);
        assert(s@ =~= pat@ + rest@);
        Some(rest)
    } else {
        None
    }
}

/// The parts of `s` before and after the last `sep`.
pub fn rsplit_once(s: &str, sep: char) -> (r: Option<(&str, &str)>)
    ensures
        r is None <==> !s@.contains(sep),
        r matches Some(parts) ==> s@ == parts.0@.push(sep) + parts.1@ && !parts.1@.contains(sep),
{
    let chars = to_chars(s);
    let mut i: usize = chars.len();
    while i > 0
        invariant
            i <= chars.len(),
            chars@ == s@,
            forall|k: int| i <= k < chars.len() ==> s@[k] != sep,
        decreases i,
    {
        if chars[i - 1] == sep {
            let left = s.substring_char(0, i - 1);
            let right = s.substring_char(i, chars.len());
            assert(s@ =~= left@.push(sep) + right@);
            assert(s@[i - 1] == sep);
            assert forall|k: int| 0 <= k < right@.len() implies right@[k] != sep by {
                assert(right@[k] == s@[i + k]);
            }
            return Some((left, right));
        }
        i = i - 1;
    }
    None
}

/// Two texts hold the same characters.
pub fn same_text(a: &str, b: &str) -> (r: bool)
    ensures
        r == (a@ == b@),
{
    let left = to_chars(a);
    let right = to_chars(b);
    let at_start = matches_at(&left, &right, 0);
    if at_start {
        assert(a@.subrange(0, b@.len() as int) == b@);
    }
    if left.len() == right.len() {
        assert(a@.subrange(0, a@.len() as int) =~= a@);
        at_start
    } else {
        false
    }
}

/// `c` with an ASCII capital letter replaced by its small one.
pub open spec fn ascii_lower(c: char) -> char {
    if 'A' <= c <= 'Z' {
        ((c as u32 + 32) as u8) as char
    } else {
        c
    }
}

/// Two texts are equal up to the case of ASCII letters.
pub open spec fn same_ignoring_ascii_case(a: Seq<char>, b: Seq<char>) -> bool {
    a.len() == b.len() && forall|i: int|
        0 <= i < a.len() ==> ascii_lower(#[trigger] a[i]) == ascii_lower(b[i])
}

fn to_ascii_lower(c: char) -> (r: char)
    ensures
        r == ascii_lower(c),
{
    if 'A' <= c && c <= 'Z' {
        ((c as u32 + 32) as u8) as char
    } else {
        c
    }
}

pub fn eq_ignore_ascii_case(a: &str, b: &str) -> (r: bool)
    ensures
        r == same_ignoring_ascii_case(a@, b@),
{
    let left = to_chars(a);
    let right = to_chars(b);
    if left.len() != right.len() {
        return false;
    }
    let mut i: usize = 0;
    while i < left.len()
        invariant
            i <= left.len(),
            left.len() == right.len(),
            left@ == a@,
            right@ == b@,
            forall|k: int| 0 <= k < i ==> ascii_lower(#[trigger] a@[k]) == ascii_lower(b@[k]),
        decreases left.len() - i,
    {
        if to_ascii_lower(left[i]) != to_ascii_lower(right[i]) {
            assert(ascii_lower(a@[i as int]) != ascii_lower(b@[i as int]));
            return false;
        }
        i = i + 1;
    }
    true
}

/// The small-letter form of `s`, over ASCII letters.
pub open spec fn ascii_lowercase(s: Seq<char>) -> Seq<char> {
    s.map_values(|c: char| ascii_lower(c))
}

pub fn to_ascii_lowercase(s: &str) -> (r: String)
    ensures
        r@ == ascii_lowercase(s@),
{
    let chars = to_chars(s);
    let mut r = String::new();
    let mut i: usize = 0;
    while i < chars.len()
        invariant
            i <= chars.len(),
            chars@ == s@,
            r@ == ascii_lowercase(s@.take(i as int)),
        decreases chars.len() - i,
    {
        r.push(to_ascii_lower(chars[i]));
        i = i + 1;
        assert(ascii_lowercase(s@.take(i as int)) =~= ascii_lowercase(s@.take(i - 1)).push(
            ascii_lower(s@[i - 1]),
        ));
    }
    assert(s@.take(i as int) =~= s@);
    r
}

/// `a` comes before `b` in the order of their characters' code points.
pub open spec fn lex_less(a: Seq<char>, b: Seq<char>) -> bool
    decreases a.len(),
{
    if b.len() == 0 {
        false
    } else if a.len() == 0 {
        true
    } else if a[0] == b[0] {
        lex_less(a.drop_first(), b.drop_first())
    } else {
        a[0] < b[0]
    }
}

pub proof fn lemma_lex_total(a: Seq<char>, b: Seq<char>)
    ensures
        lex_less(a, b) || lex_less(b, a) || a == b,
        !(lex_less(a, b) && lex_less(b, a)),
        a == b ==> !lex_less(a, b),
    decreases a.len(),
{
    if a.len() > 0 && b.len() > 0 && a[0] == b[0] {
        lemma_lex_total(a.drop_first(), b.drop_first());
        if a.drop_first() == b.drop_first() {
            assert(a =~= seq![a[0]] + a.drop_first());
            assert(b =~= seq![b[0]] + b.drop_first());
        }
    } else if a.len() == 0 && b.len() == 0 {
        assert(a =~= b);
    }
}

pub proof fn lemma_lex_transitive(a: Seq<char>, b: Seq<char>, c: Seq<char>)
    requires
        lex_less(a, b),
        lex_less(b, c),
    ensures
        lex_less(a, c),
    decreases a.len(),
{
    if a.len() > 0 && a[0] == b[0] && b[0] == c[0] {
        lemma_lex_transitive(a.drop_first(), b.drop_first(), c.drop_first());
    }
}

pub fn comes_before(a: &str, b: &str) -> (r: bool)
    ensures
        r == lex_less(a@, b@),
{
    let left = to_chars(a);
    let right = to_chars(b);
    let mut i: usize = 0;
    assert(a@.skip(0) =~= a@);
    assert(b@.skip(0) =~= b@);
    loop
        invariant
            i <= left.len(),
            i <= right.len(),
            left@ == a@,
            right@ == b@,
            lex_less(a@, b@) == lex_less(a@.skip(i as int), b@.skip(i as int)),
        decreases left.len() - i,
    {
        if i == right.len() {
            return false;
        }
        if i == left.len() {
            return true;
        }
        if left[i] != right[i] {
            return left[i] < right[i];
        }
        assert(a@.skip(i as int).drop_first() =~= a@.skip(i + 1));
        assert(b@.skip(i as int).drop_first() =~= b@.skip(i + 1));
        i = i + 1;
    }
}

pub open spec fn is_digit(c: char) -> bool {
    '0' <= c <= '9'
}

/// The number that a run of decimal digits denotes.
pub open spec fn digits_value(s: Seq<char>) -> nat
    decreases s.len(),
{
    if s.len() == 0 {
        0
    } else {
        digits_value(s.drop_last()) * 10 + (s.last() as u32 - '0' as u32) as nat
    }
}

pub open spec fn all_digits(s: Seq<char>) -> bool {
    forall|i: int| 0 <= i < s.len() ==> is_digit(#[trigger] s[i])
}

/// A text denotes an unsigned number: digits, at least one, behind an optional plus sign.
pub open spec fn unsigned_value(s: Seq<char>) -> Option<nat> {
    let digits = if s.len() > 0 && s[0] == '+' {
        s.drop_first()
    } else {
        s
    };
    if digits.len() > 0 && all_digits(digits) {
        Some(digits_value(digits))
    } else {
        None
    }
}

/// The number that `s` denotes, where it denotes one that fits.
pub fn parse_u64(s: &str) -> (r: Option<u64>)
    ensures
        r == match unsigned_value(s@) {
            Some(n) if n <= u64::MAX => Some(n as u64),
            _ => None,
        },
{
    let chars = to_chars(s);
    let mut start: usize = 0;
    if chars.len() > 0 && chars[0] == '+' {
        start = 1;
    }
    let ghost digits = if s@.len() > 0 && s@[0] == '+' { s@.drop_first() } else { s@ };
    assert(digits =~= s@.skip(start as int));
    if chars.len() == start {
        return None;
    }
    let mut value: u64 = 0;
    let mut fits: bool = true;
    let mut i: usize = start;
    while i < chars.len()
        invariant
            start <= i <= chars.len(),
            start <= 1,
            chars@ == s@,
            digits == s@.skip(start as int),
            digits == if s@.len() > 0 && s@[0] == '+' { s@.drop_first() } else { s@ },
            forall|k: int| 0 <= k < i - start ==> is_digit(#[trigger] digits[k]),
            fits ==> value == digits_value(digits.take(i - start)),
            !fits ==> digits_value(digits.take(i - start)) > u64::MAX,
        decreases chars.len() - i,
    {
        let c = chars[i];
        assert(digits[i - start] == c);
        if c < '0' || c > '9' {
            assert(!is_digit(digits[i - start]));
            assert(!all_digits(digits));
            return None;
        }
        let digit: u64 = (c as u32 - '0' as u32) as u64;
        let ghost next = digits.take(i + 1 - start);
        assert(next.drop_last() =~= digits.take(i - start));
        assert(next.last() == c);
        if fits {
            match value.checked_mul(10) {
                Some(shifted) => match shifted.checked_add(digit) {
                    Some(sum) => {
                        value = sum;
                    },
                    None => {
                        fits = false;
                    },
                },
                None => {
                    fits = false;
                },
            }
        }
        i = i + 1;
    }
    assert(digits.take(i - start) =~= digits);
    if fits {
        Some(value)
    } else {
        None
    }
}

/// The decimal digit of `n`, which is under ten.
pub open spec fn digit_char(n: nat) -> char {
    ((n + 48) as u8) as char
}

/// The decimal digits of `n`.
pub open spec fn decimal(n: nat) -> Seq<char>
    decreases n,
{
    if n < 10 {
        seq![digit_char(n)]
    } else {
        decimal(n / 10).push(digit_char(n % 10))
    }
}

pub fn to_decimal(n: u64) -> (r: String)
    ensures
        r@ == decimal(n as nat),
    decreases n,
{
    let mut r = String::new();
    if n >= 10 {
        r = to_decimal(n / 10);
    }
    let digit: u8 = (n % 10) as u8;
    r.push((digit + 48) as char);
    assert(n < 10 ==> r@ =~= seq![digit_char(n as nat)]);
    r
}

/// The list holds the text.
pub fn list_contains(list: &Vec<String>, wanted: &str) -> (r: bool)
    ensures
        r == texts(list@).contains(wanted@),
{
    let mut i: usize = 0;
    while i < list.len()
        invariant
            i <= list.len(),
            forall|k: int| 0 <= k < i ==> #[trigger] list@[k]@ != wanted@,
        decreases list.len() - i,
    {
        if same_text(list[i].as_str(), wanted) {
            assert(texts(list@)[i as int] == wanted@);
            return true;
        }
        i = i + 1;
    }
    assert forall|k: int| 0 <= k < texts(list@).len() implies texts(list@)[k] != wanted@ by {
        assert(list@[k]@ != wanted@);
    }
    false
}

/// A copy of a list of strings.
pub fn clone_list(list: &Vec<String>) -> (r: Vec<String>)
    ensures
        r@ == list@,
{
    let mut r: Vec<String> = Vec::new();
    let mut i: usize = 0;
    while i < list.len()
        invariant
            i <= list.len(),
            r@ == list@.take(i as int),
        decreases list.len() - i,
    {
        r.push(list[i].clone());
        i = i + 1;
        assert(list@.take(i as int) =~= list@.take(i - 1).push(list@[i - 1]));
    }
    assert(list@.take(i as int) =~= list@);
    r
}

/// The view of an optional string.
pub open spec fn opt(s: Option<String>) -> Option<Seq<char>> {
    match s {
        Some(text) => Some(text@),
        None => None,
    }
}

/// The view of an optional borrowed text.
pub open spec fn opt_str(s: Option<&str>) -> Option<Seq<char>> {
    match s {
        Some(text) => Some(text@),
        None => None,
    }
}

/// The text inside an optional string.
pub fn as_deref(s: &Option<String>) -> (r: Option<&str>)
    ensures
        opt_str(r) == opt(*s),
{
    match s {
        Some(text) => Some(text.as_str()),
        None => None,
    }
}

/// Two optional texts are both absent, or both present and equal.
pub fn same_option(a: Option<&str>, b: Option<&str>) -> (r: bool)
    ensures
        r == (opt_str(a) == opt_str(b)),
{
    match (a, b) {
        (Some(left), Some(right)) => same_text(left, right),
        (None, None) => true,
        _ => false,
    }
}

pub fn owned(s: &str) -> (r: String)
    ensures
        r@ == s@,
{
    String::from_str(s)
}

} // verus!
