//! Request headers and the credentials they carry.
use crate::listener::QUICListener;
use crate::text::{
    eq_ignore_ascii_case, find_white, opt_str, same_ignoring_ascii_case, span, to_chars, trim,
    trim_left, trim_start, trimmed, white,
};
use vstd::prelude::*;

verus! {

/// The headers of a request in their order: each name, and the value where it is text.
pub struct RequestHeaders {
    pub entries: Vec<(String, Option<String>)>,
}

/// The value of the first header of the name, whatever the case of its letters.
pub open spec fn header_value(entries: Seq<(String, Option<String>)>, name: Seq<char>) -> Option<
    Seq<char>,
>
    decreases entries.len(),
{
    if entries.len() == 0 {
        None
    } else if same_ignoring_ascii_case(entries[0].0@, name) {
        crate::text::opt(entries[0].1)
    } else {
        header_value(entries.drop_first(), name)
    }
}

/// A header of the name is there, text or not.
pub open spec fn has_header(entries: Seq<(String, Option<String>)>, name: Seq<char>) -> bool {
    exists|i: int|
        0 <= i < entries.len() && same_ignoring_ascii_case((#[trigger] entries[i]).0@, name)
}

impl RequestHeaders {
    pub fn lookup(&self, name: &str) -> (r: Option<&str>)
        ensures
            opt_str(r) == header_value(self.entries@, name@),
    {
        let mut i: usize = 0;
        assert(self.entries@.skip(0) =~= self.entries@);
        while i < self.entries.len()
            invariant
                i <= self.entries.len(),
                header_value(self.entries@, name@) == header_value(
                    self.entries@.skip(i as int),
                    name@,
                ),
            decreases self.entries.len() - i,
        {
            assert(self.entries@.skip(i as int)[0] == self.entries@[i as int]);
            if eq_ignore_ascii_case(self.entries[i].0.as_str(), name) {
                return crate::text::as_deref(&self.entries[i].1);
            }
            assert(self.entries@.skip(i as int).drop_first() =~= self.entries@.skip(i + 1));
            i = i + 1;
        }
        None
    }

    pub fn contains(&self, name: &str) -> (r: bool)
        ensures
            r == has_header(self.entries@, name@),
    {
        let mut i: usize = 0;
        while i < self.entries.len()
            invariant
                i <= self.entries.len(),
                forall|k: int|
                    0 <= k < i ==> !same_ignoring_ascii_case(
                        (#[trigger] self.entries@[k]).0@,
                        name@,
                    ),
            decreases self.entries.len() - i,
        {
            if eq_ignore_ascii_case(self.entries[i].0.as_str(), name) {
                return true;
            }
            i = i + 1;
        }
        false
    }
}

/// The token of an authorization header: the scheme `bearer` in any case, white space, and the
/// rest.
pub open spec fn bearer_token(raw: Seq<char>) -> Option<Seq<char>> {
    let value = trimmed(raw);
    let n = span(value, white()) as int;
    let token = trim_start(value.skip(n));
    if n < value.len() && same_ignoring_ascii_case(value.take(n), "bearer"@) && token.len() > 0 {
        Some(token)
    } else {
        None
    }
}

impl QUICListener {
    pub fn bearer_token_from_authorization_header(raw: &str) -> (r: Option<&str>)
        ensures
            opt_str(r) == bearer_token(raw@),
    {
        let value = trim(raw);
        let chars = to_chars(value);
        let split: usize = find_white(&chars, 0, true);
        assert(chars@.skip(0) =~= chars@);
        if split == chars.len() {
            return None;
        }
        let scheme = value.substring_char(0, split);
        let rest = value.substring_char(split, chars.len());
        assert(scheme@ =~= value@.take(split as int));
        assert(rest@ =~= value@.skip(split as int));
        if !eq_ignore_ascii_case(scheme, "bearer") {
            return None;
        }
        let token = trim_left(rest);
        if token.is_empty() {
            return None;
        }
        Some(token)
    }
}

/// A header is there exactly where some entry has its name, in whatever case; and what is not there
/// has no value.
pub proof fn law_a_header_is_there_by_name(
    entries: Seq<(String, Option<String>)>,
    name: Seq<char>,
    i: int,
)
    ensures
        0 <= i < entries.len() && same_ignoring_ascii_case(entries[i].0@, name) ==> has_header(
            entries,
            name,
        ),
        (forall|k: int|
            0 <= k < entries.len() ==> !same_ignoring_ascii_case((#[trigger] entries[k]).0@, name))
            ==> !has_header(entries, name),
        header_value(entries, name) is Some ==> has_header(entries, name),
    decreases entries.len(),
{
    if entries.len() > 0 {
        let rest = entries.drop_first();
        law_a_header_is_there_by_name(rest, name, i - 1);
        if same_ignoring_ascii_case(entries[0].0@, name) {
            assert(has_header(entries, name));
        } else if has_header(rest, name) {
            let k = choose|k: int|
                0 <= k < rest.len() && same_ignoring_ascii_case((#[trigger] rest[k]).0@, name);
            assert(same_ignoring_ascii_case(entries[k + 1].0@, name));
        }
    }
}

} // verus!
