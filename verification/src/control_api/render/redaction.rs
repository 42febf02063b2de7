//! What is left out of what operators are shown.
use crate::text::{
    is_char, lemma_span, opt, opt_str, owned, same_text, span, split, split_on, texts, trim,
    trimmed,
};
use vstd::prelude::*;

verus! {

/// A part of a path that names something: neither empty nor the directory itself.
pub open spec fn names_something(part: Seq<char>) -> bool {
    part.len() > 0 && part != "."@
}

/// The last part that names something.
pub open spec fn last_part(parts: Seq<Seq<char>>) -> Option<Seq<char>>
    decreases parts.len(),
{
    if parts.len() == 0 {
        None
    } else if names_something(parts.last()) {
        Some(parts.last())
    } else {
        last_part(parts.drop_last())
    }
}

/// The file that a path leads to: its last part, unless that leads back up or there is none.
pub open spec fn file_name(path: Seq<char>) -> Option<Seq<char>> {
    match last_part(split_on(path, '/')) {
        Some(part) if part != ".."@ => Some(part),
        _ => None,
    }
}

/// What operators are shown of a path: its file alone.
pub open spec fn redacted_path(path: Seq<char>) -> Seq<char> {
    if trimmed(path).len() == 0 {
        "<empty>"@
    } else {
        match file_name(trimmed(path)) {
            Some(name) => ".../"@ + name,
            None => "<path>"@,
        }
    }
}

fn find_file_name(path: &str) -> (r: Option<String>)
    ensures
        opt(r) == file_name(path@),
{
    let parts = split(path, '/');
    let ghost all = texts(parts@);
    let mut i: usize = parts.len();
    assert(all.take(all.len() as int) =~= all);
    while i > 0
        invariant
            i <= parts.len(),
            all == texts(parts@),
            all == split_on(path@, '/'),
            last_part(all) == last_part(all.take(i as int)),
        decreases i,
    {
        let ghost prefix = all.take(i as int);
        assert(prefix.last() == parts@[i - 1]@);
        assert(prefix.drop_last() =~= all.take(i - 1));
        let part = parts[i - 1].as_str();
        if !part.is_empty() && !same_text(part, ".") {
            if same_text(part, "..") {
                return None;
            }
            return Some(parts[i - 1].clone());
        }
        i = i - 1;
    }
    None
}

pub fn sanitize_path(path: &str) -> (r: String)
    ensures
        r@ == redacted_path(path@),
{
    let text = trim(path);
    if text.is_empty() {
        return owned("<empty>");
    }
    match find_file_name(text) {
        Some(name) => {
            let mut r = owned(".../");
            r.append(name.as_str());
            r
        },
        None => owned("<path>"),
    }
}

/// A setting is present and not blank.
pub open spec fn is_present(value: Option<Seq<char>>) -> bool {
    match value {
        Some(value) => trimmed(value).len() > 0,
        None => false,
    }
}

pub fn option_is_present(value: Option<&str>) -> (r: bool)
    ensures
        r == is_present(opt_str(value)),
{
    match value {
        Some(value) => !trim(value).is_empty(),
        None => false,
    }
}

/// The parts of a split text do not hold the separator.
proof fn lemma_parts_lack_separator(s: Seq<char>, sep: char, i: int)
    requires
        0 <= i < split_on(s, sep).len(),
    ensures
        !split_on(s, sep)[i].contains(sep),
    decreases s.len(),
{
    lemma_span(s, is_char(sep));
    let n = span(s, is_char(sep)) as int;
    let parts = split_on(s, sep);
    if n >= s.len() {
        assert(parts[0] == s);
    } else if i == 0 {
        assert(parts[0] == s.take(n));
        assert forall|k: int| 0 <= k < n implies s.take(n)[k] != sep by {
            assert(!is_char(sep)(s[k]));
        }
    } else {
        lemma_parts_lack_separator(s.skip(n + 1), sep, i - 1);
        assert(parts[i] == split_on(s.skip(n + 1), sep)[i - 1]);
    }
}

proof fn lemma_last_part(parts: Seq<Seq<char>>)
    requires
        last_part(parts) is Some,
    ensures
        exists|i: int| 0 <= i < parts.len() && parts[i] == last_part(parts)->0,
    decreases parts.len(),
{
    if names_something(parts.last()) {
        assert(parts[parts.len() - 1] == parts.last());
    } else {
        lemma_last_part(parts.drop_last());
        let i = choose|i: int|
            0 <= i < parts.drop_last().len() && parts.drop_last()[i] == last_part(
                parts.drop_last(),
            )->0;
        assert(parts[i] == last_part(parts)->0);
    }
}

/// What is shown of a path holds no directory: a fixed text, or a fixed prefix and a name without a
/// separator.
pub proof fn law_paths_show_no_directory(path: Seq<char>)
    ensures
        ({
            let shown = redacted_path(path);
            ||| shown == "<empty>"@
            ||| shown == "<path>"@
            ||| exists|name: Seq<char>| #[trigger] (".../"@ + name) == shown && !name.contains('/')
        }),
{
    if trimmed(path).len() > 0 {
        match file_name(trimmed(path)) {
            Some(name) => {
                let parts = split_on(trimmed(path), '/');
                lemma_last_part(parts);
                let i = choose|i: int| 0 <= i < parts.len() && parts[i] == last_part(parts)->0;
                lemma_parts_lack_separator(trimmed(path), '/', i);
                assert((".../"@ + name) == redacted_path(path));
            },
            None => {},
        }
    }
}

} // verus!
