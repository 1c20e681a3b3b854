//! Identifier validation shared by package, dependency, profile and
//! directory names.

use vstd::prelude::*;
use crate::errors::{ManifestError, NameKind};
use crate::ext::char_alphanumeric;

verus! {

/// A character a name may hold: alphanumeric, `_` or `-`.
pub open spec fn name_char_ok(c: char) -> bool {
    char_alphanumeric(c) || c == '_' || c == '-'
}

/// Index of the first character a name may not hold, or the length.
pub open spec fn first_bad_char(s: Seq<char>) -> int
    decreases s.len(),
{
    if s.len() == 0 {
        0
    } else if !name_char_ok(s[0]) {
        0
    } else {
        1 + first_bad_char(s.drop_first())
    }
}

pub proof fn lemma_first_bad_char(s: Seq<char>)
    ensures
        0 <= first_bad_char(s) <= s.len(),
        first_bad_char(s) < s.len() ==> !name_char_ok(s[first_bad_char(s)]),
        forall|j: int| 0 <= j < first_bad_char(s) ==> name_char_ok(s[j]),
    decreases s.len(),
{
    if s.len() == 0 {
    } else if !name_char_ok(s[0]) {
    } else {
        lemma_first_bad_char(s.drop_first());
        assert forall|j: int| 0 <= j < first_bad_char(s) implies name_char_ok(s[j]) by {
            if j > 0 {
                assert(name_char_ok(s.drop_first()[j - 1]));
            }
        }
    }
}

/// Whether every character of a name is acceptable.
pub open spec fn name_chars_ok(s: Seq<char>) -> bool {
    first_bad_char(s) == s.len()
}

/// Scans a name for its first unacceptable character.
pub fn find_bad_name_char(s: &str) -> (r: Option<char>)
    ensures
        match r {
            Some(c) => first_bad_char(s@) < s@.len() && c == s@[first_bad_char(s@)],
            None => name_chars_ok(s@),
        },
{
    proof {
        lemma_first_bad_char(s@);
    }
    let len = s.unicode_len();
    let mut i: usize = 0;
    while i < len
        invariant
            len == s@.len(),
            i <= len,
            forall|j: int| 0 <= j < i ==> name_char_ok(s@[j]),
            0 <= first_bad_char(s@) <= s@.len(),
            first_bad_char(s@) < s@.len() ==> !name_char_ok(s@[first_bad_char(s@)]),
            forall|j: int| 0 <= j < first_bad_char(s@) ==> name_char_ok(s@[j]),
        decreases len - i,
    {
        let c = s.get_char(i);
        let ok = crate::ext::is_alphanumeric_char(c) || c == '_' || c == '-';
        if !ok {
            assert(!name_char_ok(s@[i as int]));
            assert(i == first_bad_char(s@)) by {
                if i < first_bad_char(s@) {
                    assert(name_char_ok(s@[i as int]));
                }
                if i > first_bad_char(s@) {
                    assert(name_char_ok(s@[first_bad_char(s@)]));
                }
            }
            return Some(c);
        }
        i = i + 1;
    }
    assert(first_bad_char(s@) == s@.len()) by {
        if first_bad_char(s@) < s@.len() {
            assert(name_char_ok(s@[first_bad_char(s@)]));
        }
    }
    None
}

/// What package-name validation yields: the first unacceptable character
/// is an error naming the character and the name.
pub open spec fn validate_package_name_spec(name: Seq<char>, what: NameKind) -> Result<
    (),
    crate::errors::ErrorView,
> {
    if name_chars_ok(name) {
        Ok(())
    } else {
        Err(
            crate::errors::ErrorView::InvalidName {
                what,
                name,
                ch: name[first_bad_char(name)],
            },
        )
    }
}

/// Rejects a package or dependency name holding a character outside
/// letters, digits, `_` and `-`.
pub fn validate_package_name(name: &str, what: NameKind) -> (r: Result<(), ManifestError>)
    ensures
        crate::errors::result_view(r) == validate_package_name_spec(name@, what),
{
    match find_bad_name_char(name) {
        Some(ch) => Err(
            ManifestError::InvalidName { what, name: name.to_owned(), ch },
        ),
        None => Ok(()),
    }
}

} // verus!
