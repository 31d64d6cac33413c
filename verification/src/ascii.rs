//! Names without regard to the case of their ASCII letters.

use vstd::prelude::*;
use vstd::string::StrSliceExecFns;

verus! {

/// The lower-case letter for an upper-case ASCII letter; any other character is itself.
pub open spec fn ascii_lowercase(c: char) -> char {
    if 'A' <= c <= 'Z' {
        ((c as u8 + 32) as u8) as char
    } else {
        c
    }
}

/// The characters with every upper-case ASCII letter in lower case.
pub open spec fn lowercased(name: Seq<char>) -> Seq<char> {
    name.map_values(|c: char| ascii_lowercase(c))
}

/// The lower-case letter for an upper-case ASCII letter; any other character is itself.
pub fn to_ascii_lowercase(c: char) -> (lower: char)
    ensures
        lower == ascii_lowercase(c),
{
    if 'A' <= c && c <= 'Z' {
        ((c as u8) + 32) as char
    } else {
        c
    }
}

/// Whether two names are the same but for the case of their ASCII letters.
pub fn eq_ignore_ascii_case(name: &str, expected: &str) -> (equal: bool)
    ensures
        equal == (lowercased(name@) == lowercased(expected@)),
{
    let len = name.unicode_len();
    if expected.unicode_len() != len {
        assert(lowercased(name@).len() != lowercased(expected@).len());
        return false;
    }
    let mut i: usize = 0;
    while i < len
        invariant
            i <= len,
            len == name@.len(),
            len == expected@.len(),
            forall|k: int| 0 <= k < i ==> ascii_lowercase(#[trigger] name@[k]) == ascii_lowercase(expected@[k]),
        decreases len - i,
    {
        if to_ascii_lowercase(name.get_char(i)) != to_ascii_lowercase(expected.get_char(i)) {
            assert(lowercased(name@)[i as int] != lowercased(expected@)[i as int]);
            return false;
        }
        i += 1;
    }
    assert(lowercased(name@) =~= lowercased(expected@));
    true
}

} // verus!
