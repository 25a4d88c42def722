//! Syntactic checks on what a user types as e-mail address and password.

use vstd::prelude::*;
use vstd::std_specs::iter::IteratorSpec;

verus! {

broadcast use vstd::string::group_string_axioms;

/// Number of bytes in the UTF-8 encoding of `s`.
pub open spec fn utf8_len(s: Seq<char>) -> nat {
    vstd::utf8::encode_utf8(s).len()
}

/// An e-mail address is accepted when it holds an `@`.
pub open spec fn spec_is_valid_email(s: Seq<char>) -> bool {
    s.contains('@')
}

/// A password is accepted when its UTF-8 encoding has at least 8 bytes.
pub open spec fn spec_is_valid_password(s: Seq<char>) -> bool {
    utf8_len(s) >= 8
}

/// Whether `val` looks like an e-mail address.
pub fn is_valid_email(val: &String) -> (r: bool)
    ensures
        r == spec_is_valid_email(val@),
{
    let s = val.as_str();
    for c in it: s.chars()
        invariant
            it.seq() == s@,
            s@ == val@,
            forall|j: int| 0 <= j < it.index() ==> it.seq()[j] != '@',
    {
        if c == '@' {
            assert(val@[it.index() as int] == '@');
            return true;
        }
    }
    false
}

/// Whether `val` is long enough to be used as a password.
pub fn is_valid_password(val: &String) -> (r: bool)
    ensures
        r == spec_is_valid_password(val@),
{
    let bytes = val.as_str().as_bytes();
    bytes.len() >= 8
}

} // verus!
