//! Parsing of the `USERNAME:PASSWORD` credential argument: the text before
//! the first colon names the user, the text after it is the password.

use vstd::prelude::*;

verus! {

/// No colon occurs among the first `n` characters of `s`.
pub open spec fn colon_free(s: Seq<char>, n: int) -> bool {
    forall|j: int| 0 <= j < n ==> s[j] != ':'
}

/// Split `text` at its first colon: the characters before it name the user,
/// those after it are the password. `None` exactly when `text` holds no
/// colon at all.
pub fn parse_credentials(text: &str) -> (r: Option<(String, String)>)
    ensures
        (r is Some) <==> exists|i: int| 0 <= i < text@.len() && text@[i] == ':',
        r matches Some(pair) ==> exists|i: int|
            0 <= i < text@.len() && text@[i] == ':' && colon_free(text@, i) && pair.0@ == text@.subrange(
                0,
                i,
            ) && pair.1@ == text@.subrange(i + 1, text@.len() as int),
{
    let len = text.unicode_len();
    let mut i: usize = 0;
    while i < len
        invariant
            len == text@.len(),
            i <= len,
            colon_free(text@, i as int),
        decreases len - i,
    {
        if text.get_char(i) == ':' {
            let user = text.substring_char(0, i).to_owned();
            let pass = text.substring_char(i + 1, len).to_owned();
            return Some((user, pass));
        }
        i = i + 1;
    }

    None
}

} // verus!
