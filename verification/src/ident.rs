use vstd::prelude::*;

verus! {

/// Number of characters in a generated object identifier.
pub const ID_LENGTH: usize = 10;

/// The characters an identifier may consist of: the URL-safe alphabet
/// (letters, digits, `_` and `-`). In particular an identifier never
/// contains `/`, so appending one to a path adds exactly one segment.
pub open spec fn is_id_char(c: char) -> bool {
    ||| c == '_'
    ||| c == '-'
    ||| '0' <= c && c <= '9'
    ||| 'a' <= c && c <= 'z'
    ||| 'A' <= c && c <= 'Z'
}

/// Relies on nanoid::format with nanoid::alphabet::SAFE (the 64 URL-safe
/// symbols) and the default secure random source: the result holds exactly
/// `len` characters, each drawn from that alphabet.
#[verifier::external_body]
pub fn generate_id(len: usize) -> (r: String)
    ensures
        r@.len() == len,
        forall|i: int| 0 <= i < r@.len() ==> is_id_char(#[trigger] r@[i]),
{
    nanoid::format(nanoid::rngs::default, &nanoid::alphabet::SAFE, len)
}

} // verus!
