//! The two sources of chance the control plane uses: fresh UUIDs and a
//! uniformly random pick among candidates.

use rand::seq::IteratorRandom;
use vstd::prelude::*;

verus! {

/// A lowercase hexadecimal digit.
pub open spec fn is_lower_hex(c: char) -> bool {
    let u = c as u32;
    (0x30 <= u <= 0x39) || (0x61 <= u <= 0x66)
}

/// The shape of a UUID in hyphenated lowercase form: 36 characters, hyphens at
/// positions 8, 13, 18 and 23, lowercase hex digits elsewhere.
pub open spec fn is_hyphenated_uuid(s: Seq<char>) -> bool {
    &&& s.len() == 36
    &&& forall|i: int|
        0 <= i < 36 ==> if i == 8 || i == 13 || i == 18 || i == 23 {
            #[trigger] s[i] == '-'
        } else {
            is_lower_hex(s[i])
        }
}

/// A hyphenated version-4 UUID: the version digit `4` at position 14 and a
/// variant digit `8`, `9`, `a` or `b` at position 19.
pub open spec fn is_v4_hyphenated_uuid(s: Seq<char>) -> bool {
    &&& is_hyphenated_uuid(s)
    &&& s[14] == '4'
    &&& (s[19] == '8' || s[19] == '9' || s[19] == 'a' || s[19] == 'b')
}

/// The shape of a UUID in simple lowercase form: 32 lowercase hex digits.
pub open spec fn is_simple_uuid(s: Seq<char>) -> bool {
    &&& s.len() == 32
    &&& forall|i: int| 0 <= i < 32 ==> is_lower_hex(#[trigger] s[i])
}

/// Calls `uuid::Uuid::new_v4()` and renders it with `to_string()`. The uuid crate
/// renders a `Uuid` through its hyphenated lowercase formatter, so the text has the
/// hyphenated shape; `new_v4` masks in the version nibble 4 and the variant bits
/// `10`, which land at positions 14 and 19. Which UUID comes back is chance and is
/// not stated.
#[verifier::external_body]
pub(crate) fn new_v4_hyphenated() -> (s: String)
    ensures
        is_v4_hyphenated_uuid(s@),
{
    uuid::Uuid::new_v4().to_string()
}

/// Calls `uuid::Uuid::new_v4()` and renders it with `.simple().to_string()`: 32
/// lowercase hex digits, the version digit `4` at position 12 and a variant digit
/// `8`, `9`, `a` or `b` at position 16. Which UUID comes back is chance and is not
/// stated.
#[verifier::external_body]
pub(crate) fn new_v4_simple() -> (s: String)
    ensures
        is_simple_uuid(s@),
        s@[12] == '4',
        s@[16] == '8' || s@[16] == '9' || s@[16] == 'a' || s@[16] == 'b',
{
    uuid::Uuid::new_v4().simple().to_string()
}

/// Calls `rand::seq::IteratorRandom::choose` on the range `0..count` with
/// `rand::thread_rng()`. For an exact-size iterator rand returns `None` when it is
/// empty and otherwise one of its items; which one is chance and is not stated.
#[verifier::external_body]
pub(crate) fn random_index(count: usize) -> (r: Option<usize>)
    ensures
        r is None <==> count == 0,
        r matches Some(i) ==> i < count,
{
    (0..count).choose(&mut rand::thread_rng())
}

} // verus!
