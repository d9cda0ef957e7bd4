//! Short names: random generation and the file each name maps to.

use crate::link::is_path_segment;
use rand::Rng;
use vstd::prelude::*;
use vstd::string::*;

verus! {

/// Number of characters in a generated short name.
pub const NAME_LENGTH: usize = 5;

/// Code of the first letter a generated name may hold, `a`.
pub const FIRST_LETTER: u8 = 97;

/// Code of the last letter a generated name may hold, `z`.
pub const LAST_LETTER: u8 = 122;

/// A lowercase ASCII letter.
pub open spec fn is_lowercase_letter(c: char) -> bool {
    'a' <= c && c <= 'z'
}

/// The shape of every generated name: `NAME_LENGTH` lowercase letters.
pub open spec fn is_generated_name(name: Seq<char>) -> bool {
    &&& name.len() == NAME_LENGTH
    &&& forall|i: int| 0 <= i < name.len() ==> is_lowercase_letter(#[trigger] name[i])
}

#[verifier::external_type_specification]
#[verifier::external_body]
pub struct ExThreadRng(rand::rngs::ThreadRng);

/// `rand::thread_rng` hands out the thread-local generator; nothing is
/// claimed about it.
pub assume_specification[ rand::thread_rng ]() -> (rng: rand::rngs::ThreadRng);

/// `String::push` appends one character to the end of the string.
pub assume_specification[ String::push ](s: &mut String, c: char)
    ensures
        final(s)@ == old(s)@.push(c),
;

/// `Rng::gen_range` on an inclusive range of bytes: the sample lies within
/// the bounds. The range must not be empty, or the call panics.
#[verifier::external_body]
fn sample_byte(rng: &mut rand::rngs::ThreadRng, low: u8, high: u8) -> (b: u8)
    requires
        low <= high,
    ensures
        low <= b <= high,
{
    rng.gen_range(low..=high)
}

/// Draws a fresh random name of `NAME_LENGTH` lowercase letters.
pub fn create_name() -> (name: String)
    ensures
        is_generated_name(name@),
{
    let mut name = String::new();
    let mut rng = rand::thread_rng();
    let mut i: usize = 0;
    while i < NAME_LENGTH
        invariant
            i <= NAME_LENGTH,
            name@.len() == i,
            forall|k: int| 0 <= k < name@.len() ==> is_lowercase_letter(#[trigger] name@[k]),
        decreases NAME_LENGTH - i,
    {
        let b: u8 = sample_byte(&mut rng, FIRST_LETTER, LAST_LETTER);
        name.push(b as char);
        i += 1;
    }
    name
}

/// A generated name is always a legal path segment.
pub proof fn lemma_generated_name_is_path_segment(name: Seq<char>)
    requires
        is_generated_name(name),
    ensures
        is_path_segment(name),
{
    assert forall|i: int| 0 <= i < name.len() implies #[trigger] name[i] != '/' && name[i]
        != '\0' by {
        assert(is_lowercase_letter(name[i]));
    }
}

} // verus!
