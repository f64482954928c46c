//! Short random tokens drawn from the thread-local generator.

use rand::distributions::Alphanumeric;
use rand::rngs::ThreadRng;
use rand::Rng;
use vstd::prelude::*;

verus! {

#[verifier::external_type_specification]
#[verifier::external_body]
pub struct ExThreadRng(ThreadRng);

/// `rand::thread_rng` hands out the generator of the calling thread, seeded by
/// the system. Nothing is claimed of it.
pub assume_specification[ rand::thread_rng ]() -> (rng: ThreadRng)
;

/// `String::push` appends one character to the end of the string.
pub assume_specification[ String::push ](s: &mut String, ch: char)
    ensures
        final(s)@ == old(s)@.push(ch),
;

/// An ASCII letter or digit.
pub open spec fn is_alphanumeric(c: char) -> bool {
    ||| 'a' <= c <= 'z'
    ||| 'A' <= c <= 'Z'
    ||| '0' <= c <= '9'
}

/// A token: `len` characters, each an ASCII letter or digit.
pub open spec fn is_token(s: Seq<char>, len: nat) -> bool {
    &&& s.len() == len
    &&& forall|i: int| 0 <= i < s.len() ==> is_alphanumeric(#[trigger] s[i])
}

/// `Rng::sample` with the `Alphanumeric` distribution draws one byte out of
/// `A-Z`, `a-z` and `0-9`; which one is left open.
#[verifier::external_body]
fn sample_alphanumeric(rng: &mut ThreadRng) -> (c: char)
    ensures
        is_alphanumeric(c),
{
    rng.sample(Alphanumeric) as char
}

/// Draws a fresh token of `len` characters.
pub fn random_token(len: usize) -> (token: String)
    ensures
        is_token(token@, len as nat),
{
    let mut rng = rand::thread_rng();
    let mut token = String::new();
    let mut drawn: usize = 0;
    while drawn < len
        invariant
            drawn <= len,
            is_token(token@, drawn as nat),
        decreases len - drawn,
    {
        let c = sample_alphanumeric(&mut rng);
        token.push(c);
        drawn += 1;
    }
    token
}

} // verus!
