//! Random alphanumeric identifiers.

use rand::distributions::Alphanumeric;
use rand::{thread_rng, Rng};
use vstd::prelude::*;

verus! {

/// Whether `c` is one of the 62 ASCII letters and digits.
pub open spec fn is_alphanumeric(c: char) -> bool {
    ('A' <= c && c <= 'Z') || ('a' <= c && c <= 'z') || ('0' <= c && c <= '9')
}

/// Whether `s` has exactly `len` characters, each an ASCII letter or digit.
pub open spec fn is_identifier(s: Seq<char>, len: nat) -> bool {
    &&& s.len() == len
    &&& forall|i: int| 0 <= i < s.len() ==> is_alphanumeric(#[trigger] s[i])
}

/// Draws `len` samples of `rand::distributions::Alphanumeric` from
/// `rand::thread_rng()` and collects them into a string.
///
/// Trusted: each sample is a byte of the set A-Z, a-z, 0-9, so the result has
/// `len` characters of that set. Which ones is left open: two calls may differ.
/// The thread's generator aborts the process if the operating system gives it
/// no seed.
#[verifier::external_body]
fn sample_alphanumeric(len: usize) -> (out: String)
    ensures
        is_identifier(out@, len as nat),
{
    thread_rng().sample_iter(Alphanumeric).map(char::from).take(len).collect()
}

/// A fresh random identifier of `len` ASCII letters and digits.
///
/// Each call draws from the calling thread's own generator, so concurrent
/// callers need no synchronisation.
pub fn random_alphanum(len: usize) -> (out: String)
    ensures
        is_identifier(out@, len as nat),
{
    sample_alphanumeric(len)
}

} // verus!
