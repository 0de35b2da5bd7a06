//! Random choices, drawn from `rand`'s generator of the current thread.
//! Nothing is claimed of which value comes, only of where it lies.

use vstd::prelude::*;

verus! {

/// Whether a byte is an ASCII letter or digit.
pub open spec fn is_alphanumeric(byte: u8) -> bool {
    (48 <= byte <= 57) || (65 <= byte <= 90) || (97 <= byte <= 122)
}

/// `Rng::gen_range` on the range from 0 up to `bound`: an index below
/// `bound`. The call panics on an empty range, which the precondition leaves
/// out.
#[verifier::external_body]
pub(crate) fn random_below(bound: usize) -> (index: usize)
    requires
        bound > 0,
    ensures
        index < bound,
{
    rand::Rng::gen_range(&mut rand::thread_rng(), 0..bound)
}

/// `Rng::sample` with the `Alphanumeric` distribution: one of the ASCII
/// letters and digits.
#[verifier::external_body]
pub(crate) fn random_alphanumeric() -> (byte: u8)
    ensures
        is_alphanumeric(byte),
{
    rand::Rng::sample(&mut rand::thread_rng(), rand::distributions::Alphanumeric)
}

/// `SliceRandom::choose` on the items: one of them.
#[verifier::external_body]
pub(crate) fn random_choice(items: &Vec<char>) -> (item: char)
    requires
        items@.len() > 0,
    ensures
        items@.contains(item),
{
    *rand::seq::SliceRandom::choose(items.as_slice(), &mut rand::thread_rng()).unwrap()
}

} // verus!
