use vstd::prelude::*;

verus! {

#[verifier::external_type_specification]
#[verifier::external_body]
pub struct ExThreadRng(rand::rngs::ThreadRng);

/// Whether `c` is an ASCII letter or digit.
pub open spec fn is_alphanumeric(c: char) -> bool {
    ('A' <= c && c <= 'Z') || ('a' <= c && c <= 'z') || ('0' <= c && c <= '9')
}

/// Relies on rand::Rng::gen for `i64`: any value of the type.
#[verifier::external_body]
pub(crate) fn random_i64(rng: &mut rand::rngs::ThreadRng) -> (r: i64) {
    rand::Rng::gen::<i64>(rng)
}

/// Relies on rand::Rng::gen for `i32`: any value of the type.
#[verifier::external_body]
pub(crate) fn random_i32(rng: &mut rand::rngs::ThreadRng) -> (r: i32) {
    rand::Rng::gen::<i32>(rng)
}

/// Relies on rand::Rng::gen for `u64`: any value of the type.
#[verifier::external_body]
pub(crate) fn random_u64(rng: &mut rand::rngs::ThreadRng) -> (r: u64) {
    rand::Rng::gen::<u64>(rng)
}

/// Relies on rand::Rng::gen_range for `i32`: a value in `lo..hi`; it
/// panics on an empty range, which `requires` excludes.
#[verifier::external_body]
pub(crate) fn random_i32_in(rng: &mut rand::rngs::ThreadRng, lo: i32, hi: i32) -> (r: i32)
    requires
        lo < hi,
    ensures
        lo <= r < hi,
{
    rand::Rng::gen_range(rng, lo..hi)
}

/// Relies on rand::Rng::gen_range for `u16`: a value in `lo..hi`; it
/// panics on an empty range, which `requires` excludes.
#[verifier::external_body]
pub(crate) fn random_u16_in(rng: &mut rand::rngs::ThreadRng, lo: u16, hi: u16) -> (r: u16)
    requires
        lo < hi,
    ensures
        lo <= r < hi,
{
    rand::Rng::gen_range(rng, lo..hi)
}

/// Relies on rand's Alphanumeric::sample_string: `len` characters, each
/// drawn from A-Z, a-z and 0-9.
#[verifier::external_body]
pub(crate) fn random_alphanumeric(rng: &mut rand::rngs::ThreadRng, len: usize) -> (r: String)
    ensures
        r@.len() == len,
        forall|i: int| 0 <= i < len ==> is_alphanumeric(#[trigger] r@[i]),
{
    rand::distributions::DistString::sample_string(&rand::distributions::Alphanumeric, rng, len)
}

} // verus!
