use vstd::prelude::*;

verus! {

/// Relies on rand's Rng::gen_range with the thread-local generator: it
/// returns a value inside the given inclusive range and panics only on an
/// empty range. Nothing more is assumed of the draw; callers must hold for
/// every value in the range.
#[verifier::external_body]
pub(crate) fn draw_in_range(lo: i128, hi: i128) -> (r: i128)
    requires
        lo <= hi,
    ensures
        lo <= r <= hi,
{
    rand::Rng::gen_range(&mut rand::thread_rng(), lo..=hi)
}

/// A roll in [0, 100), for the Bernoulli event transitions.
pub(crate) fn draw_percent() -> (r: u64)
    ensures
        r < 100,
{
    let v = draw_in_range(0, 99);
    v as u64
}

} // verus!
