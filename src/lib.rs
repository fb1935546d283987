use vstd::prelude::*;

pub mod range;
pub mod vec;

pub use range::{Bound, IndexRange, range_len};
pub use vec::VecMin;

verus! {

/// The error of an operation that would leave a `VecMin<T, M>` shorter than `M`.
#[derive(Clone, Copy, Debug, PartialEq, Eq, PartialOrd, Ord, Hash)]
pub struct ModifyError<const M: usize>;

/// The decimal digits of `n`, most significant first.
pub open spec fn decimal(n: nat) -> Seq<char>
    decreases n,
{
    let d = ((n % 10) + ('0' as nat)) as char;
    if n < 10 {
        seq![d]
    } else {
        decimal(n / 10).push(d)
    }
}

impl<const M: usize> ModifyError<M> {
    /// A sentence that names the minimum length `M`.
    pub fn message(&self) -> (r: String)
        ensures
            r@ == "operation would reduce length below minimum required "@ + decimal(M as nat),
    {
        below_minimum_message(M)
    }
}

/// Relies on `format!` and `usize`'s `Display`, which writes `min` in decimal.
#[verifier::external_body]
fn below_minimum_message(min: usize) -> (r: String)
    ensures
        r@ == "operation would reduce length below minimum required "@ + decimal(min as nat),
{
    format!("operation would reduce length below minimum required {}", min)
}

} // verus!
