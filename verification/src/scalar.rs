use vstd::prelude::*;

verus! {

/// An opaque scalar.  The descent core never inspects the payload: the
/// caller encodes its numeric representation of a real number into the
/// word, and decodes it again on the way out.  Every decision that
/// depends on the magnitude of a scalar (an improvement test, a
/// convergence test) is made by the caller and handed to the core as an
/// observation.
#[derive(Clone, Copy, PartialEq, Eq, Structural, Debug)]
pub struct Scalar(pub u64);

/// One recorded trajectory sample: the first two coordinates of a point
/// and the objective value there.  Recording exactly two coordinates
/// serves the two-dimensional visualization of the trajectory; for
/// higher dimensions the first two coordinates are positional and carry
/// no general meaning.
#[derive(Clone, Copy, PartialEq, Eq, Structural, Debug)]
pub struct TrajectorySample {
    pub first: Scalar,
    pub second: Scalar,
    pub value: Scalar,
}

/// A rank for scalar payloads under which the customary encoding of
/// signed machine reals is monotone: words with the high (sign) bit
/// set stand for the negatives and rank in reverse of their payload,
/// words with it clear rank above all of them in payload order.  A
/// caller whose encoding and comparison follow that convention finds
/// that whenever one of its values compares strictly below another,
/// the ranks compare the same way.
pub open spec fn scalar_rank(s: Scalar) -> int {
    if s.0 >= 0x8000000000000000 {
        0xFFFFFFFFFFFFFFFF - s.0
    } else {
        s.0 + 0x8000000000000000
    }
}

/// The strict order on scalars induced by their rank.
pub open spec fn scalar_below(a: Scalar, b: Scalar) -> bool {
    scalar_rank(a) < scalar_rank(b)
}

/// The sample recorded for a point and its objective value.
pub open spec fn sample_of(point: Seq<Scalar>, value: Scalar) -> TrajectorySample
    recommends
        point.len() >= 2,
{
    TrajectorySample { first: point[0], second: point[1], value }
}

/// Builds the trajectory sample for `point` and `value`.
pub fn make_sample(point: &Vec<Scalar>, value: Scalar) -> (s: TrajectorySample)
    requires
        point@.len() >= 2,
    ensures
        s == sample_of(point@, value),
{
    TrajectorySample { first: point[0], second: point[1], value }
}

} // verus!
