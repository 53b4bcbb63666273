use vstd::prelude::*;

use crate::lookup::{
    in_unit_range, is_first_reaching, locate, reaches, region, strictly_inside, InverseHit,
    LookupError, Region,
};
use crate::order::Ordered;

verus! {

/// Why a curve could not be built, or a bracket not taken.
#[derive(Clone, Copy, Debug, PartialEq, Eq, Structural)]
pub enum CurveError {
    /// A curve needs at least one sample.
    Empty,
    /// The number of samples given differs from the sample count.
    LengthMismatch,
    /// The spacing is not an ordered value greater than zero.
    NonPositiveSpacing,
    /// A sample index lies outside the curve.
    IndexOutOfRange,
}

/// The samples that a fractional sample index falls on.
#[derive(Debug, PartialEq, Eq, Structural)]
pub enum Bracket<Y> {
    /// The index is whole: this sample is the answer.
    Exact(Y),
    /// The index lies between these two samples, lower one first.
    Between(Y, Y),
}

/// A curve of `n` samples taken at the regular positions `x0 + k * s`.
pub struct RegularDynamicCurve<X, Y> {
    n: usize,
    s: X,
    x0: X,
    y: Vec<Y>,
}

impl<X: Ordered, Y: Ordered> RegularDynamicCurve<X, Y> {
    pub closed spec fn count(&self) -> nat {
        self.n as nat
    }

    pub closed spec fn spacing_spec(&self) -> X {
        self.s
    }

    pub closed spec fn origin(&self) -> X {
        self.x0
    }

    pub closed spec fn samples(&self) -> Seq<Y> {
        self.y@
    }

    /// At least one sample, as many as the count says, and a spacing
    /// greater than zero.
    pub open spec fn wf(&self) -> bool {
        self.count() >= 1 && self.samples().len() == self.count() && self.spacing_spec().valid()
            && self.spacing_spec().key() > 0
    }

    /// Builds a curve from values already in their stored representation.
    pub fn typed_new(n: usize, s: X, x0: X, y: Vec<Y>) -> (r: Result<Self, CurveError>)
        ensures
            r == Err::<Self, CurveError>(CurveError::Empty) <==> n == 0,
            r == Err::<Self, CurveError>(CurveError::LengthMismatch) <==> (n != 0 && y@.len() != n),
            r == Err::<Self, CurveError>(CurveError::NonPositiveSpacing) <==> (n != 0 && y@.len()
                == n && !(s.valid() && s.key() > 0)),
            r matches Ok(c) ==> (c.wf() && c.count() == n && c.spacing_spec() == s && c.origin() == x0
                && c.samples() == y@),
            (n != 0 && y@.len() == n && s.valid() && s.key() > 0) ==> r is Ok,
    {
        if n == 0 {
            return Err(CurveError::Empty);
        }
        if y.len() != n {
            return Err(CurveError::LengthMismatch);
        }
        if !s.valid_exec() || s.order_key() <= 0 {
            return Err(CurveError::NonPositiveSpacing);
        }
        Ok(RegularDynamicCurve { n, s, x0, y })
    }

    /// The number of samples.
    pub fn len(&self) -> (r: usize)
        ensures
            r == self.count(),
    {
        self.n
    }

    /// The distance between neighbouring sample positions.
    pub fn spacing(&self) -> (r: X)
        ensures
            r == self.spacing_spec(),
    {
        self.s
    }

    /// The position of the first sample, the lower end of the domain.
    pub fn typed_min_x(&self) -> (r: X)
        ensures
            r == self.origin(),
    {
        self.x0
    }

    /// The sample at index `k`.
    pub fn sample(&self, k: usize) -> (r: Y)
        requires
            self.wf(),
            k < self.count(),
        ensures
            r == self.samples()[k as int],
    {
        self.y[k]
    }

    /// All samples, in index order.
    pub fn sample_values(&self) -> (r: &Vec<Y>)
        ensures
            r@ == self.samples(),
    {
        &self.y
    }

    /// The sample that answers a forward query at `x` without interpolation,
    /// if there is one: the first sample for `x` at or before the origin,
    /// the last for `x` at or after `max_x`, the end of the domain.
    pub fn clamp(&self, x: X, max_x: X) -> (r: Option<Y>)
        requires
            self.wf(),
        ensures
            (x.valid() && self.origin().valid() && x.key() <= self.origin().key()) ==> r == Some(
                self.samples()[0],
            ),
            !(x.valid() && self.origin().valid() && x.key() <= self.origin().key()) ==> (r == Some(
                self.samples()[self.count() - 1],
            ) <==> (x.valid() && max_x.valid() && x.key() >= max_x.key())),
            r is None <==> (!(x.valid() && self.origin().valid() && x.key() <= self.origin().key())
                && !(x.valid() && max_x.valid() && x.key() >= max_x.key())),
    {
        match region(x, self.x0, max_x) {
            Region::First => Some(self.y[0]),
            Region::Last => Some(self.y[self.n - 1]),
            Region::Inside => None,
        }
    }

    /// The samples at the floor `i_min` and the ceiling `i_max` of a
    /// fractional sample index: one sample when the index is whole, else the
    /// pair to interpolate between.
    pub fn bracket(&self, i_min: usize, i_max: usize) -> (r: Result<Bracket<Y>, CurveError>)
        requires
            self.wf(),
        ensures
            (i_min == i_max && i_min < self.count()) ==> r == Ok::<Bracket<Y>, CurveError>(
                Bracket::Exact(self.samples()[i_min as int]),
            ),
            (i_min != i_max && i_min < self.count() && i_max < self.count()) ==> r == Ok::<
                Bracket<Y>,
                CurveError,
            >(Bracket::Between(self.samples()[i_min as int], self.samples()[i_max as int])),
            (i_min >= self.count() || i_max >= self.count()) ==> r == Err::<Bracket<Y>, CurveError>(
                CurveError::IndexOutOfRange,
            ),
    {
        if i_min >= self.n || i_max >= self.n {
            return Err(CurveError::IndexOutOfRange);
        }
        if i_min == i_max {
            Ok(Bracket::Exact(self.y[i_min]))
        } else {
            Ok(Bracket::Between(self.y[i_min], self.y[i_max]))
        }
    }

    /// Where `y` lies among the samples, for an inverse query in the stored
    /// representation.
    pub fn typed_locate(&self, y: Y) -> (r: Result<InverseHit, LookupError>)
        requires
            self.wf(),
        ensures
            r == Err::<InverseHit, LookupError>(LookupError::OutOfDomain) <==> !in_unit_range(y),
            r == Ok::<InverseHit, LookupError>(InverseHit::AtMin) <==> (y.valid() && y.key() == 0),
            r == Ok::<InverseHit, LookupError>(InverseHit::AtMax) <==> (y.valid() && y.key() == Y::one_key()),
            forall|i: usize| r == Ok::<InverseHit, LookupError>(InverseHit::AtSample(i)) <==>
                (strictly_inside(y) && is_first_reaching(self.samples(), y, i as int)
                && self.samples()[i as int].key() == y.key()),
            forall|i: usize| r == Ok::<InverseHit, LookupError>(InverseHit::Between(i)) <==>
                (strictly_inside(y) && is_first_reaching(self.samples(), y, i as int)
                && self.samples()[i as int].key() > y.key() && i > 0),
            r == Err::<InverseHit, LookupError>(LookupError::BelowFirstSample) <==>
                (strictly_inside(y) && is_first_reaching(self.samples(), y, 0)
                && self.samples()[0].key() > y.key()),
            r == Err::<InverseHit, LookupError>(LookupError::NotReached) <==>
                (strictly_inside(y) && forall|j: int| 0 <= j < self.samples().len()
                ==> !reaches(#[trigger] self.samples()[j], y)),
    {
        locate(&self.y, y)
    }
}

} // verus!
