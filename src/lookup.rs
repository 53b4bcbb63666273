use vstd::prelude::*;

use crate::order::Ordered;

verus! {

/// Where a forward query's position lies relative to the sampled domain.
#[derive(Clone, Copy, Debug, PartialEq, Eq, Structural)]
pub enum Region {
    /// At or before the origin: the first sample answers.
    First,
    /// At or after the end: the last sample answers.
    Last,
    /// Strictly inside, or not comparable: interpolation decides.
    Inside,
}

/// What an inverse query resolved to.
#[derive(Clone, Copy, Debug, PartialEq, Eq, Structural)]
pub enum InverseHit {
    /// The queried value is zero: the answer is the origin.
    AtMin,
    /// The queried value is one: the answer is the end of the domain.
    AtMax,
    /// The sample at this index equals the queried value.
    AtSample(usize),
    /// The queried value lies strictly between the samples at `i - 1` and `i`.
    Between(usize),
}

/// Why an inverse query has no answer.
#[derive(Clone, Copy, Debug, PartialEq, Eq, Structural)]
pub enum LookupError {
    /// The queried value is not in [0, 1].
    OutOfDomain,
    /// The first sample already exceeds the queried value, so there is no
    /// earlier sample to interpolate from.
    BelowFirstSample,
    /// No sample reaches the queried value.
    NotReached,
}

/// `v` is ordered and at least `y`.
pub open spec fn reaches<K: Ordered>(v: K, y: K) -> bool {
    v.valid() && v.key() >= y.key()
}

/// `i` is the first index whose sample reaches `y`.
pub open spec fn is_first_reaching<K: Ordered>(s: Seq<K>, y: K, i: int) -> bool {
    0 <= i < s.len() && reaches(s[i], y) && forall|j: int| 0 <= j < i ==> !reaches(#[trigger] s[j], y)
}

/// `y` is an ordered value in [0, 1].
pub open spec fn in_unit_range<K: Ordered>(y: K) -> bool {
    y.valid() && 0 <= y.key() <= K::one_key()
}

/// `y` is an ordered value strictly inside (0, 1).
pub open spec fn strictly_inside<K: Ordered>(y: K) -> bool {
    y.valid() && 0 < y.key() < K::one_key()
}

/// Every sample is ordered and each is greater than the one before.
pub open spec fn strictly_increasing<K: Ordered>(s: Seq<K>) -> bool {
    (forall|i: int| 0 <= i < s.len() ==> (#[trigger] s[i]).valid())
        && forall|i: int, j: int| 0 <= i < j < s.len() ==> (#[trigger] s[i]).key() < (#[trigger] s[j]).key()
}

/// On strictly increasing samples, a value above sample `k - 1` and at most
/// sample `k` is first reached at `k`; so the inverse scan answers with the
/// bracket (or the sample) that the value was interpolated in.
pub proof fn lemma_increasing_first_reaching<K: Ordered>(s: Seq<K>, y: K, k: int)
    requires
        strictly_increasing(s),
        0 <= k < s.len(),
        y.key() <= s[k].key(),
        k == 0 || s[k - 1].key() < y.key(),
    ensures
        is_first_reaching(s, y, k),
{
    assert forall|j: int| 0 <= j < k implies !reaches(#[trigger] s[j], y) by {
        if j < k - 1 {
            assert(s[j].key() < s[k - 1].key());
        }
    }
}

/// Compares `x` with the ends of the domain, as ordered comparisons do: an
/// unordered value compares neither below nor above.
pub fn region<K: Ordered>(x: K, min_x: K, max_x: K) -> (r: Region)
    ensures
        r == Region::First <==> (x.valid() && min_x.valid() && x.key() <= min_x.key()),
        r == Region::Last <==> (!(x.valid() && min_x.valid() && x.key() <= min_x.key())
            && x.valid() && max_x.valid() && x.key() >= max_x.key()),
{
    if x.valid_exec() && min_x.valid_exec() && x.order_key() <= min_x.order_key() {
        Region::First
    } else if x.valid_exec() && max_x.valid_exec() && x.order_key() >= max_x.order_key() {
        Region::Last
    } else {
        Region::Inside
    }
}

/// Which index an inverse query answers with when a run of consecutive
/// samples all equal the queried value.
#[derive(Clone, Copy, Debug, PartialEq, Eq, Structural)]
pub enum TieBreak {
    /// The first sample of the run.
    FirstMatch,
    /// The last sample of the run.
    LastMatch,
}

/// `j` ends the run of samples equal to `y` that starts at `i`.
pub open spec fn ends_equal_run<K: Ordered>(s: Seq<K>, y: K, i: int, j: int) -> bool {
    i <= j < s.len() && (forall|m: int| i <= m <= j ==> (#[trigger] s[m]).valid() && s[m].key() == y.key())
        && (j + 1 == s.len() || !(s[j + 1].valid() && s[j + 1].key() == y.key()))
}

/// Finds where `y` lies among `samples`, scanning them in index order; on a
/// run of samples equal to `y` the first one wins.
pub fn locate<K: Ordered>(samples: &Vec<K>, y: K) -> (r: Result<InverseHit, LookupError>)
    ensures
        r == Err::<InverseHit, LookupError>(LookupError::OutOfDomain) <==> !in_unit_range(y),
        r == Ok::<InverseHit, LookupError>(InverseHit::AtMin) <==> (y.valid() && y.key() == 0),
        r == Ok::<InverseHit, LookupError>(InverseHit::AtMax) <==> (y.valid() && y.key() == K::one_key()),
        forall|i: usize| r == Ok::<InverseHit, LookupError>(InverseHit::AtSample(i)) <==>
            (strictly_inside(y) && is_first_reaching(samples@, y, i as int)
            && samples@[i as int].key() == y.key()),
        forall|i: usize| r == Ok::<InverseHit, LookupError>(InverseHit::Between(i)) <==>
            (strictly_inside(y) && is_first_reaching(samples@, y, i as int)
            && samples@[i as int].key() > y.key() && i > 0),
        r == Err::<InverseHit, LookupError>(LookupError::BelowFirstSample) <==>
            (strictly_inside(y) && is_first_reaching(samples@, y, 0) && samples@[0].key() > y.key()),
        r == Err::<InverseHit, LookupError>(LookupError::NotReached) <==>
            (strictly_inside(y) && forall|j: int| 0 <= j < samples@.len() ==> !reaches(#[trigger] samples@[j], y)),
{
    locate_with(samples, y, TieBreak::FirstMatch)
}

/// Finds where `y` lies among `samples`, scanning them in index order.
///
/// Zero and one answer at once with the ends of the domain. Otherwise the
/// first sample that reaches `y` decides: when it equals `y`, the sample that
/// `tie` picks from the run of equal samples starting there is the answer;
/// when it exceeds `y` the answer lies between it and the sample before.
/// Unordered samples are passed over.
pub fn locate_with<K: Ordered>(samples: &Vec<K>, y: K, tie: TieBreak) -> (r: Result<InverseHit, LookupError>)
    ensures
        r == Err::<InverseHit, LookupError>(LookupError::OutOfDomain) <==> !in_unit_range(y),
        r == Ok::<InverseHit, LookupError>(InverseHit::AtMin) <==> (y.valid() && y.key() == 0),
        r == Ok::<InverseHit, LookupError>(InverseHit::AtMax) <==> (y.valid() && y.key() == K::one_key()),
        tie == TieBreak::FirstMatch ==> forall|i: usize| r == Ok::<InverseHit, LookupError>(InverseHit::AtSample(i)) <==>
            (strictly_inside(y) && is_first_reaching(samples@, y, i as int)
            && samples@[i as int].key() == y.key()),
        tie == TieBreak::LastMatch ==> forall|j: usize| r == Ok::<InverseHit, LookupError>(InverseHit::AtSample(j)) <==>
            (strictly_inside(y) && exists|i: int| is_first_reaching(samples@, y, i)
            && #[trigger] ends_equal_run(samples@, y, i, j as int)),
        forall|i: usize| r == Ok::<InverseHit, LookupError>(InverseHit::Between(i)) <==>
            (strictly_inside(y) && is_first_reaching(samples@, y, i as int)
            && samples@[i as int].key() > y.key() && i > 0),
        r == Err::<InverseHit, LookupError>(LookupError::BelowFirstSample) <==>
            (strictly_inside(y) && is_first_reaching(samples@, y, 0) && samples@[0].key() > y.key()),
        r == Err::<InverseHit, LookupError>(LookupError::NotReached) <==>
            (strictly_inside(y) && forall|j: int| 0 <= j < samples@.len() ==> !reaches(#[trigger] samples@[j], y)),
{
    if !y.valid_exec() {
        return Err(LookupError::OutOfDomain);
    }
    let yk = y.order_key();
    let one = K::unit_key();
    if yk < 0 || yk > one {
        return Err(LookupError::OutOfDomain);
    }
    if yk == 0 {
        return Ok(InverseHit::AtMin);
    }
    if yk == one {
        return Ok(InverseHit::AtMax);
    }
    let mut i: usize = 0;
    while i < samples.len()
        invariant
            0 <= i <= samples@.len(),
            yk as int == y.key(),
            strictly_inside(y),
            forall|j: int| 0 <= j < i ==> !reaches(#[trigger] samples@[j], y),
        decreases samples@.len() - i,
    {
        let v = samples[i];
        if v.valid_exec() {
            let vk = v.order_key();
            if vk == yk {
                match tie {
                    TieBreak::FirstMatch => {
                        return Ok(InverseHit::AtSample(i));
                    },
                    TieBreak::LastMatch => {
                        let j = end_of_run(samples, y, i);
                        return Ok(InverseHit::AtSample(j));
                    },
                }
            }
            if vk > yk {
                if i == 0 {
                    return Err(LookupError::BelowFirstSample);
                }
                return Ok(InverseHit::Between(i));
            }
        }
        i += 1;
    }
    Err(LookupError::NotReached)
}

/// The last index of the run of samples equal to `y` that starts at `i`.
fn end_of_run<K: Ordered>(samples: &Vec<K>, y: K, i: usize) -> (j: usize)
    requires
        i < samples@.len(),
        y.valid(),
        samples@[i as int].valid(),
        samples@[i as int].key() == y.key(),
    ensures
        ends_equal_run(samples@, y, i as int, j as int),
        forall|k: int| ends_equal_run(samples@, y, i as int, k) ==> k == j,
{
    let yk = y.order_key();
    let mut j: usize = i;
    while j < samples.len() - 1 && samples[j + 1].valid_exec() && samples[j + 1].order_key() == yk
        invariant
            i <= j < samples@.len(),
            yk as int == y.key(),
            forall|m: int| i <= m <= j ==> (#[trigger] samples@[m]).valid() && samples@[m].key() == y.key(),
        decreases samples@.len() - j,
    {
        j += 1;
    }
    assert forall|k: int| ends_equal_run(samples@, y, i as int, k) implies k == j by {
        if k < j {
            assert(samples@[k + 1].valid() && samples@[k + 1].key() == y.key());
        } else if k > j {
            assert(samples@[j + 1].valid() && samples@[j + 1].key() == y.key());
        }
    }
    j
}

} // verus!
