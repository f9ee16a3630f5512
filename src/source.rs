use vstd::prelude::*;

verus! {

/// A field value together with the two facts about it that root finding
/// reads: whether it lies within the tolerance of zero, and its sign.
pub struct Reading<V> {
    pub value: V,
    pub near_zero: bool,
    pub negative: bool,
}

/// A point and the field's value there.
pub struct Sample<P, V> {
    pub point: P,
    pub value: V,
}

impl<P, V> Sample<P, V> {
    pub fn new(point: P, value: V) -> (r: Self)
        ensures
            r.point == point,
            r.value == value,
    {
        Self { point, value }
    }
}

impl<P: Copy, V> Sample<P, V> {
    /// Samples `source` at `point`.
    pub fn from_source<F: Fn(P) -> Reading<V>>(source: &F, point: P) -> (r: Self)
        requires
            source.requires((point,)),
        ensures
            r.point == point,
            exists|rd: Reading<V>| #[trigger] source.ensures((point,), rd) && rd.value == r.value,
    {
        let rd = source(point);
        Self { point, value: rd.value }
    }
}

pub enum FindIntersectionError<P, V> {
    /// The iteration budget ran out; carries the last midpoint.
    IterLimit(Sample<P, V>),
    Indeterminate,
    NoSolution,
}

#[derive(Debug, Copy, Clone, PartialEq, Eq, Structural)]
pub enum Endpoint {
    Start,
    End,
}

pub enum ClassifySegment<V> {
    ChangesSign(V, V),
    Intersects(Endpoint, V),
    NoSolution,
    Indeterminate,
}

impl<V> ClassifySegment<V> {
    /// Whether the segment holds a root, inside or at an endpoint.
    pub fn has_sign_change(&self) -> (r: bool)
        ensures
            r == (self is ChangesSign || self is Intersects),
    {
        match self {
            ClassifySegment::ChangesSign(_, _) | ClassifySegment::Intersects(_, _) => true,
            _ => false,
        }
    }
}

/// How a segment is classified from the readings at its two ends.
pub open spec fn classify_spec<V>(s: Reading<V>, e: Reading<V>) -> ClassifySegment<V> {
    if s.near_zero && e.near_zero {
        ClassifySegment::Indeterminate
    } else if s.near_zero {
        ClassifySegment::Intersects(Endpoint::Start, s.value)
    } else if e.near_zero {
        ClassifySegment::Intersects(Endpoint::End, e.value)
    } else if s.negative != e.negative {
        ClassifySegment::ChangesSign(s.value, e.value)
    } else {
        ClassifySegment::NoSolution
    }
}

/// Classifies a segment from the readings at its start and end: both near
/// zero is indeterminate; one near zero is an intersection at that endpoint;
/// otherwise differing signs are a sign change, and equal ones no solution.
pub fn classify_segment<V>(start: Reading<V>, end: Reading<V>) -> (r: ClassifySegment<V>)
    ensures
        r == classify_spec(start, end),
{
    if start.near_zero && end.near_zero {
        ClassifySegment::Indeterminate
    } else if start.near_zero {
        ClassifySegment::Intersects(Endpoint::Start, start.value)
    } else if end.near_zero {
        ClassifySegment::Intersects(Endpoint::End, end.value)
    } else if start.negative != end.negative {
        ClassifySegment::ChangesSign(start.value, end.value)
    } else {
        ClassifySegment::NoSolution
    }
}

/// At most one endpoint of a segment is ever reported as its intersection:
/// the one reported is near zero and the other is not.
pub proof fn lemma_endpoint_exclusive<V>(s: Reading<V>, e: Reading<V>)
    ensures
        classify_spec(s, e) matches ClassifySegment::Intersects(Endpoint::Start, v) ==> s.near_zero
            && !e.near_zero && v == s.value,
        classify_spec(s, e) matches ClassifySegment::Intersects(Endpoint::End, v) ==> e.near_zero
            && !s.near_zero && v == e.value,
{
}

/// What the bisection does next.
#[derive(Debug, Copy, Clone, PartialEq, Eq, Structural)]
pub enum BisectStep {
    /// The bracket's ends have the same sign: there is no root to find.
    NoSolution,
    /// The midpoint is the root: its value is near zero, or the bracket is
    /// within the tolerance.
    Converged,
    /// The root lies between the start and the midpoint: the midpoint
    /// becomes the end.
    NarrowEnd,
    /// The root lies between the midpoint and the end: the midpoint becomes
    /// the start.
    NarrowStart,
    /// The iteration budget is spent.
    IterLimit,
}

/// The state of a bisection: the iterations spent, the budget, the two ends
/// of the bracket and the signs of the field there.
#[derive(Debug, Copy, Clone)]
pub struct Bisection<P> {
    pub iteration: usize,
    pub max_iter: usize,
    pub start: P,
    pub end: P,
    pub start_negative: bool,
    pub end_negative: bool,
}

impl<P> Bisection<P> {
    /// A bracket whose ends have opposite signs.
    pub open spec fn brackets_root(self) -> bool {
        self.start_negative != self.end_negative
    }

    pub fn new(max_iter: usize, start: P, end: P, start_negative: bool, end_negative: bool) -> (r:
        Bisection<P>)
        ensures
            r == (Bisection { iteration: 0, max_iter, start, end, start_negative, end_negative }),
    {
        Bisection { iteration: 0, max_iter, start, end, start_negative, end_negative }
    }

    /// Decides one bisection step, given the midpoint of the bracket, whether
    /// the bracket is within the tolerance, and the reading at the midpoint.
    /// Narrowing moves the end (or the start) of the bracket to the midpoint.
    pub fn step(
        &mut self,
        mid: P,
        bracket_within_epsilon: bool,
        mid_near_zero: bool,
        mid_negative: bool,
    ) -> (r: BisectStep)
        ensures
            old(self).iteration >= old(self).max_iter ==> r == BisectStep::IterLimit && *final(self)
                == *old(self),
            old(self).iteration < old(self).max_iter && !old(self).brackets_root() ==> r
                == BisectStep::NoSolution && *final(self) == *old(self),
            old(self).iteration < old(self).max_iter && old(self).brackets_root() && (
            bracket_within_epsilon || mid_near_zero) ==> r == BisectStep::Converged && *final(self)
                == *old(self),
            old(self).iteration < old(self).max_iter && old(self).brackets_root()
                && !bracket_within_epsilon && !mid_near_zero && old(self).start_negative
                != mid_negative ==> r == BisectStep::NarrowEnd && *final(self) == (Bisection {
                iteration: (old(self).iteration + 1) as usize,
                end: mid,
                end_negative: mid_negative,
                ..*old(self)
            }),
            old(self).iteration < old(self).max_iter && old(self).brackets_root()
                && !bracket_within_epsilon && !mid_near_zero && old(self).start_negative
                == mid_negative ==> r == BisectStep::NarrowStart && *final(self) == (Bisection {
                iteration: (old(self).iteration + 1) as usize,
                start: mid,
                start_negative: mid_negative,
                ..*old(self)
            }),
    {
        if self.iteration >= self.max_iter {
            BisectStep::IterLimit
        } else if self.start_negative == self.end_negative {
            BisectStep::NoSolution
        } else if bracket_within_epsilon || mid_near_zero {
            BisectStep::Converged
        } else if self.start_negative != mid_negative {
            self.iteration = self.iteration + 1;
            self.end = mid;
            self.end_negative = mid_negative;
            BisectStep::NarrowEnd
        } else {
            self.iteration = self.iteration + 1;
            self.start = mid;
            self.start_negative = mid_negative;
            BisectStep::NarrowStart
        }
    }
}

/// A sampling function gives one reading for each point.
pub open spec fn deterministic<P, V, F: Fn(P) -> Reading<V>>(f: F) -> bool {
    forall|p: P, a: Reading<V>, b: Reading<V>|
        #[trigger] f.ensures((p,), a) && #[trigger] f.ensures((p,), b) ==> a == b
}

/// The value of a deterministic field at a point, as any of its readings
/// there gives it.
pub open spec fn sampled_at<P, V, F: Fn(P) -> Reading<V>>(f: F, p: P, v: V) -> bool {
    forall|rd: Reading<V>| #[trigger] f.ensures((p,), rd) ==> rd.value == v
}

/// What `find_intersection` returns, given the readings at the two ends.
pub open spec fn intersection_outcome<P, V>(
    start: P,
    end: P,
    s: Reading<V>,
    e: Reading<V>,
    r: Result<Sample<P, V>, FindIntersectionError<P, V>>,
) -> bool {
    match classify_spec(s, e) {
        ClassifySegment::Indeterminate => r is Err && r->Err_0 is Indeterminate,
        ClassifySegment::NoSolution => r is Err && r->Err_0 is NoSolution,
        ClassifySegment::Intersects(Endpoint::Start, v) => r is Ok && r->Ok_0.point == start
            && r->Ok_0.value == v,
        ClassifySegment::Intersects(Endpoint::End, v) => r is Ok && r->Ok_0.point == end
            && r->Ok_0.value == v,
        ClassifySegment::ChangesSign(_, _) => r is Ok || (r is Err && r->Err_0 is IterLimit),
    }
}

/// `c` is what `midpoint` gives, with `small`, for a bracket whose two ends
/// the field reads with opposite signs.
pub open spec fn bracket_midpoint<P, V, F: Fn(P) -> Reading<V>, M: Fn(P, P) -> (P, bool)>(
    sample: F,
    midpoint: M,
    c: P,
    small: bool,
) -> bool {
    exists|a: P, b: P, ra: Reading<V>, rb: Reading<V>|
        #![trigger midpoint.ensures((a, b), (c, small)), sample.ensures((a,), ra), sample.ensures((b,), rb)]
        midpoint.ensures((a, b), (c, small)) && sample.ensures((a,), ra) && sample.ensures((b,), rb)
            && ra.negative != rb.negative
}

/// The field reads near zero at `p`.
pub open spec fn near_zero_at<P, V, F: Fn(P) -> Reading<V>>(sample: F, p: P) -> bool {
    forall|rd: Reading<V>| #[trigger] sample.ensures((p,), rd) ==> rd.near_zero
}

/// What bisection returns on a segment whose ends change sign: success at
/// the midpoint of a sign-changing bracket that is within the tolerance or
/// where the field reads near zero; or, once the budget is spent, failure
/// with the midpoint of the last sign-changing bracket. With no budget at
/// all, that is the midpoint of the segment itself.
pub open spec fn bisection_outcome<P, V, F: Fn(P) -> Reading<V>, M: Fn(P, P) -> (P, bool)>(
    sample: F,
    midpoint: M,
    start: P,
    end: P,
    max_iter: usize,
    r: Result<Sample<P, V>, FindIntersectionError<P, V>>,
) -> bool {
    &&& r matches Ok(smp) ==> bracket_midpoint(sample, midpoint, smp.point, true) || (
    bracket_midpoint(sample, midpoint, smp.point, false) && near_zero_at(sample, smp.point))
    &&& r matches Err(FindIntersectionError::IterLimit(smp)) ==> bracket_midpoint(
        sample,
        midpoint,
        smp.point,
        true,
    ) || bracket_midpoint(sample, midpoint, smp.point, false)
    &&& r is Ok || (r is Err && r->Err_0 is IterLimit)
    &&& max_iter == 0 ==> (r matches Err(FindIntersectionError::IterLimit(smp)) && exists|w: bool|
        #[trigger] midpoint.ensures((start, end), (smp.point, w)))
}

/// Finds where the field crosses zero on the segment from `start` to `end`.
///
/// `sample` reads the field at a point; `midpoint` gives the middle of a
/// bracket and whether the bracket is already within the tolerance. The
/// segment is classified first: an endpoint intersection is returned at
/// once, no solution and indeterminate fail. On a sign change the bracket is
/// bisected until the midpoint is near zero or the bracket within the
/// tolerance (success), or `max_iter` iterations are spent (failure with the
/// last midpoint).
pub fn find_intersection<P: Copy, V, F: Fn(P) -> Reading<V>, M: Fn(P, P) -> (P, bool)>(
    sample: &F,
    midpoint: &M,
    start: P,
    end: P,
    max_iter: usize,
) -> (r: Result<Sample<P, V>, FindIntersectionError<P, V>>)
    requires
        forall|p: P| #[trigger] sample.requires((p,)),
        forall|a: P, b: P| #[trigger] midpoint.requires((a, b)),
        deterministic(*sample),
    ensures
        forall|s: Reading<V>, e: Reading<V>|
            #[trigger] sample.ensures((start,), s) && #[trigger] sample.ensures((end,), e)
                ==> intersection_outcome(start, end, s, e, r),
        forall|s: Reading<V>, e: Reading<V>|
            #[trigger] sample.ensures((start,), s) && #[trigger] sample.ensures((end,), e)
                && classify_spec(s, e) is ChangesSign ==> bisection_outcome(
                *sample,
                *midpoint,
                start,
                end,
                max_iter,
                r,
            ),
        r matches Ok(smp) ==> sampled_at(*sample, smp.point, smp.value),
        r matches Err(FindIntersectionError::IterLimit(smp)) ==> sampled_at(
            *sample,
            smp.point,
            smp.value,
        ),
{
    let rs = sample(start);
    let re = sample(end);
    let ghost gs = rs;
    let ghost ge = re;
    let start_negative = rs.negative;
    let end_negative = re.negative;
    match classify_segment(rs, re) {
        ClassifySegment::Intersects(Endpoint::Start, v) => {
            return Ok(Sample::new(start, v));
        },
        ClassifySegment::Intersects(Endpoint::End, v) => {
            return Ok(Sample::new(end, v));
        },
        ClassifySegment::NoSolution => {
            return Err(FindIntersectionError::NoSolution);
        },
        ClassifySegment::Indeterminate => {
            return Err(FindIntersectionError::Indeterminate);
        },
        ClassifySegment::ChangesSign(_, _) => {},
    }
    let mut state = Bisection::new(max_iter, start, end, start_negative, end_negative);
    let ghost mut ga = gs;
    let ghost mut gb = ge;
    loop
        invariant
            forall|p: P| #[trigger] sample.requires((p,)),
            forall|a: P, b: P| #[trigger] midpoint.requires((a, b)),
            deterministic(*sample),
            sample.ensures((start,), gs),
            sample.ensures((end,), ge),
            classify_spec(gs, ge) is ChangesSign,
            sample.ensures((state.start,), ga),
            sample.ensures((state.end,), gb),
            ga.negative == state.start_negative,
            gb.negative == state.end_negative,
            state.brackets_root(),
            state.max_iter == max_iter,
            state.iteration <= max_iter,
            state.iteration == 0 ==> state.start == start && state.end == end,
        decreases max_iter - state.iteration,
    {
        let ghost before = state;
        let (c, small) = midpoint(state.start, state.end);
        let rc = sample(c);
        let ghost gc = rc;
        proof {
            assert(midpoint.ensures((before.start, before.end), (c, small)));
            assert(bracket_midpoint(*sample, *midpoint, c, small));
        }
        match state.step(c, small, rc.near_zero, rc.negative) {
            BisectStep::Converged => {
                return Ok(Sample::new(c, rc.value));
            },
            BisectStep::IterLimit => {
                let r = Err(FindIntersectionError::IterLimit(Sample::new(c, rc.value)));
                proof {
                    if max_iter == 0 {
                        assert(midpoint.ensures((start, end), (c, small)));
                    }
                    if small {
                        assert(bracket_midpoint(*sample, *midpoint, c, true));
                    } else {
                        assert(bracket_midpoint(*sample, *midpoint, c, false));
                    }
                    assert(r->Err_0->IterLimit_0.point == c);
                    assert(max_iter == 0 ==> exists|w: bool|
                        #[trigger] midpoint.ensures((start, end), (c, w)));
                    assert(bisection_outcome(*sample, *midpoint, start, end, max_iter, r));
                }
                return r;
            },
            BisectStep::NarrowEnd => {
                proof {
                    gb = gc;
                }
            },
            BisectStep::NarrowStart => {
                proof {
                    ga = gc;
                }
            },
            BisectStep::NoSolution => {
                return Err(FindIntersectionError::NoSolution);
            },
        }
    }
}

} // verus!
