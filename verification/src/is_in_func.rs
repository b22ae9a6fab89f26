//! The constraint compiler: descriptions of validity rules — ranges,
//! explicit value sets, exclusions — and their compilation into one
//! uniform membership predicate.

use vstd::prelude::*;
use crate::target::InputTarget;

verus! {

/// One end of a range constraint.
#[derive(Clone)]
pub enum Bound<T> {
    /// The end is closed: the bound itself is accepted.
    Included(T),
    /// The end is open: the bound itself is rejected.
    Excluded(T),
    /// The side is absent: everything is accepted on this side.
    Unbounded,
}

/// A range constraint: a lower and an upper end, each inclusive,
/// exclusive or absent.
#[derive(Clone)]
pub struct ValueRange<T> {
    /// The lower end.
    pub start: Bound<T>,
    /// The upper end.
    pub end: Bound<T>,
}

impl<T> ValueRange<T> {
    /// The range `[start, end)`.
    pub fn half_open(start: T, end: T) -> (r: Self)
        ensures
            r == (ValueRange { start: Bound::Included(start), end: Bound::Excluded(end) }),
    {
        ValueRange { start: Bound::Included(start), end: Bound::Excluded(end) }
    }

    /// The range `[start, end]`.
    pub fn inclusive(start: T, end: T) -> (r: Self)
        ensures
            r == (ValueRange { start: Bound::Included(start), end: Bound::Included(end) }),
    {
        ValueRange { start: Bound::Included(start), end: Bound::Included(end) }
    }

    /// The range `[start, ..)`: a minimum only.
    pub fn at_least(start: T) -> (r: Self)
        ensures
            r == (ValueRange { start: Bound::Included(start), end: Bound::<T>::Unbounded }),
    {
        ValueRange { start: Bound::Included(start), end: Bound::Unbounded }
    }

    /// The range `(.., end)`: an exclusive maximum only.
    pub fn below(end: T) -> (r: Self)
        ensures
            r == (ValueRange { start: Bound::<T>::Unbounded, end: Bound::Excluded(end) }),
    {
        ValueRange { start: Bound::Unbounded, end: Bound::Excluded(end) }
    }

    /// The range `(.., end]`: an inclusive maximum only.
    pub fn at_most(end: T) -> (r: Self)
        ensures
            r == (ValueRange { start: Bound::<T>::Unbounded, end: Bound::Included(end) }),
    {
        ValueRange { start: Bound::Unbounded, end: Bound::Included(end) }
    }

    /// The unbounded range: every value is accepted.
    pub fn full() -> (r: Self)
        ensures
            r == (ValueRange { start: Bound::<T>::Unbounded, end: Bound::<T>::Unbounded }),
    {
        ValueRange { start: Bound::Unbounded, end: Bound::Unbounded }
    }
}

/// A compiled membership predicate over the target type: the closed
/// set of predicate shapes a session can evaluate.
#[derive(Clone)]
pub enum Pred<T> {
    /// The value must lie in a range.
    InRange(ValueRange<T>),
    /// The value must equal one of the listed values.
    OneOf(Vec<T>),
    /// The value must differ from the listed value.
    NotEq(T),
}

/// The mathematical content of a [`Pred`]: the listed values of a set
/// constraint become a sequence.
pub enum PredModel<T> {
    /// The value must lie in a range.
    InRange(ValueRange<T>),
    /// The value must equal one of the listed values.
    OneOf(Seq<T>),
    /// The value must differ from the listed value.
    NotEq(T),
}

impl<T> Pred<T> {
    /// The mathematical content of this predicate.
    pub open spec fn model(self) -> PredModel<T> {
        match self {
            Pred::InRange(r) => PredModel::InRange(r),
            Pred::OneOf(vs) => PredModel::OneOf(vs@),
            Pred::NotEq(x) => PredModel::NotEq(x),
        }
    }
}

/// Whether `x` satisfies the lower end of a range.
pub open spec fn bound_start_ok<T: InputTarget>(b: Bound<T>, x: T) -> bool {
    match b {
        Bound::Included(s) => s.le_spec(x),
        Bound::Excluded(s) => s.lt_spec(x),
        Bound::Unbounded => true,
    }
}

/// Whether `x` satisfies the upper end of a range.
pub open spec fn bound_end_ok<T: InputTarget>(b: Bound<T>, x: T) -> bool {
    match b {
        Bound::Included(e) => x.le_spec(e),
        Bound::Excluded(e) => x.lt_spec(e),
        Bound::Unbounded => true,
    }
}

/// The mathematical interval test: `x` satisfies both ends of the
/// range, and an absent side always accepts.
pub open spec fn range_holds<T: InputTarget>(r: ValueRange<T>, x: T) -> bool {
    bound_start_ok(r.start, x) && bound_end_ok(r.end, x)
}

/// Whether `x` equals, by value equality, at least one listed value.
pub open spec fn listed_contains<T: InputTarget>(vs: Seq<T>, x: T) -> bool {
    exists|i: int| 0 <= i < vs.len() && vs[i].eq_spec(x)
}

/// What a compiled predicate accepts.
pub open spec fn pred_holds<T: InputTarget>(p: PredModel<T>, x: T) -> bool {
    match p {
        PredModel::InRange(r) => range_holds(r, x),
        PredModel::OneOf(vs) => listed_contains(vs, x),
        PredModel::NotEq(y) => !y.eq_spec(x),
    }
}

impl<T: InputTarget> Pred<T> {
    /// Evaluates this predicate on a candidate value.
    pub fn eval(&self, x: &T) -> (r: bool)
        ensures
            r == pred_holds(self.model(), *x),
    {
        match self {
            Pred::InRange(rg) => {
                let start_ok = match &rg.start {
                    Bound::Included(s) => s.le(x),
                    Bound::Excluded(s) => s.lt(x),
                    Bound::Unbounded => true,
                };
                let end_ok = match &rg.end {
                    Bound::Included(e) => x.le(e),
                    Bound::Excluded(e) => x.lt(e),
                    Bound::Unbounded => true,
                };
                start_ok && end_ok
            },
            Pred::OneOf(vs) => {
                let mut i: usize = 0;
                while i < vs.len()
                    invariant
                        i <= vs@.len(),
                        (*self).model() == PredModel::OneOf(vs@),
                        forall|j: int| 0 <= j < i ==> !vs@[j].eq_spec(*x),
                    decreases vs@.len() - i,
                {
                    if vs[i].eq_val(x) {
                        proof {
                            assert(0 <= i < vs@.len() && vs@[i as int].eq_spec(*x));
                            assert(listed_contains(vs@, *x));
                        }
                        return true;
                    }
                    i = i + 1;
                }
                false
            },
            Pred::NotEq(y) => !y.eq_val(x),
        }
    }
}

/// A constraint description that can be compiled into a membership
/// predicate: ranges, vectors of accepted values, and predicates
/// themselves.
pub trait IsInFunc<T: InputTarget>: Sized {
    /// What the compiled predicate will accept.
    spec fn pred_of(self) -> PredModel<T>;

    /// Returns the constraint as a compiled predicate.
    fn contains_func(self) -> (r: Pred<T>)
        ensures
            r.model() == self.pred_of(),
    ;
}

impl<T: InputTarget> IsInFunc<T> for Vec<T> {
    open spec fn pred_of(self) -> PredModel<T> {
        PredModel::OneOf(self@)
    }

    fn contains_func(self) -> (r: Pred<T>) {
        Pred::OneOf(self)
    }
}

impl<T: InputTarget> IsInFunc<T> for ValueRange<T> {
    open spec fn pred_of(self) -> PredModel<T> {
        PredModel::InRange(self)
    }

    fn contains_func(self) -> (r: Pred<T>) {
        range_contains_func(self)
    }
}

impl<T: InputTarget> IsInFunc<T> for Pred<T> {
    open spec fn pred_of(self) -> PredModel<T> {
        self.model()
    }

    fn contains_func(self) -> (r: Pred<T>) {
        self
    }
}

/// Compiles a range constraint into a membership predicate.
pub fn range_contains_func<T: InputTarget>(range: ValueRange<T>) -> (r: Pred<T>)
    ensures
        r.model() == PredModel::InRange(range),
{
    Pred::InRange(range)
}

/// A compiled range constraint is the mathematical interval test over
/// the integers, with the specified inclusivity on each bound; an
/// absent side always accepts.
pub proof fn lemma_range_pred_is_interval(r: ValueRange<i64>, x: i64)
    ensures
        pred_holds(PredModel::InRange(r), x) <==> ((match r.start {
            Bound::Included(s) => s <= x,
            Bound::Excluded(s) => s < x,
            Bound::Unbounded => true,
        }) && (match r.end {
            Bound::Included(e) => x <= e,
            Bound::Excluded(e) => x < e,
            Bound::Unbounded => true,
        })),
{
}

/// A compiled set constraint accepts a candidate iff it equals some
/// listed value by value equality; an empty set accepts nothing.
pub proof fn lemma_set_pred_membership<T: InputTarget>(vs: Seq<T>, x: T)
    ensures
        pred_holds(PredModel::OneOf(vs), x) <==> (exists|i: int|
            0 <= i < vs.len() && vs[i].eq_spec(x)),
        vs.len() == 0 ==> !pred_holds(PredModel::OneOf(vs), x),
{
}

/// Compiling equal constraint descriptions yields predicates that agree
/// on every candidate value, whichever description compiled first.
pub proof fn lemma_compile_idempotent<T: InputTarget, U: IsInFunc<T>>(
    first: U,
    second: U,
    p1: Pred<T>,
    p2: Pred<T>,
    x: T,
)
    requires
        first == second,
        p1.model() == first.pred_of(),
        p2.model() == second.pred_of(),
    ensures
        pred_holds(p1.model(), x) == pred_holds(p2.model(), x),
{
}

} // verus!
