//! Linear systems as the dough calculator hands them to a solver: variables
//! that are free or fixed, and equations whose right-hand side is zero.
//!
//! A coefficient is a ratio in parts per million, so an equation reads
//! `sum of coeff * x == 0` with every coefficient a million times the number
//! it stands for. The factor is the same on every term and changes nothing
//! about which points solve the system.

use crate::quantity::Mass;
use vstd::prelude::*;

verus! {

/// What is known of a variable before the system is solved.
#[derive(Clone, Copy, Debug, PartialEq, Eq, Structural)]
pub enum Bound {
    /// Nothing: any value will do, a negative one too.
    Free,
    /// The variable has this value.
    Fixed(Mass),
}

/// A variable of the system.
#[derive(Clone, Copy, Debug, PartialEq, Eq, Structural)]
pub struct Variable {
    /// The weight of the variable in the objective. It decides between the
    /// solutions of a system that has several.
    pub weight: usize,
    pub bound: Bound,
}

/// One term of an equation: a coefficient, in parts per million, times the
/// variable at the place `var`.
#[derive(Clone, Copy, Debug, PartialEq, Eq, Structural)]
pub struct Term {
    pub var: usize,
    pub coeff: i64,
}

/// An equation: the sum of its terms is zero.
#[derive(Clone, Debug, PartialEq, Eq)]
pub struct Constraint {
    pub terms: Vec<Term>,
}

/// A linear system.
#[derive(Clone, Debug, PartialEq, Eq)]
pub struct LinearSystem {
    pub variables: Vec<Variable>,
    pub constraints: Vec<Constraint>,
}

/// A linear system as a mathematical value.
pub struct SystemView {
    pub variables: Seq<Variable>,
    pub constraints: Seq<Seq<Term>>,
}

impl View for Constraint {
    type V = Seq<Term>;

    open spec fn view(&self) -> Seq<Term> {
        self.terms@
    }
}

impl View for LinearSystem {
    type V = SystemView;

    open spec fn view(&self) -> SystemView {
        SystemView {
            variables: self.variables@,
            constraints: rows_of(self.constraints@),
        }
    }
}

/// The equations of `constraints`, each as its terms.
pub open spec fn rows_of(constraints: Seq<Constraint>) -> Seq<Seq<Term>> {
    Seq::new(constraints.len(), |i: int| constraints[i]@)
}

/// The value of the left-hand side of an equation at `point`.
pub open spec fn linear_form(terms: Seq<Term>, point: Seq<int>) -> int
    decreases terms.len(),
{
    if terms.len() == 0 {
        0
    } else {
        linear_form(terms.drop_last(), point) + terms.last().coeff * point[terms.last().var as int]
    }
}

/// Whether `value` is what `bound` allows, where `value` counts in units of
/// which `unit` make a microgram.
pub open spec fn meets_bound(bound: Bound, value: int, unit: int) -> bool {
    match bound {
        Bound::Free => true,
        Bound::Fixed(mass) => value == mass@ * unit,
    }
}

impl SystemView {
    /// Every term names a variable of the system.
    pub open spec fn well_formed(self) -> bool {
        forall|c: int, t: int|
            0 <= c < self.constraints.len() && 0 <= t < self.constraints[c].len()
                ==> (#[trigger] self.constraints[c][t]).var < self.variables.len()
    }

    /// Whether `point` solves the system exactly: it gives every variable a
    /// value that its bound allows, and every equation holds.
    ///
    /// The values of `point` count in units of which `unit` make a microgram,
    /// so that with a large enough `unit` any solution in fractions can be
    /// written down.
    pub open spec fn solved_by(self, point: Seq<int>, unit: int) -> bool {
        &&& unit > 0
        &&& point.len() == self.variables.len()
        &&& forall|v: int|
            0 <= v < self.variables.len() ==> meets_bound(
                (#[trigger] self.variables[v]).bound,
                point[v],
                unit,
            )
        &&& forall|c: int|
            0 <= c < self.constraints.len() ==> linear_form(#[trigger] self.constraints[c], point)
                == 0
    }
}

/// The value of an equation is the sum of the values of its parts.
pub proof fn lemma_linear_form_concat(head: Seq<Term>, tail: Seq<Term>, point: Seq<int>)
    ensures
        linear_form(head + tail, point) == linear_form(head, point) + linear_form(tail, point),
    decreases tail.len(),
{
    if tail.len() == 0 {
        assert(head + tail =~= head);
    } else {
        assert((head + tail).drop_last() =~= head + tail.drop_last());
        assert((head + tail).last() == tail.last());
        lemma_linear_form_concat(head, tail.drop_last(), point);
    }
}

/// The value of an equation of one term.
pub proof fn lemma_linear_form_single(term: Term, point: Seq<int>)
    ensures
        linear_form(seq![term], point) == term.coeff * point[term.var as int],
{
    assert(seq![term].drop_last() =~= Seq::<Term>::empty());
    assert(linear_form(Seq::<Term>::empty(), point) == 0);
    assert(seq![term].last() == term);
}

} // verus!
