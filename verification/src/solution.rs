//! From what the solver found to a dough.
//!
//! The solver works outside this library. What it hands back is held
//! against the problem here, and read off into a `Dough`.

use crate::models::{sum_of_masses, Dough, Ingredient};
use crate::problem::DoughProblem;
use crate::quantity::{spec_ratio_of, within_tolerance, Mass};
use crate::roles::{Aggregate, AGGREGATES};
use ulid::Ulid;
use vstd::prelude::*;

verus! {

/// How a solver ended.
#[derive(Clone, Debug, PartialEq, Eq)]
pub enum SolverOutcome {
    /// It found a best point: a mass for every variable of the system, in
    /// the order of the variables.
    Optimal(Vec<Mass>),
    /// No point meets every equation and bound.
    Infeasible,
    /// Points meet them, but none is best.
    Unbounded,
    /// It gave up after too many steps.
    MaxIterations,
    /// It broke off without an answer.
    Failed,
}

/// The answer to a dough problem.
#[derive(Clone, Debug, PartialEq, Eq)]
pub enum DoughSolution {
    Found(Dough),
    /// No dough meets what was asked for.
    NotFound,
}

impl DoughSolution {
    /// The dough, where one was found.
    pub fn into_found(self) -> (dough: Option<Dough>)
        ensures
            dough == match self {
                DoughSolution::Found(found) => Some(found),
                DoughSolution::NotFound => None,
            },
    {
        match self {
            DoughSolution::Found(found) => Some(found),
            DoughSolution::NotFound => None,
        }
    }
}

impl<'a> DoughProblem<'a> {
    /// The mass of every ingredient at `point`, each with the identifier of
    /// its ingredient, in the order of the ingredients.
    pub open spec fn spec_portions(&self, point: Seq<Mass>) -> Seq<(Ulid, Mass)> {
        Seq::new(
            self.ingredients@.len(),
            |i: int| (self.ingredients@[i].0.id, point[AGGREGATES + i]),
        )
    }

    /// Whether `dough` is what `point` says: its totals are the totals of the
    /// point, and its ingredients have the masses of the point.
    pub open spec fn is_dough_of(&self, dough: Dough, point: Seq<Mass>) -> bool {
        &&& dough.flour == point[Aggregate::Flour.spec_index() as int]
        &&& dough.water == point[Aggregate::Water.spec_index() as int]
        &&& dough.wheat_proteins == point[Aggregate::WheatProteins.spec_index() as int]
        &&& dough.ingredients@ == self.spec_portions(point)
    }

    /// Whether a dough of these totals and portions is, within 0.1 %, the
    /// dough that was asked for: its portions add up to `total`, its water to
    /// its flour is the hydratation of the problem, and its wheat proteins to
    /// its flour are the ratio that was asked of them, if one was.
    pub open spec fn consistent(
        &self,
        flour: Mass,
        water: Mass,
        wheat_proteins: Mass,
        portions: Seq<(Ulid, Mass)>,
        total: Mass,
    ) -> bool {
        &&& i64::MIN <= sum_of_masses(portions) <= i64::MAX
        &&& within_tolerance(sum_of_masses(portions), total@)
        &&& spec_ratio_of(water@, flour@) matches Some(h) && within_tolerance(
            h,
            self.hydratation@,
        )
        &&& self.wheat_proteins.ratio matches Some(asked) ==> (spec_ratio_of(
            wheat_proteins@,
            flour@,
        ) matches Some(r) && within_tolerance(r, asked@))
    }

    /// Whether `dough`, solved with the total mass `total`, is within 0.1 %
    /// the dough that was asked for.
    pub open spec fn spec_is_consistent(&self, dough: &Dough, total: Mass) -> bool {
        self.consistent(dough.flour, dough.water, dough.wheat_proteins, dough.ingredients@, total)
    }

    /// Whether `point` can be read as a dough of this problem: it has a
    /// value for every variable, and the dough it gives is within 0.1 % the
    /// dough that was asked for.
    pub open spec fn spec_accepts(&self, point: Seq<Mass>) -> bool {
        &&& point.len() == self.ingredients@.len() + AGGREGATES
        &&& self.consistent(
            point[Aggregate::Flour.spec_index() as int],
            point[Aggregate::Water.spec_index() as int],
            point[Aggregate::WheatProteins.spec_index() as int],
            self.spec_portions(point),
            point[Aggregate::Mass.spec_index() as int],
        )
    }

    /// Reads a dough off a point of the linear system.
    pub fn extract(&self, point: &Vec<Mass>) -> (dough: Dough)
        requires
            point@.len() == self.ingredients@.len() + AGGREGATES,
        ensures
            self.is_dough_of(dough, point@),
    {
        let n: usize = self.ingredients.len();
        let values: usize = point.len();
        let mut portions: Vec<(Ulid, Mass)> = Vec::new();
        let mut i: usize = 0;
        while i < n
            invariant
                n == self.ingredients@.len(),
                values == point@.len(),
                values == n + AGGREGATES,
                0 <= i <= n,
                portions@.len() == i,
                forall|k: int| 0 <= k < i ==> portions@[k] == self.spec_portions(point@)[k],
            decreases n - i,
        {
            let ingredient: &Ingredient = self.ingredients[i].0;
            portions.push((ingredient.id, point[AGGREGATES + i]));
            i = i + 1;
        }
        assert(portions@ =~= self.spec_portions(point@));
        Dough {
            flour: point[Aggregate::Flour.index()],
            water: point[Aggregate::Water.index()],
            wheat_proteins: point[Aggregate::WheatProteins.index()],
            ingredients: portions,
        }
    }

    /// Whether `dough`, solved with the total mass `total`, is within 0.1 %
    /// the dough that was asked for.
    pub fn is_consistent(&self, dough: &Dough, total: Mass) -> (r: bool)
        ensures
            r == self.spec_is_consistent(dough, total),
    {
        let adds_up: bool = match dough.total_mass() {
            Some(sum) => sum.approx_eq(&total),
            None => false,
        };
        let wet_enough: bool = match dough.hydratation() {
            Some(h) => h.approx_eq(&self.hydratation),
            None => false,
        };
        let strong_enough: bool = match self.wheat_proteins.ratio {
            Some(asked) => match dough.wheat_proteins_ratio() {
                Some(r) => r.approx_eq(&asked),
                None => false,
            },
            None => true,
        };
        adds_up && wet_enough && strong_enough
    }

    /// Whether `point` can be read as a dough of this problem.
    pub fn accepts(&self, point: &Vec<Mass>) -> (r: bool)
        ensures
            r == self.spec_accepts(point@),
    {
        let n: usize = self.ingredients.len();
        if point.len() < AGGREGATES || point.len() - AGGREGATES != n {
            return false;
        }
        let dough = self.extract(point);
        self.is_consistent(&dough, point[Aggregate::Mass.index()])
    }

    /// Turns the outcome of a solver, run on the system of this problem,
    /// into the answer to the problem: a best point gives its dough, and any
    /// other outcome gives `NotFound`.
    ///
    /// A best point must be one that `accepts` accepts: a point that is not
    /// the dough that was asked for shows a fault in the system or in the
    /// solver, and is no answer.
    pub fn solve(&self, outcome: &SolverOutcome) -> (solution: DoughSolution)
        requires
            outcome matches SolverOutcome::Optimal(point) ==> self.spec_accepts(point@),
        ensures
            match *outcome {
                SolverOutcome::Optimal(point) => solution matches DoughSolution::Found(dough)
                    && self.is_dough_of(dough, point@) && self.spec_is_consistent(
                    &dough,
                    point@[Aggregate::Mass.spec_index() as int],
                ),
                _ => solution is NotFound,
            },
    {
        match outcome {
            SolverOutcome::Optimal(point) => DoughSolution::Found(self.extract(point)),
            _ => DoughSolution::NotFound,
        }
    }
}

} // verus!
