//! The dough problem: what the baker asks for, and the linear system that
//! says the same thing to a solver.
//!
//! The system has a variable for each total of the dough and one for each
//! ingredient. An equation for each total says what the ingredients bring
//! to it; the others say which ratios are asked for. Nothing keeps a variable
//! from going below zero: where the targets can only be met with a negative
//! mass, the system is solved with one.

use crate::models::Ingredient;
use crate::quantity::{Mass, Ratio, RATIO_ONE};
use crate::roles::{Aggregate, AGGREGATES};
use crate::system::{rows_of, Bound, Constraint, LinearSystem, SystemView, Term, Variable};
use vstd::prelude::*;

verus! {

/// How much of something is asked for: nothing in particular, a mass, a
/// ratio of a total, or a mass and a ratio at once.
///
/// With both, both are asked of the solver, and a system that cannot meet
/// both has no solution.
#[derive(Clone, Copy, Debug)]
pub struct Target {
    pub mass: Option<Mass>,
    pub ratio: Option<Ratio>,
}

impl Target {
    /// Asks for nothing in particular.
    pub fn free() -> (target: Target)
        ensures
            target.mass is None,
            target.ratio is None,
    {
        Target { mass: None, ratio: None }
    }

    /// Asks for the mass `value`.
    pub fn by_mass(value: Mass) -> (target: Target)
        ensures
            target.mass == Some(value),
            target.ratio is None,
    {
        Target { mass: Some(value), ratio: None }
    }

    /// Asks for the ratio `value` of a total.
    pub fn by_ratio(value: Ratio) -> (target: Target)
        ensures
            target.mass is None,
            target.ratio == Some(value),
    {
        Target { mass: None, ratio: Some(value) }
    }

    /// What the target says of the variable alone: fixed where a mass is
    /// asked for, free otherwise.
    pub open spec fn spec_bound(self) -> Bound {
        match self.mass {
            Some(mass) => Bound::Fixed(mass),
            None => Bound::Free,
        }
    }

    /// What the target says of the variable alone: fixed where a mass is
    /// asked for, free otherwise.
    #[verifier::when_used_as_spec(spec_bound)]
    pub fn bound(self) -> (bound: Bound)
        ensures
            bound == self.spec_bound(),
    {
        match self.mass {
            Some(mass) => Bound::Fixed(mass),
            None => Bound::Free,
        }
    }
}

/// A dough to be worked out.
pub struct DoughProblem<'a> {
    /// The mass of the whole dough.
    pub mass: Target,
    /// The flour in the dough, whatever ingredient brings it.
    pub flour: Target,
    /// The wheat proteins in the dough, as a ratio of the flour.
    pub wheat_proteins: Target,
    /// The water of the dough to its flour.
    pub hydratation: Ratio,
    /// The salt of the dough to its flour.
    pub salt_ratio: Ratio,
    /// The ingredients, each with what is asked of it.
    pub ingredients: Vec<(&'a Ingredient, Target)>,
}

/// The terms with which the ingredients enter the equation of `aggregate`:
/// one for each ingredient that counts in it, in the order of the
/// ingredients.
pub open spec fn balance_terms(
    ingredients: Seq<(&Ingredient, Target)>,
    aggregate: Aggregate,
) -> Seq<Term>
    decreases ingredients.len(),
{
    if ingredients.len() == 0 {
        Seq::empty()
    } else {
        let before = balance_terms(ingredients.drop_last(), aggregate);
        match ingredients.last().0.spec_share(aggregate) {
            Some(share) => before.push(
                Term { var: (AGGREGATES + ingredients.len() - 1) as usize, coeff: share.ppm },
            ),
            None => before,
        }
    }
}

/// The equation that defines `aggregate`: what the ingredients bring, less
/// the total, is zero.
pub open spec fn balance(ingredients: Seq<(&Ingredient, Target)>, aggregate: Aggregate) -> Seq<
    Term,
> {
    seq![Term { var: aggregate.spec_index(), coeff: (-RATIO_ONE) as i64 }] + balance_terms(
        ingredients,
        aggregate,
    )
}

/// The equation that makes the variable at `var` the ratio `ratio` of the
/// total `reference`.
pub open spec fn proportion(reference: Aggregate, ratio: Ratio, var: usize) -> Seq<Term> {
    seq![
        Term { var: reference.spec_index(), coeff: ratio.ppm },
        Term { var: var, coeff: (-RATIO_ONE) as i64 },
    ]
}

/// The equations of the ingredients that a ratio is asked of, in the order
/// of the ingredients.
pub open spec fn ingredient_proportions(ingredients: Seq<(&Ingredient, Target)>) -> Seq<
    Seq<Term>,
>
    decreases ingredients.len(),
{
    if ingredients.len() == 0 {
        Seq::empty()
    } else {
        let before = ingredient_proportions(ingredients.drop_last());
        match ingredients.last().1.ratio {
            Some(ratio) => before.push(
                proportion(
                    ingredients.last().0.spec_reference(),
                    ratio,
                    (AGGREGATES + ingredients.len() - 1) as usize,
                ),
            ),
            None => before,
        }
    }
}

impl<'a> DoughProblem<'a> {
    /// The problem can be written as a linear system: the variables can be
    /// counted, and the water ratio of every ingredient is a ratio between 0
    /// and 1.
    pub open spec fn spec_well_formed(&self) -> bool {
        &&& self.ingredients@.len() + AGGREGATES <= usize::MAX
        &&& forall|i: int|
            0 <= i < self.ingredients@.len() ==> (#[trigger] self.ingredients@[i]).0.water.is_fraction()
    }

    /// The variable at the place `v`: the six totals, then the ingredients.
    /// Later ingredients weigh more in the objective.
    pub open spec fn spec_variable(&self, v: int) -> Variable {
        if v == Aggregate::Mass.spec_index() {
            Variable { weight: 1, bound: self.mass.spec_bound() }
        } else if v == Aggregate::Flour.spec_index() {
            Variable { weight: 1, bound: self.flour.spec_bound() }
        } else if v == Aggregate::WheatProteins.spec_index() {
            Variable { weight: 1, bound: self.wheat_proteins.spec_bound() }
        } else if v < AGGREGATES {
            Variable { weight: 1, bound: Bound::Free }
        } else {
            Variable {
                weight: (v - AGGREGATES + 1) as usize,
                bound: self.ingredients@[v - AGGREGATES].1.spec_bound(),
            }
        }
    }

    /// The equations that are there whatever is asked of the ingredients:
    /// one for each total, the hydratation, the salt, and the wheat proteins
    /// where a ratio is asked of them.
    pub open spec fn spec_recipe_rows(&self) -> Seq<Seq<Term>> {
        let rows = seq![
            balance(self.ingredients@, Aggregate::Mass),
            balance(self.ingredients@, Aggregate::Flour),
            balance(self.ingredients@, Aggregate::Water),
            balance(self.ingredients@, Aggregate::Leavener),
            balance(self.ingredients@, Aggregate::Salt),
            balance(self.ingredients@, Aggregate::WheatProteins),
            proportion(Aggregate::Flour, self.hydratation, Aggregate::Water.spec_index()),
            proportion(Aggregate::Flour, self.salt_ratio, Aggregate::Salt.spec_index()),
        ];
        match self.wheat_proteins.ratio {
            Some(ratio) => rows.push(
                proportion(Aggregate::Flour, ratio, Aggregate::WheatProteins.spec_index()),
            ),
            None => rows,
        }
    }

    /// The linear system of the problem.
    pub open spec fn spec_system(&self) -> SystemView {
        SystemView {
            variables: Seq::new(
                (self.ingredients@.len() + AGGREGATES) as nat,
                |v: int| self.spec_variable(v),
            ),
            constraints: self.spec_recipe_rows() + ingredient_proportions(self.ingredients@),
        }
    }
}

/// Every term that the ingredients have in the equation of a total names
/// the variable of an ingredient.
proof fn lemma_balance_terms_in_range(
    ingredients: Seq<(&Ingredient, Target)>,
    aggregate: Aggregate,
)
    requires
        ingredients.len() + AGGREGATES <= usize::MAX,
    ensures
        forall|t: int|
            0 <= t < balance_terms(ingredients, aggregate).len() ==> (#[trigger] balance_terms(
                ingredients,
                aggregate,
            )[t]).var < ingredients.len() + AGGREGATES,
    decreases ingredients.len(),
{
    if ingredients.len() > 0 {
        let before = balance_terms(ingredients.drop_last(), aggregate);
        let terms = balance_terms(ingredients, aggregate);
        lemma_balance_terms_in_range(ingredients.drop_last(), aggregate);
        assert forall|t: int| 0 <= t < terms.len() implies (#[trigger] terms[t]).var
            < ingredients.len() + AGGREGATES by {
            if t < before.len() {
                assert(terms[t] == before[t]);
            }
        }
    }
}

/// Every equation of an ingredient names the variable of an ingredient and
/// that of a total.
proof fn lemma_ingredient_proportions_in_range(ingredients: Seq<(&Ingredient, Target)>)
    requires
        ingredients.len() + AGGREGATES <= usize::MAX,
    ensures
        forall|c: int, t: int|
            0 <= c < ingredient_proportions(ingredients).len() && 0 <= t
                < ingredient_proportions(ingredients)[c].len() ==> (
            #[trigger] ingredient_proportions(ingredients)[c][t]).var < ingredients.len()
                + AGGREGATES,
    decreases ingredients.len(),
{
    if ingredients.len() > 0 {
        let before = ingredient_proportions(ingredients.drop_last());
        let rows = ingredient_proportions(ingredients);
        lemma_ingredient_proportions_in_range(ingredients.drop_last());
        assert forall|c: int, t: int| 0 <= c < rows.len() && 0 <= t < rows[c].len() implies (
        #[trigger] rows[c][t]).var < ingredients.len() + AGGREGATES by {
            if c < before.len() {
                assert(rows[c] == before[c]);
                assert(before[c][t].var < ingredients.drop_last().len() + AGGREGATES);
            }
        }
    }
}

/// Every term of the system of a problem names a variable of the system.
pub proof fn lemma_system_is_well_formed(problem: &DoughProblem)
    requires
        problem.spec_well_formed(),
    ensures
        problem.spec_system().well_formed(),
{
    let system = problem.spec_system();
    let recipe = problem.spec_recipe_rows();
    let asked = ingredient_proportions(problem.ingredients@);
    lemma_balance_terms_in_range(problem.ingredients@, Aggregate::Mass);
    lemma_balance_terms_in_range(problem.ingredients@, Aggregate::Flour);
    lemma_balance_terms_in_range(problem.ingredients@, Aggregate::Water);
    lemma_balance_terms_in_range(problem.ingredients@, Aggregate::Leavener);
    lemma_balance_terms_in_range(problem.ingredients@, Aggregate::Salt);
    lemma_balance_terms_in_range(problem.ingredients@, Aggregate::WheatProteins);
    lemma_ingredient_proportions_in_range(problem.ingredients@);
    assert forall|c: int, t: int|
        0 <= c < system.constraints.len() && 0 <= t < system.constraints[c].len() implies (
    #[trigger] system.constraints[c][t]).var < system.variables.len() by {
        if c < recipe.len() {
            assert(system.constraints[c] == recipe[c]);
            if c < 6 {
                let aggregate = if c == 0 {
                    Aggregate::Mass
                } else if c == 1 {
                    Aggregate::Flour
                } else if c == 2 {
                    Aggregate::Water
                } else if c == 3 {
                    Aggregate::Leavener
                } else if c == 4 {
                    Aggregate::Salt
                } else {
                    Aggregate::WheatProteins
                };
                assert(recipe[c] == balance(problem.ingredients@, aggregate));
                if t > 0 {
                    assert(recipe[c][t] == balance_terms(problem.ingredients@, aggregate)[t - 1]);
                }
            }
        } else {
            assert(system.constraints[c] == asked[c - recipe.len()]);
        }
    }
}

impl<'a> Default for DoughProblem<'a> {
    /// A dough of 70 % hydratation with 2 % of salt, nothing else asked for,
    /// and no ingredient yet.
    fn default() -> (problem: Self)
        ensures
            problem.mass.mass is None && problem.mass.ratio is None,
            problem.flour.mass is None && problem.flour.ratio is None,
            problem.wheat_proteins.mass is None && problem.wheat_proteins.ratio is None,
            problem.hydratation@ == 700_000,
            problem.salt_ratio@ == 20_000,
            problem.ingredients@.len() == 0,
    {
        DoughProblem {
            mass: Target::free(),
            flour: Target::free(),
            wheat_proteins: Target::free(),
            hydratation: Ratio { ppm: 700_000 },
            salt_ratio: Ratio { ppm: 20_000 },
            ingredients: Vec::with_capacity(8),
        }
    }
}

impl<'a> DoughProblem<'a> {
    /// The same problem with `mass` asked of the whole dough.
    pub fn mass(self, mass: Target) -> (problem: Self)
        ensures
            problem == (DoughProblem { mass, ..self }),
    {
        let mut problem = self;
        problem.mass = mass;
        problem
    }

    /// The same problem with `flour` asked of the total flour.
    pub fn flour(self, flour: Target) -> (problem: Self)
        ensures
            problem == (DoughProblem { flour, ..self }),
    {
        let mut problem = self;
        problem.flour = flour;
        problem
    }

    /// The same problem with `wheat_proteins` asked of the wheat proteins.
    pub fn wheat_proteins(self, wheat_proteins: Target) -> (problem: Self)
        ensures
            problem == (DoughProblem { wheat_proteins, ..self }),
    {
        let mut problem = self;
        problem.wheat_proteins = wheat_proteins;
        problem
    }

    /// The same problem with the hydratation `hydratation`.
    pub fn hydratation(self, hydratation: Ratio) -> (problem: Self)
        ensures
            problem == (DoughProblem { hydratation, ..self }),
    {
        let mut problem = self;
        problem.hydratation = hydratation;
        problem
    }

    /// The same problem with `salt_ratio` of salt to the flour.
    pub fn salt_ratio(self, salt_ratio: Ratio) -> (problem: Self)
        ensures
            problem == (DoughProblem { salt_ratio, ..self }),
    {
        let mut problem = self;
        problem.salt_ratio = salt_ratio;
        problem
    }

    /// The same problem with one more ingredient, after the others.
    pub fn ingredient(self, ingredient: &'a Ingredient, target: Target) -> (problem: Self)
        ensures
            problem.ingredients@ == self.ingredients@.push((ingredient, target)),
            problem.mass == self.mass,
            problem.flour == self.flour,
            problem.wheat_proteins == self.wheat_proteins,
            problem.hydratation == self.hydratation,
            problem.salt_ratio == self.salt_ratio,
    {
        let mut problem = self;
        problem.ingredients.push((ingredient, target));
        problem
    }

    /// Adds an ingredient after the others, and returns its place among the
    /// ingredients, which is its place in the solved dough too.
    pub fn add_ingredient(&mut self, ingredient: &'a Ingredient, target: Target) -> (place: usize)
        ensures
            place == old(self).ingredients@.len(),
            final(self).ingredients@ == old(self).ingredients@.push((ingredient, target)),
            final(self).mass == old(self).mass,
            final(self).flour == old(self).flour,
            final(self).wheat_proteins == old(self).wheat_proteins,
            final(self).hydratation == old(self).hydratation,
            final(self).salt_ratio == old(self).salt_ratio,
    {
        let place: usize = self.ingredients.len();
        self.ingredients.push((ingredient, target));
        place
    }

    /// Whether the problem can be written as a linear system.
    pub fn is_well_formed(&self) -> (r: bool)
        ensures
            r == self.spec_well_formed(),
    {
        let n: usize = self.ingredients.len();
        if n > usize::MAX - AGGREGATES {
            return false;
        }
        let mut i: usize = 0;
        while i < n
            invariant
                n == self.ingredients@.len(),
                0 <= i <= n,
                forall|k: int|
                    0 <= k < i ==> (#[trigger] self.ingredients@[k]).0.water.is_fraction(),
            decreases n - i,
        {
            if !self.ingredients[i].0.water.is_fraction() {
                return false;
            }
            i = i + 1;
        }
        true
    }

    /// The equation that defines `aggregate`.
    fn balance_row(&self, aggregate: Aggregate) -> (row: Constraint)
        requires
            self.spec_well_formed(),
        ensures
            row@ == balance(self.ingredients@, aggregate),
    {
        let n: usize = self.ingredients.len();
        let mut terms: Vec<Term> = Vec::new();
        terms.push(Term { var: aggregate.index(), coeff: -RATIO_ONE });
        let mut i: usize = 0;
        while i < n
            invariant
                self.spec_well_formed(),
                n == self.ingredients@.len(),
                0 <= i <= n,
                terms@ == balance(self.ingredients@.take(i as int), aggregate),
            decreases n - i,
        {
            proof {
                let next = self.ingredients@.take(i + 1);
                assert(next.drop_last() =~= self.ingredients@.take(i as int));
                assert(next.last() == self.ingredients@[i as int]);
            }
            match self.ingredients[i].0.share(aggregate) {
                Some(share) => {
                    terms.push(Term { var: AGGREGATES + i, coeff: share.ppm });
                },
                None => {},
            }
            i = i + 1;
            assert(terms@ =~= balance(self.ingredients@.take(i as int), aggregate));
        }
        proof {
            assert(self.ingredients@.take(n as int) =~= self.ingredients@);
        }
        Constraint { terms }
    }

    /// The linear system of the problem: a variable for each total and each
    /// ingredient, and the equations that tie them together.
    pub fn system(&self) -> (system: LinearSystem)
        requires
            self.spec_well_formed(),
        ensures
            system@ == self.spec_system(),
            system@.well_formed(),
    {
        proof {
            lemma_system_is_well_formed(self);
        }
        let n: usize = self.ingredients.len();
        let mut variables: Vec<Variable> = Vec::new();
        variables.push(Variable { weight: 1, bound: self.mass.bound() });
        variables.push(Variable { weight: 1, bound: self.flour.bound() });
        variables.push(Variable { weight: 1, bound: Bound::Free });
        variables.push(Variable { weight: 1, bound: Bound::Free });
        variables.push(Variable { weight: 1, bound: Bound::Free });
        variables.push(Variable { weight: 1, bound: self.wheat_proteins.bound() });
        let mut constraints: Vec<Constraint> = Vec::new();
        constraints.push(self.balance_row(Aggregate::Mass));
        constraints.push(self.balance_row(Aggregate::Flour));
        constraints.push(self.balance_row(Aggregate::Water));
        constraints.push(self.balance_row(Aggregate::Leavener));
        constraints.push(self.balance_row(Aggregate::Salt));
        constraints.push(self.balance_row(Aggregate::WheatProteins));
        constraints.push(
            proportion_row(Aggregate::Flour, self.hydratation, Aggregate::Water.index()),
        );
        constraints.push(
            proportion_row(Aggregate::Flour, self.salt_ratio, Aggregate::Salt.index()),
        );
        match self.wheat_proteins.ratio {
            Some(ratio) => {
                constraints.push(
                    proportion_row(Aggregate::Flour, ratio, Aggregate::WheatProteins.index()),
                );
            },
            None => {},
        }
        assert(rows_of(constraints@) =~= self.spec_recipe_rows());
        let mut i: usize = 0;
        while i < n
            invariant
                self.spec_well_formed(),
                n == self.ingredients@.len(),
                0 <= i <= n,
                variables@.len() == AGGREGATES + i,
                forall|v: int| 0 <= v < AGGREGATES + i ==> variables@[v] == self.spec_variable(v),
                rows_of(constraints@) == self.spec_recipe_rows() + ingredient_proportions(
                    self.ingredients@.take(i as int),
                ),
            decreases n - i,
        {
            let ingredient: &Ingredient = self.ingredients[i].0;
            let target: Target = self.ingredients[i].1;
            proof {
                let next = self.ingredients@.take(i + 1);
                assert(next.drop_last() =~= self.ingredients@.take(i as int));
                assert(next.last() == self.ingredients@[i as int]);
            }
            variables.push(Variable { weight: i + 1, bound: target.bound() });
            let ghost rows_before = rows_of(constraints@);
            let ghost asked_before = ingredient_proportions(self.ingredients@.take(i as int));
            match target.ratio {
                Some(ratio) => {
                    let row = proportion_row(ingredient.reference(), ratio, AGGREGATES + i);
                    constraints.push(row);
                    assert(rows_of(constraints@) =~= rows_before.push(row@));
                    assert(ingredient_proportions(self.ingredients@.take(i + 1))
                        == asked_before.push(row@));
                },
                None => {
                    assert(ingredient_proportions(self.ingredients@.take(i + 1)) == asked_before);
                },
            }
            i = i + 1;
            assert(rows_of(constraints@) =~= self.spec_recipe_rows() + ingredient_proportions(
                self.ingredients@.take(i as int),
            ));
        }
        proof {
            assert(self.ingredients@.take(n as int) =~= self.ingredients@);
        }
        let system = LinearSystem { variables, constraints };
        assert(system@.variables =~= self.spec_system().variables);
        assert(system@.constraints =~= self.spec_system().constraints);
        system
    }
}

/// The equation that makes the variable at `var` the ratio `ratio` of the
/// total `reference`.
fn proportion_row(reference: Aggregate, ratio: Ratio, var: usize) -> (row: Constraint)
    ensures
        row@ == proportion(reference, ratio, var),
{
    let mut terms: Vec<Term> = Vec::new();
    terms.push(Term { var: reference.index(), coeff: ratio.ppm });
    terms.push(Term { var, coeff: -RATIO_ONE });
    assert(terms@ =~= proportion(reference, ratio, var));
    Constraint { terms }
}

} // verus!
