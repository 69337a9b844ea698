//! What holds of every exact solution of the system of a dough problem.
//!
//! A solver works on approximations, and the library checks what it hands
//! back within a tolerance. The statements here are about the system
//! itself: a point that solves it exactly is the dough that was asked for.
//! A point counts in units of which `unit` make a microgram, so every
//! solution in fractions is covered.

use crate::models::{sum_of_masses, Dough, Ingredient};
use crate::problem::{balance, balance_terms, ingredient_proportions, proportion, DoughProblem, Target};
use crate::quantity::{lemma_exact_quotient, spec_ratio_of, Mass, Ratio, RATIO_ONE};
use crate::roles::{Aggregate, AGGREGATES};
use crate::system::{lemma_linear_form_concat, lemma_linear_form_single, linear_form, Term};
use vstd::prelude::*;

verus! {

/// What the ingredients bring to `aggregate` at `point`: for each ingredient
/// that counts in it, its share times its mass. The result counts in
/// millionths of the unit of the point.
pub open spec fn brought(
    ingredients: Seq<(&Ingredient, Target)>,
    aggregate: Aggregate,
    point: Seq<int>,
) -> int
    decreases ingredients.len(),
{
    if ingredients.len() == 0 {
        0
    } else {
        brought(ingredients.drop_last(), aggregate, point) + match ingredients.last().0.spec_share(
            aggregate,
        ) {
            Some(share) => share@ * point[AGGREGATES + ingredients.len() - 1],
            None => 0,
        }
    }
}

/// The sum of the masses of the first `n` ingredients at `point`.
pub open spec fn portions_total(point: Seq<int>, n: nat) -> int
    decreases n,
{
    if n == 0 {
        0
    } else {
        portions_total(point, (n - 1) as nat) + point[AGGREGATES + n - 1]
    }
}

/// The values of `point` as numbers of micrograms.
pub open spec fn micrograms(point: Seq<Mass>) -> Seq<int> {
    Seq::new(point.len(), |i: int| point[i]@)
}

/// The terms of the ingredients in an equation of a total have the value of
/// what the ingredients bring to the total.
proof fn lemma_balance_terms_value(
    ingredients: Seq<(&Ingredient, Target)>,
    aggregate: Aggregate,
    point: Seq<int>,
)
    requires
        ingredients.len() + AGGREGATES <= usize::MAX,
    ensures
        linear_form(balance_terms(ingredients, aggregate), point) == brought(
            ingredients,
            aggregate,
            point,
        ),
    decreases ingredients.len(),
{
    if ingredients.len() > 0 {
        let before = balance_terms(ingredients.drop_last(), aggregate);
        lemma_balance_terms_value(ingredients.drop_last(), aggregate, point);
        match ingredients.last().0.spec_share(aggregate) {
            Some(share) => {
                let term = Term {
                    var: (AGGREGATES + ingredients.len() - 1) as usize,
                    coeff: share.ppm,
                };
                assert(before.push(term).drop_last() =~= before);
                assert(before.push(term).last() == term);
            },
            None => {},
        }
    }
}

/// The value of an equation that defines a total.
proof fn lemma_balance_value(
    ingredients: Seq<(&Ingredient, Target)>,
    aggregate: Aggregate,
    point: Seq<int>,
)
    requires
        ingredients.len() + AGGREGATES <= usize::MAX,
    ensures
        linear_form(balance(ingredients, aggregate), point) == brought(
            ingredients,
            aggregate,
            point,
        ) - RATIO_ONE * point[aggregate.spec_index() as int],
{
    let head = Term { var: aggregate.spec_index(), coeff: (-RATIO_ONE) as i64 };
    let total = point[aggregate.spec_index() as int];
    lemma_linear_form_single(head, point);
    assert(head.coeff * total == -(RATIO_ONE * total)) by (nonlinear_arith)
        requires
            head.coeff == -RATIO_ONE,
    ;
    lemma_linear_form_concat(seq![head], balance_terms(ingredients, aggregate), point);
    lemma_balance_terms_value(ingredients, aggregate, point);
}

/// The value of an equation that makes a variable a ratio of a total.
proof fn lemma_proportion_value(reference: Aggregate, ratio: Ratio, var: usize, point: Seq<int>)
    ensures
        linear_form(proportion(reference, ratio, var), point) == ratio@ * point[reference.spec_index() as int]
            - RATIO_ONE * point[var as int],
{
    let first = Term { var: reference.spec_index(), coeff: ratio.ppm };
    let second = Term { var: var, coeff: (-RATIO_ONE) as i64 };
    let value = point[var as int];
    lemma_linear_form_single(first, point);
    lemma_linear_form_single(second, point);
    assert(second.coeff * value == -(RATIO_ONE * value)) by (nonlinear_arith)
        requires
            second.coeff == -RATIO_ONE,
    ;
    lemma_linear_form_concat(seq![first], seq![second], point);
    assert(seq![first] + seq![second] =~= proportion(reference, ratio, var));
}

/// In the total mass every ingredient counts whole.
proof fn lemma_brought_to_mass(ingredients: Seq<(&Ingredient, Target)>, point: Seq<int>)
    ensures
        brought(ingredients, Aggregate::Mass, point) == RATIO_ONE * portions_total(
            point,
            ingredients.len(),
        ),
    decreases ingredients.len(),
{
    if ingredients.len() > 0 {
        lemma_brought_to_mass(ingredients.drop_last(), point);
    }
}

/// Where every equation of the ingredients holds, every ingredient that a
/// ratio is asked of has that ratio of its total.
proof fn lemma_ingredient_proportions_hold(
    ingredients: Seq<(&Ingredient, Target)>,
    point: Seq<int>,
)
    requires
        ingredients.len() + AGGREGATES <= usize::MAX,
        forall|c: int|
            0 <= c < ingredient_proportions(ingredients).len() ==> linear_form(
                #[trigger] ingredient_proportions(ingredients)[c],
                point,
            ) == 0,
    ensures
        forall|i: int|
            0 <= i < ingredients.len() ==> ((#[trigger] ingredients[i]).1.ratio matches Some(ratio)
                ==> ratio@ * point[ingredients[i].0.spec_reference().spec_index() as int]
                == RATIO_ONE * point[AGGREGATES + i]),
    decreases ingredients.len(),
{
    if ingredients.len() > 0 {
        let rest = ingredients.drop_last();
        let before = ingredient_proportions(rest);
        let last = ingredients.len() - 1;
        match ingredients.last().1.ratio {
            Some(ratio) => {
                let row = proportion(
                    ingredients.last().0.spec_reference(),
                    ratio,
                    (AGGREGATES + last) as usize,
                );
                assert(ingredient_proportions(ingredients) == before.push(row));
                assert forall|c: int| 0 <= c < before.len() implies linear_form(
                    #[trigger] before[c],
                    point,
                ) == 0 by {
                    assert(before[c] == ingredient_proportions(ingredients)[c]);
                }
                assert(ingredient_proportions(ingredients)[before.len() as int] == row);
                lemma_proportion_value(
                    ingredients.last().0.spec_reference(),
                    ratio,
                    (AGGREGATES + last) as usize,
                    point,
                );
            },
            None => {
                assert(ingredient_proportions(ingredients) == before);
            },
        }
        assert forall|c: int| 0 <= c < ingredient_proportions(rest).len() implies linear_form(
            #[trigger] ingredient_proportions(rest)[c],
            point,
        ) == 0 by {
            assert(ingredient_proportions(rest)[c] == ingredient_proportions(ingredients)[c]);
        }
        lemma_ingredient_proportions_hold(rest, point);
        assert forall|i: int| 0 <= i < ingredients.len() implies ((
        #[trigger] ingredients[i]).1.ratio matches Some(ratio) ==> ratio@ * point[ingredients[i].0.spec_reference().spec_index() as int]
            == RATIO_ONE * point[AGGREGATES + i]) by {
            if i < last {
                assert(ingredients[i] == rest[i]);
            }
        }
    }
}

/// Balance: at an exact solution every total is what the ingredients bring
/// to it. Both sides count in millionths of the unit of the point.
pub proof fn lemma_totals_are_sums(
    problem: &DoughProblem,
    aggregate: Aggregate,
    point: Seq<int>,
    unit: int,
)
    requires
        problem.spec_well_formed(),
        problem.spec_system().solved_by(point, unit),
    ensures
        brought(problem.ingredients@, aggregate, point) == RATIO_ONE * point[aggregate.spec_index() as int],
{
    let system = problem.spec_system();
    let recipe = problem.spec_recipe_rows();
    let k = aggregate.spec_index() as int;
    assert(recipe.len() >= 8);
    assert(system.constraints[k] == recipe[k]);
    assert(recipe[k] == balance(problem.ingredients@, aggregate));
    assert(linear_form(system.constraints[k], point) == 0);
    lemma_balance_value(problem.ingredients@, aggregate, point);
}

/// Mass balance: at an exact solution the masses of the ingredients add up
/// to the total mass, and the total mass is the mass that was asked of the
/// dough, if one was.
pub proof fn lemma_mass_balance(problem: &DoughProblem, point: Seq<int>, unit: int)
    requires
        problem.spec_well_formed(),
        problem.spec_system().solved_by(point, unit),
    ensures
        portions_total(point, problem.ingredients@.len()) == point[Aggregate::Mass.spec_index() as int],
        problem.mass.mass matches Some(asked) ==> portions_total(point, problem.ingredients@.len())
            == asked@ * unit,
{
    lemma_totals_are_sums(problem, Aggregate::Mass, point, unit);
    lemma_brought_to_mass(problem.ingredients@, point);
    let system = problem.spec_system();
    assert(system.variables[0] == problem.spec_variable(0));
}

/// Ratio satisfaction: at an exact solution the water is the hydratation
/// times the flour, the salt is the salt ratio times the flour, the wheat
/// proteins are the ratio that was asked of them times the flour, and every
/// ingredient that a ratio was asked of is that ratio times its total.
/// Both sides count in millionths of the unit of the point.
pub proof fn lemma_ratios_are_met(problem: &DoughProblem, point: Seq<int>, unit: int)
    requires
        problem.spec_well_formed(),
        problem.spec_system().solved_by(point, unit),
    ensures
        problem.hydratation@ * point[Aggregate::Flour.spec_index() as int] == RATIO_ONE
            * point[Aggregate::Water.spec_index() as int],
        problem.salt_ratio@ * point[Aggregate::Flour.spec_index() as int] == RATIO_ONE
            * point[Aggregate::Salt.spec_index() as int],
        problem.wheat_proteins.ratio matches Some(asked) ==> asked@ * point[Aggregate::Flour.spec_index() as int]
            == RATIO_ONE * point[Aggregate::WheatProteins.spec_index() as int],
        forall|i: int|
            0 <= i < problem.ingredients@.len() ==> ((
            #[trigger] problem.ingredients@[i]).1.ratio matches Some(asked) ==> asked@
                * point[problem.ingredients@[i].0.spec_reference().spec_index() as int]
                == RATIO_ONE * point[AGGREGATES + i]),
{
    let system = problem.spec_system();
    let recipe = problem.spec_recipe_rows();
    let asked_rows = ingredient_proportions(problem.ingredients@);
    assert(recipe.len() >= 8);
    assert(system.constraints[6] == recipe[6]);
    assert(system.constraints[7] == recipe[7]);
    assert(linear_form(system.constraints[6], point) == 0);
    assert(linear_form(system.constraints[7], point) == 0);
    lemma_proportion_value(
        Aggregate::Flour,
        problem.hydratation,
        Aggregate::Water.spec_index(),
        point,
    );
    lemma_proportion_value(
        Aggregate::Flour,
        problem.salt_ratio,
        Aggregate::Salt.spec_index(),
        point,
    );
    match problem.wheat_proteins.ratio {
        Some(asked) => {
            assert(recipe.len() == 9);
            assert(system.constraints[8] == recipe[8]);
            assert(linear_form(system.constraints[8], point) == 0);
            lemma_proportion_value(
                Aggregate::Flour,
                asked,
                Aggregate::WheatProteins.spec_index(),
                point,
            );
        },
        None => {},
    }
    assert forall|c: int| 0 <= c < asked_rows.len() implies linear_form(
        #[trigger] asked_rows[c],
        point,
    ) == 0 by {
        assert(system.constraints[recipe.len() + c] == asked_rows[c]);
        assert(linear_form(system.constraints[recipe.len() + c], point) == 0);
    }
    lemma_ingredient_proportions_hold(problem.ingredients@, point);
}

/// The portions read off a point add up to the sum of the masses of the
/// ingredients at the point.
proof fn lemma_portions_add_up(problem: &DoughProblem, point: Seq<Mass>, k: nat)
    requires
        k <= problem.ingredients@.len(),
        point.len() == problem.ingredients@.len() + AGGREGATES,
    ensures
        sum_of_masses(problem.spec_portions(point).take(k as int)) == portions_total(
            micrograms(point),
            k,
        ),
    decreases k,
{
    let portions = problem.spec_portions(point);
    if k > 0 {
        lemma_portions_add_up(problem, point, (k - 1) as nat);
        assert(portions.take(k as int).drop_last() =~= portions.take(k - 1));
        assert(portions.take(k as int).last() == portions[k - 1]);
    }
}

/// An exact solution in micrograms is the dough that was asked for: its
/// ingredients add up to the solved total mass, which is the mass that was
/// asked of the dough, if one was; and where there is flour in it, its
/// hydratation is the hydratation of the problem, its wheat proteins to its
/// flour are the ratio that was asked of them, if one was, and `accepts`
/// accepts it.
pub proof fn lemma_exact_dough(problem: &DoughProblem, point: Seq<Mass>, dough: Dough)
    requires
        problem.spec_well_formed(),
        problem.spec_system().solved_by(micrograms(point), 1),
        problem.is_dough_of(dough, point),
    ensures
        dough.spec_total_mass() == point[Aggregate::Mass.spec_index() as int]@,
        problem.mass.mass matches Some(asked) ==> dough.spec_total_mass() == asked@,
        RATIO_ONE * dough.water@ == problem.hydratation@ * dough.flour@,
        RATIO_ONE * point[Aggregate::Salt.spec_index() as int]@ == problem.salt_ratio@
            * dough.flour@,
        dough.flour@ != 0 ==> spec_ratio_of(dough.water@, dough.flour@) == Some(
            problem.hydratation@,
        ),
        dough.flour@ != 0 ==> (problem.wheat_proteins.ratio matches Some(asked) ==> spec_ratio_of(
            dough.wheat_proteins@,
            dough.flour@,
        ) == Some(asked@)),
        dough.flour@ != 0 ==> problem.spec_is_consistent(
            &dough,
            point[Aggregate::Mass.spec_index() as int],
        ),
        dough.flour@ != 0 ==> problem.spec_accepts(point),
{
    let values = micrograms(point);
    let n = problem.ingredients@.len();
    let flour = dough.flour@;
    lemma_mass_balance(problem, values, 1);
    lemma_ratios_are_met(problem, values, 1);
    lemma_portions_add_up(problem, point, n);
    assert(problem.spec_portions(point).take(n as int) =~= problem.spec_portions(point));
    assert(values[0] == point[0]@);
    assert(values[1] == point[1]@);
    assert(values[2] == point[2]@);
    assert(values[4] == point[4]@);
    assert(values[5] == point[5]@);
    if flour != 0 {
        lemma_exact_quotient(problem.hydratation@, flour);
        assert(dough.water@ * RATIO_ONE == problem.hydratation@ * flour);
        match problem.wheat_proteins.ratio {
            Some(asked) => {
                lemma_exact_quotient(asked@, flour);
                assert(dough.wheat_proteins@ * RATIO_ONE == asked@ * flour);
            },
            None => {},
        }
    }
}

/// A plain sourdough of a given mass: flour without water or salt, a
/// starter of flour and water of which a ratio is asked, water, and salt, in
/// this order.
pub open spec fn is_plain_sourdough(problem: &DoughProblem) -> bool {
    let flour = problem.ingredients@[0].0;
    let starter = problem.ingredients@[1].0;
    let water = problem.ingredients@[2].0;
    let salt = problem.ingredients@[3].0;
    &&& problem.ingredients@.len() == 4
    &&& problem.mass.mass matches Some(asked) && asked@ > 0
    &&& problem.hydratation@ >= 0
    &&& problem.salt_ratio@ >= 0
    &&& flour.spec_has_flour() && flour.water@ == 0 && !flour.spec_has_salt()
    &&& starter.spec_has_flour() && starter.spec_has_water() && starter.water@ < RATIO_ONE
        && !starter.spec_has_salt()
    &&& problem.ingredients@[1].1.ratio is Some
    &&& !water.spec_has_flour() && water.water@ == RATIO_ONE && !water.spec_has_salt()
    &&& !salt.spec_has_flour() && !salt.spec_has_water() && salt.salt@ == RATIO_ONE
}

/// `more` is `less` with a larger ratio asked of the second ingredient, all
/// else equal.
pub open spec fn asks_more_of_second(less: &DoughProblem, more: &DoughProblem) -> bool {
    &&& less.mass == more.mass
    &&& less.flour == more.flour
    &&& less.wheat_proteins == more.wheat_proteins
    &&& less.hydratation == more.hydratation
    &&& less.salt_ratio == more.salt_ratio
    &&& less.ingredients@.len() == more.ingredients@.len()
    &&& forall|i: int|
        0 <= i < less.ingredients@.len() ==> (#[trigger] less.ingredients@[i]).0
            == more.ingredients@[i].0
    &&& forall|i: int|
        0 <= i < less.ingredients@.len() && i != 1 ==> (#[trigger] less.ingredients@[i]).1
            == more.ingredients@[i].1
    &&& less.ingredients@[1].1.mass == more.ingredients@[1].1.mass
    &&& less.ingredients@[1].1.ratio matches Some(small) && more.ingredients@[1].1.ratio matches Some(
        large,
    ) && small@ < large@
}

/// The equations of a plain sourdough, solved for the flour, the starter,
/// the added flour and the added water.
proof fn lemma_plain_sourdough(problem: &DoughProblem, point: Seq<int>, unit: int)
    requires
        problem.spec_well_formed(),
        is_plain_sourdough(problem),
        problem.spec_system().solved_by(point, unit),
    ensures
        ({
            let one = RATIO_ONE as int;
            let h = problem.hydratation@;
            let s = problem.salt_ratio@;
            let asked = problem.mass.mass->Some_0@;
            let ratio = problem.ingredients@[1].1.ratio->Some_0@;
            let wet = problem.ingredients@[1].0.water@;
            let flour = point[1];
            &&& (one + h + s) * flour == one * (asked * unit)
            &&& one * point[AGGREGATES + 1] == ratio * flour
            &&& one * point[AGGREGATES + 0] == one * flour - (one - wet) * point[AGGREGATES + 1]
            &&& one * point[AGGREGATES + 2] == h * flour - wet * point[AGGREGATES + 1]
        }),
{
    let one = RATIO_ONE as int;
    let ingredients = problem.ingredients@;
    let wet = ingredients[1].0.water@;
    let added_flour = point[AGGREGATES + 0];
    let starter = point[AGGREGATES + 1];
    let added_water = point[AGGREGATES + 2];
    let added_salt = point[AGGREGATES + 3];
    lemma_totals_are_sums(problem, Aggregate::Mass, point, unit);
    lemma_totals_are_sums(problem, Aggregate::Flour, point, unit);
    lemma_totals_are_sums(problem, Aggregate::Water, point, unit);
    lemma_totals_are_sums(problem, Aggregate::Salt, point, unit);
    lemma_mass_balance(problem, point, unit);
    lemma_ratios_are_met(problem, point, unit);
    let three = ingredients.drop_last();
    let two = three.drop_last();
    let single = two.drop_last();
    assert(single.drop_last().len() == 0);
    assert(three.last() == ingredients[2]);
    assert(two.last() == ingredients[1]);
    assert(single.last() == ingredients[0]);
    reveal_with_fuel(brought, 5);
    assert(brought(ingredients, Aggregate::Mass, point) == one * added_flour + one * starter + one
        * added_water + one * added_salt);
    assert(brought(ingredients, Aggregate::Flour, point) == one * added_flour + (one - wet)
        * starter);
    assert(brought(ingredients, Aggregate::Water, point) == wet * starter + one * added_water);
    assert(brought(ingredients, Aggregate::Salt, point) == one * added_salt);
    assert((one - wet) * starter == one * starter - wet * starter) by (nonlinear_arith);
    assert(ingredients[1].1.ratio is Some);
    assert(ingredients[1].0.spec_reference() == Aggregate::Flour);
    let h = problem.hydratation@;
    let s = problem.salt_ratio@;
    let flour = point[1];
    assert((one + h + s) * flour == one * flour + h * flour + s * flour) by (nonlinear_arith);
}

/// Monotonicity: in a plain sourdough of a given mass, asking a larger ratio
/// of starter, all else equal, strictly lowers the flour and the water that
/// are added beside it. The two points count in the same unit.
pub proof fn lemma_more_starter_less_added(
    less: &DoughProblem,
    more: &DoughProblem,
    point_less: Seq<int>,
    point_more: Seq<int>,
    unit: int,
)
    requires
        less.spec_well_formed(),
        more.spec_well_formed(),
        is_plain_sourdough(less),
        asks_more_of_second(less, more),
        less.spec_system().solved_by(point_less, unit),
        more.spec_system().solved_by(point_more, unit),
    ensures
        point_more[AGGREGATES + 0] < point_less[AGGREGATES + 0],
        point_more[AGGREGATES + 2] < point_less[AGGREGATES + 2],
{
    assert(is_plain_sourdough(more)) by {
        assert(less.ingredients@[0].0 == more.ingredients@[0].0);
        assert(less.ingredients@[1].0 == more.ingredients@[1].0);
        assert(less.ingredients@[2].0 == more.ingredients@[2].0);
        assert(less.ingredients@[3].0 == more.ingredients@[3].0);
    }
    lemma_plain_sourdough(less, point_less, unit);
    lemma_plain_sourdough(more, point_more, unit);
    let one = RATIO_ONE as int;
    let h = less.hydratation@;
    let s = less.salt_ratio@;
    let asked = less.mass.mass->Some_0@;
    let wet = less.ingredients@[1].0.water@;
    let small = less.ingredients@[1].1.ratio->Some_0@;
    let large = more.ingredients@[1].1.ratio->Some_0@;
    let f1 = point_less[1];
    let f2 = point_more[1];
    let st1 = point_less[AGGREGATES + 1];
    let st2 = point_more[AGGREGATES + 1];
    let fl1 = point_less[AGGREGATES + 0];
    let fl2 = point_more[AGGREGATES + 0];
    let wa1 = point_less[AGGREGATES + 2];
    let wa2 = point_more[AGGREGATES + 2];
    assert(wet == more.ingredients@[1].0.water@);
    // the flour is the same in both doughs, and there is some
    assert(f1 == f2 && f1 > 0) by (nonlinear_arith)
        requires
            one == 1_000_000,
            h >= 0,
            s >= 0,
            asked > 0,
            unit > 0,
            (one + h + s) * f1 == one * (asked * unit),
            (one + h + s) * f2 == one * (asked * unit),
    {
        assert(asked * unit > 0);
        assert((one + h + s) * (f1 - f2) == 0);
    }
    // more starter
    assert(st1 < st2) by (nonlinear_arith)
        requires
            one == 1_000_000,
            f1 > 0,
            small < large,
            one * st1 == small * f1,
            one * st2 == large * f1,
    {
        assert(small * f1 < large * f1);
    }
    // less flour and less water beside it
    assert(fl2 < fl1) by (nonlinear_arith)
        requires
            one == 1_000_000,
            wet < one,
            st1 < st2,
            one * fl1 == one * f1 - (one - wet) * st1,
            one * fl2 == one * f1 - (one - wet) * st2,
    {
        assert((one - wet) * st1 < (one - wet) * st2);
    }
    assert(wa2 < wa1) by (nonlinear_arith)
        requires
            one == 1_000_000,
            wet > 0,
            st1 < st2,
            one * wa1 == h * f1 - wet * st1,
            one * wa2 == h * f1 - wet * st2,
    {
        assert(wet * st1 < wet * st2);
    }
}

} // verus!
