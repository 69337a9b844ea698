use bread_world::{
    Bound, Constraint, DoughProblem, DoughSolution, Ingredient, IngredientCategory,
    IngredientKind, Mass, Ratio, SolverOutcome, Target, Term, Variable, AGGREGATES,
};
use ulid::Ulid;

fn ingredient(
    category: IngredientCategory,
    kind: IngredientKind,
    water: i64,
    salt: i64,
    proteins: i64,
) -> Ingredient {
    Ingredient {
        id: Ulid::new(),
        name: "Something".to_owned(),
        added_by: Ulid::nil(),
        category,
        kind,
        proteins: Ratio::from_ppm(proteins),
        ash: Ratio::from_ppm(0),
        water: Ratio::from_ppm(water),
        sugar: Ratio::from_ppm(0),
        salt: Ratio::from_ppm(salt),
        fat: Ratio::from_ppm(0),
        brand: None,
        notes: None,
        reference: None,
        pictures: Vec::new(),
    }
}

fn flour() -> Ingredient {
    ingredient(IngredientCategory::Flour, IngredientKind::WhiteFlourUnbleached, 0, 0, 130_000)
}

fn starter() -> Ingredient {
    ingredient(IngredientCategory::Leavener, IngredientKind::SourdoughStarter, 333_333, 0, 93_333)
}

fn water() -> Ingredient {
    ingredient(IngredientCategory::Liquid, IngredientKind::Water, 1_000_000, 0, 0)
}

fn salt() -> Ingredient {
    ingredient(IngredientCategory::Salt, IngredientKind::TableSalt, 0, 1_000_000, 0)
}

fn row(terms: &[(usize, i64)]) -> Constraint {
    Constraint { terms: terms.iter().map(|&(var, coeff)| Term { var, coeff }).collect() }
}

fn point(grams: &[i32]) -> Vec<Mass> {
    grams.iter().map(|value| Mass::from_grams(*value)).collect()
}

#[test]
fn targets() {
    let free = Target::free();
    assert_eq!((free.mass, free.ratio), (None, None));
    assert_eq!(free.bound(), Bound::Free);

    let by_mass = Target::by_mass(Mass::from_grams(100));
    assert_eq!((by_mass.mass, by_mass.ratio), (Some(Mass::from_grams(100)), None));
    assert_eq!(by_mass.bound(), Bound::Fixed(Mass::from_grams(100)));

    let by_ratio = Target::by_ratio(Ratio::from_percent(20));
    assert_eq!((by_ratio.mass, by_ratio.ratio), (None, Some(Ratio::from_ppm(200_000))));
    assert_eq!(by_ratio.bound(), Bound::Free);

    let both = Target { mass: Some(Mass::from_grams(100)), ratio: Some(Ratio::from_percent(20)) };
    assert_eq!(both.bound(), Bound::Fixed(Mass::from_grams(100)));
}

#[test]
fn default_problem() {
    let problem = DoughProblem::default();
    assert_eq!((problem.mass.mass, problem.mass.ratio), (None, None));
    assert_eq!((problem.flour.mass, problem.flour.ratio), (None, None));
    assert_eq!((problem.wheat_proteins.mass, problem.wheat_proteins.ratio), (None, None));
    assert_eq!(problem.hydratation, Ratio::from_percent(70));
    assert_eq!(problem.salt_ratio, Ratio::from_percent(2));
    assert!(problem.ingredients.is_empty());
}

#[test]
fn builders_change_one_thing() {
    let flour = flour();
    let water = water();
    let problem = DoughProblem::default()
        .mass(Target::by_mass(Mass::from_grams(1000)))
        .flour(Target::by_mass(Mass::from_grams(500)))
        .wheat_proteins(Target::by_ratio(Ratio::from_percent(15)))
        .hydratation(Ratio::from_percent(85))
        .salt_ratio(Ratio::from_percent(3))
        .ingredient(&flour, Target::free())
        .ingredient(&water, Target::by_ratio(Ratio::from_percent(50)));
    assert_eq!(problem.mass.mass, Some(Mass::from_grams(1000)));
    assert_eq!(problem.flour.mass, Some(Mass::from_grams(500)));
    assert_eq!(problem.wheat_proteins.ratio, Some(Ratio::from_ppm(150_000)));
    assert_eq!(problem.hydratation, Ratio::from_ppm(850_000));
    assert_eq!(problem.salt_ratio, Ratio::from_ppm(30_000));
    assert_eq!(problem.ingredients.len(), 2);
    assert_eq!(problem.ingredients[0].0.id, flour.id);
    assert_eq!(problem.ingredients[1].0.id, water.id);
    assert_eq!(problem.ingredients[1].1.ratio, Some(Ratio::from_ppm(500_000)));

    // one more change leaves the rest alone
    let problem = problem.hydratation(Ratio::from_percent(60));
    assert_eq!(problem.hydratation, Ratio::from_ppm(600_000));
    assert_eq!(problem.mass.mass, Some(Mass::from_grams(1000)));
    assert_eq!(problem.salt_ratio, Ratio::from_ppm(30_000));
    assert_eq!(problem.ingredients.len(), 2);
}

#[test]
fn add_ingredient_gives_the_place() {
    let flour = flour();
    let water = water();
    let mut problem = DoughProblem::default();
    assert_eq!(problem.add_ingredient(&flour, Target::free()), 0);
    assert_eq!(problem.add_ingredient(&water, Target::by_mass(Mass::from_grams(7))), 1);
    assert_eq!(problem.add_ingredient(&flour, Target::free()), 2);
    assert_eq!(problem.ingredients.len(), 3);
    assert_eq!(problem.ingredients[1].0.id, water.id);
    assert_eq!(problem.ingredients[1].1.mass, Some(Mass::from_grams(7)));
    assert_eq!(problem.hydratation, Ratio::from_percent(70));
}

#[test]
fn system_of_a_sourdough() {
    let flour = flour();
    let starter = starter();
    let water = water();
    let salt = salt();
    let problem = DoughProblem::default()
        .mass(Target::by_mass(Mass::from_grams(1000)))
        .wheat_proteins(Target::by_ratio(Ratio::from_percent(13)))
        .hydratation(Ratio::from_percent(75))
        .ingredient(&flour, Target::free())
        .ingredient(
            &starter,
            Target { mass: Some(Mass::from_grams(100)), ratio: Some(Ratio::from_percent(20)) },
        )
        .ingredient(&water, Target::free())
        .ingredient(&salt, Target::by_ratio(Ratio::from_percent(50)));
    assert!(problem.is_well_formed());
    let system = problem.system();

    let free = |weight: usize| Variable { weight, bound: Bound::Free };
    assert_eq!(
        system.variables,
        vec![
            Variable { weight: 1, bound: Bound::Fixed(Mass::from_grams(1000)) },
            free(1),
            free(1),
            free(1),
            free(1),
            free(1),
            free(1),
            Variable { weight: 2, bound: Bound::Fixed(Mass::from_grams(100)) },
            free(3),
            free(4),
        ]
    );
    let one = 1_000_000;
    assert_eq!(
        system.constraints,
        vec![
            // the total mass: everything, whole
            row(&[(0, -one), (6, one), (7, one), (8, one), (9, one)]),
            // the flour: the flour, and what is not water in the starter
            row(&[(1, -one), (6, one), (7, 666_667)]),
            // the water: the water in the starter, and the water
            row(&[(2, -one), (7, 333_333), (8, one)]),
            // the leaveners
            row(&[(3, -one), (7, one)]),
            // the salt
            row(&[(4, -one), (9, one)]),
            // the wheat proteins: those of what holds flour
            row(&[(5, -one), (6, 130_000), (7, 93_333)]),
            // water to flour, salt to flour, wheat proteins to flour
            row(&[(1, 750_000), (2, -one)]),
            row(&[(1, 20_000), (4, -one)]),
            row(&[(1, 130_000), (5, -one)]),
            // the starter to the flour, the salt to the total salt
            row(&[(1, 200_000), (7, -one)]),
            row(&[(4, 500_000), (9, -one)]),
        ]
    );
}

#[test]
fn system_without_ingredients() {
    let problem = DoughProblem::default().flour(Target::by_mass(Mass::from_grams(400)));
    let system = problem.system();
    assert_eq!(system.variables.len(), AGGREGATES);
    assert_eq!(system.variables[1].bound, Bound::Fixed(Mass::from_grams(400)));
    assert_eq!(system.variables[5].bound, Bound::Free);
    let one = 1_000_000;
    assert_eq!(
        system.constraints,
        vec![
            row(&[(0, -one)]),
            row(&[(1, -one)]),
            row(&[(2, -one)]),
            row(&[(3, -one)]),
            row(&[(4, -one)]),
            row(&[(5, -one)]),
            row(&[(1, 700_000), (2, -one)]),
            row(&[(1, 20_000), (4, -one)]),
        ]
    );
}

#[test]
fn ratio_targets_go_by_the_role_of_the_ingredient() {
    let oil = ingredient(IngredientCategory::Fat, IngredientKind::Oil, 0, 0, 0);
    let milk = ingredient(IngredientCategory::Liquid, IngredientKind::Milk, 900_000, 1_500, 0);
    let yeast = ingredient(IngredientCategory::Leavener, IngredientKind::FreshYeast, 700_000, 0, 0);
    let problem = DoughProblem::default()
        .ingredient(&oil, Target::by_ratio(Ratio::from_percent(5)))
        .ingredient(&milk, Target::by_ratio(Ratio::from_percent(30)))
        .ingredient(&yeast, Target::by_ratio(Ratio::from_percent(1)));
    let system = problem.system();
    let one = 1_000_000;
    assert_eq!(system.constraints.len(), 11);
    // oil to the whole dough, milk to the water, yeast to the flour
    assert_eq!(system.constraints[8], row(&[(0, 50_000), (6, -one)]));
    assert_eq!(system.constraints[9], row(&[(2, 300_000), (7, -one)]));
    assert_eq!(system.constraints[10], row(&[(1, 10_000), (8, -one)]));
    // yeast brings water and leavens, and brings neither flour nor proteins
    assert_eq!(system.constraints[1], row(&[(1, -one)]));
    assert_eq!(system.constraints[2], row(&[(2, -one), (7, 900_000), (8, 700_000)]));
    assert_eq!(system.constraints[3], row(&[(3, -one), (8, one)]));
    assert_eq!(system.constraints[4], row(&[(4, -one), (7, 1_500)]));
    assert_eq!(system.constraints[5], row(&[(5, -one)]));
}

#[test]
fn a_water_ratio_out_of_range_is_not_well_formed() {
    let flour = flour();
    let broken = ingredient(IngredientCategory::Liquid, IngredientKind::Juice, 1_000_001, 0, 0);
    let negative = ingredient(IngredientCategory::Liquid, IngredientKind::Juice, -1, 0, 0);
    assert!(DoughProblem::default().is_well_formed());
    assert!(DoughProblem::default().ingredient(&flour, Target::free()).is_well_formed());
    assert!(!DoughProblem::default()
        .ingredient(&flour, Target::free())
        .ingredient(&broken, Target::free())
        .is_well_formed());
    assert!(!DoughProblem::default().ingredient(&negative, Target::free()).is_well_formed());
}

#[test]
fn a_point_is_read_in_the_order_of_the_ingredients() {
    let flour = flour();
    let water = water();
    let salt = salt();
    let problem = DoughProblem::default()
        .ingredient(&flour, Target::free())
        .ingredient(&water, Target::free())
        .ingredient(&salt, Target::free());
    let values = point(&[860, 500, 350, 0, 10, 65, 500, 350, 10]);
    let dough = problem.extract(&values);
    assert_eq!(dough.flour, Mass::from_grams(500));
    assert_eq!(dough.water, Mass::from_grams(350));
    assert_eq!(dough.wheat_proteins, Mass::from_grams(65));
    assert_eq!(
        dough.ingredients,
        vec![
            (flour.id, Mass::from_grams(500)),
            (water.id, Mass::from_grams(350)),
            (salt.id, Mass::from_grams(10)),
        ]
    );
    assert!(problem.accepts(&values));
    assert!(problem.is_consistent(&dough, Mass::from_grams(860)));
    match problem.solve(&SolverOutcome::Optimal(values)) {
        DoughSolution::Found(found) => assert_eq!(found, dough),
        DoughSolution::NotFound => panic!("a best point is a dough"),
    }
}

#[test]
fn a_point_that_is_not_the_dough_asked_for_is_not_accepted() {
    let flour = flour();
    let water = water();
    let salt = salt();
    let problem = DoughProblem::default()
        .wheat_proteins(Target::by_ratio(Ratio::from_percent(13)))
        .ingredient(&flour, Target::free())
        .ingredient(&water, Target::free())
        .ingredient(&salt, Target::free());
    assert!(problem.accepts(&point(&[860, 500, 350, 0, 10, 65, 500, 350, 10])));
    // a value is missing, or one too many
    assert!(!problem.accepts(&point(&[860, 500, 350, 0, 10, 65, 500, 350])));
    assert!(!problem.accepts(&point(&[860, 500, 350, 0, 10, 65, 500, 350, 10, 0])));
    assert!(!problem.accepts(&point(&[])));
    // the ingredients do not add up to the total
    assert!(!problem.accepts(&point(&[861, 500, 350, 0, 10, 65, 500, 350, 10])));
    // too wet
    assert!(!problem.accepts(&point(&[860, 500, 351, 0, 10, 65, 500, 350, 10])));
    // no flour at all
    assert!(!problem.accepts(&point(&[360, 0, 350, 0, 10, 65, 0, 350, 10])));
    // too weak
    assert!(!problem.accepts(&point(&[860, 500, 350, 0, 10, 64, 500, 350, 10])));
    // within a thousandth all is well
    let mut close = point(&[860, 500, 350, 0, 10, 65, 500, 350, 10]);
    close[0] = Mass::from_micrograms(860_800_000);
    close[2] = Mass::from_micrograms(350_300_000);
    close[5] = Mass::from_micrograms(65_060_000);
    assert!(problem.accepts(&close));
    // the wheat proteins matter only where a ratio is asked of them
    let careless = problem.wheat_proteins(Target::free());
    assert!(careless.accepts(&point(&[860, 500, 350, 0, 10, 64, 500, 350, 10])));
}
