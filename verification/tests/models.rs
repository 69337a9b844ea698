use bread_world::{
    Aggregate, Dough, Ingredient, IngredientCategory, IngredientKind, Mass, Product, ProductKind,
    Ratio,
};
use ulid::Ulid;

fn assert_mass_eq(a: Mass, b: Mass) {
    assert!(a.approx_eq(&b), "left: {:?}, right: {:?}", a, b);
}

fn ingredient(
    category: IngredientCategory,
    kind: IngredientKind,
    water: i64,
    salt: i64,
    proteins: i64,
) -> Ingredient {
    Ingredient {
        id: Ulid::new(),
        name: "Something".to_owned(),
        added_by: Ulid::nil(),
        category,
        kind,
        proteins: Ratio::from_ppm(proteins),
        ash: Ratio::from_ppm(0),
        water: Ratio::from_ppm(water),
        sugar: Ratio::from_ppm(0),
        salt: Ratio::from_ppm(salt),
        fat: Ratio::from_ppm(0),
        brand: None,
        notes: None,
        reference: None,
        pictures: Vec::new(),
    }
}

fn dough_of(masses: &[u32]) -> Dough {
    Dough {
        flour: Mass::from_grams(0),
        water: Mass::from_grams(0),
        wheat_proteins: Mass::from_grams(0),
        ingredients: masses
            .iter()
            .map(|grams| (Ulid::new(), Mass::from_grams(*grams as i32)))
            .collect(),
    }
}

#[test]
fn dough_total_mass() {
    // between one and four masses, each from 50 g to 999 g
    let mut seed: u64 = 0x2545_f491_4f6c_dd1d;
    for _ in 0..256 {
        let mut masses: Vec<u32> = Vec::new();
        seed = seed.wrapping_mul(6364136223846793005).wrapping_add(1442695040888963407);
        let count = 1 + (seed >> 33) % 4;
        for _ in 0..count {
            seed = seed.wrapping_mul(6364136223846793005).wrapping_add(1442695040888963407);
            masses.push(50 + ((seed >> 33) % 950) as u32);
        }
        let expected_total_mass = Mass::from_grams(masses.iter().sum::<u32>() as i32);
        let dough = dough_of(&masses);
        let actual_total_mass = dough.total_mass().unwrap();
        assert_mass_eq(actual_total_mass, expected_total_mass);
        assert_eq!(actual_total_mass, expected_total_mass);
    }
}

#[test]
fn total_mass_of_no_ingredient_is_zero() {
    assert_eq!(dough_of(&[]).total_mass(), Some(Mass::from_grams(0)));
    assert_eq!(dough_of(&[50, 1000]).total_mass(), Some(Mass::from_grams(1050)));
}

#[test]
fn total_mass_beyond_a_mass_is_none() {
    let mut dough = dough_of(&[]);
    dough.ingredients.push((Ulid::nil(), Mass::from_micrograms(i64::MAX)));
    assert_eq!(dough.total_mass(), Some(Mass::from_micrograms(i64::MAX)));
    dough.ingredients.push((Ulid::nil(), Mass::from_micrograms(1)));
    assert_eq!(dough.total_mass(), None);
    // what goes beyond on the way may come back
    dough.ingredients.push((Ulid::nil(), Mass::from_micrograms(-2)));
    assert_eq!(dough.total_mass(), Some(Mass::from_micrograms(i64::MAX - 1)));
    let mut negative = dough_of(&[]);
    negative.ingredients.push((Ulid::nil(), Mass::from_micrograms(i64::MIN)));
    negative.ingredients.push((Ulid::nil(), Mass::from_micrograms(-1)));
    assert_eq!(negative.total_mass(), None);
}

#[test]
fn dough_ratios_are_to_the_flour() {
    let dough = Dough {
        flour: Mass::from_grams(500),
        water: Mass::from_grams(375),
        wheat_proteins: Mass::from_micrograms(65_666_666),
        ingredients: Vec::new(),
    };
    assert_eq!(dough.hydratation(), Some(Ratio::from_ppm(750_000)));
    assert_eq!(dough.wheat_proteins_ratio(), Some(Ratio::from_ppm(131_333)));
    let no_flour = Dough { flour: Mass::from_grams(0), ..dough };
    assert_eq!(no_flour.hydratation(), None);
    assert_eq!(no_flour.wheat_proteins_ratio(), None);
}

#[test]
fn what_counts_as_flour_water_salt_and_leavener() {
    let flour = ingredient(IngredientCategory::Flour, IngredientKind::WholeWheatFlour, 0, 0, 0);
    assert!(flour.has_flour());
    assert!(!flour.has_water());
    assert!(!flour.has_salt());
    assert!(!flour.is_leavener());

    let starter =
        ingredient(IngredientCategory::Leavener, IngredientKind::SourdoughStarter, 333_333, 0, 0);
    assert!(starter.has_flour());
    assert!(starter.has_water());
    assert!(starter.is_leavener());

    // a starter holds flour wherever the catalog files it
    let misfiled =
        ingredient(IngredientCategory::Mixed, IngredientKind::SourdoughStarter, 500_000, 0, 0);
    assert!(misfiled.has_flour());
    assert!(!misfiled.is_leavener());

    let yeast = ingredient(IngredientCategory::Leavener, IngredientKind::FreshYeast, 0, 0, 0);
    assert!(!yeast.has_flour());
    assert!(yeast.is_leavener());

    // a thousandth is nothing, and anything above it is something
    let trace = ingredient(IngredientCategory::Fat, IngredientKind::Butter, 1_000, 1_000, 0);
    assert!(!trace.has_water());
    assert!(!trace.has_salt());
    let some = ingredient(IngredientCategory::Fat, IngredientKind::Butter, 1_001, 1_001, 0);
    assert!(some.has_water());
    assert!(some.has_salt());
}

#[test]
fn flour_ratio_is_what_is_not_water() {
    let starter =
        ingredient(IngredientCategory::Leavener, IngredientKind::SourdoughStarter, 333_333, 0, 0);
    assert_eq!(starter.flour_ratio(), Ratio::from_ppm(666_667));
    let flour = ingredient(IngredientCategory::Flour, IngredientKind::DarkRyeFlour, 0, 0, 0);
    assert_eq!(flour.flour_ratio(), Ratio::from_ppm(1_000_000));
    let soaked = ingredient(IngredientCategory::Flour, IngredientKind::Other, 1_000_000, 0, 0);
    assert_eq!(soaked.flour_ratio(), Ratio::from_ppm(0));
    let milk = ingredient(IngredientCategory::Liquid, IngredientKind::Milk, 900_000, 0, 0);
    assert_eq!(milk.flour_ratio(), Ratio::from_ppm(0));
}

#[test]
fn ingredient_hydratation_comes_from_its_water_ratio() {
    let starter =
        ingredient(IngredientCategory::Leavener, IngredientKind::SourdoughStarter, 500_000, 0, 0);
    assert_eq!(starter.hydratation(), Some(Ratio::from_ppm(1_000_000)));
    let water = ingredient(IngredientCategory::Liquid, IngredientKind::Water, 1_000_000, 0, 0);
    assert_eq!(water.hydratation(), None);
    let flour = ingredient(IngredientCategory::Flour, IngredientKind::Other, 0, 0, 0);
    assert_eq!(flour.hydratation(), Some(Ratio::from_ppm(0)));
}

#[test]
fn share_in_each_total() {
    let starter = ingredient(
        IngredientCategory::Leavener,
        IngredientKind::SourdoughStarter,
        333_333,
        0,
        93_333,
    );
    assert_eq!(starter.share(Aggregate::Mass), Some(Ratio::from_ppm(1_000_000)));
    assert_eq!(starter.share(Aggregate::Flour), Some(Ratio::from_ppm(666_667)));
    assert_eq!(starter.share(Aggregate::Water), Some(Ratio::from_ppm(333_333)));
    assert_eq!(starter.share(Aggregate::Leavener), Some(Ratio::from_ppm(1_000_000)));
    assert_eq!(starter.share(Aggregate::Salt), None);
    assert_eq!(starter.share(Aggregate::WheatProteins), Some(Ratio::from_ppm(93_333)));

    // proteins count only where there is flour
    let eggs = ingredient(IngredientCategory::Mixed, IngredientKind::Eggs, 750_000, 3_000, 125_000);
    assert_eq!(eggs.share(Aggregate::Mass), Some(Ratio::from_ppm(1_000_000)));
    assert_eq!(eggs.share(Aggregate::Flour), None);
    assert_eq!(eggs.share(Aggregate::Water), Some(Ratio::from_ppm(750_000)));
    assert_eq!(eggs.share(Aggregate::Leavener), None);
    assert_eq!(eggs.share(Aggregate::Salt), Some(Ratio::from_ppm(3_000)));
    assert_eq!(eggs.share(Aggregate::WheatProteins), None);
}

#[test]
fn reference_goes_by_flour_then_water_then_salt() {
    let starter =
        ingredient(IngredientCategory::Leavener, IngredientKind::SourdoughStarter, 500_000, 0, 0);
    assert_eq!(starter.reference(), Aggregate::Flour);
    // a leavener without flour, and with water and salt in it
    let beer = ingredient(IngredientCategory::Leavener, IngredientKind::Beer, 900_000, 2_000, 0);
    assert_eq!(beer.reference(), Aggregate::Flour);
    let flour = ingredient(IngredientCategory::Flour, IngredientKind::Other, 140_000, 0, 0);
    assert_eq!(flour.reference(), Aggregate::Flour);
    // water before salt
    let broth = ingredient(IngredientCategory::Liquid, IngredientKind::Broth, 950_000, 10_000, 0);
    assert_eq!(broth.reference(), Aggregate::Water);
    let miso = ingredient(IngredientCategory::Salt, IngredientKind::MisoPaste, 1_000, 120_000, 0);
    assert_eq!(miso.reference(), Aggregate::Salt);
    let oil = ingredient(IngredientCategory::Fat, IngredientKind::Oil, 0, 0, 0);
    assert_eq!(oil.reference(), Aggregate::Mass);
}

#[test]
fn totals_come_first_in_a_point() {
    assert_eq!(Aggregate::Mass.index(), 0);
    assert_eq!(Aggregate::Flour.index(), 1);
    assert_eq!(Aggregate::Water.index(), 2);
    assert_eq!(Aggregate::Leavener.index(), 3);
    assert_eq!(Aggregate::Salt.index(), 4);
    assert_eq!(Aggregate::WheatProteins.index(), 5);
}

#[test]
fn kinds_of_each_category() {
    assert_eq!(IngredientCategory::Flour.kinds().len(), 9);
    assert_eq!(IngredientCategory::Flour.kinds()[0], IngredientKind::WhiteFlourUnbleached);
    assert_eq!(IngredientCategory::Flour.kinds()[7], IngredientKind::GlutenPowder);
    assert_eq!(
        IngredientCategory::Leavener.kinds(),
        vec![
            IngredientKind::SourdoughStarter,
            IngredientKind::ActiveDryYeast,
            IngredientKind::InstantDryYeast,
            IngredientKind::FreshYeast,
            IngredientKind::Beer,
        ]
    );
    assert_eq!(
        IngredientCategory::Liquid.kinds(),
        vec![
            IngredientKind::Water,
            IngredientKind::Milk,
            IngredientKind::Juice,
            IngredientKind::Broth,
            IngredientKind::Other,
        ]
    );
    assert_eq!(IngredientCategory::Fat.kinds().len(), 6);
    assert_eq!(IngredientCategory::Fat.kinds()[4], IngredientKind::Oil);
    assert_eq!(IngredientCategory::Nuts.kinds(), vec![IngredientKind::Other]);
    assert_eq!(IngredientCategory::Seeds.kinds(), vec![IngredientKind::Other]);
    assert_eq!(
        IngredientCategory::Salt.kinds(),
        vec![
            IngredientKind::TableSalt,
            IngredientKind::MisoPaste,
            IngredientKind::DashiPowder,
            IngredientKind::Other,
        ]
    );
    assert_eq!(
        IngredientCategory::Mixed.kinds(),
        vec![IngredientKind::Eggs, IngredientKind::Other]
    );
}

#[test]
fn a_product_holds_its_dough() {
    let dough = dough_of(&[500, 350, 10]);
    let product = Product {
        id: Ulid::new(),
        baker: Ulid::nil(),
        name: "Country loaf".to_owned(),
        kind: ProductKind::Bread,
        dough: dough.clone(),
        date: "2023-02-19".to_owned(),
        made_in: None,
        notes: None,
        pictures: Vec::new(),
        videos: Vec::new(),
    };
    assert_eq!(product.clone(), product);
    assert_eq!(product.dough.total_mass(), Some(Mass::from_grams(860)));
    assert_ne!(product.kind, ProductKind::Pizza);
}
