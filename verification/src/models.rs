//! What the catalog holds: ingredients with their composition, and the doughs
//! and products made of them.

use crate::quantity::{
    spec_ratio_of, spec_water_ratio_to_hydratation, water_ratio_to_hydratation, Mass, Ratio,
    RATIO_ONE,
};
use ulid::Ulid;
use vstd::prelude::*;

verus! {

/// An identifier of the catalog. The library carries it and never looks inside.
#[verifier::external_type_specification]
#[verifier::external_body]
pub struct ExUlid(Ulid);

/// `Ulid`'s derived `Clone::clone`: an identifier is `Copy`, and its clone is
/// the identifier itself.
pub assume_specification[ <Ulid as Clone>::clone ](id: &Ulid) -> (copy: Ulid)
    ensures
        copy == *id,
;

/// A ratio at or below this one counts as zero: 0.001.
pub const NOT_ZERO_THRESHOLD: i64 = 1_000;

/// What an ingredient is there for.
#[derive(Clone, Copy, Debug, PartialEq, Eq, Hash, Structural)]
pub enum IngredientCategory {
    /// Gives the dough its structure.
    Flour,
    /// Makes the dough rise.
    Leavener,
    Liquid,
    Fat,
    Nuts,
    Seeds,
    Salt,
    Mixed,
}

/// What an ingredient is, within its category.
#[derive(Clone, Copy, Debug, PartialEq, Eq, Hash, Structural)]
pub enum IngredientKind {
    WhiteFlourUnbleached,
    WhiteFlourBleached,
    WholeWheatFlour,
    WhiteRyeFlour,
    MediumRyeFlour,
    DarkRyeFlour,
    PumpernickelFlour,
    GlutenPowder,
    /// A live culture of flour and water.
    SourdoughStarter,
    ActiveDryYeast,
    InstantDryYeast,
    FreshYeast,
    Beer,
    Water,
    Milk,
    Juice,
    Broth,
    Shortening,
    Butter,
    Margarine,
    ReducedFatSubstitute,
    Oil,
    TableSalt,
    MisoPaste,
    DashiPowder,
    Eggs,
    /// Any other ingredient.
    Other,
}

/// An ingredient of the catalog. Each component is a ratio of the
/// ingredient's own mass.
#[derive(Clone, Debug, PartialEq, Eq)]
pub struct Ingredient {
    pub id: Ulid,
    pub name: String,
    pub added_by: Ulid,
    pub category: IngredientCategory,
    pub kind: IngredientKind,
    pub proteins: Ratio,
    /// The mineral content: how much bran and germ is left in a flour.
    pub ash: Ratio,
    pub water: Ratio,
    pub sugar: Ratio,
    pub salt: Ratio,
    pub fat: Ratio,
    pub brand: Option<String>,
    pub notes: Option<String>,
    pub reference: Option<String>,
    pub pictures: Vec<Ulid>,
}

impl Ingredient {
    /// Whether part of the ingredient is flour: any flour, and a sourdough starter.
    pub open spec fn spec_has_flour(&self) -> bool {
        self.category == IngredientCategory::Flour || self.kind
            == IngredientKind::SourdoughStarter
    }

    /// Whether the ingredient holds water worth counting.
    pub open spec fn spec_has_water(&self) -> bool {
        self.water@ > NOT_ZERO_THRESHOLD
    }

    /// Whether the ingredient holds salt worth counting.
    pub open spec fn spec_has_salt(&self) -> bool {
        self.salt@ > NOT_ZERO_THRESHOLD
    }

    /// Whether the ingredient is there to make the dough rise.
    pub open spec fn spec_is_leavener(&self) -> bool {
        self.category == IngredientCategory::Leavener
    }

    /// The part of the ingredient that is flour: what is not water, where
    /// there is flour in it at all.
    pub open spec fn spec_flour_ratio(&self) -> int {
        if self.spec_has_flour() {
            RATIO_ONE - self.water@
        } else {
            0
        }
    }

    /// Whether part of the ingredient is flour: any flour, and a sourdough starter.
    #[verifier::when_used_as_spec(spec_has_flour)]
    pub fn has_flour(&self) -> (r: bool)
        ensures
            r == self.spec_has_flour(),
    {
        self.category == IngredientCategory::Flour || self.kind
            == IngredientKind::SourdoughStarter
    }

    /// Whether the ingredient holds water worth counting.
    #[verifier::when_used_as_spec(spec_has_water)]
    pub fn has_water(&self) -> (r: bool)
        ensures
            r == self.spec_has_water(),
    {
        self.water.ppm > NOT_ZERO_THRESHOLD
    }

    /// Whether the ingredient holds salt worth counting.
    #[verifier::when_used_as_spec(spec_has_salt)]
    pub fn has_salt(&self) -> (r: bool)
        ensures
            r == self.spec_has_salt(),
    {
        self.salt.ppm > NOT_ZERO_THRESHOLD
    }

    /// Whether the ingredient is there to make the dough rise.
    #[verifier::when_used_as_spec(spec_is_leavener)]
    pub fn is_leavener(&self) -> (r: bool)
        ensures
            r == self.spec_is_leavener(),
    {
        self.category == IngredientCategory::Leavener
    }

    /// The part of the ingredient that is flour.
    pub fn flour_ratio(&self) -> (r: Ratio)
        requires
            self.water.is_fraction(),
        ensures
            r@ == self.spec_flour_ratio(),
    {
        if self.has_flour() {
            Ratio { ppm: RATIO_ONE - self.water.ppm }
        } else {
            Ratio { ppm: 0 }
        }
    }

    /// The hydratation of the ingredient: its water to what is not water,
    /// where the water ratio is water to the whole. `None` for pure water.
    pub fn hydratation(&self) -> (h: Option<Ratio>)
        requires
            self.water.is_fraction(),
        ensures
            match h {
                Some(h) => self.water@ < RATIO_ONE && h@ == spec_water_ratio_to_hydratation(
                    self.water@,
                ),
                None => self.water@ == RATIO_ONE,
            },
    {
        water_ratio_to_hydratation(self.water)
    }
}

impl IngredientCategory {
    /// The kinds of ingredient that the category holds, in the order in
    /// which they are offered.
    pub open spec fn spec_kinds(&self) -> Seq<IngredientKind> {
        match self {
            IngredientCategory::Flour => seq![
                IngredientKind::WhiteFlourUnbleached,
                IngredientKind::WhiteFlourBleached,
                IngredientKind::WholeWheatFlour,
                IngredientKind::WhiteRyeFlour,
                IngredientKind::MediumRyeFlour,
                IngredientKind::DarkRyeFlour,
                IngredientKind::PumpernickelFlour,
                IngredientKind::GlutenPowder,
                IngredientKind::Other,
            ],
            IngredientCategory::Leavener => seq![
                IngredientKind::SourdoughStarter,
                IngredientKind::ActiveDryYeast,
                IngredientKind::InstantDryYeast,
                IngredientKind::FreshYeast,
                IngredientKind::Beer,
            ],
            IngredientCategory::Liquid => seq![
                IngredientKind::Water,
                IngredientKind::Milk,
                IngredientKind::Juice,
                IngredientKind::Broth,
                IngredientKind::Other,
            ],
            IngredientCategory::Fat => seq![
                IngredientKind::Shortening,
                IngredientKind::Butter,
                IngredientKind::Margarine,
                IngredientKind::ReducedFatSubstitute,
                IngredientKind::Oil,
                IngredientKind::Other,
            ],
            IngredientCategory::Nuts => seq![IngredientKind::Other],
            IngredientCategory::Seeds => seq![IngredientKind::Other],
            IngredientCategory::Salt => seq![
                IngredientKind::TableSalt,
                IngredientKind::MisoPaste,
                IngredientKind::DashiPowder,
                IngredientKind::Other,
            ],
            IngredientCategory::Mixed => seq![IngredientKind::Eggs, IngredientKind::Other],
        }
    }

    /// The kinds of ingredient that the category holds.
    pub fn kinds(&self) -> (kinds: Vec<IngredientKind>)
        ensures
            kinds@ =~= self.spec_kinds(),
    {
        match self {
            IngredientCategory::Flour => vec![
                IngredientKind::WhiteFlourUnbleached,
                IngredientKind::WhiteFlourBleached,
                IngredientKind::WholeWheatFlour,
                IngredientKind::WhiteRyeFlour,
                IngredientKind::MediumRyeFlour,
                IngredientKind::DarkRyeFlour,
                IngredientKind::PumpernickelFlour,
                IngredientKind::GlutenPowder,
                IngredientKind::Other,
            ],
            IngredientCategory::Leavener => vec![
                IngredientKind::SourdoughStarter,
                IngredientKind::ActiveDryYeast,
                IngredientKind::InstantDryYeast,
                IngredientKind::FreshYeast,
                IngredientKind::Beer,
            ],
            IngredientCategory::Liquid => vec![
                IngredientKind::Water,
                IngredientKind::Milk,
                IngredientKind::Juice,
                IngredientKind::Broth,
                IngredientKind::Other,
            ],
            IngredientCategory::Fat => vec![
                IngredientKind::Shortening,
                IngredientKind::Butter,
                IngredientKind::Margarine,
                IngredientKind::ReducedFatSubstitute,
                IngredientKind::Oil,
                IngredientKind::Other,
            ],
            IngredientCategory::Nuts => vec![IngredientKind::Other],
            IngredientCategory::Seeds => vec![IngredientKind::Other],
            IngredientCategory::Salt => vec![
                IngredientKind::TableSalt,
                IngredientKind::MisoPaste,
                IngredientKind::DashiPowder,
                IngredientKind::Other,
            ],
            IngredientCategory::Mixed => vec![IngredientKind::Eggs, IngredientKind::Other],
        }
    }
}

/// A solved dough: the totals that matter to a baker, and the mass of every
/// ingredient, in the order in which the ingredients were given.
#[derive(Clone, Debug, PartialEq, Eq)]
pub struct Dough {
    pub flour: Mass,
    pub water: Mass,
    pub wheat_proteins: Mass,
    pub ingredients: Vec<(Ulid, Mass)>,
}

/// The sum of the masses of `items`, in micrograms.
pub open spec fn sum_of_masses(items: Seq<(Ulid, Mass)>) -> int
    decreases items.len(),
{
    if items.len() == 0 {
        0
    } else {
        sum_of_masses(items.drop_last()) + items.last().1@
    }
}

impl Dough {
    /// The mass of the dough: the sum of the masses of its ingredients.
    pub open spec fn spec_total_mass(&self) -> int {
        sum_of_masses(self.ingredients@)
    }

    /// The mass of the dough: the sum of the masses of its ingredients;
    /// `None` where the sum is beyond what a `Mass` holds.
    pub fn total_mass(&self) -> (total: Option<Mass>)
        ensures
            match total {
                Some(m) => m@ == self.spec_total_mass(),
                None => !(i64::MIN <= self.spec_total_mass() <= i64::MAX),
            },
    {
        let n: usize = self.ingredients.len();
        let mut sum: i128 = 0;
        let mut i: usize = 0;
        while i < n
            invariant
                n == self.ingredients@.len(),
                0 <= i <= n,
                sum == sum_of_masses(self.ingredients@.take(i as int)),
                -(i as int) * 0x8000_0000_0000_0000 <= sum <= (i as int) * 0x8000_0000_0000_0000,
            decreases n - i,
        {
            let mass: i64 = self.ingredients[i].1.micrograms;
            proof {
                let next = self.ingredients@.take(i + 1);
                assert(next.drop_last() =~= self.ingredients@.take(i as int));
                assert(next.last() == self.ingredients@[i as int]);
                assert(i < 0x1_0000_0000_0000_0000);
            }
            sum = sum + (mass as i128);
            i = i + 1;
        }
        proof {
            assert(self.ingredients@.take(n as int) =~= self.ingredients@);
        }
        if sum < (i64::MIN as i128) || sum > (i64::MAX as i128) {
            None
        } else {
            Some(Mass { micrograms: sum as i64 })
        }
    }

    /// The hydratation of the dough, its water to its flour; `None` where
    /// there is no flour, or the ratio is beyond what a `Ratio` holds.
    pub fn hydratation(&self) -> (h: Option<Ratio>)
        ensures
            match h {
                Some(q) => spec_ratio_of(self.water@, self.flour@) == Some(q@),
                None => spec_ratio_of(self.water@, self.flour@) is None,
            },
    {
        self.water.ratio_to(&self.flour)
    }

    /// The wheat proteins of the dough to its flour; `None` where there is
    /// no flour, or the ratio is beyond what a `Ratio` holds.
    pub fn wheat_proteins_ratio(&self) -> (r: Option<Ratio>)
        ensures
            match r {
                Some(q) => spec_ratio_of(self.wheat_proteins@, self.flour@) == Some(q@),
                None => spec_ratio_of(self.wheat_proteins@, self.flour@) is None,
            },
    {
        self.wheat_proteins.ratio_to(&self.flour)
    }
}

/// What was baked.
#[derive(Clone, Copy, Debug, PartialEq, Eq, Hash, Structural)]
pub enum ProductKind {
    Bread,
    Pizza,
    Pastry,
}

/// Something that was baked, with the dough it was made of.
#[derive(Clone, Debug, PartialEq, Eq)]
pub struct Product {
    pub id: Ulid,
    pub baker: Ulid,
    pub name: String,
    pub kind: ProductKind,
    pub dough: Dough,
    pub date: String,
    pub made_in: Option<String>,
    pub notes: Option<String>,
    pub pictures: Vec<Ulid>,
    pub videos: Vec<Ulid>,
}

} // verus!
