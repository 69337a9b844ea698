//! The totals of a dough, and how an ingredient enters each of them.
//!
//! One mass counts in several totals at once: a sourdough starter counts
//! whole in the total mass and among the leaveners, with its flour in the
//! total flour and with its water in the total water.

use crate::models::Ingredient;
use crate::quantity::{Ratio, RATIO_ONE};
use vstd::prelude::*;

verus! {

/// A total of the dough.
#[derive(Clone, Copy, Debug, PartialEq, Eq, Hash, Structural)]
pub enum Aggregate {
    Mass,
    Flour,
    Water,
    Leavener,
    Salt,
    WheatProteins,
}

/// The number of totals. In a point of the linear system the totals come
/// first, in the order of `Aggregate`, and the ingredients follow them.
pub const AGGREGATES: usize = 6;

impl Aggregate {
    /// The place of the total among the variables of the linear system.
    pub open spec fn spec_index(self) -> usize {
        match self {
            Aggregate::Mass => 0,
            Aggregate::Flour => 1,
            Aggregate::Water => 2,
            Aggregate::Leavener => 3,
            Aggregate::Salt => 4,
            Aggregate::WheatProteins => 5,
        }
    }

    /// The place of the total among the variables of the linear system.
    #[verifier::when_used_as_spec(spec_index)]
    pub fn index(self) -> (i: usize)
        ensures
            i == self.spec_index(),
            i < AGGREGATES,
    {
        match self {
            Aggregate::Mass => 0,
            Aggregate::Flour => 1,
            Aggregate::Water => 2,
            Aggregate::Leavener => 3,
            Aggregate::Salt => 4,
            Aggregate::WheatProteins => 5,
        }
    }
}

impl Ingredient {
    /// The part of the ingredient's mass that counts in `aggregate`; `None`
    /// where the ingredient does not count in it at all.
    pub open spec fn spec_share(&self, aggregate: Aggregate) -> Option<Ratio> {
        match aggregate {
            Aggregate::Mass => Some(Ratio { ppm: RATIO_ONE }),
            Aggregate::Flour => if self.spec_has_flour() {
                Some(Ratio { ppm: (RATIO_ONE - self.water@) as i64 })
            } else {
                None
            },
            Aggregate::Water => if self.spec_has_water() {
                Some(self.water)
            } else {
                None
            },
            Aggregate::Leavener => if self.spec_is_leavener() {
                Some(Ratio { ppm: RATIO_ONE })
            } else {
                None
            },
            Aggregate::Salt => if self.spec_has_salt() {
                Some(self.salt)
            } else {
                None
            },
            Aggregate::WheatProteins => if self.spec_has_flour() {
                Some(self.proteins)
            } else {
                None
            },
        }
    }

    /// The total that a ratio target of the ingredient is a ratio of. What
    /// leavens or holds flour is measured against the flour, even where it
    /// holds water too; then what holds water against the water; then what
    /// holds salt against the salt; anything else against the whole dough.
    pub open spec fn spec_reference(&self) -> Aggregate {
        if self.spec_is_leavener() || self.spec_has_flour() {
            Aggregate::Flour
        } else if self.spec_has_water() {
            Aggregate::Water
        } else if self.spec_has_salt() {
            Aggregate::Salt
        } else {
            Aggregate::Mass
        }
    }

    /// The part of the ingredient's mass that counts in `aggregate`; `None`
    /// where the ingredient does not count in it at all.
    pub fn share(&self, aggregate: Aggregate) -> (share: Option<Ratio>)
        requires
            self.water.is_fraction(),
        ensures
            share == self.spec_share(aggregate),
    {
        match aggregate {
            Aggregate::Mass => Some(Ratio { ppm: RATIO_ONE }),
            Aggregate::Flour => if self.has_flour() {
                Some(self.flour_ratio())
            } else {
                None
            },
            Aggregate::Water => if self.has_water() {
                Some(self.water)
            } else {
                None
            },
            Aggregate::Leavener => if self.is_leavener() {
                Some(Ratio { ppm: RATIO_ONE })
            } else {
                None
            },
            Aggregate::Salt => if self.has_salt() {
                Some(self.salt)
            } else {
                None
            },
            Aggregate::WheatProteins => if self.has_flour() {
                Some(self.proteins)
            } else {
                None
            },
        }
    }

    /// The total that a ratio target of the ingredient is a ratio of.
    #[verifier::when_used_as_spec(spec_reference)]
    pub fn reference(&self) -> (aggregate: Aggregate)
        ensures
            aggregate == self.spec_reference(),
    {
        if self.is_leavener() || self.has_flour() {
            Aggregate::Flour
        } else if self.has_water() {
            Aggregate::Water
        } else if self.has_salt() {
            Aggregate::Salt
        } else {
            Aggregate::Mass
        }
    }
}

} // verus!
