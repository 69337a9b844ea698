//! A bread-dough calculator.
//!
//! A baker says what the dough should be: its mass or its flour, how wet
//! and how salty it is, and what goes into it. `DoughProblem::system` writes
//! that down as a linear system, and `DoughProblem::solve` reads the answer
//! of a solver as a `Dough`, with the mass of every ingredient.
//!
//! All quantities are whole numbers: a `Mass` counts micrograms, and a
//! `Ratio` parts per million.

pub mod laws;
pub mod models;
pub mod problem;
pub mod quantity;
pub mod roles;
pub mod solution;
pub mod system;
pub mod tasks;

pub use models::{Dough, Ingredient, IngredientCategory, IngredientKind, Product, ProductKind};
pub use problem::{DoughProblem, Target};
pub use quantity::{
    hydratation_to_water_ratio, water_ratio_to_hydratation, Mass, Ratio, RATIO_ONE,
};
pub use roles::{Aggregate, AGGREGATES};
pub use solution::{DoughSolution, SolverOutcome};
pub use system::{Bound, Constraint, LinearSystem, Term, Variable};
pub use tasks::{parse_args, project_root, Action, ArgsError};
