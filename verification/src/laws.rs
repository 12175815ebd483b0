//! What holds of every layout pass, proved from the definition of the pass.

pub mod bounds;
pub mod children;
pub mod columns;
pub mod grid;
pub mod rows;
pub mod settling;
