//! A responsive flow layout: the children of a container are arranged into a
//! wrapping grid of equal-width columns, row after row, and the total size of
//! what was laid out is reported back to the container.
//!
//! [`FlowTableData`] is the configuration, [`FlowTableData::layout`] one
//! layout pass over plain records of the children, and [`FlowTable`] a
//! container that keeps its children and lays them out whenever its bounds
//! are set. The module [`pass`] defines what a pass computes, and [`laws`]
//! proves what holds of every pass.

pub mod config;
pub mod geometry;
pub mod laws;
pub mod pass;
pub mod table;

pub use config::{Columns, FlowTableData};
pub use geometry::{Child, Rect};
pub use pass::{is_excluded, Layout};
pub use table::FlowTable;
