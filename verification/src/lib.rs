//! Terminal dashboard core for a Blocknet node: amounts, application state,
//! key dispatch, the tick schedule and the block grid, with their contracts.

pub mod api;
pub mod app;
pub mod binary;
pub mod clock;
pub mod cube;
pub mod field;
pub mod grid;
pub mod input;
pub mod overlay;
pub mod panels;
pub mod schedule;
pub mod text;
pub mod types;
