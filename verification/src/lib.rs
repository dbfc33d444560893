//! polyhedra — the verified core of the `.polyh` geometry compiler.

pub mod error;
pub mod shape_type;
pub mod text;
pub mod parser;
pub mod export;
pub mod cli;
pub mod eval;
pub mod commands;
pub mod units;
pub mod style;
