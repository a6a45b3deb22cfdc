pub mod text;
pub mod codegen;
pub mod model;
pub mod leaf;
pub mod states;
pub mod generator;
pub mod catalog;
pub mod listing;
