//! Genetic programming: tree generation policies.

pub mod gen;
