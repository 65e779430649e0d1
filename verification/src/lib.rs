//! Genetic programming support: a tree-depth termination policy that decides,
//! node by node, whether the node being grown at a given depth must be a
//! terminal (leaf) node.

pub mod gp;
