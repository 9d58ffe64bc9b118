//! A small-step interpreter for a tiny imperative language.
//!
//! A program is a tree of [`Node`]s. Evaluation rewrites the tree one
//! reduction at a time until it reaches a normal form, reading and
//! writing an [`environment::Environment`] of variable bindings on the
//! way. [`Node::reduce`] takes a single step; a
//! [`machine::Machine`] takes one step after another and records the
//! text of every state it comes to.
//!
//! Every contract is stated over a mathematical model. A node is
//! viewed as a [`term::Term`] and an environment as a map from names to
//! terms; [`semantics`] defines the reduction relation on terms,
//! [`rendering`] their canonical text, and [`machine`] the run of the
//! driver.

pub mod environment;
pub mod machine;
pub mod node;
pub mod rendering;
pub mod semantics;
pub mod term;

pub use crate::node::Node;
pub use crate::term::Term;
