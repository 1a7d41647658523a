//! A single graph node and its rendering in the attribute syntax of the DOT
//! graph-description language.
//!
//! A [`Node`] is created from an identifier, which must belong to a strict
//! subset of DOT's `ID` grammar, optionally decorated through chained setters,
//! and turned into one line of DOT text by [`Node::to_dot_string`]. The
//! accepted identifiers and the rendered text are both specified
//! mathematically, over sequences of characters, and every function here is
//! proved to meet its contract.

pub mod node;
pub mod style;
pub mod utils;

pub use node::{check_name, new_name, NameError, Node, NodeView};
pub use style::Style;
pub use utils::quote_string;
