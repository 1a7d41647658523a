//! The drawing styles a node can carry.

use vstd::prelude::*;

verus! {

/// How a node is drawn. `Style::NoStyle` means that no style is requested, in
/// which case nothing about style appears in the rendered text.
#[derive(Clone, Copy, Debug, PartialEq, Eq, Structural)]
pub enum Style {
    NoStyle,
    Solid,
    Dashed,
    Dotted,
    Bold,
    Rounded,
    Diagonals,
    Filled,
    Striped,
    Wedged,
}

impl Style {
    /// The DOT keyword of a style. `Style::NoStyle` has the empty keyword.
    pub open spec fn keyword(self) -> Seq<char> {
        match self {
            Style::NoStyle => ""@,
            Style::Solid => "solid"@,
            Style::Dashed => "dashed"@,
            Style::Dotted => "dotted"@,
            Style::Bold => "bold"@,
            Style::Rounded => "rounded"@,
            Style::Diagonals => "diagonals"@,
            Style::Filled => "filled"@,
            Style::Striped => "striped"@,
            Style::Wedged => "wedged"@,
        }
    }

    /// Returns the DOT keyword of this style.
    pub fn as_slice(self) -> (word: &'static str)
        ensures
            word@ == self.keyword(),
    {
        match self {
            Style::NoStyle => "",
            Style::Solid => "solid",
            Style::Dashed => "dashed",
            Style::Dotted => "dotted",
            Style::Bold => "bold",
            Style::Rounded => "rounded",
            Style::Diagonals => "diagonals",
            Style::Filled => "filled",
            Style::Striped => "striped",
            Style::Wedged => "wedged",
        }
    }
}

} // verus!
