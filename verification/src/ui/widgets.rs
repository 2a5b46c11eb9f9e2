//! Settings of the drawn widgets.

use vstd::prelude::*;

verus! {

/// Alignment of a card's title.
#[derive(Debug, Clone, Copy, PartialEq, Eq, Structural)]
pub enum TitleAlignment {
    Left,
}

impl Default for TitleAlignment {
    fn default() -> (alignment: TitleAlignment)
        ensures
            alignment == TitleAlignment::Left,
    {
        TitleAlignment::Left
    }
}

} // verus!
