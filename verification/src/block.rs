//! What every blocklet offers to the status bar.

use vstd::prelude::*;

verus! {

/// Something that the status bar can show as a block.
pub trait I3Block {
    /// The three lines of the block: long text, short text and colour.
    fn format_i3(&self) -> String;
}

} // verus!
