//! A setting as typed by hand: its text and whether it is acceptable.
use vstd::prelude::*;

verus! {

/// Why settings typed by hand could not be put in use.
#[derive(Debug, Clone, Copy, PartialEq, Eq, Structural)]
pub enum GuiError {
    GuiInputIsInsane,
}

/// A setting as typed by hand.
pub trait GuiInput {
    /// The text of the setting.
    spec fn value_spec(&self) -> Seq<char>;

    /// Whether the text is acceptable.
    spec fn sanity_spec(&self) -> bool;

    fn is_sane(&self) -> (r: bool)
        ensures
            r == self.sanity_spec(),
    ;

    fn get_value(&self) -> (r: String)
        ensures
            r@ == self.value_spec(),
    ;
}

} // verus!
