use vstd::prelude::*;

verus! {

/// The basic type of a codepoint, coarser than its General_Category.
#[derive(Debug, Copy, Clone, PartialEq, Eq, Hash, Structural)]
pub enum CodepointType {
    /// Letters, marks, numbers, punctuation, symbols and spaces
    Graphic,
    /// Invisible formatting characters and line and paragraph separators
    Format,
    /// The C0 and C1 control codes
    Control,
    /// Codepoints left to private agreement
    PrivateUse,
    /// The halves of UTF-16 surrogate pairs
    Surrogate,
    /// Codepoints that will never stand for a character
    Noncharacter,
    /// Codepoints that no character has been assigned to yet
    Reserved,
}

} // verus!
