use crate::blocks::{
    is_control, is_noncharacter, is_private_use, is_scalar_value, is_surrogate,
    lemma_fixed_blocks_disjoint, MAX_CODEPOINT, PLANE_SIZE,
};
use crate::codepoint_type::CodepointType;
use crate::general_category::GeneralCategory;
use core::char::CharTryFromError;
use vstd::prelude::*;
use vstd::std_specs::convert::{FromSpec, FromSpecImpl, TryFromSpec, TryFromSpecImpl};

verus! {

/// The General_Category that the fixed blocks give the codepoint `c`:
/// `None` where `c` lies in none of them, so that only the character data
/// of a given Unicode version can tell.
pub open spec fn fixed_general_category(c: int) -> Option<GeneralCategory> {
    if is_control(c) {
        Some(GeneralCategory::Cc)
    } else if is_surrogate(c) {
        Some(GeneralCategory::Cs)
    } else if is_private_use(c) {
        Some(GeneralCategory::Co)
    } else if is_noncharacter(c) {
        Some(GeneralCategory::Cn)
    } else {
        None
    }
}

/// Anything that can say which codepoint it is.
pub trait Codepoint: Copy {
    /// The number of the codepoint, as contracts speak of it.
    spec fn spec_value(self) -> u32;

    /// The number of the codepoint.
    fn value(self) -> (v: u32)
        ensures
            v == self.spec_value(),
    ;

    /// The General_Category of the codepoint, where one of the fixed blocks
    /// decides it: the control codes, the surrogates, the private-use areas
    /// and the noncharacters. For every other codepoint the answer is
    /// `None`, whatever a given Unicode version assigns to it.
    fn general_category_unstable(self) -> (category: Option<GeneralCategory>)
        ensures
            category == fixed_general_category(self.spec_value() as int),
    {
        Some(
            match self.value() {
                0x00_0000..=0x00_001f => GeneralCategory::Cc,
                0x00_007f..=0x00_009f => GeneralCategory::Cc,
                0x00_d800..=0x00_dfff => GeneralCategory::Cs,
                0x00_e000..=0x00_f8ff => GeneralCategory::Co,
                0x00_fdd0..=0x00_fdef => GeneralCategory::Cn,
                0x00_fffe..=0x00_ffff => GeneralCategory::Cn,
                0x01_fffe..=0x01_ffff => GeneralCategory::Cn,
                0x02_fffe..=0x02_ffff => GeneralCategory::Cn,
                0x03_fffe..=0x03_ffff => GeneralCategory::Cn,
                0x04_fffe..=0x04_ffff => GeneralCategory::Cn,
                0x05_fffe..=0x05_ffff => GeneralCategory::Cn,
                0x06_fffe..=0x06_ffff => GeneralCategory::Cn,
                0x07_fffe..=0x07_ffff => GeneralCategory::Cn,
                0x08_fffe..=0x08_ffff => GeneralCategory::Cn,
                0x09_fffe..=0x09_ffff => GeneralCategory::Cn,
                0x0a_fffe..=0x0a_ffff => GeneralCategory::Cn,
                0x0b_fffe..=0x0b_ffff => GeneralCategory::Cn,
                0x0c_fffe..=0x0c_ffff => GeneralCategory::Cn,
                0x0d_fffe..=0x0d_ffff => GeneralCategory::Cn,
                0x0e_fffe..=0x0e_ffff => GeneralCategory::Cn,
                0x0f_0000..=0x0f_fffd => GeneralCategory::Co,
                0x0f_fffe..=0x0f_ffff => GeneralCategory::Cn,
                0x10_0000..=0x10_fffd => GeneralCategory::Co,
                0x10_fffe..=0x10_ffff => GeneralCategory::Cn,
                _ => return None,
            },
        )
    }
}

/// Represents a Unicode codepoint, i.e. a number between 0 and 0x10FFFF (inclusive).
#[derive(Copy, Clone)]
pub struct UnicodeCodepoint(u32);

impl View for UnicodeCodepoint {
    type V = u32;

    /// The number of the codepoint.
    closed spec fn view(&self) -> u32 {
        self.0
    }
}

impl UnicodeCodepoint {
    #[verifier::type_invariant]
    spec fn in_range(self) -> bool {
        self.0 <= MAX_CODEPOINT
    }

    /// The codepoint numbered `v`.
    pub closed spec fn spec_new(v: u32) -> UnicodeCodepoint {
        UnicodeCodepoint(v)
    }

    /// The codepoint numbered `v` has the number `v`.
    pub proof fn lemma_spec_new_view(v: u32)
        ensures
            Self::spec_new(v)@ == v,
    {
    }

    /// A codepoint is its number and nothing more.
    pub proof fn lemma_view_spec_new(self)
        ensures
            Self::spec_new(self@) == self,
    {
    }
}

impl Codepoint for UnicodeCodepoint {
    open spec fn spec_value(self) -> u32 {
        self@
    }

    fn value(self) -> (v: u32)
        ensures
            v <= MAX_CODEPOINT,
    {
        proof {
            use_type_invariant(&self);
        }
        self.0
    }
}

impl Codepoint for char {
    open spec fn spec_value(self) -> u32 {
        self as u32
    }

    fn value(self) -> (v: u32)
        ensures
            is_scalar_value(v as int),
    {
        proof {
            vstd::utf8::char_is_scalar(self);
        }
        self as u32
    }
}

impl FromSpecImpl<UnicodeCodepoint> for u32 {
    open spec fn obeys_from_spec() -> bool {
        true
    }

    open spec fn from_spec(codepoint: UnicodeCodepoint) -> u32 {
        codepoint@
    }
}

impl From<UnicodeCodepoint> for u32 {
    fn from(codepoint: UnicodeCodepoint) -> (v: u32)
        ensures
            v == codepoint@,
            v <= MAX_CODEPOINT,
    {
        proof {
            use_type_invariant(&codepoint);
        }
        codepoint.0
    }
}

impl TryFromSpecImpl<u32> for UnicodeCodepoint {
    open spec fn obeys_try_from_spec() -> bool {
        true
    }

    open spec fn try_from_spec(i: u32) -> Result<UnicodeCodepoint, ()> {
        if i <= MAX_CODEPOINT {
            Ok(UnicodeCodepoint::spec_new(i))
        } else {
            Err(())
        }
    }
}

impl TryFrom<u32> for UnicodeCodepoint {
    type Error = ();

    fn try_from(i: u32) -> (r: Result<UnicodeCodepoint, ()>)
        ensures
            r is Ok <==> i <= MAX_CODEPOINT,
            r matches Ok(codepoint) ==> codepoint@ == i,
    {
        if i > MAX_CODEPOINT {
            Err(())
        } else {
            Ok(UnicodeCodepoint(i))
        }
    }
}

impl FromSpecImpl<char> for UnicodeCodepoint {
    open spec fn obeys_from_spec() -> bool {
        true
    }

    open spec fn from_spec(ch: char) -> UnicodeCodepoint {
        UnicodeCodepoint::spec_new(ch as u32)
    }
}

impl From<char> for UnicodeCodepoint {
    fn from(ch: char) -> (codepoint: UnicodeCodepoint)
        ensures
            codepoint@ == ch as u32,
    {
        proof {
            vstd::utf8::char_is_scalar(ch);
        }
        UnicodeCodepoint(ch as u32)
    }
}

/// `core::char::CharTryFromError`, the error of `char::try_from` on a `u32`.
/// Nothing is known of what a value of it holds.
#[verifier::external_type_specification]
#[verifier::external_body]
pub struct ExCharTryFromError(CharTryFromError);

/// The error with which `char::try_from` refuses the number `v`.
pub uninterp spec fn char_try_from_error(v: u32) -> CharTryFromError;

/// Assumed of `char::try_from` on a `u32`, not proved: it succeeds on the
/// Unicode scalar values, that is on the codepoints that are no surrogates,
/// and on nothing else; the character it gives has the number it was given;
/// and its error, which carries no data, is decided by the number that was
/// refused.
pub assume_specification[ <char as TryFrom<u32>>::try_from ](v: u32) -> (r: Result<
    char,
    <char as TryFrom<u32>>::Error,
>)
    ensures
        r is Ok <==> is_scalar_value(v as int),
        r matches Ok(ch) ==> ch as u32 == v,
        r matches Err(e) ==> e == char_try_from_error(v),
;

impl TryFromSpecImpl<UnicodeCodepoint> for char {
    open spec fn obeys_try_from_spec() -> bool {
        true
    }

    open spec fn try_from_spec(codepoint: UnicodeCodepoint) -> Result<char, CharTryFromError> {
        if is_scalar_value(codepoint@ as int) {
            Ok(codepoint@ as char)
        } else {
            Err(char_try_from_error(codepoint@))
        }
    }
}

impl TryFrom<UnicodeCodepoint> for char {
    type Error = CharTryFromError;

    fn try_from(codepoint: UnicodeCodepoint) -> (r: Result<char, CharTryFromError>)
        ensures
            r is Ok <==> !is_surrogate(codepoint@ as int),
            r matches Ok(ch) ==> ch as u32 == codepoint@,
    {
        match char::try_from(u32::from(codepoint)) {
            Ok(ch) => {
                proof {
                    vstd::utf8::char_u32_cast(ch, codepoint@);
                }
                Ok(ch)
            },
            Err(e) => Err(e),
        }
    }
}

/// The fixed blocks never overlap, so the order in which they are tried
/// does not matter: a codepoint gets the category of the one block it lies
/// in, and none where it lies in no block.
pub proof fn lemma_fixed_category_by_block(c: int)
    ensures
        fixed_general_category(c) == Some(GeneralCategory::Cc) <==> is_control(c),
        fixed_general_category(c) == Some(GeneralCategory::Cs) <==> is_surrogate(c),
        fixed_general_category(c) == Some(GeneralCategory::Co) <==> is_private_use(c),
        fixed_general_category(c) == Some(GeneralCategory::Cn) <==> is_noncharacter(c),
        fixed_general_category(c) is None <==> !is_control(c) && !is_surrogate(c)
            && !is_private_use(c) && !is_noncharacter(c),
{
    lemma_fixed_blocks_disjoint(c);
}

/// Every C0 and C1 control code has the category `Cc`, and with it the
/// type `Control`.
pub proof fn lemma_control_codes(c: int)
    requires
        0x0000 <= c <= 0x001F || 0x007F <= c <= 0x009F,
    ensures
        fixed_general_category(c) == Some(GeneralCategory::Cc),
        GeneralCategory::Cc.codepoint_type_spec(c) == CodepointType::Control,
{
}

/// Every surrogate has the category `Cs`, and `Cs` gives the type
/// `Surrogate` whatever the codepoint.
pub proof fn lemma_surrogates(c: int, any: int)
    requires
        0xD800 <= c <= 0xDFFF,
    ensures
        fixed_general_category(c) == Some(GeneralCategory::Cs),
        GeneralCategory::Cs.codepoint_type_spec(any) == CodepointType::Surrogate,
{
}

/// Every codepoint of the block U+FDD0..U+FDEF, both ends included, has
/// the category `Cn` and the type `Noncharacter`.
pub proof fn lemma_noncharacter_block(c: int)
    requires
        0xFDD0 <= c <= 0xFDEF,
    ensures
        fixed_general_category(c) == Some(GeneralCategory::Cn),
        GeneralCategory::Cn.codepoint_type_spec(c) == CodepointType::Noncharacter,
{
}

/// In each of the 17 planes the last two codepoints have the category `Cn`
/// and the type `Noncharacter`, and the codepoint before them does not
/// have the category `Cn`.
pub proof fn lemma_plane_ends(plane: int)
    requires
        0 <= plane <= 16,
    ensures
        fixed_general_category(plane * PLANE_SIZE + 0xFFFE) == Some(GeneralCategory::Cn),
        fixed_general_category(plane * PLANE_SIZE + 0xFFFF) == Some(GeneralCategory::Cn),
        GeneralCategory::Cn.codepoint_type_spec(plane * PLANE_SIZE + 0xFFFE)
            == CodepointType::Noncharacter,
        GeneralCategory::Cn.codepoint_type_spec(plane * PLANE_SIZE + 0xFFFF)
            == CodepointType::Noncharacter,
        fixed_general_category(plane * PLANE_SIZE + 0xFFFD) != Some(GeneralCategory::Cn),
{
}

/// Where the fixed blocks give a codepoint its category, that category
/// gives it the type of the block it lies in. An unassigned codepoint among
/// them is a noncharacter, never merely reserved.
pub proof fn lemma_fixed_category_type(c: int, category: GeneralCategory)
    requires
        fixed_general_category(c) == Some(category),
    ensures
        is_control(c) <==> category.codepoint_type_spec(c) == CodepointType::Control,
        is_surrogate(c) <==> category.codepoint_type_spec(c) == CodepointType::Surrogate,
        is_private_use(c) <==> category.codepoint_type_spec(c) == CodepointType::PrivateUse,
        is_noncharacter(c) <==> category.codepoint_type_spec(c) == CodepointType::Noncharacter,
{
}

/// A character made into a codepoint and back is the character it was.
pub proof fn lemma_char_round_trip(ch: char)
    ensures
        <char as TryFromSpec<UnicodeCodepoint>>::try_from_spec(
            <UnicodeCodepoint as FromSpec<char>>::from_spec(ch),
        ) == Ok::<char, CharTryFromError>(ch),
{
    UnicodeCodepoint::lemma_spec_new_view(ch as u32);
    vstd::utf8::char_is_scalar(ch);
    vstd::utf8::char_u32_cast(ch, ch as u32);
}

} // verus!
