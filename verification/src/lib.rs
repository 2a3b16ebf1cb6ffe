//! Classification of Unicode codepoints by General_Category and by the
//! coarser codepoint type, over the blocks of the code space whose
//! assignment can never change.

pub mod blocks;
pub mod codepoint;
pub mod codepoint_type;
pub mod general_category;
