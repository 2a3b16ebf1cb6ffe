use crate::blocks::is_noncharacter;
use crate::codepoint_type::CodepointType;
use core::str::FromStr;
use vstd::prelude::*;

verus! {

/// Values for the General_Category (gc) character property.
/// These values are fixed; no new values will be added.
#[derive(Debug, Copy, Clone, PartialEq, Eq, Hash, Structural)]
pub enum GeneralCategory {
    /// Letter, uppercase
    Lu,
    /// Letter, lowercase
    Ll,
    /// Letter, titlecase
    Lt,
    /// Letter, modifier
    Lm,
    /// Letter, other
    Lo,
    /// Mark, nonspacing
    Mn,
    /// Mark, spacing combining
    Mc,
    /// Mark, enclosing
    Me,
    /// Number, decimal digit
    Nd,
    /// Number, letter
    Nl,
    /// Number, other
    No,
    /// Punctuation, connector
    Pc,
    /// Punctuation, dash
    Pd,
    /// Punctuation, open
    Ps,
    /// Punctuation, close
    Pe,
    /// Punctuation, initial quote
    Pi,
    /// Punctuation, final quote
    Pf,
    /// Punctuation, other
    Po,
    /// Symbol, math
    Sm,
    /// Symbol, currency
    Sc,
    /// Symbol, modifier
    Sk,
    /// Symbol, other
    So,
    /// Separator, space
    Zs,
    /// Separator, line
    Zl,
    /// Separator, paragraph
    Zp,
    /// Other, control
    Cc,
    /// Other, format
    Cf,
    /// Other, surrogate
    Cs,
    /// Other, private use
    Co,
    /// Other, not assigned
    Cn,
}

impl GeneralCategory {
    /// The two letters of the category's short name.
    pub open spec fn short_name_spec(self) -> Seq<char> {
        match self {
            GeneralCategory::Lu => seq!['L', 'u'],
            GeneralCategory::Ll => seq!['L', 'l'],
            GeneralCategory::Lt => seq!['L', 't'],
            GeneralCategory::Lm => seq!['L', 'm'],
            GeneralCategory::Lo => seq!['L', 'o'],
            GeneralCategory::Mn => seq!['M', 'n'],
            GeneralCategory::Mc => seq!['M', 'c'],
            GeneralCategory::Me => seq!['M', 'e'],
            GeneralCategory::Nd => seq!['N', 'd'],
            GeneralCategory::Nl => seq!['N', 'l'],
            GeneralCategory::No => seq!['N', 'o'],
            GeneralCategory::Pc => seq!['P', 'c'],
            GeneralCategory::Pd => seq!['P', 'd'],
            GeneralCategory::Ps => seq!['P', 's'],
            GeneralCategory::Pe => seq!['P', 'e'],
            GeneralCategory::Pi => seq!['P', 'i'],
            GeneralCategory::Pf => seq!['P', 'f'],
            GeneralCategory::Po => seq!['P', 'o'],
            GeneralCategory::Sm => seq!['S', 'm'],
            GeneralCategory::Sc => seq!['S', 'c'],
            GeneralCategory::Sk => seq!['S', 'k'],
            GeneralCategory::So => seq!['S', 'o'],
            GeneralCategory::Zs => seq!['Z', 's'],
            GeneralCategory::Zl => seq!['Z', 'l'],
            GeneralCategory::Zp => seq!['Z', 'p'],
            GeneralCategory::Cc => seq!['C', 'c'],
            GeneralCategory::Cf => seq!['C', 'f'],
            GeneralCategory::Cs => seq!['C', 's'],
            GeneralCategory::Co => seq!['C', 'o'],
            GeneralCategory::Cn => seq!['C', 'n'],
        }
    }

    /// The text of the category's long name.
    pub open spec fn long_name_spec(self) -> Seq<char> {
        match self {
            GeneralCategory::Lu => "Letter, uppercase"@,
            GeneralCategory::Ll => "Letter, lowercase"@,
            GeneralCategory::Lt => "Letter, titlecase"@,
            GeneralCategory::Lm => "Letter, modifier"@,
            GeneralCategory::Lo => "Letter, other"@,
            GeneralCategory::Mn => "Mark, nonspacing"@,
            GeneralCategory::Mc => "Mark, spacing combining"@,
            GeneralCategory::Me => "Mark, enclosing"@,
            GeneralCategory::Nd => "Number, decimal digit"@,
            GeneralCategory::Nl => "Number, letter"@,
            GeneralCategory::No => "Number, other"@,
            GeneralCategory::Pc => "Punctuation, connector"@,
            GeneralCategory::Pd => "Punctuation, dash"@,
            GeneralCategory::Ps => "Punctuation, open"@,
            GeneralCategory::Pe => "Punctuation, close"@,
            GeneralCategory::Pi => "Punctuation, initial quote"@,
            GeneralCategory::Pf => "Punctuation, final quote"@,
            GeneralCategory::Po => "Punctuation, other"@,
            GeneralCategory::Sm => "Symbol, math"@,
            GeneralCategory::Sc => "Symbol, currency"@,
            GeneralCategory::Sk => "Symbol, modifier"@,
            GeneralCategory::So => "Symbol, other"@,
            GeneralCategory::Zs => "Separator, space"@,
            GeneralCategory::Zl => "Separator, line"@,
            GeneralCategory::Zp => "Separator, paragraph"@,
            GeneralCategory::Cc => "Other, control"@,
            GeneralCategory::Cf => "Other, format"@,
            GeneralCategory::Cs => "Other, surrogate"@,
            GeneralCategory::Co => "Other, private use"@,
            GeneralCategory::Cn => "Other, not assigned"@,
        }
    }

    /// The type of a codepoint that has this category. The category settles
    /// it, except for `Cn`: an unassigned codepoint is a noncharacter where
    /// the standard has set it aside for good, and reserved where a later
    /// version may still assign it.
    pub open spec fn codepoint_type_spec(self, codepoint: int) -> CodepointType {
        match self {
            GeneralCategory::Cc => CodepointType::Control,
            GeneralCategory::Co => CodepointType::PrivateUse,
            GeneralCategory::Cs => CodepointType::Surrogate,
            GeneralCategory::Cf | GeneralCategory::Zl | GeneralCategory::Zp => CodepointType::Format,
            GeneralCategory::Cn => if is_noncharacter(codepoint) {
                CodepointType::Noncharacter
            } else {
                CodepointType::Reserved
            },
            _ => CodepointType::Graphic,
        }
    }

    /// What parsing makes of a string: the category whose short name it is,
    /// and an error where it is the short name of none.
    pub open spec fn from_str_spec(s: Seq<char>) -> Result<GeneralCategory, ()> {
        if exists|category: GeneralCategory| category.short_name_spec() == s {
            Ok(choose|category: GeneralCategory| category.short_name_spec() == s)
        } else {
            Err(())
        }
    }

    /// This method returns the short name (e.g. "Lu", "Ll") for the given General_Category.
    /// The values are stable; they will not change in future Unicode versions.
    pub fn short_name(&self) -> (name: &'static str)
        ensures
            name@ == self.short_name_spec(),
    {
        proof {
            reveal_strlit("Lu");
            reveal_strlit("Ll");
            reveal_strlit("Lt");
            reveal_strlit("Lm");
            reveal_strlit("Lo");
            reveal_strlit("Mn");
            reveal_strlit("Mc");
            reveal_strlit("Me");
            reveal_strlit("Nd");
            reveal_strlit("Nl");
            reveal_strlit("No");
            reveal_strlit("Pc");
            reveal_strlit("Pd");
            reveal_strlit("Ps");
            reveal_strlit("Pe");
            reveal_strlit("Pi");
            reveal_strlit("Pf");
            reveal_strlit("Po");
            reveal_strlit("Sm");
            reveal_strlit("Sc");
            reveal_strlit("Sk");
            reveal_strlit("So");
            reveal_strlit("Zs");
            reveal_strlit("Zl");
            reveal_strlit("Zp");
            reveal_strlit("Cc");
            reveal_strlit("Cf");
            reveal_strlit("Cs");
            reveal_strlit("Co");
            reveal_strlit("Cn");
        }
        match self {
            GeneralCategory::Lu => "Lu",
            GeneralCategory::Ll => "Ll",
            GeneralCategory::Lt => "Lt",
            GeneralCategory::Lm => "Lm",
            GeneralCategory::Lo => "Lo",
            GeneralCategory::Mn => "Mn",
            GeneralCategory::Mc => "Mc",
            GeneralCategory::Me => "Me",
            GeneralCategory::Nd => "Nd",
            GeneralCategory::Nl => "Nl",
            GeneralCategory::No => "No",
            GeneralCategory::Pc => "Pc",
            GeneralCategory::Pd => "Pd",
            GeneralCategory::Ps => "Ps",
            GeneralCategory::Pe => "Pe",
            GeneralCategory::Pi => "Pi",
            GeneralCategory::Pf => "Pf",
            GeneralCategory::Po => "Po",
            GeneralCategory::Sm => "Sm",
            GeneralCategory::Sc => "Sc",
            GeneralCategory::Sk => "Sk",
            GeneralCategory::So => "So",
            GeneralCategory::Zs => "Zs",
            GeneralCategory::Zl => "Zl",
            GeneralCategory::Zp => "Zp",
            GeneralCategory::Cc => "Cc",
            GeneralCategory::Cf => "Cf",
            GeneralCategory::Cs => "Cs",
            GeneralCategory::Co => "Co",
            GeneralCategory::Cn => "Cn",
        }
    }

    /// This method returns the long name (e.g. "Letter, uppercase") for the given General_Category.
    /// The values are stable; they will not change in future Unicode versions.
    pub fn long_name(&self) -> (name: &'static str)
        ensures
            name@ == self.long_name_spec(),
    {
        match self {
            GeneralCategory::Lu => "Letter, uppercase",
            GeneralCategory::Ll => "Letter, lowercase",
            GeneralCategory::Lt => "Letter, titlecase",
            GeneralCategory::Lm => "Letter, modifier",
            GeneralCategory::Lo => "Letter, other",
            GeneralCategory::Mn => "Mark, nonspacing",
            GeneralCategory::Mc => "Mark, spacing combining",
            GeneralCategory::Me => "Mark, enclosing",
            GeneralCategory::Nd => "Number, decimal digit",
            GeneralCategory::Nl => "Number, letter",
            GeneralCategory::No => "Number, other",
            GeneralCategory::Pc => "Punctuation, connector",
            GeneralCategory::Pd => "Punctuation, dash",
            GeneralCategory::Ps => "Punctuation, open",
            GeneralCategory::Pe => "Punctuation, close",
            GeneralCategory::Pi => "Punctuation, initial quote",
            GeneralCategory::Pf => "Punctuation, final quote",
            GeneralCategory::Po => "Punctuation, other",
            GeneralCategory::Sm => "Symbol, math",
            GeneralCategory::Sc => "Symbol, currency",
            GeneralCategory::Sk => "Symbol, modifier",
            GeneralCategory::So => "Symbol, other",
            GeneralCategory::Zs => "Separator, space",
            GeneralCategory::Zl => "Separator, line",
            GeneralCategory::Zp => "Separator, paragraph",
            GeneralCategory::Cc => "Other, control",
            GeneralCategory::Cf => "Other, format",
            GeneralCategory::Cs => "Other, surrogate",
            GeneralCategory::Co => "Other, private use",
            GeneralCategory::Cn => "Other, not assigned",
        }
    }

    /// The type of `codepoint`, given that this is its General_Category.
    pub fn codepoint_type(&self, codepoint: u32) -> (kind: CodepointType)
        ensures
            kind == self.codepoint_type_spec(codepoint as int),
    {
        match self {
            GeneralCategory::Cc => CodepointType::Control,
            GeneralCategory::Co => CodepointType::PrivateUse,
            GeneralCategory::Cs => CodepointType::Surrogate,
            GeneralCategory::Cf | GeneralCategory::Zl | GeneralCategory::Zp => {
                CodepointType::Format
            },
            GeneralCategory::Cn => match codepoint {
                0x00fdd0..=0x00fdef => CodepointType::Noncharacter,
                0x00fffe..=0x00ffff => CodepointType::Noncharacter,
                0x01fffe..=0x01ffff => CodepointType::Noncharacter,
                0x02fffe..=0x02ffff => CodepointType::Noncharacter,
                0x03fffe..=0x03ffff => CodepointType::Noncharacter,
                0x04fffe..=0x04ffff => CodepointType::Noncharacter,
                0x05fffe..=0x05ffff => CodepointType::Noncharacter,
                0x06fffe..=0x06ffff => CodepointType::Noncharacter,
                0x07fffe..=0x07ffff => CodepointType::Noncharacter,
                0x08fffe..=0x08ffff => CodepointType::Noncharacter,
                0x09fffe..=0x09ffff => CodepointType::Noncharacter,
                0x0afffe..=0x0affff => CodepointType::Noncharacter,
                0x0bfffe..=0x0bffff => CodepointType::Noncharacter,
                0x0cfffe..=0x0cffff => CodepointType::Noncharacter,
                0x0dfffe..=0x0dffff => CodepointType::Noncharacter,
                0x0efffe..=0x0effff => CodepointType::Noncharacter,
                0x0ffffe..=0x0fffff => CodepointType::Noncharacter,
                0x10fffe..=0x10ffff => CodepointType::Noncharacter,
                _ => CodepointType::Reserved,
            },
            _ => CodepointType::Graphic,
        }
    }

    /// Only for `Cn` does the type depend on the codepoint.
    pub proof fn lemma_codepoint_type_by_category(self, c1: int, c2: int)
        requires
            self != GeneralCategory::Cn,
        ensures
            self.codepoint_type_spec(c1) == self.codepoint_type_spec(c2),
    {
    }

    /// No two categories share a short name.
    pub proof fn lemma_short_name_injective(self, other: GeneralCategory)
        requires
            self.short_name_spec() == other.short_name_spec(),
        ensures
            self == other,
    {
        assert(self.short_name_spec()[0] == other.short_name_spec()[0]);
        assert(self.short_name_spec()[1] == other.short_name_spec()[1]);
    }

    /// Parsing undoes `short_name`: a string parses to a category exactly
    /// when it is that category's short name.
    pub proof fn lemma_from_str_inverts_short_name(s: Seq<char>, category: GeneralCategory)
        ensures
            Self::from_str_spec(s) == Ok::<GeneralCategory, ()>(category) <==> s
                == category.short_name_spec(),
            Self::from_str_spec(category.short_name_spec()) == Ok::<GeneralCategory, ()>(category),
    {
        if let Ok(found) = Self::from_str_spec(s) {
            if s == category.short_name_spec() {
                found.lemma_short_name_injective(category);
            }
        }
        if let Ok(found) = Self::from_str_spec(category.short_name_spec()) {
            found.lemma_short_name_injective(category);
        }
    }

    /// Parsing fails exactly on the strings that are no category's short
    /// name; among them is every string that is not two characters long.
    pub proof fn lemma_from_str_rejects(s: Seq<char>)
        ensures
            Self::from_str_spec(s) is Err <==> forall|category: GeneralCategory|
                category.short_name_spec() != s,
            s.len() != 2 ==> Self::from_str_spec(s) is Err,
    {
    }
}

impl FromStr for GeneralCategory {
    type Err = ();

    /// Finds the General_Category with the given short name (e.g. "Lu", "Ll").
    /// Any other string, however close to a short name, is an error.
    fn from_str(s: &str) -> (r: Result<GeneralCategory, ()>)
        ensures
            r == GeneralCategory::from_str_spec(s@),
    {
        if s.unicode_len() != 2 {
            return Err(());
        }
        let r = match (s.get_char(0), s.get_char(1)) {
            ('L', 'u') => Ok(GeneralCategory::Lu),
            ('L', 'l') => Ok(GeneralCategory::Ll),
            ('L', 't') => Ok(GeneralCategory::Lt),
            ('L', 'm') => Ok(GeneralCategory::Lm),
            ('L', 'o') => Ok(GeneralCategory::Lo),
            ('M', 'n') => Ok(GeneralCategory::Mn),
            ('M', 'c') => Ok(GeneralCategory::Mc),
            ('M', 'e') => Ok(GeneralCategory::Me),
            ('N', 'd') => Ok(GeneralCategory::Nd),
            ('N', 'l') => Ok(GeneralCategory::Nl),
            ('N', 'o') => Ok(GeneralCategory::No),
            ('P', 'c') => Ok(GeneralCategory::Pc),
            ('P', 'd') => Ok(GeneralCategory::Pd),
            ('P', 's') => Ok(GeneralCategory::Ps),
            ('P', 'e') => Ok(GeneralCategory::Pe),
            ('P', 'i') => Ok(GeneralCategory::Pi),
            ('P', 'f') => Ok(GeneralCategory::Pf),
            ('P', 'o') => Ok(GeneralCategory::Po),
            ('S', 'm') => Ok(GeneralCategory::Sm),
            ('S', 'c') => Ok(GeneralCategory::Sc),
            ('S', 'k') => Ok(GeneralCategory::Sk),
            ('S', 'o') => Ok(GeneralCategory::So),
            ('Z', 's') => Ok(GeneralCategory::Zs),
            ('Z', 'l') => Ok(GeneralCategory::Zl),
            ('Z', 'p') => Ok(GeneralCategory::Zp),
            ('C', 'c') => Ok(GeneralCategory::Cc),
            ('C', 'f') => Ok(GeneralCategory::Cf),
            ('C', 's') => Ok(GeneralCategory::Cs),
            ('C', 'o') => Ok(GeneralCategory::Co),
            ('C', 'n') => Ok(GeneralCategory::Cn),
            _ => Err(()),
        };
        proof {
            if let Ok(category) = r {
                assert(category.short_name_spec() =~= s@);
                GeneralCategory::lemma_from_str_inverts_short_name(s@, category);
            }
        }
        r
    }
}

} // verus!
