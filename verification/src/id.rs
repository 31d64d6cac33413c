//! Property identifiers.

use vstd::prelude::*;
use crate::ascii::{eq_ignore_ascii_case, lowercased};

verus! {

/// The longhand properties that a declaration can set.
#[derive(Clone, Copy, Debug, PartialEq, Eq, Hash, Structural)]
pub enum LonghandId {
    Display,
    FontSize,
    MarginLeft,
}

/// The shorthand properties that are known by name.
#[derive(Clone, Copy, Debug, PartialEq, Eq, Hash, Structural)]
pub enum ShorthandId {
    Margin,
}

/// What a property name resolves to.
#[derive(Clone, Copy, Debug, PartialEq, Eq, Hash, Structural)]
pub enum PropertyId {
    Longhand(LonghandId),
    Shorthand(ShorthandId),
}

/// The grammar by which the value of a declaration is read.
#[derive(Clone, Copy, Debug, PartialEq, Eq, Hash, Structural)]
pub enum ValueGrammar {
    /// A display keyword.
    Display,
    /// A font size.
    FontSize,
    /// A length or a percentage.
    LengthPercentage,
}

impl PropertyId {
    /// What a property name stands for.  Names are matched without regard to the case of
    /// their ASCII letters; a name that is not listed here stands for nothing.
    pub open spec fn named(name: Seq<char>) -> Option<PropertyId> {
        if lowercased(name) == "display"@ {
            Some(PropertyId::Longhand(LonghandId::Display))
        } else if lowercased(name) == "font-size"@ {
            Some(PropertyId::Longhand(LonghandId::FontSize))
        } else if lowercased(name) == "margin-left"@ {
            Some(PropertyId::Longhand(LonghandId::MarginLeft))
        } else if lowercased(name) == "margin"@ {
            Some(PropertyId::Shorthand(ShorthandId::Margin))
        } else {
            None
        }
    }

    /// The grammar of the values that declarations of this property carry.  Every longhand
    /// has one; for a shorthand no value is read.
    pub open spec fn grammar(self) -> Option<ValueGrammar> {
        match self {
            PropertyId::Longhand(LonghandId::Display) => Some(ValueGrammar::Display),
            PropertyId::Longhand(LonghandId::FontSize) => Some(ValueGrammar::FontSize),
            PropertyId::Longhand(LonghandId::MarginLeft) => Some(ValueGrammar::LengthPercentage),
            PropertyId::Shorthand(_) => None,
        }
    }

    /// Resolves a property name.
    pub fn parse(name: &str) -> (id: Option<PropertyId>)
        ensures
            id == PropertyId::named(name@),
    {
        proof {
            reveal_strlit("display");
            reveal_strlit("font-size");
            reveal_strlit("margin-left");
            reveal_strlit("margin");
            assert(lowercased("display"@) =~= "display"@);
            assert(lowercased("font-size"@) =~= "font-size"@);
            assert(lowercased("margin-left"@) =~= "margin-left"@);
            assert(lowercased("margin"@) =~= "margin"@);
        }
        if eq_ignore_ascii_case(name, "display") {
            Some(PropertyId::Longhand(LonghandId::Display))
        } else if eq_ignore_ascii_case(name, "font-size") {
            Some(PropertyId::Longhand(LonghandId::FontSize))
        } else if eq_ignore_ascii_case(name, "margin-left") {
            Some(PropertyId::Longhand(LonghandId::MarginLeft))
        } else if eq_ignore_ascii_case(name, "margin") {
            Some(PropertyId::Shorthand(ShorthandId::Margin))
        } else {
            None
        }
    }

    /// The grammar by which the value of a declaration of this property is to be read, or
    /// nothing where no value is read for it.
    pub fn value_grammar(&self) -> (grammar: Option<ValueGrammar>)
        ensures
            grammar == self.grammar(),
    {
        match self {
            PropertyId::Longhand(LonghandId::Display) => Some(ValueGrammar::Display),
            PropertyId::Longhand(LonghandId::FontSize) => Some(ValueGrammar::FontSize),
            PropertyId::Longhand(LonghandId::MarginLeft) => Some(ValueGrammar::LengthPercentage),
            PropertyId::Shorthand(_) => None,
        }
    }
}

impl LonghandId {
    /// The number that stands for this longhand in a presence set.
    pub open spec fn index(self) -> u16 {
        match self {
            LonghandId::Display => 0,
            LonghandId::FontSize => 1,
            LonghandId::MarginLeft => 2,
        }
    }

    /// How many longhands there are; every [`LonghandId::index`] is below it.
    pub open spec fn count() -> nat {
        3
    }

    /// The number that stands for this longhand in a presence set.
    pub fn to_index(&self) -> (index: u16)
        ensures
            index == self.index(),
            index < LonghandId::count(),
    {
        match self {
            LonghandId::Display => 0,
            LonghandId::FontSize => 1,
            LonghandId::MarginLeft => 2,
        }
    }

    /// Two longhands with one index are the same longhand.
    pub proof fn lemma_index_injective(a: LonghandId, b: LonghandId)
        ensures
            a.index() == b.index() <==> a == b,
    {
    }
}

} // verus!
