//! Specified values: the payloads that declarations carry.
//!
//! The cascade never computes with a value; it only stores, replaces and hands values back.
//! Numbers are therefore held as the IEEE 754 single-precision bit pattern of the number that
//! was read (`f32::to_bits`), which keeps every payload comparable bit for bit.

use vstd::prelude::*;
use cssparser::Parser;
use crate::ascii::{eq_ignore_ascii_case, lowercased};
use crate::id::ValueGrammar;
use crate::tokens::next_value_token;

verus! {

/// The specified value of `display`.
#[derive(Clone, Copy, Debug, PartialEq, Eq, Hash, Structural)]
pub enum Display {
    Block,
    Inline,
    /// `display: none`: the element generates no box.
    Hidden,
}

/// A length in absolute units.
#[derive(Clone, Copy, Debug, PartialEq, Eq, Hash, Structural)]
pub enum AbsoluteLength {
    /// CSS pixels, as the bit pattern of the number.
    Px(u32),
}

/// A length that is no `calc()` expression.
#[derive(Clone, Copy, Debug, PartialEq, Eq, Hash, Structural)]
pub enum NoCalcLength {
    Absolute(AbsoluteLength),
}

/// A length or a percentage.
#[derive(Clone, Copy, Debug, PartialEq, Eq, Hash, Structural)]
pub enum LengthPercentage {
    Length(NoCalcLength),
    /// A percentage, as the bit pattern of its unit value (`0.5` for `50%`).
    Percentage(u32),
}

/// The specified value of `font-size`.
#[derive(Clone, Copy, Debug, PartialEq, Eq, Hash, Structural)]
pub enum FontSize {
    Length(LengthPercentage),
}

/// What was read where the value of a declaration stands.
#[derive(Clone, Copy, Debug, PartialEq, Eq, Structural)]
pub enum ParsedValue {
    /// No value was asked for, and none was read.
    Nothing,
    /// A display keyword was asked for and read.
    Display(Display),
    /// A font size was asked for and read.
    FontSize(FontSize),
    /// A length or percentage was asked for and read.
    LengthPercentage(LengthPercentage),
    /// What stood there is not what was asked for.
    Invalid,
}

/// A token where a value is expected.
#[derive(Debug, PartialEq, Eq)]
pub enum ValueToken {
    /// A number with a unit: the number's bit pattern, and the unit as it was written.
    Dimension(u32, String),
    /// A percentage: the bit pattern of its unit value.
    Percentage(u32),
    /// An identifier, as it was written.
    Ident(String),
    /// Any other token.
    Other,
    /// No token: the input has ended.
    End,
}

impl Display {
    /// The display value that a keyword names, in any case of letters: `block`, `inline` or
    /// `none`.  No other word names one.
    pub open spec fn of_keyword(keyword: Seq<char>) -> Option<Display> {
        if lowercased(keyword) == "block"@ {
            Some(Display::Block)
        } else if lowercased(keyword) == "inline"@ {
            Some(Display::Inline)
        } else if lowercased(keyword) == "none"@ {
            Some(Display::Hidden)
        } else {
            None
        }
    }

    /// The display value that a token stands for: an identifier that names one.
    pub open spec fn of_token(token: ValueToken) -> Option<Display> {
        match token {
            ValueToken::Ident(keyword) => Display::of_keyword(keyword@),
            _ => None,
        }
    }

    /// Reads a token as a display value.
    pub fn from_token(token: &ValueToken) -> (display: Option<Display>)
        ensures
            display == Display::of_token(*token),
    {
        match token {
            ValueToken::Ident(keyword) => {
                proof {
                    reveal_strlit("block");
                    reveal_strlit("inline");
                    reveal_strlit("none");
                    assert(lowercased("block"@) =~= "block"@);
                    assert(lowercased("inline"@) =~= "inline"@);
                    assert(lowercased("none"@) =~= "none"@);
                }
                if eq_ignore_ascii_case(keyword.as_str(), "block") {
                    Some(Display::Block)
                } else if eq_ignore_ascii_case(keyword.as_str(), "inline") {
                    Some(Display::Inline)
                } else if eq_ignore_ascii_case(keyword.as_str(), "none") {
                    Some(Display::Hidden)
                } else {
                    None
                }
            },
            _ => None,
        }
    }
}

impl LengthPercentage {
    /// The length or percentage that a token stands for: a dimension in `px`, in any case of
    /// letters, is that many pixels, and a percentage is itself.  No other token is one.
    pub open spec fn of_token(token: ValueToken) -> Option<LengthPercentage> {
        match token {
            ValueToken::Dimension(bits, unit) => if lowercased(unit@) == "px"@ {
                Some(LengthPercentage::Length(NoCalcLength::Absolute(AbsoluteLength::Px(bits))))
            } else {
                None
            },
            ValueToken::Percentage(bits) => Some(LengthPercentage::Percentage(bits)),
            _ => None,
        }
    }

    /// Reads a token as a length or percentage.
    pub fn from_token(token: &ValueToken) -> (length: Option<LengthPercentage>)
        ensures
            length == LengthPercentage::of_token(*token),
    {
        match token {
            ValueToken::Dimension(bits, unit) => {
                proof {
                    reveal_strlit("px");
                    assert(lowercased("px"@) =~= "px"@);
                }
                if eq_ignore_ascii_case(unit.as_str(), "px") {
                    Some(LengthPercentage::Length(NoCalcLength::Absolute(AbsoluteLength::Px(*bits))))
                } else {
                    None
                }
            },
            ValueToken::Percentage(bits) => Some(LengthPercentage::Percentage(*bits)),
            _ => None,
        }
    }
}

impl FontSize {
    /// The font size that a token stands for: a length or percentage.
    pub open spec fn of_token(token: ValueToken) -> Option<FontSize> {
        match LengthPercentage::of_token(token) {
            Some(length) => Some(FontSize::Length(length)),
            None => None,
        }
    }

    /// Reads a token as a font size.
    pub fn from_token(token: &ValueToken) -> (size: Option<FontSize>)
        ensures
            size == FontSize::of_token(*token),
    {
        match LengthPercentage::from_token(token) {
            Some(length) => Some(FontSize::Length(length)),
            None => None,
        }
    }
}

impl ParsedValue {
    /// What a token is when it is read by a grammar, or by none.
    pub open spec fn of_token(grammar: Option<ValueGrammar>, token: ValueToken) -> ParsedValue {
        match grammar {
            None => ParsedValue::Nothing,
            Some(ValueGrammar::Display) => match Display::of_token(token) {
                Some(display) => ParsedValue::Display(display),
                None => ParsedValue::Invalid,
            },
            Some(ValueGrammar::FontSize) => match FontSize::of_token(token) {
                Some(size) => ParsedValue::FontSize(size),
                None => ParsedValue::Invalid,
            },
            Some(ValueGrammar::LengthPercentage) => match LengthPercentage::of_token(token) {
                Some(length) => ParsedValue::LengthPercentage(length),
                None => ParsedValue::Invalid,
            },
        }
    }

    /// Whether the value is one that reading by the grammar can give.
    pub open spec fn fits(self, grammar: Option<ValueGrammar>) -> bool {
        match grammar {
            None => self is Nothing,
            Some(ValueGrammar::Display) => self is Display || self is Invalid,
            Some(ValueGrammar::FontSize) => self is FontSize || self is Invalid,
            Some(ValueGrammar::LengthPercentage) => self is LengthPercentage || self is Invalid,
        }
    }

    /// Reads a token by a grammar.  Without a grammar nothing is read.
    pub fn from_token(grammar: Option<ValueGrammar>, token: &ValueToken) -> (value: ParsedValue)
        ensures
            value == ParsedValue::of_token(grammar, *token),
            value.fits(grammar),
    {
        match grammar {
            None => ParsedValue::Nothing,
            Some(ValueGrammar::Display) => match Display::from_token(token) {
                Some(display) => ParsedValue::Display(display),
                None => ParsedValue::Invalid,
            },
            Some(ValueGrammar::FontSize) => match FontSize::from_token(token) {
                Some(size) => ParsedValue::FontSize(size),
                None => ParsedValue::Invalid,
            },
            Some(ValueGrammar::LengthPercentage) => match LengthPercentage::from_token(token) {
                Some(length) => ParsedValue::LengthPercentage(length),
                None => ParsedValue::Invalid,
            },
        }
    }

    /// Reads a value from the tokenizer by a grammar: the next token, taken as that grammar
    /// takes it.  Without a grammar no token is taken, and the tokenizer stays where it is.
    pub fn read<'i, 't>(grammar: Option<ValueGrammar>, input: &mut Parser<'i, 't>) -> (value:
        ParsedValue)
        ensures
            value.fits(grammar),
            exists|token: ValueToken| value == ParsedValue::of_token(grammar, token),
            grammar is None ==> *final(input) == *old(input),
    {
        match grammar {
            None => {
                assert(ParsedValue::Nothing == ParsedValue::of_token(grammar, ValueToken::End));
                ParsedValue::Nothing
            },
            Some(_) => {
                let token = next_value_token(input);
                ParsedValue::from_token(grammar, &token)
            },
        }
    }
}

} // verus!
