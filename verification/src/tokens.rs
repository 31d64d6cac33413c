//! The tokenizer's cursor, and the calls that read from it.
//!
//! `cssparser::Parser` walks the text of a rule.  What it hands out depends on where it stands
//! in which text, and nothing of that is visible here: no call below promises anything of its
//! result.  Whatever comes back, the functions that take these results decide what it means.

use vstd::prelude::*;
use cssparser::{parse_important, Delimiter, ParseError, Parser, Token};
use crate::id::ValueGrammar;
use crate::values::{ParsedValue, ValueToken};

verus! {

/// `cssparser::Parser`: a cursor into the tokens of a text.
#[verifier::external_type_specification]
#[verifier::external_body]
pub struct ExParser<'i, 't>(Parser<'i, 't>);

/// `Parser::next`: takes the next token that is no white space and no comment, and tells
/// a dimension, a percentage, an identifier, any other token and the end of the input apart.
/// Numbers come as their bit patterns.
#[verifier::external_body]
pub(crate) fn next_value_token<'i, 't>(input: &mut Parser<'i, 't>) -> (token: ValueToken) {
    match input.next() {
        Ok(Token::Dimension { value, unit, .. }) => ValueToken::Dimension(
            value.to_bits(),
            unit.to_string(),
        ),
        Ok(Token::Percentage { unit_value, .. }) => ValueToken::Percentage(unit_value.to_bits()),
        Ok(Token::Ident(name)) => ValueToken::Ident(name.to_string()),
        Ok(_) => ValueToken::Other,
        Err(_) => ValueToken::End,
    }
}

/// `Parser::parse_until_before` with `Delimiter::Bang`: has the value read, by the given
/// grammar, from the tokens that stand before the next `!` or the end, and moves to that
/// place.  Nothing comes back where the reading leaves some of those tokens unread.
#[verifier::external_body]
pub(crate) fn value_before_bang<'i, 't>(
    input: &mut Parser<'i, 't>,
    grammar: Option<ValueGrammar>,
) -> (value: Option<ParsedValue>) {
    input.parse_until_before(
        Delimiter::Bang,
        |input| Ok::<ParsedValue, ParseError<'i, ()>>(ParsedValue::read(grammar, input)),
    ).ok()
}

/// `Parser::try_parse` with `cssparser::parse_important`: whether `!important` comes next.
/// Where it does the cursor moves past it; where it does not the cursor stays.
#[verifier::external_body]
pub(crate) fn important_follows<'i, 't>(input: &mut Parser<'i, 't>) -> (found: bool) {
    input.try_parse(parse_important).is_ok()
}

/// `Parser::is_exhausted`: whether no token is left but white space and comments.
#[verifier::external_body]
pub(crate) fn is_exhausted<'i, 't>(input: &mut Parser<'i, 't>) -> (exhausted: bool) {
    input.is_exhausted()
}

} // verus!
