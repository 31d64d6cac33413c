//! Property declarations: one longhand together with its specified value.

use vstd::prelude::*;
use cssparser::Parser;
use crate::error::StyleParseErrorKind;
use crate::id::{LonghandId, PropertyId};
use crate::values::{Display, FontSize, LengthPercentage, ParsedValue};

verus! {

/// One declared longhand with its specified value.
///
/// Two declarations are declarations of the same property when their [`PropertyDeclaration::id`]
/// is the same, whatever values they carry.
#[derive(Clone, Copy, Debug, PartialEq, Eq, Structural)]
pub enum PropertyDeclaration {
    Display(Display),
    FontSize(FontSize),
    MarginLeft(LengthPercentage),
}

impl PropertyDeclaration {
    /// The longhand that this declaration sets.
    pub open spec fn id(self) -> LonghandId {
        match self {
            PropertyDeclaration::Display(_) => LonghandId::Display,
            PropertyDeclaration::FontSize(_) => LonghandId::FontSize,
            PropertyDeclaration::MarginLeft(_) => LonghandId::MarginLeft,
        }
    }

    /// The longhand that this declaration sets.
    pub fn longhand_id(&self) -> (id: LonghandId)
        ensures
            id == self.id(),
    {
        match self {
            PropertyDeclaration::Display(_) => LonghandId::Display,
            PropertyDeclaration::FontSize(_) => LonghandId::FontSize,
            PropertyDeclaration::MarginLeft(_) => LonghandId::MarginLeft,
        }
    }

    /// The declarations that a value makes for a property, or nothing where the value is none
    /// of the property.  A display value declares `display`, a font size declares `font-size`
    /// and a length or percentage declares `margin-left`: one typed declaration each.  For a
    /// shorthand no value is read and nothing is declared.  Any other pairing is an error.
    pub open spec fn declared(id: PropertyId, value: ParsedValue) -> Option<
        Seq<PropertyDeclaration>,
    > {
        match (id, value) {
            (PropertyId::Longhand(LonghandId::FontSize), ParsedValue::FontSize(size)) => Some(
                seq![PropertyDeclaration::FontSize(size)],
            ),
            (
                PropertyId::Longhand(LonghandId::MarginLeft),
                ParsedValue::LengthPercentage(length),
            ) => Some(seq![PropertyDeclaration::MarginLeft(length)]),
            (PropertyId::Longhand(LonghandId::Display), ParsedValue::Display(display)) => Some(
                seq![PropertyDeclaration::Display(display)],
            ),
            (PropertyId::Shorthand(_), ParsedValue::Nothing) => Some(Seq::empty()),
            _ => None,
        }
    }

    /// What declaring `value` for the property `id` does: where it is a value of the
    /// property, what it declares is appended; where it is not, nothing changes and the value
    /// is reported as invalid.
    pub open spec fn declares(
        id: PropertyId,
        value: ParsedValue,
        before: Seq<PropertyDeclaration>,
        after: Seq<PropertyDeclaration>,
        result: Result<(), StyleParseErrorKind>,
    ) -> bool {
        match PropertyDeclaration::declared(id, value) {
            Some(found) => result is Ok && after == before + found,
            None => result == Err::<(), StyleParseErrorKind>(StyleParseErrorKind::InvalidValue)
                && after == before,
        }
    }

    /// Appends to `declarations` what `value` declares for the property `id`; where it is no
    /// value of that property, `declarations` stays untouched.
    pub fn declare(
        declarations: &mut Vec<PropertyDeclaration>,
        id: PropertyId,
        value: ParsedValue,
    ) -> (result: Result<(), StyleParseErrorKind>)
        ensures
            PropertyDeclaration::declares(
                id,
                value,
                old(declarations)@,
                final(declarations)@,
                result,
            ),
    {
        let ghost before = declarations@;
        match id {
            PropertyId::Longhand(long_id) => match long_id {
                LonghandId::Display => match value {
                    ParsedValue::Display(display) => {
                        declarations.push(PropertyDeclaration::Display(display));
                        assert(declarations@ =~= before + seq![
                            PropertyDeclaration::Display(display),
                        ]);
                    },
                    _ => {
                        return Err(StyleParseErrorKind::InvalidValue);
                    },
                },
                LonghandId::FontSize => match value {
                    ParsedValue::FontSize(size) => {
                        declarations.push(PropertyDeclaration::FontSize(size));
                        assert(declarations@ =~= before + seq![PropertyDeclaration::FontSize(size)]);
                    },
                    _ => {
                        return Err(StyleParseErrorKind::InvalidValue);
                    },
                },
                LonghandId::MarginLeft => match value {
                    ParsedValue::LengthPercentage(length) => {
                        declarations.push(PropertyDeclaration::MarginLeft(length));
                        assert(declarations@ =~= before + seq![
                            PropertyDeclaration::MarginLeft(length),
                        ]);
                    },
                    _ => {
                        return Err(StyleParseErrorKind::InvalidValue);
                    },
                },
            },
            PropertyId::Shorthand(_short_id) => match value {
                ParsedValue::Nothing => {
                    assert(before + Seq::<PropertyDeclaration>::empty() =~= before);
                },
                _ => {
                    return Err(StyleParseErrorKind::InvalidValue);
                },
            },
        }
        Ok(())
    }

    /// Reads from the tokenizer the value of a declaration of the property `id`, and appends
    /// to `declarations` what it declares.  What is read is up to the input; whatever it is,
    /// it is declared as [`PropertyDeclaration::declare`] says, and it is a value that the
    /// property's grammar can give.  For a shorthand, which has no grammar, the tokenizer
    /// stays where it is.
    pub fn parse_into<'i, 't>(
        declarations: &mut Vec<PropertyDeclaration>,
        id: PropertyId,
        input: &mut Parser<'i, 't>,
    ) -> (result: Result<(), StyleParseErrorKind>)
        ensures
            exists|value: ParsedValue|
                value.fits(id.grammar()) && #[trigger] PropertyDeclaration::declares(
                    id,
                    value,
                    old(declarations)@,
                    final(declarations)@,
                    result,
                ),
            id.grammar() is None ==> *final(input) == *old(input),
    {
        let value = ParsedValue::read(id.value_grammar(), input);
        PropertyDeclaration::declare(declarations, id, value)
    }

    /// Whether both declarations set the same longhand.
    pub fn same_property(&self, other: &PropertyDeclaration) -> (same: bool)
        ensures
            same == (self.id() == other.id()),
    {
        self.longhand_id() == other.longhand_id()
    }
}

} // verus!
