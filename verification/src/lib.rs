//! The CSS cascade for a single element.
//!
//! A [`PropertyDeclarationBlock`] stores the declarations of one style rule with at most one
//! value per property.  A [`ContextualPropertyDeclaration`] attaches origin, importance and
//! specificity to a declaration, and [`ContextualPropertyDeclaration::cascade_order`] ranks two
//! of them.  [`ContextualPropertyDeclarations`] accumulates the contextual declarations of one
//! element and sorts them so that, per property, the winner comes last.
//!
//! A [`PropertyDeclarationParser`] reads the entries of a declaration list from the tokenizer
//! and decides each of them; [`parse_property_declaration_list`] makes the block of the
//! accepted ones.

pub mod importance;
pub mod ascii;
pub mod values;
pub mod id;
pub mod origin;
pub mod error;
pub mod declaration;
pub mod location;
pub mod tokens;
pub mod contextual;
pub mod cascade_laws;
pub mod bits;
pub mod block;
pub mod collection;
pub mod parser;

pub use block::PropertyDeclarationBlock;
pub use collection::ContextualPropertyDeclarations;
pub use contextual::ContextualPropertyDeclaration;
pub use declaration::PropertyDeclaration;
pub use error::StyleParseErrorKind;
pub use id::{LonghandId, PropertyId, ShorthandId, ValueGrammar};
pub use importance::Importance;
pub use origin::{CascadeOrigin, CssOrigin, Specificity, StylesheetOrigin};
pub use parser::{parse_property_declaration_list, DeclarationEntry, PropertyDeclarationParser};
pub use values::{
    AbsoluteLength, Display, FontSize, LengthPercentage, NoCalcLength, ParsedValue, ValueToken,
};
