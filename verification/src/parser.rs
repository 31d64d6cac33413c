//! From the entries of a declaration list to a block.
//!
//! The tokenizer walks the list entry by entry.  For each entry it is asked for the value,
//! for an `!important` behind it, and whether anything is left behind that; what becomes of
//! the entry is then decided from the answers alone.

use vstd::prelude::*;
use cssparser::Parser;
use crate::block::{with_declarations, PropertyDeclarationBlock};
use crate::declaration::PropertyDeclaration;
use crate::error::StyleParseErrorKind;
use crate::id::PropertyId;
use crate::importance::Importance;
use crate::tokens::{important_follows, is_exhausted, value_before_bang};
use crate::values::ParsedValue;

verus! {

/// One entry of a declaration list, the way the tokenizer found it.
#[derive(Debug)]
pub struct DeclarationEntry {
    /// The property name as it was written.
    pub name: String,
    /// What was read where the value stands, by the grammar of the property that `name` stands
    /// for.
    pub value: ParsedValue,
    /// Whether `!important` follows the value.
    pub important: bool,
    /// Whether the entry ends there.
    pub exhausted: bool,
}

impl DeclarationEntry {
    /// What the entry comes to: the declarations it makes with their importance, or why it is
    /// dropped.  An unknown name is found first, then a wrong value, then input left over.
    pub open spec fn outcome(self) -> Result<
        (Seq<PropertyDeclaration>, Importance),
        StyleParseErrorKind,
    > {
        match PropertyId::named(self.name@) {
            None => Err(StyleParseErrorKind::UnknownProperty(self.name)),
            Some(id) => match PropertyDeclaration::declared(id, self.value) {
                None => Err(StyleParseErrorKind::InvalidValue),
                Some(found) => if self.exhausted {
                    Ok((found, Importance::of(self.important)))
                } else {
                    Err(StyleParseErrorKind::UnexpectedInput)
                },
            },
        }
    }

    /// What deciding the entry does to the declarations that a parser holds, and what it
    /// gives: an accepted entry leaves its declarations behind those that were there and gives
    /// its importance; a dropped entry leaves nothing and gives the reason.
    pub open spec fn decides(
        self,
        before: Seq<PropertyDeclaration>,
        after: Seq<PropertyDeclaration>,
        result: Result<Importance, StyleParseErrorKind>,
    ) -> bool {
        match self.outcome() {
            Ok((found, importance)) => result == Ok::<Importance, StyleParseErrorKind>(importance)
                && after == before + found,
            Err(error) => result == Err::<Importance, StyleParseErrorKind>(error) && after
                == before,
        }
    }
}

/// The declarations of one accepted entry, each with the entry's importance.
pub open spec fn with_importance(found: Seq<PropertyDeclaration>, importance: Importance) -> Seq<
    (PropertyDeclaration, bool),
> {
    found.map_values(|decl: PropertyDeclaration| (decl, importance.is_important()))
}

/// The block that the accepted entries of a list make: each entry in its turn adds its
/// declarations to what the entries before it made.
pub open spec fn listed(accepted: Seq<(Seq<PropertyDeclaration>, Importance)>) -> Seq<
    (PropertyDeclaration, bool),
>
    decreases accepted.len(),
{
    if accepted.len() == 0 {
        Seq::empty()
    } else {
        with_declarations(
            listed(accepted.drop_last()),
            with_importance(accepted.last().0, accepted.last().1),
        )
    }
}

/// The accepted entries as sequences.
pub open spec fn entries_of(accepted: Seq<(Vec<PropertyDeclaration>, Importance)>) -> Seq<
    (Seq<PropertyDeclaration>, Importance),
> {
    accepted.map_values(|entry: (Vec<PropertyDeclaration>, Importance)| (entry.0@, entry.1))
}

/// A struct to parse property declarations.
///
/// It holds the declarations of the entries that were accepted and not yet taken; they are its
/// view.
#[derive(Debug)]
pub struct PropertyDeclarationParser {
    declarations: Vec<PropertyDeclaration>,
}

impl View for PropertyDeclarationParser {
    type V = Seq<PropertyDeclaration>;

    closed spec fn view(&self) -> Seq<PropertyDeclaration> {
        self.declarations@
    }
}

impl PropertyDeclarationParser {
    pub fn new() -> (parser: PropertyDeclarationParser)
        ensures
            parser@ == Seq::<PropertyDeclaration>::empty(),
    {
        PropertyDeclarationParser { declarations: Vec::new() }
    }

    /// Reads the entry that `name` begins from the tokenizer, and decides it.
    ///
    /// What stands in the input is not known here.  Whatever it is, the entry is decided as
    /// [`PropertyDeclarationParser::accept`] decides an entry of that name.  A name that stands
    /// for no property is reported without a look at the input: the tokenizer stays where it
    /// is.  After a value that failed, `!important` is not looked for.
    pub fn parse_value<'i, 't>(&mut self, name: &str, input: &mut Parser<'i, 't>) -> (result:
        Result<Importance, StyleParseErrorKind>)
        ensures
            exists|entry: DeclarationEntry|
                entry.name@ == name@ && #[trigger] entry.decides(
                    old(self)@,
                    final(self)@,
                    result,
                ),
            PropertyId::named(name@) is None <==> result is Err
                && result->Err_0 is UnknownProperty,
            result matches Err(StyleParseErrorKind::UnknownProperty(unknown)) ==> unknown@
                == name@,
            PropertyId::named(name@) is None ==> *final(input) == *old(input),
    {
        // Try to match (parse) the specified declaration `name` into a known property ID.
        let id = match PropertyId::parse(name) {
            Some(id) => id,
            None => {
                let entry = DeclarationEntry {
                    name: name.to_owned(),
                    value: ParsedValue::Invalid,
                    important: false,
                    exhausted: false,
                };
                return self.accept(&entry);
            },
        };
        let value = match value_before_bang(input, id.value_grammar()) {
            Some(value) => value,
            None => ParsedValue::Invalid,
        };
        match value {
            ParsedValue::Invalid => {
                let entry = DeclarationEntry {
                    name: name.to_owned(),
                    value,
                    important: false,
                    exhausted: false,
                };
                return self.accept(&entry);
            },
            _ => {},
        }
        let important = important_follows(input);
        // In case there is still unparsed text in the declaration, we should roll back.
        let exhausted = is_exhausted(input);
        let entry = DeclarationEntry { name: name.to_owned(), value, important, exhausted };
        self.accept(&entry)
    }

    /// Decides one entry.  An accepted entry leaves its declarations with the parser and gives
    /// its importance; a dropped entry leaves nothing and gives the reason.
    pub fn accept(&mut self, entry: &DeclarationEntry) -> (result: Result<
        Importance,
        StyleParseErrorKind,
    >)
        ensures
            entry.decides(old(self)@, final(self)@, result),
    {
        let id = match PropertyId::parse(entry.name.as_str()) {
            Some(id) => id,
            None => {
                return Err(StyleParseErrorKind::UnknownProperty(entry.name.clone()));
            },
        };
        let mut found: Vec<PropertyDeclaration> = Vec::new();
        match PropertyDeclaration::declare(&mut found, id, entry.value) {
            Ok(()) => {},
            Err(error) => {
                return Err(error);
            },
        }
        let importance = match entry.important {
            true => Importance::Important,
            false => Importance::Normal,
        };
        if !entry.exhausted {
            return Err(StyleParseErrorKind::UnexpectedInput);
        }
        assert(found@ =~= PropertyDeclaration::declared(id, entry.value).unwrap());
        self.declarations.append(&mut found);
        Ok(importance)
    }

    /// Hands out the declarations of the accepted entries, and keeps none.
    pub fn take_declarations(&mut self) -> (declarations: Vec<PropertyDeclaration>)
        ensures
            declarations@ == old(self)@,
            final(self)@ == Seq::<PropertyDeclaration>::empty(),
    {
        let mut declarations: Vec<PropertyDeclaration> = Vec::new();
        declarations.append(&mut self.declarations);
        declarations
    }
}

/// Makes a block of property declarations from the accepted entries of a declaration list, in
/// the order of the list: the declarations of each entry, and the importance that the entry
/// gave.  Within the block a later declaration of a property replaces an earlier one.
pub fn parse_property_declaration_list(accepted: &[(Vec<PropertyDeclaration>, Importance)]) -> (block:
    PropertyDeclarationBlock)
    ensures
        block.wf(),
        block@ == listed(entries_of(accepted@)),
{
    let mut block = PropertyDeclarationBlock::new();
    let ghost entries = entries_of(accepted@);
    let mut n: usize = 0;
    assert(entries.subrange(0, 0) =~= Seq::empty());
    while n < accepted.len()
        invariant
            n <= accepted@.len(),
            entries == entries_of(accepted@),
            block.wf(),
            block@ == listed(entries.subrange(0, n as int)),
        decreases accepted@.len() - n,
    {
        let ghost upto = entries.subrange(0, n as int + 1);
        assert(upto.drop_last() =~= entries.subrange(0, n as int));
        assert(upto.last() == entries[n as int]);
        let decls = &accepted[n].0;
        let importance = accepted[n].1;
        let ghost additions = with_importance(decls@, importance);
        let ghost start = block@;
        let mut k: usize = 0;
        assert(additions.subrange(0, 0) =~= Seq::empty());
        while k < decls.len()
            invariant
                k <= decls@.len(),
                block.wf(),
                additions == with_importance(decls@, importance),
                block@ == with_declarations(start, additions.subrange(0, k as int)),
            decreases decls@.len() - k,
        {
            let ghost more = additions.subrange(0, k as int + 1);
            assert(more.drop_last() =~= additions.subrange(0, k as int));
            block.add_declaration(decls[k], importance);
            k += 1;
        }
        assert(additions.subrange(0, additions.len() as int) =~= additions);
        n += 1;
    }
    assert(entries.subrange(0, entries.len() as int) =~= entries);
    block
}

} // verus!
