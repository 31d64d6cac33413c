//! Where a declaration comes from, and how specific its selector is.

use vstd::prelude::*;

verus! {

/// The cascade origin of a style sheet.
#[derive(Clone, Copy, Debug, PartialEq, Eq, Hash, Structural)]
pub enum CascadeOrigin {
    /// The browser's default styles.
    UserAgent,
    /// The styles of the person who reads the page.
    User,
    /// The styles of the page's author.
    Author,
}

/// A style sheet that rules come from.
#[derive(Debug)]
pub struct StylesheetOrigin {
    pub sheet_name: String,
    pub cascade_origin: CascadeOrigin,
}

/// The source of a declaration.
#[derive(Debug)]
pub enum CssOrigin {
    /// A `style` attribute.
    Inline,
    /// A `<style>` element.
    Embedded,
    /// A rule of a style sheet.
    Sheet(StylesheetOrigin),
}

/// The specificity of the selector that brought a declaration to the element.
#[derive(Clone, Copy, Debug, PartialEq, Eq, PartialOrd, Ord, Hash, Structural)]
pub struct Specificity(u32);

impl CascadeOrigin {
    /// The place of this origin among important declarations: the user agent's come first,
    /// then the user's, then the author's.  Among normal declarations the places are reversed.
    pub open spec fn important_rank(self) -> int {
        match self {
            CascadeOrigin::UserAgent => 2,
            CascadeOrigin::User => 1,
            CascadeOrigin::Author => 0,
        }
    }
}

impl StylesheetOrigin {
    /// The same sheet name, character for character, and the same cascade origin.
    pub open spec fn same(self, other: StylesheetOrigin) -> bool {
        self.sheet_name@ == other.sheet_name@ && self.cascade_origin == other.cascade_origin
    }
}

impl Clone for StylesheetOrigin {
    fn clone(&self) -> (copy: StylesheetOrigin)
        ensures
            copy == *self,
    {
        StylesheetOrigin {
            sheet_name: self.sheet_name.clone(),
            cascade_origin: self.cascade_origin,
        }
    }
}

impl PartialEq for StylesheetOrigin {
    fn eq(&self, other: &StylesheetOrigin) -> (equal: bool) {
        self.sheet_name == other.sheet_name && self.cascade_origin == other.cascade_origin
    }
}

impl Eq for StylesheetOrigin {

}

impl vstd::std_specs::cmp::PartialEqSpecImpl for StylesheetOrigin {
    open spec fn obeys_eq_spec() -> bool {
        true
    }

    open spec fn eq_spec(&self, other: &StylesheetOrigin) -> bool {
        self.same(*other)
    }
}

impl CssOrigin {
    /// The cascade origin that this source counts under: a `style` attribute and a `<style>`
    /// element are the author's.
    pub open spec fn cascade_origin(self) -> CascadeOrigin {
        match self {
            CssOrigin::Inline => CascadeOrigin::Author,
            CssOrigin::Embedded => CascadeOrigin::Author,
            CssOrigin::Sheet(sheet) => sheet.cascade_origin,
        }
    }

    /// The place of this source among important declarations.
    pub open spec fn important_rank(self) -> int {
        self.cascade_origin().important_rank()
    }

    /// The same kind of source and, for two sheets, the same sheet.
    pub open spec fn same(self, other: CssOrigin) -> bool {
        match (self, other) {
            (CssOrigin::Inline, CssOrigin::Inline) => true,
            (CssOrigin::Embedded, CssOrigin::Embedded) => true,
            (CssOrigin::Sheet(a), CssOrigin::Sheet(b)) => a.same(b),
            _ => false,
        }
    }
}

impl Clone for CssOrigin {
    fn clone(&self) -> (copy: CssOrigin)
        ensures
            copy == *self,
    {
        match self {
            CssOrigin::Inline => CssOrigin::Inline,
            CssOrigin::Embedded => CssOrigin::Embedded,
            CssOrigin::Sheet(sheet) => CssOrigin::Sheet(sheet.clone()),
        }
    }
}

impl PartialEq for CssOrigin {
    fn eq(&self, other: &CssOrigin) -> (equal: bool) {
        match (self, other) {
            (CssOrigin::Inline, CssOrigin::Inline) => true,
            (CssOrigin::Embedded, CssOrigin::Embedded) => true,
            (CssOrigin::Sheet(a), CssOrigin::Sheet(b)) => a == b,
            _ => false,
        }
    }
}

impl Eq for CssOrigin {

}

impl vstd::std_specs::cmp::PartialEqSpecImpl for CssOrigin {
    open spec fn obeys_eq_spec() -> bool {
        true
    }

    open spec fn eq_spec(&self, other: &CssOrigin) -> bool {
        self.same(*other)
    }
}

impl Specificity {
    /// The number that this specificity holds.
    pub closed spec fn value(self) -> int {
        self.0 as int
    }

    pub fn new(value: u32) -> (specificity: Specificity)
        ensures
            specificity.value() == value,
    {
        Specificity(value)
    }

    /// The number that this specificity holds.
    pub fn to_value(&self) -> (value: u32)
        ensures
            value == self.value(),
    {
        self.0
    }
}

} // verus!
