//! Declarations in context, and the order in which the cascade ranks them.
//!
//! Two declarations of one property are ranked by importance first, then by the precedence of
//! their origins, then by specificity.  Declarations of different properties are never ranked:
//! they compare equal, so the order is meaningful within one property only.  Order of appearance,
//! the last criterion of the cascade, is left to the caller.

use vstd::prelude::*;
use core::cmp::Ordering;
use cssparser::SourceLocation;
use crate::declaration::PropertyDeclaration;
use crate::origin::{CascadeOrigin, CssOrigin, Specificity};

verus! {

/// A property declaration with contextual information, such as its importance, specificity,
/// origin, and source location, all of which likely deriving from its parent style rule.
#[derive(Debug)]
pub struct ContextualPropertyDeclaration {
    pub inner_decl: PropertyDeclaration,
    pub important: bool,
    pub origin: CssOrigin,
    /// Where the declaration was read; for diagnostics only, and no part of equality or rank.
    pub source_location: Option<SourceLocation>,
    pub specificity: Specificity,
}

/// How two places in a ranking compare.
pub open spec fn rank_order(a: int, b: int) -> Ordering {
    if a < b {
        Ordering::Less
    } else if a > b {
        Ordering::Greater
    } else {
        Ordering::Equal
    }
}

/// The other way round: greater for less and less for greater.
pub open spec fn reversed(order: Ordering) -> Ordering {
    match order {
        Ordering::Less => Ordering::Greater,
        Ordering::Equal => Ordering::Equal,
        Ordering::Greater => Ordering::Less,
    }
}

/// Compares two origins the way they rank among important declarations: the user agent's
/// above the user's above the author's, with `style` attributes and `<style>` elements
/// counting with the author's.
pub fn cmp_important_origins(a: &CssOrigin, b: &CssOrigin) -> (order: Ordering)
    ensures
        order == rank_order(a.important_rank(), b.important_rank()),
{
    match (a, b) {
        (CssOrigin::Inline, CssOrigin::Inline)
        | (CssOrigin::Inline, CssOrigin::Embedded)
        | (CssOrigin::Embedded, CssOrigin::Inline)
        | (CssOrigin::Embedded, CssOrigin::Embedded) => Ordering::Equal,
        (CssOrigin::Inline, CssOrigin::Sheet(other_sheet_origin))
        | (CssOrigin::Embedded, CssOrigin::Sheet(other_sheet_origin)) => {
            match &other_sheet_origin.cascade_origin {
                CascadeOrigin::UserAgent | CascadeOrigin::User => Ordering::Less,
                CascadeOrigin::Author => Ordering::Equal,
            }
        },
        (CssOrigin::Sheet(self_sheet_origin), CssOrigin::Inline)
        | (CssOrigin::Sheet(self_sheet_origin), CssOrigin::Embedded) => {
            match &self_sheet_origin.cascade_origin {
                CascadeOrigin::UserAgent | CascadeOrigin::User => Ordering::Greater,
                CascadeOrigin::Author => Ordering::Equal,
            }
        },
        (CssOrigin::Sheet(self_sheet_origin), CssOrigin::Sheet(other_sheet_origin)) => {
            match (&self_sheet_origin.cascade_origin, &other_sheet_origin.cascade_origin) {
                (CascadeOrigin::UserAgent, CascadeOrigin::UserAgent) => Ordering::Equal,
                (CascadeOrigin::UserAgent, CascadeOrigin::User)
                | (CascadeOrigin::UserAgent, CascadeOrigin::Author) => Ordering::Greater,
                (CascadeOrigin::User, CascadeOrigin::UserAgent) => Ordering::Less,
                (CascadeOrigin::User, CascadeOrigin::User) => Ordering::Equal,
                (CascadeOrigin::User, CascadeOrigin::Author) => Ordering::Greater,
                (CascadeOrigin::Author, CascadeOrigin::UserAgent)
                | (CascadeOrigin::Author, CascadeOrigin::User) => Ordering::Less,
                (CascadeOrigin::Author, CascadeOrigin::Author) => Ordering::Equal,
            }
        },
    }
}

/// Compares two specificities by the numbers they hold.
pub fn cmp_specificity(a: Specificity, b: Specificity) -> (order: Ordering)
    ensures
        order == rank_order(a.value(), b.value()),
{
    let x: u32 = a.to_value();
    let y: u32 = b.to_value();
    if x < y {
        Ordering::Less
    } else if x > y {
        Ordering::Greater
    } else {
        Ordering::Equal
    }
}

impl ContextualPropertyDeclaration {
    /// The place of this declaration's origin among declarations of its own importance.
    /// Among important declarations the user agent's rank highest; among normal ones the
    /// author's do.
    pub open spec fn origin_precedence(self) -> int {
        if self.important {
            self.origin.important_rank()
        } else {
            -self.origin.important_rank()
        }
    }

    /// The rank of `self` against `other` in the cascade.  `Greater` means that `self` wins.
    ///
    /// Declarations of different properties are equal.  Of two declarations of one property the
    /// important one is greater; with the same importance the one whose origin has precedence
    /// is; with that the same too, the one with the higher specificity is.
    pub open spec fn cascade_order(self, other: ContextualPropertyDeclaration) -> Ordering {
        if self.inner_decl.id() != other.inner_decl.id() {
            Ordering::Equal
        } else if self.important != other.important {
            if self.important {
                Ordering::Greater
            } else {
                Ordering::Less
            }
        } else if self.origin_precedence() != other.origin_precedence() {
            rank_order(self.origin_precedence(), other.origin_precedence())
        } else {
            rank_order(self.specificity.value(), other.specificity.value())
        }
    }

    /// Whether `self` wins against `other`: both declare one property, and `self` ranks
    /// strictly higher.
    pub open spec fn wins_against(self, other: ContextualPropertyDeclaration) -> bool {
        self.cascade_order(other) == Ordering::Greater
    }

    /// Whether the cascade lets `self` stand before `other` in ascending order: they are
    /// declarations of different properties, or `self` does not win against `other`.
    pub open spec fn cascade_le(self, other: ContextualPropertyDeclaration) -> bool {
        !self.wins_against(other)
    }

    /// Ranks `self` against `other` in the cascade.
    pub fn cmp(&self, other: &ContextualPropertyDeclaration) -> (order: Ordering)
        ensures
            order == self.cascade_order(*other),
    {
        if self.inner_decl.same_property(&other.inner_decl) {
            if self.important && !other.important {
                return Ordering::Greater;
            } else if !self.important && other.important {
                return Ordering::Less;
            } else if self.important && other.important {
                match cmp_important_origins(&self.origin, &other.origin) {
                    Ordering::Greater => return Ordering::Greater,
                    Ordering::Less => return Ordering::Less,
                    Ordering::Equal => return cmp_specificity(self.specificity, other.specificity),
                }
            } else if !self.important && !other.important {
                return match cmp_important_origins(&self.origin, &other.origin) {
                    Ordering::Less => Ordering::Greater,
                    Ordering::Greater => Ordering::Less,
                    Ordering::Equal => cmp_specificity(self.specificity, other.specificity),
                };
            }
        }
        return Ordering::Equal;
    }

    /// Whether `self` wins against `other` in the cascade.
    pub fn beats(&self, other: &ContextualPropertyDeclaration) -> (wins: bool)
        ensures
            wins == self.wins_against(*other),
    {
        match self.cmp(other) {
            Ordering::Greater => true,
            Ordering::Less => false,
            Ordering::Equal => false,
        }
    }
}

impl Clone for ContextualPropertyDeclaration {
    fn clone(&self) -> (copy: ContextualPropertyDeclaration)
        ensures
            copy == *self,
    {
        ContextualPropertyDeclaration {
            inner_decl: self.inner_decl,
            important: self.important,
            origin: self.origin.clone(),
            source_location: self.source_location,
            specificity: self.specificity,
        }
    }
}

/// Equality is coarser than the fields: the same property from the same origin.
impl PartialEq for ContextualPropertyDeclaration {
    fn eq(&self, other: &ContextualPropertyDeclaration) -> (equal: bool) {
        return self.inner_decl.same_property(&other.inner_decl) && self.origin == other.origin;
    }
}

impl Eq for ContextualPropertyDeclaration {

}

impl vstd::std_specs::cmp::PartialEqSpecImpl for ContextualPropertyDeclaration {
    open spec fn obeys_eq_spec() -> bool {
        true
    }

    open spec fn eq_spec(&self, other: &ContextualPropertyDeclaration) -> bool {
        self.inner_decl.id() == other.inner_decl.id() && self.origin.same(other.origin)
    }
}

impl PartialOrd for ContextualPropertyDeclaration {
    fn partial_cmp(&self, other: &ContextualPropertyDeclaration) -> (order: Option<Ordering>) {
        Some(self.cmp(other))
    }
}

impl vstd::std_specs::cmp::PartialOrdSpecImpl for ContextualPropertyDeclaration {
    open spec fn obeys_partial_cmp_spec() -> bool {
        true
    }

    open spec fn partial_cmp_spec(&self, other: &ContextualPropertyDeclaration) -> Option<
        Ordering,
    > {
        Some(self.cascade_order(*other))
    }
}

} // verus!
