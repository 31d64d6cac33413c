//! What holds of the cascade order, for every pair of declarations.

use vstd::prelude::*;
use core::cmp::Ordering;
use crate::contextual::{rank_order, reversed, ContextualPropertyDeclaration};
use crate::origin::CascadeOrigin;

verus! {

/// Swapping the two sides reverses the rank.
pub proof fn lemma_order_antisymmetric(
    a: ContextualPropertyDeclaration,
    b: ContextualPropertyDeclaration,
)
    ensures
        b.cascade_order(a) == reversed(a.cascade_order(b)),
{
}

/// A declaration is equal in rank to itself, and to every declaration of the same property,
/// importance, class of origin and specificity: the value and the source location do not count.
pub proof fn lemma_equal_rank(
    a: ContextualPropertyDeclaration,
    b: ContextualPropertyDeclaration,
)
    requires
        a.inner_decl.id() == b.inner_decl.id(),
        a.important == b.important,
        a.origin.cascade_origin() == b.origin.cascade_origin(),
        a.specificity == b.specificity,
    ensures
        a.cascade_order(b) == Ordering::Equal,
{
}

/// Within one property the order is transitive: if `a` does not win against `b`, and `b` does
/// not win against `c`, then `a` does not win against `c`; and if one of the two is strictly
/// below, so is the result.
pub proof fn lemma_order_transitive(
    a: ContextualPropertyDeclaration,
    b: ContextualPropertyDeclaration,
    c: ContextualPropertyDeclaration,
)
    requires
        a.inner_decl.id() == b.inner_decl.id(),
        b.inner_decl.id() == c.inner_decl.id(),
        a.cascade_le(b),
        b.cascade_le(c),
    ensures
        a.cascade_le(c),
        a.cascade_order(b) == Ordering::Less || b.cascade_order(c) == Ordering::Less
            ==> a.cascade_order(c) == Ordering::Less,
{
}

/// Of two declarations of one property, one important and one not, the important one wins,
/// whatever their origins and specificities.
pub proof fn lemma_importance_wins(
    a: ContextualPropertyDeclaration,
    b: ContextualPropertyDeclaration,
)
    requires
        a.inner_decl.id() == b.inner_decl.id(),
        a.important,
        !b.important,
    ensures
        a.cascade_order(b) == Ordering::Greater,
        b.cascade_order(a) == Ordering::Less,
{
}

/// Among important declarations of one property with equal specificity, the user agent's win
/// against the user's, and the user's against the author's; `style` attributes and `<style>`
/// elements rank with the author's sheets.
pub proof fn lemma_important_origin_precedence(
    a: ContextualPropertyDeclaration,
    b: ContextualPropertyDeclaration,
)
    requires
        a.inner_decl.id() == b.inner_decl.id(),
        a.important,
        b.important,
        a.specificity.value() == b.specificity.value(),
    ensures
        a.cascade_order(b) == rank_order(a.origin.important_rank(), b.origin.important_rank()),
        a.origin.cascade_origin() == b.origin.cascade_origin() ==> a.cascade_order(b)
            == Ordering::Equal,
        a.origin.cascade_origin() is UserAgent && b.origin.cascade_origin() is User
            ==> a.cascade_order(b) == Ordering::Greater,
        a.origin.cascade_origin() is UserAgent && b.origin.cascade_origin() is Author
            ==> a.cascade_order(b) == Ordering::Greater,
        a.origin.cascade_origin() is User && b.origin.cascade_origin() is Author
            ==> a.cascade_order(b) == Ordering::Greater,
        a.origin !is Sheet ==> a.origin.cascade_origin() == CascadeOrigin::Author,
{
}

/// Among normal declarations of one property with equal specificity the precedence is the
/// reverse: the author's win against the user's, and the user's against the user agent's;
/// `style` attributes and `<style>` elements rank with the author's sheets.
pub proof fn lemma_normal_origin_precedence(
    a: ContextualPropertyDeclaration,
    b: ContextualPropertyDeclaration,
)
    requires
        a.inner_decl.id() == b.inner_decl.id(),
        !a.important,
        !b.important,
        a.specificity.value() == b.specificity.value(),
    ensures
        a.cascade_order(b) == rank_order(b.origin.important_rank(), a.origin.important_rank()),
        a.origin.cascade_origin() == b.origin.cascade_origin() ==> a.cascade_order(b)
            == Ordering::Equal,
        a.origin.cascade_origin() is Author && b.origin.cascade_origin() is User
            ==> a.cascade_order(b) == Ordering::Greater,
        a.origin.cascade_origin() is Author && b.origin.cascade_origin() is UserAgent
            ==> a.cascade_order(b) == Ordering::Greater,
        a.origin.cascade_origin() is User && b.origin.cascade_origin() is UserAgent
            ==> a.cascade_order(b) == Ordering::Greater,
        a.origin !is Sheet ==> a.origin.cascade_origin() == CascadeOrigin::Author,
{
}

/// Between declarations of one property, one importance and one class of origin, the higher
/// specificity wins, and equal specificities are equal in rank.
pub proof fn lemma_specificity_breaks_ties(
    a: ContextualPropertyDeclaration,
    b: ContextualPropertyDeclaration,
)
    requires
        a.inner_decl.id() == b.inner_decl.id(),
        a.important == b.important,
        a.origin.cascade_origin() == b.origin.cascade_origin(),
    ensures
        a.cascade_order(b) == rank_order(a.specificity.value(), b.specificity.value()),
        a.specificity.value() > b.specificity.value() ==> a.cascade_order(b) == Ordering::Greater,
        a.specificity.value() == b.specificity.value() ==> a.cascade_order(b) == Ordering::Equal,
{
}

/// Declarations of different properties are equal in rank, whatever their importance, origin
/// and specificity.
pub proof fn lemma_cross_property_neutral(
    a: ContextualPropertyDeclaration,
    b: ContextualPropertyDeclaration,
)
    requires
        a.inner_decl.id() != b.inner_decl.id(),
    ensures
        a.cascade_order(b) == Ordering::Equal,
        b.cascade_order(a) == Ordering::Equal,
{
}

} // verus!
