//! The contextual declarations that reach one element.

use vstd::prelude::*;
use std::collections::HashSet;
use crate::contextual::ContextualPropertyDeclaration;
use crate::id::LonghandId;

verus! {

/// Whether some declaration in the sequence sets the longhand `id`.
pub open spec fn names(decls: Seq<ContextualPropertyDeclaration>, id: LonghandId) -> bool {
    exists|i: int| 0 <= i < decls.len() && (#[trigger] decls[i]).inner_decl.id() == id
}

/// The numbers of the longhands that the declarations set.
pub open spec fn named_indexes(decls: Seq<ContextualPropertyDeclaration>) -> Set<u16> {
    Set::new(|index: u16| exists|id: LonghandId| id.index() == index && names(decls, id))
}

/// Ascending in the cascade: no declaration wins against one that stands after it.  Of two
/// declarations of one property the later one is therefore the greater or an equal.
pub open spec fn cascade_sorted(decls: Seq<ContextualPropertyDeclaration>) -> bool {
    forall|i: int, j: int|
        0 <= i < j < decls.len() ==> (#[trigger] decls[i]).cascade_le(#[trigger] decls[j])
}

/// Whether `at` is where `decl` belongs in `decls`: behind everything that does not win
/// against it, and right before the first declaration that does.
pub open spec fn is_insertion_point(
    decls: Seq<ContextualPropertyDeclaration>,
    decl: ContextualPropertyDeclaration,
    at: int,
) -> bool {
    &&& 0 <= at <= decls.len()
    &&& forall|k: int| 0 <= k < at ==> (#[trigger] decls[k]).cascade_le(decl)
    &&& at < decls.len() ==> decls[at].wins_against(decl)
}

/// Where `decl` belongs in `decls`.
pub open spec fn insertion_point(
    decls: Seq<ContextualPropertyDeclaration>,
    decl: ContextualPropertyDeclaration,
) -> int {
    choose|at: int| is_insertion_point(decls, decl, at)
}

/// The declarations in cascade order: each in its turn is put where it belongs among those
/// before it.  Declarations that do not win against each other keep the order they came in.
pub open spec fn cascade_sort(decls: Seq<ContextualPropertyDeclaration>) -> Seq<
    ContextualPropertyDeclaration,
>
    decreases decls.len(),
{
    if decls.len() == 0 {
        decls
    } else {
        let sorted = cascade_sort(decls.drop_last());
        sorted.insert(insertion_point(sorted, decls.last()), decls.last())
    }
}

/// Wrapper over a `Vec<ContextualPropertyDeclaration>` to provide efficient helpers over common
/// operations such as determining the existence of a type of property declaration.
///
/// Its view is the sequence of its declarations.
#[derive(Debug)]
pub struct ContextualPropertyDeclarations {
    /// The actual context property declarations.
    decls: Vec<ContextualPropertyDeclaration>,
    /// The numbers of the longhands present in this container.
    longhands: HashSet<u16>,
}

impl View for ContextualPropertyDeclarations {
    type V = Seq<ContextualPropertyDeclaration>;

    closed spec fn view(&self) -> Seq<ContextualPropertyDeclaration> {
        self.decls@
    }
}

impl ContextualPropertyDeclarations {
    /// The collection's invariant: the presence set holds the longhands that the declarations
    /// set, and no others.
    pub closed spec fn wf(&self) -> bool {
        self.longhands@ == named_indexes(self.decls@)
    }

    #[inline]
    pub fn new() -> (collection: ContextualPropertyDeclarations)
        ensures
            collection.wf(),
            collection@ == Seq::<ContextualPropertyDeclaration>::empty(),
    {
        let collection = ContextualPropertyDeclarations {
            decls: Vec::new(),
            longhands: HashSet::new(),
        };
        assert(collection.longhands@ =~= named_indexes(collection.decls@));
        collection
    }

    /// Sorts the declarations into cascade order, so that of two declarations of one property
    /// the later one is the greater or an equal.  Declarations of different properties are
    /// never moved past each other without need, and nothing is added or lost.
    #[inline]
    pub fn sort(&mut self)
        requires
            old(self).wf(),
        ensures
            final(self).wf(),
            final(self)@ == cascade_sort(old(self)@),
            cascade_sorted(final(self)@),
            final(self)@.to_multiset() == old(self)@.to_multiset(),
    {
        let ghost before = self.decls@;
        let mut i: usize = 0;
        proof {
            assert(before.subrange(0, 0) =~= Seq::empty());
            assert(before.subrange(0, before.len() as int) =~= before);
        }
        while i < self.decls.len()
            invariant
                i <= before.len(),
                self.decls@.len() == before.len(),
                self.decls@.subrange(0, i as int) == cascade_sort(before.subrange(0, i as int)),
                self.decls@.subrange(i as int, before.len() as int) == before.subrange(
                    i as int,
                    before.len() as int,
                ),
                self.longhands@ == named_indexes(before),
            decreases before.len() - i,
        {
            let ghost current = self.decls@;
            let ghost sorted = current.subrange(0, i as int);
            let ghost decl = current[i as int];
            assert(decl == before[i as int]) by {
                assert(current.subrange(i as int, before.len() as int)[0] == before.subrange(
                    i as int,
                    before.len() as int,
                )[0]);
            }
            let mut at: usize = 0;
            while at < i
                invariant_except_break
                    at <= i,
                invariant
                    i < self.decls@.len(),
                    self.decls@ == current,
                    decl == current[i as int],
                    at <= i,
                    forall|k: int| 0 <= k < at ==> (#[trigger] current[k]).cascade_le(decl),
                ensures
                    at < i ==> current[at as int].wins_against(decl),
                decreases i - at,
            {
                if self.decls[at].beats(&self.decls[i]) {
                    break ;
                }
                at += 1;
            }
            let moved = self.decls.remove(i);
            self.decls.insert(at, moved);
            proof {
                assert(is_insertion_point(sorted, decl, at as int)) by {
                    assert forall|k: int| 0 <= k < at implies (#[trigger] sorted[k]).cascade_le(
                        decl,
                    ) by {
                        assert(sorted[k] == current[k]);
                    }
                    if at < i {
                        assert(sorted[at as int] == current[at as int]);
                    }
                }
                lemma_insertion_point_unique(sorted, decl, at as int);
                let longer = before.subrange(0, i as int + 1);
                assert(longer.drop_last() =~= before.subrange(0, i as int));
                assert(longer.last() == decl);
                assert(self.decls@.subrange(0, i as int + 1) =~= sorted.insert(at as int, decl));
                assert(self.decls@.subrange(i as int + 1, before.len() as int)
                    =~= before.subrange(i as int + 1, before.len() as int)) by {
                    assert forall|k: int| i < k < before.len() implies #[trigger] self.decls@[k]
                        == before[k] by {
                        assert(current.subrange(i as int, before.len() as int)[k - i]
                            == before.subrange(i as int, before.len() as int)[k - i]);
                    }
                }
            }
            i += 1;
        }
        proof {
            assert(self.decls@.subrange(0, before.len() as int) =~= self.decls@);
            lemma_cascade_sort(before);
            lemma_same_declarations_same_names(before, self.decls@);
        }
    }

    /// Whether a declaration of `longhand` was added.
    #[inline]
    pub fn contains(&self, longhand: LonghandId) -> (present: bool)
        requires
            self.wf(),
        ensures
            present == names(self@, longhand),
    {
        let present = self.longhands.contains(&longhand.to_index());
        proof {
            if named_indexes(self@).contains(longhand.index()) {
                let id = choose|id: LonghandId| id.index() == longhand.index() && names(self@, id);
                LonghandId::lemma_index_injective(id, longhand);
            }
        }
        present
    }

    /// Appends a declaration and records its longhand.  Nothing is replaced: there may be
    /// several declarations of one property.
    #[inline]
    pub fn add(&mut self, new_decl: ContextualPropertyDeclaration)
        requires
            old(self).wf(),
        ensures
            final(self).wf(),
            final(self)@ == old(self)@.push(new_decl),
    {
        let ghost before = self.decls@;
        self.longhands.insert(new_decl.inner_decl.longhand_id().to_index());
        self.decls.push(new_decl);
        proof {
            lemma_pushed_names(before, new_decl);
        }
    }

    /// The declarations, in their present order.
    pub fn declarations(&self) -> (declarations: &[ContextualPropertyDeclaration])
        ensures
            declarations@ == self@,
    {
        self.decls.as_slice()
    }
}

impl Clone for ContextualPropertyDeclarations {
    fn clone(&self) -> (copy: ContextualPropertyDeclarations)
        ensures
            copy.wf(),
            copy@ == self@,
    {
        let mut copy = ContextualPropertyDeclarations::new();
        let mut i: usize = 0;
        while i < self.decls.len()
            invariant
                i <= self.decls@.len(),
                copy.wf(),
                copy@ == self.decls@.subrange(0, i as int),
            decreases self.decls@.len() - i,
        {
            copy.add(self.decls[i].clone());
            assert(copy@ =~= self.decls@.subrange(0, i as int + 1));
            i += 1;
        }
        assert(self.decls@.subrange(0, self.decls@.len() as int) =~= self.decls@);
        copy
    }
}

/// There is exactly one place where a declaration belongs.
pub proof fn lemma_insertion_point_unique(
    decls: Seq<ContextualPropertyDeclaration>,
    decl: ContextualPropertyDeclaration,
    at: int,
)
    requires
        is_insertion_point(decls, decl, at),
    ensures
        insertion_point(decls, decl) == at,
{
    let other = insertion_point(decls, decl);
    assert(is_insertion_point(decls, decl, other));
    if other < at {
        assert(decls[other].cascade_le(decl));
    } else if at < other {
        assert(decls[at].cascade_le(decl));
    }
}

/// Every declaration has a place where it belongs.
pub proof fn lemma_insertion_point_exists(
    decls: Seq<ContextualPropertyDeclaration>,
    decl: ContextualPropertyDeclaration,
)
    ensures
        is_insertion_point(decls, decl, insertion_point(decls, decl)),
    decreases decls.len(),
{
    if decls.len() == 0 {
        assert(is_insertion_point(decls, decl, 0));
    } else {
        let shorter = decls.drop_last();
        lemma_insertion_point_exists(shorter, decl);
        let at = insertion_point(shorter, decl);
        if at < shorter.len() {
            assert(decls[at] == shorter[at]);
            assert forall|k: int| 0 <= k < at implies (#[trigger] decls[k]).cascade_le(decl) by {
                assert(decls[k] == shorter[k]);
            }
            assert(is_insertion_point(decls, decl, at));
        } else if decls.last().wins_against(decl) {
            assert forall|k: int| 0 <= k < at implies (#[trigger] decls[k]).cascade_le(decl) by {
                assert(decls[k] == shorter[k]);
            }
            assert(is_insertion_point(decls, decl, at));
        } else {
            assert forall|k: int| 0 <= k < decls.len() implies (#[trigger] decls[k]).cascade_le(
                decl,
            ) by {
                if k < shorter.len() {
                    assert(decls[k] == shorter[k]);
                }
            }
            assert(is_insertion_point(decls, decl, decls.len() as int));
        }
    }
}

/// Putting a declaration where it belongs keeps a sorted sequence sorted.
pub proof fn lemma_insert_keeps_sorted(
    decls: Seq<ContextualPropertyDeclaration>,
    decl: ContextualPropertyDeclaration,
)
    requires
        cascade_sorted(decls),
    ensures
        cascade_sorted(decls.insert(insertion_point(decls, decl), decl)),
{
    lemma_insertion_point_exists(decls, decl);
    let at = insertion_point(decls, decl);
    let longer = decls.insert(at, decl);
    assert forall|i: int, j: int| 0 <= i < j < longer.len() implies (#[trigger] longer[i]).cascade_le(
        #[trigger] longer[j],
    ) by {
        if j < at {
            assert(longer[i] == decls[i] && longer[j] == decls[j]);
        } else if j == at {
            assert(longer[i] == decls[i]);
        } else if i == at {
            // `decls[at]` wins against `decl`, so both declare one property; whatever stands
            // behind `decls[at]` and declares that property is no lower than it.
            assert(longer[j] == decls[j - 1]);
            if j - 1 > at {
                assert(decls[at].cascade_le(decls[j - 1]));
            }
        } else if i < at {
            assert(longer[i] == decls[i] && longer[j] == decls[j - 1]);
        } else {
            assert(longer[i] == decls[i - 1] && longer[j] == decls[j - 1]);
        }
    }
}

/// The sorted sequence is sorted, and holds the same declarations, each as often as before.
pub proof fn lemma_cascade_sort(decls: Seq<ContextualPropertyDeclaration>)
    ensures
        cascade_sorted(cascade_sort(decls)),
        cascade_sort(decls).to_multiset() == decls.to_multiset(),
        cascade_sort(decls).len() == decls.len(),
    decreases decls.len(),
{
    if decls.len() > 0 {
        let shorter = decls.drop_last();
        lemma_cascade_sort(shorter);
        let sorted = cascade_sort(shorter);
        lemma_insertion_point_exists(sorted, decls.last());
        lemma_insert_keeps_sorted(sorted, decls.last());
        let at = insertion_point(sorted, decls.last());
        vstd::seq_lib::to_multiset_insert(sorted, at, decls.last());
        vstd::seq_lib::to_multiset_build(shorter, decls.last());
        assert(shorter.push(decls.last()) =~= decls);
    }
}

/// Sorting a sorted sequence changes nothing.
pub proof fn lemma_cascade_sort_of_sorted(decls: Seq<ContextualPropertyDeclaration>)
    requires
        cascade_sorted(decls),
    ensures
        cascade_sort(decls) == decls,
    decreases decls.len(),
{
    if decls.len() > 0 {
        let shorter = decls.drop_last();
        assert forall|i: int, j: int| 0 <= i < j < shorter.len() implies (
        #[trigger] shorter[i]).cascade_le(#[trigger] shorter[j]) by {
            assert(shorter[i] == decls[i] && shorter[j] == decls[j]);
        }
        lemma_cascade_sort_of_sorted(shorter);
        assert(is_insertion_point(shorter, decls.last(), shorter.len() as int)) by {
            assert forall|k: int| 0 <= k < shorter.len() implies (#[trigger] shorter[k]).cascade_le(
                decls.last(),
            ) by {
                assert(shorter[k] == decls[k]);
            }
        }
        lemma_insertion_point_unique(shorter, decls.last(), shorter.len() as int);
        assert(shorter.insert(shorter.len() as int, decls.last()) =~= decls);
    }
}

/// In a sorted sequence the last declaration of a property wins the cascade for it: no other
/// declaration of that property ranks above it.
pub proof fn lemma_last_of_property_wins(
    decls: Seq<ContextualPropertyDeclaration>,
    last: int,
    other: int,
)
    requires
        cascade_sorted(decls),
        0 <= last < decls.len(),
        0 <= other < decls.len(),
        decls[other].inner_decl.id() == decls[last].inner_decl.id(),
        forall|k: int|
            last < k < decls.len() ==> (#[trigger] decls[k]).inner_decl.id()
                != decls[last].inner_decl.id(),
    ensures
        decls[other].cascade_le(decls[last]),
{
    if other < last {
        assert(decls[other].cascade_le(decls[last]));
    } else if other > last {
        assert(decls[other].inner_decl.id() != decls[last].inner_decl.id());
    }
}

proof fn lemma_pushed_names(
    before: Seq<ContextualPropertyDeclaration>,
    decl: ContextualPropertyDeclaration,
)
    ensures
        named_indexes(before.push(decl)) == named_indexes(before).insert(
            decl.inner_decl.id().index(),
        ),
{
    let after = before.push(decl);
    assert forall|id: LonghandId| names(after, id) == (names(before, id) || id
        == decl.inner_decl.id()) by {
        if names(before, id) {
            let i = choose|i: int| 0 <= i < before.len() && (#[trigger] before[i]).inner_decl.id() == id;
            assert(after[i].inner_decl.id() == id);
        }
        if id == decl.inner_decl.id() {
            assert(after[before.len() as int].inner_decl.id() == id);
        }
        if names(after, id) {
            let i = choose|i: int| 0 <= i < after.len() && (#[trigger] after[i]).inner_decl.id() == id;
            if i < before.len() {
                assert(before[i].inner_decl.id() == id);
            }
        }
    }
    assert(named_indexes(after) =~= named_indexes(before).insert(decl.inner_decl.id().index())) by {
        assert forall|index: u16|
            named_indexes(after).contains(index) == named_indexes(before).insert(
                decl.inner_decl.id().index(),
            ).contains(index) by {
            if index == decl.inner_decl.id().index() {
                assert(names(after, decl.inner_decl.id()));
            }
        }
    }
}

proof fn lemma_same_declarations_same_names(
    before: Seq<ContextualPropertyDeclaration>,
    after: Seq<ContextualPropertyDeclaration>,
)
    requires
        before.to_multiset() == after.to_multiset(),
    ensures
        named_indexes(before) == named_indexes(after),
{
    before.to_multiset_ensures();
    after.to_multiset_ensures();
    assert forall|id: LonghandId| names(before, id) == names(after, id) by {
        if names(before, id) {
            let i = choose|i: int| 0 <= i < before.len() && (#[trigger] before[i]).inner_decl.id() == id;
            assert(before.contains(before[i]));
            assert(after.to_multiset().count(before[i]) > 0);
            assert(after.contains(before[i]));
            let j = choose|j: int| 0 <= j < after.len() && after[j] == before[i];
            assert(after[j].inner_decl.id() == id);
        }
        if names(after, id) {
            let i = choose|i: int| 0 <= i < after.len() && (#[trigger] after[i]).inner_decl.id() == id;
            assert(after.contains(after[i]));
            assert(before.to_multiset().count(after[i]) > 0);
            assert(before.contains(after[i]));
            let j = choose|j: int| 0 <= j < before.len() && before[j] == after[i];
            assert(before[j].inner_decl.id() == id);
        }
    }
    assert(named_indexes(before) =~= named_indexes(after));
}

} // verus!
