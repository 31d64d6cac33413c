//! The declarations of one style rule.

use vstd::prelude::*;
use std::collections::HashSet;
use smallbitvec::SmallBitVec;
use crate::bits::{bits_get, bits_new, bits_of, bits_push, bits_remove, bits_set};
use crate::declaration::PropertyDeclaration;
use crate::id::LonghandId;
use crate::importance::Importance;

verus! {

/// Whether some entry declares the longhand `id`.
pub open spec fn declares(entries: Seq<(PropertyDeclaration, bool)>, id: LonghandId) -> bool {
    exists|i: int| 0 <= i < entries.len() && (#[trigger] entries[i]).0.id() == id
}

/// The place of an entry that declares the longhand `id`, where there is one.
pub open spec fn slot_of(entries: Seq<(PropertyDeclaration, bool)>, id: LonghandId) -> int {
    choose|i: int| 0 <= i < entries.len() && (#[trigger] entries[i]).0.id() == id
}

/// No two entries declare the same longhand.
pub open spec fn distinct_properties(entries: Seq<(PropertyDeclaration, bool)>) -> bool {
    forall|i: int, j: int|
        0 <= i < j < entries.len() ==> (#[trigger] entries[i]).0.id() != (
        #[trigger] entries[j]).0.id()
}

/// The entries after one more declaration: it takes the place of the entry that declares
/// the same longhand, or comes last when there is none.
pub open spec fn with_declaration(
    entries: Seq<(PropertyDeclaration, bool)>,
    decl: PropertyDeclaration,
    important: bool,
) -> Seq<(PropertyDeclaration, bool)> {
    if declares(entries, decl.id()) {
        entries.update(slot_of(entries, decl.id()), (decl, important))
    } else {
        entries.push((decl, important))
    }
}

/// The numbers of the longhands that the entries declare.
pub open spec fn declared_indexes(entries: Seq<(PropertyDeclaration, bool)>) -> Set<u16> {
    Set::new(|index: u16| exists|id: LonghandId| id.index() == index && declares(entries, id))
}

/// A block of property declarations: each with its importance, and at most one for each
/// longhand.
///
/// Its view is the sequence of its entries in the order in which their longhands were first
/// declared, each a declaration paired with whether it is important.
#[derive(Debug)]
pub struct PropertyDeclarationBlock {
    /// The group of declarations, along with their importance.
    declarations: Vec<PropertyDeclaration>,
    /// The "important" flag for each declaration in `declarations`.
    declarations_importance: SmallBitVec,
    /// The numbers of the longhands that `declarations` declares.
    longhands: HashSet<u16>,
}

impl View for PropertyDeclarationBlock {
    type V = Seq<(PropertyDeclaration, bool)>;

    closed spec fn view(&self) -> Seq<(PropertyDeclaration, bool)> {
        Seq::new(
            self.declarations@.len(),
            |i: int| (self.declarations@[i], bits_of(self.declarations_importance)[i]),
        )
    }
}

impl PropertyDeclarationBlock {
    /// The three fields agree: one flag for each declaration, and the presence set holds the
    /// declared longhands and no others.
    pub closed spec fn consistent(&self) -> bool {
        &&& bits_of(self.declarations_importance).len() == self.declarations@.len()
        &&& self.longhands@ == declared_indexes(self@)
    }

    /// The block's invariant: its fields agree, and no longhand is declared twice.
    pub open spec fn wf(&self) -> bool {
        self.consistent() && distinct_properties(self@)
    }

    pub fn new() -> (block: PropertyDeclarationBlock)
        ensures
            block.wf(),
            block@ == Seq::<(PropertyDeclaration, bool)>::empty(),
    {
        let block = PropertyDeclarationBlock {
            declarations: Vec::new(),
            declarations_importance: bits_new(),
            longhands: HashSet::new(),
        };
        assert(block@ =~= Seq::<(PropertyDeclaration, bool)>::empty());
        assert(block.longhands@ =~= declared_indexes(block@));
        block
    }

    /// Adds a new declaration to the block, de-duping with any existing property declarations
    /// of the same type: the new declaration and its importance replace, in place, the entry
    /// for the same longhand, and are appended when there is none.
    pub fn add_declaration(&mut self, new_decl: PropertyDeclaration, new_importance: Importance)
        requires
            old(self).wf(),
        ensures
            final(self).wf(),
            final(self)@ == with_declaration(old(self)@, new_decl, new_importance.is_important()),
    {
        proof {
            lemma_distinct_is_short(self@);
        }
        let ghost before = self@;
        let mut swap_index: Option<usize> = None;
        let mut i: usize = 0;
        while i < self.declarations.len()
            invariant
                i <= self.declarations@.len(),
                self@ == before,
                self.wf(),
                self@.len() == self.declarations@.len(),
                match swap_index {
                    Some(idx) => idx < i && before[idx as int].0.id() == new_decl.id(),
                    None => forall|j: int| 0 <= j < i ==> (#[trigger] before[j]).0.id() != new_decl.id(),
                },
            decreases self.declarations@.len() - i,
        {
            if self.declarations[i].same_property(&new_decl) {
                // the props are the same "type", e.g. both `font-size, both `display`, etc
                // take the `new_decl`, since the latest/newest prop should always be taken
                swap_index = Some(i);
            }
            i += 1;
        }
        if let Some(idx) = swap_index {
            self.declarations[idx] = new_decl;
            bits_set(&mut self.declarations_importance, idx, new_importance.important());
            proof {
                let after = self@;
                assert(declares(before, new_decl.id()));
                assert(slot_of(before, new_decl.id()) == idx);
                assert(after =~= before.update(idx as int, (new_decl, new_importance.is_important())));
                assert forall|k: int| 0 <= k < after.len() implies (#[trigger] after[k]).0.id()
                    == before[k].0.id() by {}
                lemma_same_ids_same_indexes(before, after);
            }
        } else {
            self.declarations.push(new_decl);
            bits_push(&mut self.declarations_importance, new_importance.important());
            self.longhands.insert(new_decl.longhand_id().to_index());
            proof {
                let after = self@;
                assert(!declares(before, new_decl.id()));
                assert(after =~= before.push((new_decl, new_importance.is_important())));
                lemma_pushed_indexes(before, new_decl, new_importance.is_important());
            }
        }
    }

    /// Removes the declaration at `index`, with its importance flag; the later entries move
    /// one place towards the front, so positions held from before no longer fit.  The longhand
    /// that the declaration set is no longer present.
    pub fn remove_decl(&mut self, index: usize)
        requires
            old(self).wf(),
            index < old(self)@.len(),
        ensures
            final(self).wf(),
            final(self)@ == old(self)@.remove(index as int),
    {
        let ghost before = self@;
        let removed = self.declarations.remove(index);
        bits_remove(&mut self.declarations_importance, index);
        self.longhands.remove(&removed.longhand_id().to_index());
        proof {
            assert(self@ =~= before.remove(index as int));
            lemma_removed_indexes(before, index as int);
        }
    }

    /// Whether the block holds a declaration of `longhand`.
    pub fn contains(&self, longhand: LonghandId) -> (present: bool)
        requires
            self.wf(),
        ensures
            present == declares(self@, longhand),
    {
        let present = self.longhands.contains(&longhand.to_index());
        proof {
            if declared_indexes(self@).contains(longhand.index()) {
                let id = choose|id: LonghandId|
                    id.index() == longhand.index() && declares(self@, id);
                LonghandId::lemma_index_injective(id, longhand);
            }
        }
        present
    }

    /// The declarations, in the order of the block.
    pub fn declarations(&self) -> (declarations: &[PropertyDeclaration])
        ensures
            declarations@.len() == self@.len(),
            forall|i: int| 0 <= i < self@.len() ==> declarations@[i] == (#[trigger] self@[i]).0,
    {
        self.declarations.as_slice()
    }

    /// The importance flags, one for each declaration and in the same order.
    pub fn declarations_importance(&self) -> (flags: &SmallBitVec)
        requires
            self.wf(),
        ensures
            bits_of(*flags).len() == self@.len(),
            forall|i: int| 0 <= i < self@.len() ==> bits_of(*flags)[i] == (#[trigger] self@[i]).1,
    {
        &self.declarations_importance
    }
}

impl Default for PropertyDeclarationBlock {
    fn default() -> (block: PropertyDeclarationBlock)
        ensures
            block.wf(),
            block@ == Seq::<(PropertyDeclaration, bool)>::empty(),
    {
        PropertyDeclarationBlock::new()
    }
}

impl Clone for PropertyDeclarationBlock {
    fn clone(&self) -> (copy: PropertyDeclarationBlock)
        ensures
            copy.wf(),
            self.wf() ==> copy@ == self@,
    {
        let mut copy = PropertyDeclarationBlock::new();
        let mut i: usize = 0;
        while i < self.declarations.len()
            invariant
                i <= self.declarations@.len(),
                copy.wf(),
                self.wf() ==> copy@ == self@.subrange(0, i as int),
                self@.len() == self.declarations@.len(),
                forall|j: int| 0 <= j < self@.len() ==> (#[trigger] self@[j]).0 == self.declarations@[j],
                forall|j: int| 0 <= j < self@.len() ==> (#[trigger] self@[j]).1 == bits_of(self.declarations_importance)[j],
            decreases self.declarations@.len() - i,
        {
            let important = match bits_get(&self.declarations_importance, i) {
                Some(bit) => bit,
                None => false,
            };
            let ghost prefix = copy@;
            copy.add_declaration(self.declarations[i], Importance::from_flag(important));
            proof {
                if self.wf() {
                    let entry = self@[i as int];
                    assert(!declares(prefix, entry.0.id())) by {
                        if declares(prefix, entry.0.id()) {
                            let k = slot_of(prefix, entry.0.id());
                            assert(self@[k].0.id() == entry.0.id());
                        }
                    }
                    assert(copy@ =~= self@.subrange(0, i as int + 1));
                }
            }
            i += 1;
        }
        proof {
            assert(self@.subrange(0, self@.len() as int) =~= self@);
        }
        copy
    }
}

/// The entries after a run of declarations, each added in its turn.
pub open spec fn with_declarations(
    entries: Seq<(PropertyDeclaration, bool)>,
    added: Seq<(PropertyDeclaration, bool)>,
) -> Seq<(PropertyDeclaration, bool)>
    decreases added.len(),
{
    if added.len() == 0 {
        entries
    } else {
        with_declaration(
            with_declarations(entries, added.drop_last()),
            added.last().0,
            added.last().1,
        )
    }
}

/// Adding a declaration keeps the entries distinct.  Where the longhand was declared, the new
/// entry stands in the old one's place and nothing else changes; where it was not, the new
/// entry comes last.
pub proof fn lemma_with_declaration(
    entries: Seq<(PropertyDeclaration, bool)>,
    decl: PropertyDeclaration,
    important: bool,
)
    requires
        distinct_properties(entries),
    ensures
        distinct_properties(with_declaration(entries, decl, important)),
        declares(with_declaration(entries, decl, important), decl.id()),
        slot_of(with_declaration(entries, decl, important), decl.id()) == if declares(
            entries,
            decl.id(),
        ) {
            slot_of(entries, decl.id())
        } else {
            entries.len() as int
        },
        with_declaration(entries, decl, important)[slot_of(
            with_declaration(entries, decl, important),
            decl.id(),
        )] == (decl, important),
        forall|id: LonghandId|
            id != decl.id() ==> declares(with_declaration(entries, decl, important), id)
                == declares(entries, id),
{
    let after = with_declaration(entries, decl, important);
    let slot = if declares(entries, decl.id()) {
        slot_of(entries, decl.id())
    } else {
        entries.len() as int
    };
    assert(after[slot] == (decl, important));
    assert(after[slot].0.id() == decl.id());
    if declares(entries, decl.id()) {
        assert forall|k: int| 0 <= k < after.len() implies (#[trigger] after[k]).0.id()
            == entries[k].0.id() by {}
        lemma_same_ids_same_indexes(entries, after);
        assert forall|id: LonghandId| declares(after, id) == declares(entries, id) by {
            if declares(entries, id) {
                let i = slot_of(entries, id);
                assert(after[i].0.id() == id);
            }
            if declares(after, id) {
                let i = slot_of(after, id);
                assert(entries[i].0.id() == id);
            }
        }
    } else {
        lemma_pushed_indexes(entries, decl, important);
        assert forall|id: LonghandId| id != decl.id() implies declares(after, id) == declares(
            entries,
            id,
        ) by {
            if declares(entries, id) {
                let i = slot_of(entries, id);
                assert(after[i].0.id() == id);
            }
            if declares(after, id) {
                let i = slot_of(after, id);
                assert(entries[i].0.id() == id);
            }
        }
    }
    let found = slot_of(after, decl.id());
    assert(found == slot) by {
        if found < slot {
            assert(after[found].0.id() != after[slot].0.id());
        } else if slot < found {
            assert(after[slot].0.id() != after[found].0.id());
        }
    }
}

/// Last declaration wins: after any run of declarations of one longhand, the block holds
/// exactly one entry for that longhand, with the value and importance of the last of them, in
/// the place that the first of them took: the place of the entry that it replaced, or the end
/// of the block.  The entries for other longhands are what they were.
pub proof fn lemma_last_declaration_wins(
    entries: Seq<(PropertyDeclaration, bool)>,
    added: Seq<(PropertyDeclaration, bool)>,
    id: LonghandId,
)
    requires
        distinct_properties(entries),
        added.len() > 0,
        forall|k: int| 0 <= k < added.len() ==> (#[trigger] added[k]).0.id() == id,
    ensures
        distinct_properties(with_declarations(entries, added)),
        with_declarations(entries, added).len() == with_declaration(
            entries,
            added[0].0,
            added[0].1,
        ).len(),
        declares(with_declarations(entries, added), id),
        slot_of(with_declarations(entries, added), id) == slot_of(
            with_declaration(entries, added[0].0, added[0].1),
            id,
        ),
        with_declarations(entries, added)[slot_of(with_declarations(entries, added), id)]
            == added.last(),
        forall|j: int|
            0 <= j < with_declarations(entries, added).len() && j != slot_of(
                with_declarations(entries, added),
                id,
            ) ==> (#[trigger] with_declarations(entries, added)[j]).0.id() != id && j
                < entries.len() && with_declarations(entries, added)[j] == entries[j],
    decreases added.len(),
{
    let first = with_declaration(entries, added[0].0, added[0].1);
    let result = with_declarations(entries, added);
    lemma_with_declaration(entries, added[0].0, added[0].1);
    if added.len() == 1 {
        assert(added.drop_last().len() == 0);
        assert(with_declarations(entries, added.drop_last()) == entries);
        assert(result == first);
    } else {
        let shorter = added.drop_last();
        assert(shorter[0] == added[0]);
        assert forall|k: int| 0 <= k < shorter.len() implies (#[trigger] shorter[k]).0.id()
            == id by {
            assert(shorter[k] == added[k]);
        }
        lemma_last_declaration_wins(entries, shorter, id);
        let previous = with_declarations(entries, shorter);
        lemma_with_declaration(previous, added.last().0, added.last().1);
        assert(result == previous.update(slot_of(previous, id), added.last()));
    }
    let slot = slot_of(result, id);
    assert forall|j: int| 0 <= j < result.len() && j != slot implies (#[trigger] result[j]).0.id()
        != id && j < entries.len() && result[j] == entries[j] by {
        if j < slot {
            assert(result[j].0.id() != result[slot].0.id());
        } else {
            assert(result[slot].0.id() != result[j].0.id());
        }
        if declares(entries, id) {
            assert(first == entries.update(slot_of(entries, id), added[0]));
        } else {
            assert(first == entries.push(added[0]));
        }
    }
}

/// A sequence without two entries for one longhand has at most as many entries as there are
/// longhands.
pub proof fn lemma_distinct_is_short(entries: Seq<(PropertyDeclaration, bool)>)
    requires
        distinct_properties(entries),
    ensures
        entries.len() <= LonghandId::count(),
{
    if entries.len() > 3 {
        let a = entries[0].0.id();
        let b = entries[1].0.id();
        let c = entries[2].0.id();
        let d = entries[3].0.id();
        assert(a != b && a != c && a != d && b != c && b != d && c != d);
    }
}

proof fn lemma_same_ids_same_indexes(
    before: Seq<(PropertyDeclaration, bool)>,
    after: Seq<(PropertyDeclaration, bool)>,
)
    requires
        before.len() == after.len(),
        forall|k: int| 0 <= k < after.len() ==> (#[trigger] after[k]).0.id() == before[k].0.id(),
    ensures
        declared_indexes(after) == declared_indexes(before),
        distinct_properties(before) ==> distinct_properties(after),
{
    assert forall|id: LonghandId| declares(before, id) == declares(after, id) by {
        if declares(before, id) {
            let i = slot_of(before, id);
            assert(after[i].0.id() == id);
        }
        if declares(after, id) {
            let i = slot_of(after, id);
            assert(before[i].0.id() == id);
        }
    }
    assert(declared_indexes(after) =~= declared_indexes(before));
}

proof fn lemma_removed_indexes(before: Seq<(PropertyDeclaration, bool)>, index: int)
    requires
        distinct_properties(before),
        0 <= index < before.len(),
    ensures
        declared_indexes(before.remove(index)) == declared_indexes(before).remove(
            before[index].0.id().index(),
        ),
        distinct_properties(before.remove(index)),
{
    let after = before.remove(index);
    let gone = before[index].0.id();
    assert forall|i: int, j: int| 0 <= i < j < after.len() implies (#[trigger] after[i]).0.id() != (
    #[trigger] after[j]).0.id() by {
        let i0 = if i < index { i } else { i + 1 };
        let j0 = if j < index { j } else { j + 1 };
        assert(after[i] == before[i0] && after[j] == before[j0]);
    }
    assert forall|id: LonghandId| declares(after, id) == (declares(before, id) && id != gone) by {
        if declares(before, id) && id != gone {
            let i = slot_of(before, id);
            let k = if i < index { i } else { i - 1 };
            assert(after[k] == before[i]);
        }
        if declares(after, id) {
            let k = slot_of(after, id);
            let i = if k < index { k } else { k + 1 };
            assert(after[k] == before[i]);
            if i < index {
                assert(before[i].0.id() != before[index].0.id());
            } else {
                assert(before[index].0.id() != before[i].0.id());
            }
        }
    }
    assert(declared_indexes(after) =~= declared_indexes(before).remove(gone.index())) by {
        assert forall|number: u16|
            declared_indexes(after).contains(number) == declared_indexes(before).remove(
                gone.index(),
            ).contains(number) by {
            if declared_indexes(before).contains(number) && number != gone.index() {
                let id = choose|id: LonghandId| id.index() == number && declares(before, id);
                assert(declares(after, id));
            }
            if declared_indexes(after).contains(number) {
                let id = choose|id: LonghandId| id.index() == number && declares(after, id);
                LonghandId::lemma_index_injective(id, gone);
            }
        }
    }
}

proof fn lemma_pushed_indexes(
    before: Seq<(PropertyDeclaration, bool)>,
    decl: PropertyDeclaration,
    important: bool,
)
    requires
        !declares(before, decl.id()),
    ensures
        declared_indexes(before.push((decl, important))) == declared_indexes(before).insert(
            decl.id().index(),
        ),
        distinct_properties(before) ==> distinct_properties(before.push((decl, important))),
{
    let after = before.push((decl, important));
    assert forall|id: LonghandId| declares(after, id) == (declares(before, id) || id == decl.id()) by {
        if declares(before, id) {
            let i = slot_of(before, id);
            assert(after[i].0.id() == id);
        }
        if id == decl.id() {
            assert(after[before.len() as int].0.id() == id);
        }
        if declares(after, id) {
            let i = slot_of(after, id);
            if i < before.len() {
                assert(before[i].0.id() == id);
            }
        }
    }
    assert(declared_indexes(after) =~= declared_indexes(before).insert(decl.id().index())) by {
        assert forall|index: u16|
            declared_indexes(after).contains(index) == declared_indexes(before).insert(
                decl.id().index(),
            ).contains(index) by {
            if index == decl.id().index() {
                assert(declares(after, decl.id()));
            }
        }
    }
}

} // verus!
