//! Slot storage that issues identifiers.
//!
//! Every registry of the renderer is an [`Arena`]: a growing row of slots in
//! which the position of a slot is the identifier of what was stored there.
//! Identifiers are issued in increasing order and never issued twice, so a
//! released identifier can not come to name another value later on.

use vstd::prelude::*;

verus! {

/// A row of slots; the identifier of a value is the position of its slot.
pub struct Arena<T> {
    slots: Vec<Option<T>>,
}

impl<T> View for Arena<T> {
    type V = Seq<Option<T>>;

    /// One entry per identifier issued so far, in the order of issue: the
    /// value stored under it, or `None` once it has been released.
    closed spec fn view(&self) -> Seq<Option<T>> {
        self.slots@
    }
}

/// Whether `id` names a stored value in `slots`.
pub open spec fn live<T>(slots: Seq<Option<T>>, id: int) -> bool {
    0 <= id < slots.len() && slots[id] is Some
}

/// The value stored under `id`, if there is one.
pub open spec fn lookup<T>(slots: Seq<Option<T>>, id: int) -> Option<T> {
    if live(slots, id) {
        slots[id]
    } else {
        None
    }
}

/// The slots after `id` was released: its slot is empty, and an identifier
/// that named nothing has changed nothing.
pub open spec fn release<T>(slots: Seq<Option<T>>, id: int) -> Seq<Option<T>> {
    if live(slots, id) {
        slots.update(id, None)
    } else {
        slots
    }
}

/// The slots with each stored value replaced by its view.
pub open spec fn views<T: View>(slots: Seq<Option<T>>) -> Seq<Option<T::V>> {
    Seq::new(
        slots.len(),
        |id: int|
            match slots[id] {
                Some(value) => Some(value@),
                None => None,
            },
    )
}

/// The greatest identifier that names a stored value, if any does.
pub open spec fn last_live<T>(slots: Seq<Option<T>>) -> Option<int>
    decreases slots.len(),
{
    if slots.len() == 0 {
        None
    } else if slots.last() is Some {
        Some(slots.len() - 1)
    } else {
        last_live(slots.drop_last())
    }
}

/// What `pick` yields for the identifiers below `count`, in increasing order
/// of the identifiers, those left out for which it yields nothing.
pub open spec fn gather<T>(count: nat, pick: spec_fn(int) -> Option<T>) -> Seq<T>
    decreases count,
{
    if count == 0 {
        Seq::empty()
    } else {
        match pick(count - 1) {
            Some(item) => gather((count - 1) as nat, pick).push(item),
            None => gather((count - 1) as nat, pick),
        }
    }
}

/// Whether `pick` yields something for `id`.
pub open spec fn yields<T>(pick: spec_fn(int) -> Option<T>, id: int) -> bool {
    pick(id) is Some
}

/// Storing a value and then taking views is taking views and then storing
/// the value's view.
pub proof fn lemma_views_push<T: View>(slots: Seq<Option<T>>, value: T)
    ensures
        views(slots.push(Some(value))) == views(slots).push(Some(value@)),
{
    assert(views(slots.push(Some(value))) =~= views(slots).push(Some(value@)));
}

/// Replacing a slot and then taking views is taking views and then
/// replacing the slot by the view of what was put there.
pub proof fn lemma_views_update<T: View>(slots: Seq<Option<T>>, id: int, value: Option<T>)
    requires
        0 <= id < slots.len(),
    ensures
        views(slots.update(id, value)) == views(slots).update(
            id,
            match value {
                Some(value) => Some(value@),
                None => None,
            },
        ),
{
    assert(views(slots.update(id, value)) =~= views(slots).update(
        id,
        match value {
            Some(value) => Some(value@),
            None => None,
        },
    ));
}

/// The greatest live identifier is live, and none above it is.
pub proof fn lemma_last_live<T>(slots: Seq<Option<T>>)
    ensures
        match last_live(slots) {
            Some(id) => live(slots, id) && forall|above: int| id < above ==> !live(slots, above),
            None => forall|id: int| !live(slots, id),
        },
    decreases slots.len(),
{
    if slots.len() > 0 && slots.last() is None {
        let rest = slots.drop_last();
        lemma_last_live(rest);
        assert forall|id: int| live(slots, id) implies live(rest, id) by {}
    }
}

/// Everything gathered comes from an identifier below `count` for which
/// `pick` yields it, and what comes from a smaller identifier stands earlier.
pub proof fn lemma_gather_sources<T>(count: nat, pick: spec_fn(int) -> Option<T>) -> (sources: Seq<
    int,
>)
    ensures
        sources.len() == gather(count, pick).len(),
        forall|k: int|
            0 <= k < sources.len() ==> 0 <= #[trigger] sources[k] < count && pick(sources[k])
                == Some(gather(count, pick)[k]),
        forall|k: int, l: int| 0 <= k < l < sources.len() ==> sources[k] < sources[l],
        forall|id: int|
            0 <= id < count && #[trigger] yields(pick, id) ==> exists|k: int|
                0 <= k < sources.len() && #[trigger] sources[k] == id,
    decreases count,
{
    if count == 0 {
        Seq::empty()
    } else {
        let before = lemma_gather_sources((count - 1) as nat, pick);
        match pick(count - 1) {
            Some(item) => {
                let sources = before.push(count - 1);
                assert forall|id: int| 0 <= id < count && #[trigger] yields(pick, id) implies exists|
                    k: int,
                | 0 <= k < sources.len() && #[trigger] sources[k] == id by {
                    if id < count - 1 {
                        let k = choose|k: int| 0 <= k < before.len() && #[trigger] before[k] == id;
                        assert(sources[k] == id);
                    } else {
                        assert(sources[before.len() as int] == id);
                    }
                }
                sources
            },
            None => before,
        }
    }
}

/// Gathering with two picks that agree below `count` gives the same.
pub proof fn lemma_gather_agrees<T>(
    count: nat,
    first: spec_fn(int) -> Option<T>,
    second: spec_fn(int) -> Option<T>,
)
    requires
        forall|id: int| 0 <= id < count ==> #[trigger] first(id) == second(id),
    ensures
        gather(count, first) == gather(count, second),
        gather(count + 1, first) == match first(count as int) {
            Some(item) => gather(count, second).push(item),
            None => gather(count, second),
        },
    decreases count,
{
    if count > 0 {
        lemma_gather_agrees((count - 1) as nat, first, second);
    }
}

impl<T> Arena<T> {
    /// An arena that has issued no identifier yet.
    pub fn new() -> (arena: Self)
        ensures
            arena@ == Seq::<Option<T>>::empty(),
    {
        Arena { slots: Vec::new() }
    }

    /// No arena issues more identifiers than there are numbers for them.
    pub proof fn lemma_bounded(&self)
        ensures
            self@.len() <= usize::MAX,
    {
        broadcast use vstd::std_specs::vec::axiom_spec_len;

        assert(self.slots.len() == self.slots@.len());
    }

    /// The number of identifiers issued so far.
    pub fn issued(&self) -> (n: usize)
        ensures
            n == self@.len(),
    {
        self.slots.len()
    }

    /// Stores `value` under a fresh identifier and returns that identifier.
    pub fn insert(&mut self, value: T) -> (id: usize)
        ensures
            id == old(self)@.len(),
            final(self)@ == old(self)@.push(Some(value)),
    {
        let id = self.slots.len();
        self.slots.push(Some(value));
        id
    }

    /// Releases `id` and hands back what was stored under it. An identifier
    /// that names nothing leaves the arena as it was.
    pub fn remove(&mut self, id: usize) -> (removed: Option<T>)
        ensures
            removed == lookup(old(self)@, id as int),
            final(self)@ == release(old(self)@, id as int),
    {
        if id < self.slots.len() {
            let removed = self.slots[id].take();
            assert(removed is None ==> self.slots@ =~= old(self).slots@);
            removed
        } else {
            None
        }
    }

    /// The identifier issued last among those that still name a value.
    pub fn last(&self) -> (found: Option<usize>)
        ensures
            found matches Some(id) ==> last_live(self@) == Some(id as int),
            found is None ==> last_live(self@) is None,
    {
        let mut below = self.slots.len();
        assert(self.slots@.take(below as int) =~= self.slots@);
        while below > 0
            invariant
                below <= self.slots@.len(),
                last_live(self.slots@) == last_live(self.slots@.take(below as int)),
            decreases below,
        {
            let ghost head = self.slots@.take(below as int);
            assert(head.last() == self.slots@[below - 1]);
            if self.slots[below - 1].is_some() {
                return Some(below - 1);
            }
            assert(head.drop_last() =~= self.slots@.take(below - 1));
            below -= 1;
        }
        assert(self.slots@.take(0).len() == 0);
        None
    }

    /// Whether `id` names a stored value.
    pub fn contains(&self, id: usize) -> (found: bool)
        ensures
            found == live(self@, id as int),
    {
        id < self.slots.len() && self.slots[id].is_some()
    }

    /// The value stored under `id`.
    pub fn get(&self, id: usize) -> (found: Option<&T>)
        ensures
            found == match lookup(self@, id as int) {
                Some(value) => Some(&value),
                None => None,
            },
    {
        if id < self.slots.len() {
            self.slots[id].as_ref()
        } else {
            None
        }
    }

    /// Exclusive access to the value stored under `id`. What the caller
    /// leaves behind the reference is what the arena holds afterwards.
    pub fn get_mut(&mut self, id: usize) -> (found: Option<&mut T>)
        ensures
            match found {
                Some(value) => {
                    &&& lookup(old(self)@, id as int) == Some(*value)
                    &&& final(self)@ == old(self)@.update(id as int, Some(*final(value)))
                },
                None => {
                    &&& lookup(old(self)@, id as int) is None
                    &&& final(self)@ == old(self)@
                },
            },
    {
        if id < self.slots.len() {
            match &mut self.slots[id] {
                Some(value) => Some(value),
                None => None,
            }
        } else {
            None
        }
    }
}

} // verus!
