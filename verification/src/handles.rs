//! The table of loaded modules: a handle is the index of a slot, a freed slot
//! is empty, and a new module takes the first empty slot before the table grows.
use vstd::prelude::*;

verus! {

/// The index of the first empty slot of `s` at or after `i`, or the length
/// of `s` when every slot from `i` on is taken.
pub open spec fn first_free_from<T>(s: Seq<Option<T>>, i: int) -> int
    decreases s.len() - i,
{
    if i >= s.len() {
        s.len() as int
    } else if s[i] is None {
        i
    } else {
        first_free_from(s, i + 1)
    }
}

/// The slot that the next inserted item takes.
pub open spec fn first_free<T>(s: Seq<Option<T>>) -> int {
    first_free_from(s, 0)
}

/// The slots after `item` was inserted into `s`.
pub open spec fn inserted<T>(s: Seq<Option<T>>, item: T) -> Seq<Option<T>> {
    let i = first_free(s);
    if i < s.len() {
        s.update(i, Some(item))
    } else {
        s.push(Some(item))
    }
}

/// Whether `handle` names a slot of `s` (taken or not).
pub open spec fn in_range<T>(s: Seq<Option<T>>, handle: i64) -> bool {
    0 <= handle < s.len()
}

/// What `handle` refers to in `s`: the item in its slot, or nothing when the
/// handle is negative, past the end, or names an empty slot.
pub open spec fn lookup<T>(s: Seq<Option<T>>, handle: i64) -> Option<T> {
    if in_range(s, handle) {
        s[handle as int]
    } else {
        None
    }
}

/// The slots after `handle` was freed in `s`.
pub open spec fn freed<T>(s: Seq<Option<T>>, handle: i64) -> Seq<Option<T>> {
    if in_range(s, handle) {
        s.update(handle as int, None)
    } else {
        s
    }
}

proof fn first_free_from_bounds<T>(s: Seq<Option<T>>, i: int)
    requires
        0 <= i <= s.len(),
    ensures
        i <= first_free_from(s, i) <= s.len(),
        first_free_from(s, i) < s.len() ==> s[first_free_from(s, i)] is None,
        forall|j: int| i <= j < first_free_from(s, i) ==> #[trigger] s[j] is Some,
    decreases s.len() - i,
{
    if i < s.len() && s[i] is Some {
        first_free_from_bounds(s, i + 1);
    }
}

/// The first empty slot is in range or one past the end; it is empty, and
/// every slot before it is taken.
pub proof fn first_free_is_first_empty<T>(s: Seq<Option<T>>)
    ensures
        0 <= first_free(s) <= s.len(),
        first_free(s) < s.len() ==> s[first_free(s)] is None,
        forall|j: int| 0 <= j < first_free(s) ==> #[trigger] s[j] is Some,
{
    first_free_from_bounds(s, 0);
}

/// A handle that an insertion returns refers to the inserted item.
pub proof fn lookup_after_insert<T>(s: Seq<Option<T>>, item: T)
    requires
        s.len() < i64::MAX,
    ensures
        lookup(inserted(s, item), first_free(s) as i64) == Some(item),
{
    first_free_is_first_empty(s);
}

/// An insertion leaves every other handle referring to what it referred to.
pub proof fn insert_keeps_others<T>(s: Seq<Option<T>>, item: T, other: i64)
    requires
        s.len() < i64::MAX,
        other != first_free(s),
    ensures
        lookup(inserted(s, item), other) == lookup(s, other),
{
    first_free_is_first_empty(s);
}

/// After a free, the handle refers to nothing; every other handle keeps
/// what it referred to.
pub proof fn lookup_after_free<T>(s: Seq<Option<T>>, handle: i64, other: i64)
    requires
        other != handle,
    ensures
        lookup(freed(s, handle), handle) is None,
        lookup(freed(s, handle), other) == lookup(s, other),
{
}

/// A freed slot is taken again by the next insertion when no slot before it
/// is empty: handles are reused, smallest first.
pub proof fn free_then_insert_reuses<T>(s: Seq<Option<T>>, handle: i64, item: T)
    requires
        in_range(s, handle),
        forall|j: int| 0 <= j < handle ==> #[trigger] s[j] is Some,
    ensures
        first_free(freed(s, handle)) == handle,
        inserted(freed(s, handle), item) == s.update(handle as int, Some(item)),
        inserted(freed(s, handle), item).len() == s.len(),
{
    let f = freed(s, handle);
    first_free_is_first_empty(f);
    assert(f[handle as int] is None);
    if first_free(f) < handle {
        assert(f[first_free(f)] == s[first_free(f)]);
    }
    assert(first_free(f) == handle);
    assert(inserted(f, item) =~= s.update(handle as int, Some(item)));
}

/// A table of items referred to by `i64` handles, with slots that are reused
/// after an item is freed.
pub struct HandleTable<T> {
    slots: Vec<Option<T>>,
}

impl<T> View for HandleTable<T> {
    type V = Seq<Option<T>>;

    closed spec fn view(&self) -> Seq<Option<T>> {
        self.slots@
    }
}

impl<T> HandleTable<T> {
    /// An empty table.
    pub fn new() -> (t: HandleTable<T>)
        ensures
            t@ == Seq::<Option<T>>::empty(),
    {
        HandleTable { slots: Vec::new() }
    }

    /// The number of slots, taken or empty.
    pub fn slot_count(&self) -> (n: usize)
        ensures
            n == self@.len(),
    {
        self.slots.len()
    }

    /// Puts `item` into the first empty slot, or into a new slot at the end
    /// when none is empty, and returns the slot's index as its handle.
    pub fn insert(&mut self, item: T) -> (handle: i64)
        requires
            old(self)@.len() < i64::MAX,
        ensures
            handle == first_free(old(self)@),
            0 <= handle <= old(self)@.len(),
            final(self)@ == inserted(old(self)@, item),
            lookup(final(self)@, handle) == Some(item),
    {
        proof {
            first_free_is_first_empty(self@);
        }
        let n = self.slots.len();
        let mut i: usize = 0;
        while i < n
            invariant
                n == self.slots@.len(),
                n < i64::MAX,
                0 <= i <= n,
                self@ == old(self)@,
                forall|j: int| 0 <= j < i ==> #[trigger] self.slots@[j] is Some,
            decreases n - i,
        {
            if self.slots[i].is_none() {
                proof {
                    first_free_is_first_empty(self@);
                    if first_free(self@) < i {
                        assert(self.slots@[first_free(self@)] is Some);
                    }
                }
                self.slots.set(i, Some(item));
                return i as i64;
            }
            i = i + 1;
        }
        proof {
            first_free_is_first_empty(self@);
            if first_free(self@) < n {
                assert(self.slots@[first_free(self@)] is Some);
            }
        }
        self.slots.push(Some(item));
        n as i64
    }

    /// The item that `handle` refers to, if any.
    pub fn get(&self, handle: i64) -> (r: Option<&T>)
        ensures
            r is Some <==> lookup(self@, handle) is Some,
            r matches Some(x) ==> lookup(self@, handle) == Some(*x),
    {
        if handle < 0 || handle as u64 >= self.slots.len() as u64 {
            return None;
        }
        match &self.slots[handle as usize] {
            Some(x) => Some(x),
            None => None,
        }
    }

    /// Takes the item out of the slot `handle` refers to, leaving the slot
    /// empty until [`HandleTable::restore`] puts it back.
    pub fn take(&mut self, handle: i64) -> (r: Option<T>)
        ensures
            r == lookup(old(self)@, handle),
            final(self)@ == freed(old(self)@, handle),
    {
        if handle < 0 || handle as u64 >= self.slots.len() as u64 {
            return None;
        }
        let mut out: Option<T> = None;
        let i = handle as usize;
        std::mem::swap(&mut out, &mut self.slots[i]);
        out
    }

    /// Puts `item` back into the slot that `handle` names.
    pub fn restore(&mut self, handle: i64, item: T)
        requires
            in_range(old(self)@, handle),
        ensures
            final(self)@ == old(self)@.update(handle as int, Some(item)),
    {
        let n = self.slots.len();
        assert(handle < n);
        let i = handle as usize;
        self.slots.set(i, Some(item));
    }

    /// Empties the slot `handle` refers to; nothing happens when the handle
    /// is out of range.
    pub fn free(&mut self, handle: i64)
        ensures
            final(self)@ == freed(old(self)@, handle),
    {
        if handle < 0 || handle as u64 >= self.slots.len() as u64 {
            return;
        }
        self.slots.set(handle as usize, None);
    }
}

} // verus!
