//! Tokenizer handles: opaque non-zero integers that name live tokenizer
//! instances. Zero is the null handle. A handle is never issued twice, so a
//! released or never-issued handle is recognised and rejected.

use vstd::prelude::*;

verus! {

/// The null handle: returned when no instance could be made.
pub const NULL_HANDLE: u64 = 0;

/// Where a handle stands in its life.
#[derive(PartialEq, Eq, Structural, Clone, Copy, Debug)]
pub enum HandleState {
    /// Not issued by this table (the null handle included).
    Unissued,
    /// Issued and not yet released: the only state in which it may be used.
    Live,
    /// Issued and then released.
    Released,
}

/// The state of handle `h` in a table whose live instances are `live`, after
/// `issued` handles were made.
pub open spec fn state_spec<T>(live: Map<u64, T>, issued: nat, h: u64) -> HandleState {
    if live.contains_key(h) {
        HandleState::Live
    } else if 1 <= h <= issued {
        HandleState::Released
    } else {
        HandleState::Unissued
    }
}

/// Owns the tokenizer instances that callers refer to by handle. Handle `h`
/// names slot `h - 1`; a slot is emptied on release and never filled again.
pub struct HandleTable<T> {
    slots: Vec<Option<T>>,
}

impl<T> HandleTable<T> {
    /// How many handles this table has issued.
    pub closed spec fn issued(&self) -> nat {
        self.slots@.len()
    }

    /// The live handles and the instances they name.
    pub closed spec fn live(&self) -> Map<u64, T> {
        Map::new(
            |h: u64| 1 <= h <= self.slots.len() && self.slots[h - 1] is Some,
            |h: u64| self.slots[h - 1]->Some_0,
        )
    }

    /// Every live handle has been issued.
    pub proof fn lemma_live_issued(&self, h: u64)
        requires
            self.live().contains_key(h),
        ensures
            1 <= h <= self.issued(),
    {
    }

    /// Creating from `resolved` took the table from `before` to `after` and
    /// returned `h`: a fresh handle for the instance when there was one and a
    /// handle was left to issue; else the null handle, with nothing changed.
    pub open spec fn created(before: Self, after: Self, resolved: Option<T>, h: u64) -> bool {
        &&& h != NULL_HANDLE <==> (resolved is Some && before.issued() + 1 < u64::MAX)
        &&& h == NULL_HANDLE ==> after == before
        &&& h != NULL_HANDLE ==> {
            &&& h == before.issued() + 1
            &&& !before.live().contains_key(h)
            &&& after.live() == before.live().insert(h, resolved->Some_0)
            &&& after.issued() == before.issued() + 1
        }
    }

    /// Creating a handle and releasing it at once leaves the same live
    /// instances as before: the instance is reclaimed and nothing else changes.
    pub proof fn lemma_create_then_release(
        before: Self,
        created: Self,
        after: Self,
        resolved: Option<T>,
        h: u64,
    )
        requires
            Self::created(before, created, resolved, h),
            after.live() == created.live().remove(h),
        ensures
            after.live() == before.live(),
    {
        assert(after.live() =~= before.live());
    }

    /// An empty table.
    pub fn new() -> (r: Self)
        ensures
            r.live() == Map::<u64, T>::empty(),
            r.issued() == 0,
    {
        let r = HandleTable { slots: Vec::new() };
        assert(r.live() =~= Map::<u64, T>::empty());
        r
    }

    /// Takes ownership of a resolved instance and issues a fresh handle for it.
    /// When resolution failed, or the table can issue no more handles, it
    /// returns the null handle and changes nothing.
    pub fn create(&mut self, resolved: Option<T>) -> (h: u64)
        ensures
            Self::created(*old(self), *final(self), resolved, h),
    {
        match resolved {
            None => NULL_HANDLE,
            Some(t) => {
                if self.slots.len() as u64 >= u64::MAX - 1 {
                    return NULL_HANDLE;
                }
                let ghost before = self.live();
                self.slots.push(Some(t));
                let h = self.slots.len() as u64;
                assert(self.live() =~= before.insert(h, t));
                h
            },
        }
    }

    /// The instance that a live handle names; none for any other handle.
    pub fn get(&self, h: u64) -> (r: Option<&T>)
        ensures
            r is Some <==> self.live().contains_key(h),
            r matches Some(t) ==> *t == self.live()[h],
    {
        if h == NULL_HANDLE || h > self.slots.len() as u64 {
            return None;
        }
        match &self.slots[(h - 1) as usize] {
            Some(t) => Some(t),
            None => None,
        }
    }

    /// Where handle `h` stands in its life.
    pub fn state(&self, h: u64) -> (r: HandleState)
        ensures
            r == state_spec(self.live(), self.issued(), h),
    {
        if h == NULL_HANDLE || h > self.slots.len() as u64 {
            return HandleState::Unissued;
        }
        match &self.slots[(h - 1) as usize] {
            Some(_) => HandleState::Live,
            None => HandleState::Released,
        }
    }

    /// Releases the instance that a live handle names and reports whether
    /// there was one. The null handle, a released handle and an unissued one
    /// change nothing.
    pub fn release(&mut self, h: u64) -> (released: bool)
        ensures
            released == old(self).live().contains_key(h),
            h == NULL_HANDLE ==> !released,
            final(self).live() == old(self).live().remove(h),
            final(self).issued() == old(self).issued(),
    {
        let ghost before = self.live();
        if h == NULL_HANDLE || h > self.slots.len() as u64 {
            assert(self.live() =~= before.remove(h));
            return false;
        }
        let i = (h - 1) as usize;
        let was_live = self.slots[i].is_some();
        self.slots.set(i, None);
        assert(self.live() =~= before.remove(h));
        was_live
    }
}

} // verus!
