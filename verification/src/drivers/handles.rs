use vstd::prelude::*;
use std::collections::HashMap;

verus! {

broadcast use vstd::std_specs::hash::group_hash_axioms;

/// The open sessions of a driver, by handle, with the last handle given
/// out; handles are given out counting up from 1.
pub struct HandleTable<T> {
    next: u32,
    entries: HashMap<u32, T>,
}

impl<T> HandleTable<T> {
    /// The last handle given out.
    pub closed spec fn last(&self) -> u32 {
        self.next
    }

    /// The open sessions by handle.
    pub closed spec fn sessions(&self) -> Map<u32, T> {
        self.entries@
    }

    /// Whether every open session has a handle that was given out.
    pub open spec fn wf(&self) -> bool {
        forall|h: u32| #[trigger] self.sessions().contains_key(h) ==> 0 < h <= self.last()
    }

    /// A table with no session, that has given out no handle.
    pub fn new() -> (r: HandleTable<T>)
        ensures
            r.last() == 0,
            r.sessions() == Map::<u32, T>::empty(),
            r.wf(),
    {
        HandleTable { next: 0, entries: HashMap::new() }
    }

    /// Gives out the next handle.
    pub fn increase_handle(&mut self) -> (r: u32)
        requires
            old(self).last() < u32::MAX,
        ensures
            r == old(self).last() + 1,
            final(self).last() == r,
            final(self).sessions() == old(self).sessions(),
            old(self).wf() ==> !old(self).sessions().contains_key(r),
            old(self).wf() ==> final(self).wf(),
    {
        self.next = self.next + 1;
        self.next
    }

    /// Opens a session under a handle, in place of any session it had.
    pub fn insert(&mut self, handle: u32, value: T)
        ensures
            final(self).sessions() == old(self).sessions().insert(handle, value),
            final(self).last() == old(self).last(),
            old(self).wf() && 0 < handle <= old(self).last() ==> final(self).wf(),
    {
        self.entries.insert(handle, value);
    }

    /// Closes the session of a handle and hands it back, if it had one.
    pub fn remove(&mut self, handle: u32) -> (r: Option<T>)
        ensures
            final(self).sessions() == old(self).sessions().remove(handle),
            final(self).last() == old(self).last(),
            match r {
                Some(v) => old(self).sessions().contains_key(handle) && v == old(self).sessions()[handle],
                None => !old(self).sessions().contains_key(handle),
            },
            old(self).wf() ==> final(self).wf(),
    {
        let r = self.entries.remove(&handle);
        assert(final(self).sessions() =~= old(self).sessions().remove(handle));
        r
    }

    /// Whether a handle has an open session.
    pub fn contains(&self, handle: u32) -> (r: bool)
        ensures
            r == self.sessions().contains_key(handle),
    {
        self.entries.contains_key(&handle)
    }

    /// The session of a handle, if it has one.
    pub fn get(&self, handle: u32) -> (r: Option<&T>)
        ensures
            match r {
                Some(v) => self.sessions().contains_key(handle) && *v == self.sessions()[handle],
                None => !self.sessions().contains_key(handle),
            },
    {
        self.entries.get(&handle)
    }
}

/// A session opened under a fresh handle is found under it, and no other
/// session is disturbed: opening never takes the place of an open session.
pub proof fn law_fresh_handle_keeps_sessions<T>(m: Map<u32, T>, last: u32, v: T)
    requires
        last < u32::MAX,
        forall|h: u32| #[trigger] m.contains_key(h) ==> 0 < h <= last,
    ensures
        !m.contains_key((last + 1) as u32),
        m.insert((last + 1) as u32, v)[(last + 1) as u32] == v,
        forall|h: u32| #[trigger] m.contains_key(h) ==> m.insert((last + 1) as u32, v).contains_key(h)
            && m.insert((last + 1) as u32, v)[h] == m[h],
{
}

} // verus!
