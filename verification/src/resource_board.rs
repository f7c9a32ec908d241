use crate::resource_node::RawResourceNodeHandle;
use vstd::prelude::*;

verus! {

/// The handle registered for `name`, newest registration first.
pub open spec fn board_find(
    entries: Seq<(String, RawResourceNodeHandle)>,
    name: Seq<char>,
) -> Option<RawResourceNodeHandle>
    decreases entries.len(),
{
    if entries.len() == 0 {
        None
    } else if entries[0].0@ == name {
        Some(entries[0].1)
    } else {
        board_find(entries.subrange(1, entries.len() as int), name)
    }
}

/// Name-keyed registry of raw resource-node handles, written only by
/// `import`. Entries do not survive `reset`: callers must not cache lookups
/// across frames.
pub struct ResourceBoard {
    entries: Vec<(String, RawResourceNodeHandle)>,
}

impl View for ResourceBoard {
    type V = Seq<(String, RawResourceNodeHandle)>;

    closed spec fn view(&self) -> Seq<(String, RawResourceNodeHandle)> {
        self.entries@
    }
}

impl Default for ResourceBoard {
    fn default() -> (r: Self)
        ensures
            r@.len() == 0,
    {
        ResourceBoard { entries: Vec::new() }
    }
}

impl ResourceBoard {
    pub fn new() -> (r: Self)
        ensures
            r@.len() == 0,
    {
        ResourceBoard { entries: Vec::new() }
    }

    /// Register `handle` under `name`; a later registration of the same name
    /// shadows an earlier one.
    pub fn put(&mut self, name: &str, handle: RawResourceNodeHandle)
        ensures
            forall|n: Seq<char>|
                board_find(final(self)@, n) == if n == name@ {
                    Some(handle)
                } else {
                    board_find(old(self)@, n)
                },
    {
        self.entries.insert(0, (name.to_owned(), handle));
        proof {
            assert forall|n: Seq<char>|
                board_find(self@, n) == (if n == name@ {
                    Some(handle)
                } else {
                    board_find(old(self)@, n)
                }) by {
                assert(self@.subrange(1, self@.len() as int) == old(self)@);
            }
        }
    }

    /// The handle registered for `name` this frame, if any.
    pub fn get(&self, name: &str) -> (r: Option<&RawResourceNodeHandle>)
        ensures
            match r {
                None => board_find(self@, name@) is None,
                Some(h) => board_find(self@, name@) == Some(*h),
            },
    {
        let key = name.to_owned();
        let mut i: usize = 0;
        proof {
            assert(self@.subrange(0, self@.len() as int) == self@);
        }
        while i < self.entries.len()
            invariant
                0 <= i <= self.entries.len(),
                key@ == name@,
                board_find(self@, name@) == board_find(
                    self@.subrange(i as int, self@.len() as int),
                    name@,
                ),
            decreases self.entries.len() - i,
        {
            if self.entries[i].0 == key {
                proof {
                    assert(self@.subrange(i as int, self@.len() as int)[0] == self@[i as int]);
                }
                return Some(&self.entries[i].1);
            }
            proof {
                let tail = self@.subrange(i as int, self@.len() as int);
                assert(tail[0] == self@[i as int]);
                assert(tail.subrange(1, tail.len() as int) == self@.subrange(
                    i + 1 as int,
                    self@.len() as int,
                ));
            }
            i = i + 1;
        }
        None
    }

    /// Drop every registration; called on frame reset.
    pub fn clear(&mut self)
        ensures
            final(self)@.len() == 0,
            forall|n: Seq<char>| board_find(final(self)@, n) is None,
    {
        self.entries.clear();
    }
}

} // verus!
