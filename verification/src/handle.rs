use std::marker::PhantomData;
use vstd::prelude::*;

verus! {

/// Phantom-tagged index into one of the frame graph's flat arrays.
///
/// Identity is the index alone: a handle is never a pointer and is always
/// resolved through the array that owns the slot. The view of a handle is
/// that index.
#[verifier::reject_recursive_types(T)]
pub struct TypeHandle<T> {
    index: usize,
    marker: PhantomData<T>,
}

impl<T> TypeHandle<T> {
    /// The index this handle stands for; handles are nothing but indices.
    pub closed spec fn spec_index(&self) -> usize {
        self.index
    }
}

impl<T> View for TypeHandle<T> {
    type V = int;

    open spec fn view(&self) -> int {
        self.spec_index() as int
    }
}

impl<T> TypeHandle<T> {
    pub fn new(index: usize) -> (r: Self)
        ensures
            r@ == index,
    {
        TypeHandle { index, marker: PhantomData }
    }

    pub fn index(&self) -> (r: usize)
        ensures
            r == self@,
    {
        self.index
    }
}

impl<T> Clone for TypeHandle<T> {
    fn clone(&self) -> (r: Self)
        ensures
            r == *self,
    {
        TypeHandle { index: self.index, marker: PhantomData }
    }
}

impl<T> Copy for TypeHandle<T> {}

impl<T> PartialEq for TypeHandle<T> {
    fn eq(&self, other: &Self) -> bool {
        self.index == other.index
    }
}

impl<T> Eq for TypeHandle<T> {}

impl<T> vstd::std_specs::cmp::PartialEqSpecImpl for TypeHandle<T> {
    open spec fn obeys_eq_spec() -> bool {
        true
    }

    open spec fn eq_spec(&self, other: &Self) -> bool {
        self@ == other@
    }
}

/// Two handles into one array with the same index are the same handle.
pub proof fn lemma_type_handle_view_injective<T>(a: TypeHandle<T>, b: TypeHandle<T>)
    requires
        a@ == b@,
    ensures
        a == b,
{
}

/// Whether `handles` holds `handle`, compared by index.
pub fn contains_handle<T>(handles: &Vec<TypeHandle<T>>, handle: &TypeHandle<T>) -> (r: bool)
    ensures
        r == handles@.contains(*handle),
{
    let mut i: usize = 0;
    while i < handles.len()
        invariant
            0 <= i <= handles@.len(),
            forall|j: int| 0 <= j < i ==> handles@[j] != *handle,
        decreases handles@.len() - i,
    {
        if handles[i] == *handle {
            proof {
                lemma_type_handle_view_injective(handles@[i as int], *handle);
                assert(handles@[i as int] == *handle);
            }
            return true;
        }
        i = i + 1;
    }
    proof {
        if handles@.contains(*handle) {
            let j = choose|j: int| 0 <= j < handles@.len() && handles@[j] == *handle;
            assert(handles@[j] != *handle);
        }
    }
    false
}

/// Marker of the graph's pass-node array: a `TypeHandle<PassNodeSlot>`
/// indexes it.
pub struct PassNodeSlot;

/// Marker of the graph's virtual-resource array: a
/// `TypeHandle<VirtualResourceSlot>` indexes it.
pub struct VirtualResourceSlot;

/// Marker of the graph's resource-node array: a
/// `TypeHandle<ResourceNodeSlot>` indexes it.
pub struct ResourceNodeSlot;

} // verus!
