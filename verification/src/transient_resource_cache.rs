use crate::texture::{Texture, TextureInfo};
use vstd::prelude::*;

verus! {

/// Whether `pool` holds a texture created from descriptor `desc`.
pub open spec fn pool_has_desc(pool: Seq<Texture>, desc: TextureInfo) -> bool {
    exists|i: int| 0 <= i < pool.len() && pool[i].spec_desc() == desc
}

/// Descriptor-keyed pool of textures that outlive a single frame: a texture
/// released by one frame backs an equal-descriptor request of a later one.
/// This is the only state the frame graph shares across frames.
pub struct TransientResourceCache {
    pool: Vec<Texture>,
}

impl View for TransientResourceCache {
    type V = Seq<Texture>;

    closed spec fn view(&self) -> Seq<Texture> {
        self.pool@
    }
}

impl Default for TransientResourceCache {
    fn default() -> (r: Self)
        ensures
            r@ == Seq::<Texture>::empty(),
    {
        TransientResourceCache { pool: Vec::new() }
    }
}

impl TransientResourceCache {
    pub fn new() -> (r: Self)
        ensures
            r@ == Seq::<Texture>::empty(),
    {
        TransientResourceCache { pool: Vec::new() }
    }

    /// Take a pooled texture whose descriptor equals `desc`, if one exists.
    /// Returns the first match; `None` exactly when no pooled texture
    /// matches, which forces fresh creation by the device.
    pub fn get_image(&mut self, desc: &TextureInfo) -> (r: Option<Texture>)
        ensures
            match r {
                None => {
                    &&& final(self)@ == old(self)@
                    &&& !pool_has_desc(old(self)@, *desc)
                },
                Some(texture) => {
                    &&& texture.spec_desc() == *desc
                    &&& exists|i: int|
                        {
                            &&& 0 <= i < old(self)@.len()
                            &&& old(self)@[i] == texture
                            &&& final(self)@ == old(self)@.remove(i)
                            &&& forall|j: int| 0 <= j < i ==> old(self)@[j].spec_desc() != *desc
                        }
                },
            },
    {
        let mut i: usize = 0;
        while i < self.pool.len()
            invariant
                0 <= i <= self.pool.len(),
                self == old(self),
                forall|j: int| 0 <= j < i ==> self.pool@[j].spec_desc() != *desc,
            decreases self.pool.len() - i,
        {
            if *self.pool[i].get_desc() == *desc {
                let texture = self.pool.remove(i);
                proof {
                    let k = i as int;
                    assert(0 <= k < old(self)@.len());
                    assert(old(self)@[k] == texture);
                    assert(self@ == old(self)@.remove(k));
                    assert(forall|j: int| 0 <= j < k ==> old(self)@[j].spec_desc() != *desc);
                }
                return Some(texture);
            }
            i = i + 1;
        }
        None
    }

    /// Return a texture to the pool under its descriptor.
    pub fn insert_image(&mut self, desc: TextureInfo, texture: Texture)
        requires
            texture.spec_desc() == desc,
        ensures
            final(self)@ == old(self)@.push(texture),
    {
        self.pool.push(texture);
    }
}

/// An owned texture released into the pool is available to any later
/// request with an equal descriptor: the pool that `insert_image` leaves
/// behind has a texture with that descriptor, so `get_image` on it returns
/// one rather than forcing fresh creation.
pub proof fn lemma_released_texture_is_pooled(pool: Seq<Texture>, texture: Texture)
    ensures
        pool_has_desc(pool.push(texture), texture.spec_desc()),
{
    assert(pool.push(texture)[pool.len() as int] == texture);
}

/// A pool holding no texture of descriptor `desc` cannot serve a request for
/// it: `get_image` returns `None` and the device must create fresh.
pub proof fn lemma_unequal_descriptors_force_fresh_creation(pool: Seq<Texture>, desc: TextureInfo)
    requires
        forall|i: int| 0 <= i < pool.len() ==> (#[trigger] pool[i]).spec_desc() != desc,
    ensures
        !pool_has_desc(pool, desc),
{
}

} // verus!
