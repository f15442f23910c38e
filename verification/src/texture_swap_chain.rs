//! A bounded, double-buffered queue of GPU texture handles for one texture
//! id. The engine samples the most recently committed handle on its own
//! schedule; keeping the previous handle alive protects a frame the engine
//! may still be reading from the next commit's overwrite.

use vstd::prelude::*;

verus! {

/// How many texture handles a swap chain keeps alive at once.
pub const SWAP_CHAIN_CAPACITY: usize = 2;

/// A sequence after pushing onto a queue bounded at two entries: the newest
/// element always enters at the back, and the oldest is evicted first so that
/// at most the previous newest survives alongside it.
pub open spec fn push_evicting_oldest<T>(s: Seq<T>, x: T) -> Seq<T> {
    if s.len() < SWAP_CHAIN_CAPACITY {
        s.push(x)
    } else {
        seq![s.last(), x]
    }
}

/// The texture handles imported for one texture id, oldest first, newest
/// last. Handles are opaque to this crate; the GPU layer that produced them
/// owns their lifetime.
pub struct TextureSwapChain {
    pub textures: Vec<u64>,
}

impl TextureSwapChain {
    /// The chain never holds more than two handles.
    pub open spec fn wf(self) -> bool {
        self.textures@.len() <= SWAP_CHAIN_CAPACITY
    }

    /// An empty chain, for a freshly allocated texture id.
    pub fn new() -> (c: TextureSwapChain)
        ensures
            c.wf(),
            c.textures@ == Seq::<u64>::empty(),
    {
        TextureSwapChain { textures: Vec::new() }
    }

    /// Makes a newly imported texture the front-facing handle, evicting the
    /// oldest handle once the chain is full.
    pub fn commit(&mut self, texture: u64)
        requires
            old(self).wf(),
        ensures
            final(self).wf(),
            final(self).textures@ == push_evicting_oldest(old(self).textures@, texture),
    {
        let ghost orig = self.textures@;
        while self.textures.len() >= SWAP_CHAIN_CAPACITY
            invariant
                self.textures@.len() <= orig.len(),
                orig.len() > 0 ==> self.textures@.len() >= 1,
                self.textures@ == orig.skip(orig.len() - self.textures@.len()),
            decreases self.textures@.len(),
        {
            self.textures.remove(0);
            proof {
                assert(self.textures@ =~= orig.skip(orig.len() - self.textures@.len()));
            }
        }
        self.textures.push(texture);
        proof {
            if orig.len() < SWAP_CHAIN_CAPACITY {
                assert(orig.skip(0) =~= orig);
                assert(self.textures@ =~= orig.push(texture));
            } else {
                assert(orig.skip(orig.len() - 1) =~= seq![orig.last()]);
                assert(self.textures@ =~= seq![orig.last(), texture]);
            }
        }
    }

    /// The handle the engine currently sees: the most recently committed
    /// texture, if any has been committed yet.
    pub fn latest(&self) -> (r: Option<u64>)
        ensures
            match r {
                Some(t) => self.textures@.len() > 0 && t == self.textures@.last(),
                None => self.textures@.len() == 0,
            },
    {
        if self.textures.len() > 0 {
            Some(self.textures[self.textures.len() - 1])
        } else {
            None
        }
    }
}

} // verus!
