//! The recorded draw bundles of a frame and the depth target they draw into.
use vstd::prelude::*;

verus! {

/// Holds the bundles replayed each frame, in the order they were pushed, and
/// the depth target that they share. `B` is a recorded bundle, `T` the depth
/// target's view.
pub struct BundleManager<B, T> {
    bundles: Vec<B>,
    depth_texture: T,
}

impl<B, T> BundleManager<B, T> {
    /// The bundles, in the order they were pushed.
    pub closed spec fn bundles(&self) -> Seq<B> {
        self.bundles@
    }

    /// The depth target.
    pub closed spec fn depth_texture(&self) -> T {
        self.depth_texture
    }

    /// No bundles yet, drawing into `depth_texture`.
    pub fn new(depth_texture: T) -> (r: Self)
        ensures
            r.bundles() == Seq::<B>::empty(),
            r.depth_texture() == depth_texture,
    {
        Self { bundles: Vec::new(), depth_texture }
    }

    pub fn get_bundles(&self) -> (r: &[B])
        ensures
            r@ == self.bundles(),
    {
        self.bundles.as_slice()
    }

    pub fn push_bundle(&mut self, bundle: B)
        ensures
            final(self).bundles() == old(self).bundles().push(bundle),
            final(self).depth_texture() == old(self).depth_texture(),
    {
        self.bundles.push(bundle);
    }

    /// Pushes each of `bundles`, in order.
    pub fn _push_bundles(&mut self, bundles: Vec<B>)
        ensures
            final(self).bundles() == old(self).bundles() + bundles@,
            final(self).depth_texture() == old(self).depth_texture(),
    {
        let mut bundles = bundles;
        self.bundles.append(&mut bundles);
    }

    /// Replaces the depth target, as after a resize; the bundles stay.
    pub fn set_depth_texture(&mut self, depth_texture: T)
        ensures
            final(self).bundles() == old(self).bundles(),
            final(self).depth_texture() == depth_texture,
    {
        self.depth_texture = depth_texture;
    }

    pub fn get_depth_texture_view(&self) -> (r: &T)
        ensures
            *r == self.depth_texture(),
    {
        &self.depth_texture
    }
}

} // verus!
