//! The bind groups that have been prepared for images and shaders, by the
//! handle of the asset they were prepared for.

use vstd::prelude::*;
use crate::math::UVec2;

verus! {

/// What is kept of an image whose texture has been bound.
#[derive(Clone, Copy, Debug, PartialEq, Eq, Structural)]
pub struct PreparedImage {
    /// Identifier of the bind group that holds the storage texture
    pub texture_bind_group: u64,
    /// Size of the texture when it was bound
    pub size: UVec2,
}

/// What is kept of a shader whose resources have been bound.
#[derive(Clone, Copy, Debug, PartialEq, Eq, Structural)]
pub struct PreparedShader {
    /// Identifier of the bind group that holds the shader's own resources
    pub user_bind_group: u64,
}

/// The prepared images by image handle, kept in a
/// `bevy::utils::HashMap<u64, PreparedImage>`.
#[verifier::external_body]
pub struct PreparedImages {
    inner: bevy::utils::HashMap<u64, PreparedImage>,
}

/// The prepared shaders by shader handle, kept in a
/// `bevy::utils::HashMap<u64, PreparedShader>`.
#[verifier::external_body]
pub struct PreparedShaders {
    inner: bevy::utils::HashMap<u64, PreparedShader>,
}

/// The entries that a cache of prepared images holds.
pub uninterp spec fn images_in(cache: PreparedImages) -> Map<u64, PreparedImage>;

/// The entries that a cache of prepared shaders holds.
pub uninterp spec fn shaders_in(cache: PreparedShaders) -> Map<u64, PreparedShader>;

impl View for PreparedImages {
    type V = Map<u64, PreparedImage>;

    open spec fn view(&self) -> Map<u64, PreparedImage> {
        images_in(*self)
    }
}

impl View for PreparedShaders {
    type V = Map<u64, PreparedShader>;

    open spec fn view(&self) -> Map<u64, PreparedShader> {
        shaders_in(*self)
    }
}

impl PreparedImages {
    /// `HashMap::default`: a map without entries.
    #[verifier::external_body]
    pub(crate) fn empty() -> (cache: PreparedImages)
        ensures
            images_in(cache).dom() == Set::<u64>::empty(),
    {
        PreparedImages { inner: bevy::utils::HashMap::default() }
    }

    /// `HashMap::insert`: the map holds the entry afterwards, in place of
    /// any other for that handle, and the value that was there before is
    /// returned.
    #[verifier::external_body]
    pub(crate) fn insert(&mut self, handle: u64, prepared: PreparedImage) -> (previous: Option<
        PreparedImage,
    >)
        ensures
            images_in(*final(self)) == images_in(*old(self)).insert(handle, prepared),
            previous == (if images_in(*old(self)).contains_key(handle) {
                Some(images_in(*old(self))[handle])
            } else {
                None
            }),
    {
        self.inner.insert(handle, prepared)
    }

    /// `HashMap::remove`: the map has no entry for the handle afterwards,
    /// and the value that was there before is returned.
    #[verifier::external_body]
    pub(crate) fn remove(&mut self, handle: u64) -> (previous: Option<PreparedImage>)
        ensures
            images_in(*final(self)) == images_in(*old(self)).remove(handle),
            previous == (if images_in(*old(self)).contains_key(handle) {
                Some(images_in(*old(self))[handle])
            } else {
                None
            }),
    {
        self.inner.remove(&handle)
    }

    /// `HashMap::get`, copying the value out: the entry for the handle, if
    /// the map has one.
    #[verifier::external_body]
    pub(crate) fn lookup(&self, handle: u64) -> (prepared: Option<PreparedImage>)
        ensures
            prepared == (if images_in(*self).contains_key(handle) {
                Some(images_in(*self)[handle])
            } else {
                None
            }),
    {
        self.inner.get(&handle).copied()
    }

    /// `HashMap::keys`, collected: every handle that has an entry, each
    /// once, in an order of the map's choosing.
    #[verifier::external_body]
    pub(crate) fn handles(&self) -> (handles: Vec<u64>)
        ensures
            handles@.no_duplicates(),
            handles@.to_set() == images_in(*self).dom(),
    {
        self.inner.keys().copied().collect()
    }

    /// The prepared image of a handle, if there is one.
    pub fn get(&self, handle: u64) -> (prepared: Option<PreparedImage>)
        ensures
            prepared is Some <==> self@.contains_key(handle),
            prepared matches Some(p) ==> p == self@[handle],
    {
        self.lookup(handle)
    }
}

impl PreparedShaders {
    /// `HashMap::default`: a map without entries.
    #[verifier::external_body]
    pub(crate) fn empty() -> (cache: PreparedShaders)
        ensures
            shaders_in(cache).dom() == Set::<u64>::empty(),
    {
        PreparedShaders { inner: bevy::utils::HashMap::default() }
    }

    /// `HashMap::insert`: the map holds the entry afterwards, in place of
    /// any other for that handle, and the value that was there before is
    /// returned.
    #[verifier::external_body]
    pub(crate) fn insert(&mut self, handle: u64, prepared: PreparedShader) -> (previous: Option<
        PreparedShader,
    >)
        ensures
            shaders_in(*final(self)) == shaders_in(*old(self)).insert(handle, prepared),
            previous == (if shaders_in(*old(self)).contains_key(handle) {
                Some(shaders_in(*old(self))[handle])
            } else {
                None
            }),
    {
        self.inner.insert(handle, prepared)
    }

    /// `HashMap::remove`: the map has no entry for the handle afterwards,
    /// and the value that was there before is returned.
    #[verifier::external_body]
    pub(crate) fn remove(&mut self, handle: u64) -> (previous: Option<PreparedShader>)
        ensures
            shaders_in(*final(self)) == shaders_in(*old(self)).remove(handle),
            previous == (if shaders_in(*old(self)).contains_key(handle) {
                Some(shaders_in(*old(self))[handle])
            } else {
                None
            }),
    {
        self.inner.remove(&handle)
    }

    /// `HashMap::get`, copying the value out: the entry for the handle, if
    /// the map has one.
    #[verifier::external_body]
    pub(crate) fn lookup(&self, handle: u64) -> (prepared: Option<PreparedShader>)
        ensures
            prepared == (if shaders_in(*self).contains_key(handle) {
                Some(shaders_in(*self)[handle])
            } else {
                None
            }),
    {
        self.inner.get(&handle).copied()
    }

    /// The prepared shader of a handle, if there is one.
    pub fn get(&self, handle: u64) -> (prepared: Option<PreparedShader>)
        ensures
            prepared is Some <==> self@.contains_key(handle),
            prepared matches Some(p) ==> p == self@[handle],
    {
        self.lookup(handle)
    }
}

impl Default for PreparedImages {
    /// A cache without entries.
    fn default() -> (cache: PreparedImages)
        ensures
            cache@ == Map::<u64, PreparedImage>::empty(),
    {
        PreparedImages::empty()
    }
}

impl Default for PreparedShaders {
    /// A cache without entries.
    fn default() -> (cache: PreparedShaders)
        ensures
            cache@ == Map::<u64, PreparedShader>::empty(),
    {
        PreparedShaders::empty()
    }
}

} // verus!
