//! Framebuffers: what describes one, the cache of created ones, and the decision
//! between reusing a cached framebuffer and creating a new one.

use vstd::prelude::*;
use crate::types::Extent2D;
use fxhash::{FxHashMap, FxHasher};
use std::hash::BuildHasherDefault;

verus! {

/// What a framebuffer is made of: the render pass, the image views it attaches, and
/// the swapchain extent.
#[derive(Clone, Debug, PartialEq, Eq, Hash)]
pub struct FramebufferDescriptor {
    render_pass: u64,
    texture_views: Vec<u64>,
    swapchain_extent: Extent2D,
}

/// A descriptor as a value: render pass, attached views, extent.
pub type FramebufferKey = (u64, Seq<u64>, Extent2D);

impl View for FramebufferDescriptor {
    type V = FramebufferKey;

    closed spec fn view(&self) -> FramebufferKey {
        (self.render_pass, self.texture_views@, self.swapchain_extent)
    }
}

impl FramebufferDescriptor {
    /// A descriptor of a framebuffer of `render_pass` attaching `texture_views` at `swapchain_extent`.
    pub fn new(render_pass: u64, texture_views: Vec<u64>, swapchain_extent: Extent2D) -> (r: Self)
        ensures
            r@ == (render_pass, texture_views@, swapchain_extent),
    {
        FramebufferDescriptor { render_pass, texture_views, swapchain_extent }
    }

    /// What creates the framebuffer this descriptor describes.
    pub fn into_create_info(self) -> (r: FramebufferCreateInfo)
        ensures
            create_info_for(r, self@),
            r.render_pass == self@.0,
            r.attachments@ == self@.1,
            r.width == self@.2.width,
            r.height == self@.2.height,
            r.layers == 1,
    {
        FramebufferCreateInfo {
            render_pass: self.render_pass,
            attachments: self.texture_views,
            width: self.swapchain_extent.width,
            height: self.swapchain_extent.height,
            layers: 1,
        }
    }
}

/// What a framebuffer is created with (`VkFramebufferCreateInfo`).
pub struct FramebufferCreateInfo {
    pub render_pass: u64,
    pub attachments: Vec<u64>,
    pub width: u32,
    pub height: u32,
    pub layers: u32,
}

/// `info` creates the framebuffer that `key` describes: its render pass, its views as
/// attachments, the extent, one layer.
pub open spec fn create_info_for(info: FramebufferCreateInfo, key: FramebufferKey) -> bool {
    &&& info.render_pass == key.0
    &&& info.attachments@ == key.1
    &&& info.width == key.2.width
    &&& info.height == key.2.height
    &&& info.layers == 1
}

/// The hasher of `fxhash`'s maps.
#[verifier::external_type_specification]
#[verifier::external_body]
pub struct ExFxHasher(FxHasher);

/// The builder of default-constructed hashers that `fxhash`'s maps use.
#[verifier::external_type_specification]
#[verifier::external_body]
#[verifier::reject_recursive_types(H)]
pub struct ExBuildHasherDefault<H>(BuildHasherDefault<H>);

/// Framebuffers by what describes them, in `fxhash`'s hash map.
pub type FramebufferMap = FxHashMap<FramebufferDescriptor, u64>;

/// What an `FxHashMap` of framebuffers holds: for each descriptor (as a value), its framebuffer.
pub uninterp spec fn framebuffer_map_contents(map: FramebufferMap) -> Map<FramebufferKey, u64>;

/// `FxHashMap::default()`: a map that holds nothing.
#[verifier::external_body]
fn framebuffer_map_new() -> (r: FramebufferMap)
    ensures
        framebuffer_map_contents(r) == (Map::<FramebufferKey, u64>::empty()),
{
    FxHashMap::default()
}

/// `HashMap::get` on an `FxHashMap`: the framebuffer held for a descriptor equal to
/// `desc`, if any. Descriptors compare equal (derived `PartialEq`, with a matching derived
/// `Hash`) exactly when their render passes, view lists and extents are equal, that is
/// when their values are equal.
#[verifier::external_body]
fn framebuffer_map_get(map: &FramebufferMap, desc: &FramebufferDescriptor) -> (r:
    Option<u64>)
    ensures
        r == (if framebuffer_map_contents(*map).contains_key(desc@) {
            Some(framebuffer_map_contents(*map)[desc@])
        } else {
            None::<u64>
        }),
{
    map.get(desc).copied()
}

/// `HashMap::insert` on an `FxHashMap`: afterwards the map holds `framebuffer` for `desc`
/// and is otherwise unchanged; it returns what it held for `desc` before, if anything.
#[verifier::external_body]
fn framebuffer_map_insert(
    map: &mut FramebufferMap,
    desc: FramebufferDescriptor,
    framebuffer: u64,
) -> (r: Option<u64>)
    ensures
        framebuffer_map_contents(*final(map)) == framebuffer_map_contents(*old(map)).insert(
            desc@,
            framebuffer,
        ),
        r == (if framebuffer_map_contents(*old(map)).contains_key(desc@) {
            Some(framebuffer_map_contents(*old(map))[desc@])
        } else {
            None::<u64>
        }),
{
    map.insert(desc, framebuffer)
}

/// Framebuffers already created, by what describes them.
pub struct FramebufferCache {
    map: FramebufferMap,
}

impl View for FramebufferCache {
    type V = Map<FramebufferKey, u64>;

    closed spec fn view(&self) -> Map<FramebufferKey, u64> {
        framebuffer_map_contents(self.map)
    }
}

impl FramebufferCache {
    /// An empty cache.
    pub fn new() -> (r: Self)
        ensures
            r@ == Map::<FramebufferKey, u64>::empty(),
    {
        FramebufferCache { map: framebuffer_map_new() }
    }

    /// The framebuffer cached for `desc`, if any.
    pub fn get(&self, desc: &FramebufferDescriptor) -> (r: Option<u64>)
        ensures
            r == (if self@.contains_key(desc@) {
                Some(self@[desc@])
            } else {
                None::<u64>
            }),
    {
        framebuffer_map_get(&self.map, desc)
    }

    /// Caches `framebuffer` for `desc`, replacing and returning what was cached for it.
    pub fn insert(&mut self, desc: FramebufferDescriptor, framebuffer: u64) -> (r: Option<u64>)
        ensures
            final(self)@ == old(self)@.insert(desc@, framebuffer),
            r == (if old(self)@.contains_key(desc@) {
                Some(old(self)@[desc@])
            } else {
                None::<u64>
            }),
    {
        framebuffer_map_insert(&mut self.map, desc, framebuffer)
    }
}

/// What to do for a framebuffer request: reuse the cached framebuffer, or create one.
pub enum FramebufferLookup {
    Cached(u64),
    Create(FramebufferCreateInfo),
}

/// After a framebuffer is cached for a descriptor, the cache holds it for that
/// descriptor, and every other descriptor keeps what it had (or lack of it).
pub proof fn lemma_cached_after_insert(
    cache: Map<FramebufferKey, u64>,
    key: FramebufferKey,
    framebuffer: u64,
    other: FramebufferKey,
)
    ensures
        cache.insert(key, framebuffer).contains_key(key),
        cache.insert(key, framebuffer)[key] == framebuffer,
        other != key ==> cache.insert(key, framebuffer).contains_key(other) == cache.contains_key(
            other,
        ),
        other != key && cache.contains_key(other) ==> cache.insert(key, framebuffer)[other]
            == cache[other],
{
}

/// Descriptors that attach different single views differ, so caching the framebuffers
/// of distinct image views never replaces one by another.
pub proof fn lemma_single_view_descriptors_differ(
    render_pass: u64,
    view_a: u64,
    view_b: u64,
    extent: Extent2D,
)
    requires
        view_a != view_b,
    ensures
        (render_pass, seq![view_a], extent) != (render_pass, seq![view_b], extent),
{
    assert(seq![view_a][0] != seq![view_b][0]);
}

} // verus!
