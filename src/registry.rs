//! The typed store of GPU allocations, keyed by a closed set of kinds.
use vstd::prelude::*;
use crate::device::{GpuDevice, Handle, ResourceDesc, DeviceOp};

verus! {

#[derive(Clone, Copy, PartialEq, Eq, Debug)]
pub enum BufferKind {
    /// The light-space matrix the shadow pass draws with.
    ShadowUniform,
    /// Per-instance model matrices.
    Instances,
    /// Per-entity normal matrices.
    NormalMatrices,
    /// Camera and global values.
    Globals,
    /// The light list.
    Lights,
    /// The full-screen quad that the composite and debug passes draw.
    DeferredVao,
}

#[derive(Clone, Copy, PartialEq, Eq, Debug)]
pub enum SamplerKind {
    /// Depth-comparison sampler over the shadow map.
    Shadow,
    /// Sampler over the deferred attachments.
    GBuffer,
    /// Sampler of the debug-texture viewer.
    DebugTexture,
}

#[derive(Clone, Copy, PartialEq, Eq, Debug)]
pub enum TextureViewKind {
    ShadowDepth,
    Albedo,
    Normal,
    Position,
    Depth,
    /// The debug viewport the debug pass draws into.
    DebugTarget,
}

#[derive(Clone, Copy, PartialEq, Eq, Debug)]
pub enum ResourceKey {
    Buffer(BufferKind),
    Sampler(SamplerKind),
    View(TextureViewKind),
}

/// Number of registry slots: one per `ResourceKey`.
pub const SLOT_COUNT: usize = 15;

impl ResourceKey {
    pub open spec fn spec_index(self) -> int {
        match self {
            ResourceKey::Buffer(b) => match b {
                BufferKind::ShadowUniform => 0,
                BufferKind::Instances => 1,
                BufferKind::NormalMatrices => 2,
                BufferKind::Globals => 3,
                BufferKind::Lights => 4,
                BufferKind::DeferredVao => 5,
            },
            ResourceKey::Sampler(s) => match s {
                SamplerKind::Shadow => 6,
                SamplerKind::GBuffer => 7,
                SamplerKind::DebugTexture => 8,
            },
            ResourceKey::View(v) => match v {
                TextureViewKind::ShadowDepth => 9,
                TextureViewKind::Albedo => 10,
                TextureViewKind::Normal => 11,
                TextureViewKind::Position => 12,
                TextureViewKind::Depth => 13,
                TextureViewKind::DebugTarget => 14,
            },
        }
    }

    /// The slot of this key in the registry.
    pub fn index(&self) -> (r: usize)
        ensures
            r as int == self.spec_index(),
            r < SLOT_COUNT,
    {
        match self {
            ResourceKey::Buffer(b) => match b {
                BufferKind::ShadowUniform => 0,
                BufferKind::Instances => 1,
                BufferKind::NormalMatrices => 2,
                BufferKind::Globals => 3,
                BufferKind::Lights => 4,
                BufferKind::DeferredVao => 5,
            },
            ResourceKey::Sampler(s) => match s {
                SamplerKind::Shadow => 6,
                SamplerKind::GBuffer => 7,
                SamplerKind::DebugTexture => 8,
            },
            ResourceKey::View(v) => match v {
                TextureViewKind::ShadowDepth => 9,
                TextureViewKind::Albedo => 10,
                TextureViewKind::Normal => 11,
                TextureViewKind::Position => 12,
                TextureViewKind::Depth => 13,
                TextureViewKind::DebugTarget => 14,
            },
        }
    }

    /// Whether a slot of this key may hold an allocation of `desc`: buffers
    /// under buffer kinds, samplers under sampler kinds, textures under view
    /// kinds.
    pub open spec fn accepts(self, desc: ResourceDesc) -> bool {
        match self {
            ResourceKey::Buffer(_) => desc is Buffer,
            ResourceKey::Sampler(_) => desc is Sampler,
            ResourceKey::View(_) => desc is Texture,
        }
    }
}

/// The key of slot `i`.
pub open spec fn key_at(i: int) -> ResourceKey {
    if i == 0 { ResourceKey::Buffer(BufferKind::ShadowUniform) }
    else if i == 1 { ResourceKey::Buffer(BufferKind::Instances) }
    else if i == 2 { ResourceKey::Buffer(BufferKind::NormalMatrices) }
    else if i == 3 { ResourceKey::Buffer(BufferKind::Globals) }
    else if i == 4 { ResourceKey::Buffer(BufferKind::Lights) }
    else if i == 5 { ResourceKey::Buffer(BufferKind::DeferredVao) }
    else if i == 6 { ResourceKey::Sampler(SamplerKind::Shadow) }
    else if i == 7 { ResourceKey::Sampler(SamplerKind::GBuffer) }
    else if i == 8 { ResourceKey::Sampler(SamplerKind::DebugTexture) }
    else if i == 9 { ResourceKey::View(TextureViewKind::ShadowDepth) }
    else if i == 10 { ResourceKey::View(TextureViewKind::Albedo) }
    else if i == 11 { ResourceKey::View(TextureViewKind::Normal) }
    else if i == 12 { ResourceKey::View(TextureViewKind::Position) }
    else if i == 13 { ResourceKey::View(TextureViewKind::Depth) }
    else { ResourceKey::View(TextureViewKind::DebugTarget) }
}

pub proof fn lemma_key_at(i: int)
    requires
        0 <= i < SLOT_COUNT,
    ensures
        key_at(i).spec_index() == i,
{
}

pub proof fn lemma_index_injective(a: ResourceKey, b: ResourceKey)
    ensures
        0 <= a.spec_index() < SLOT_COUNT,
        a.spec_index() == b.spec_index() ==> a == b,
{
}

/// A registry whose slots all hold an allocation holds as many distinct
/// handles as it has slots.
pub proof fn lemma_full_count(slots: Seq<Option<RegistryEntry>>)
    requires
        forall|i: int| 0 <= i < slots.len() ==> (#[trigger] slots[i]) is Some,
        distinct_ids(slots),
    ensures
        ids_of(slots).finite(),
        ids_of(slots).len() == slots.len(),
    decreases slots.len(),
{
    if slots.len() == 0 {
        assert(ids_of(slots) =~= Set::<u64>::empty());
    } else {
        let s = slots.drop_last();
        let n = slots.len() - 1;
        assert forall|i: int| 0 <= i < s.len() implies slot_id(s, i) == #[trigger] slot_id(slots, i) by {}
        assert forall|i: int| 0 <= i < s.len() implies (#[trigger] s[i]) is Some by {
            assert(slots[i] is Some);
        }
        assert(distinct_ids(s)) by {
            assert forall|i: int, j: int|
                0 <= i < s.len() && 0 <= j < s.len() && i != j && (#[trigger] slot_id(s, i)) is Some
                implies #[trigger] slot_id(s, j) != slot_id(s, i) by {
                assert(slot_id(s, i) == slot_id(slots, i));
                assert(slot_id(s, j) == slot_id(slots, j));
            }
        }
        lemma_full_count(s);
        assert(slots[n] is Some);
        let last = slots[n]->0.handle.id;
        assert(slot_id(slots, n) == Some(last));
        assert forall|id: u64| #[trigger] ids_of(slots).contains(id) <==> ids_of(s).insert(last).contains(id) by {
            if ids_of(slots).contains(id) {
                let i = choose|i: int| 0 <= i < slots.len() && slot_id(slots, i) == Some(id);
                if i < n {
                    assert(slot_id(s, i) == Some(id));
                }
            }
            if ids_of(s).contains(id) {
                let i = choose|i: int| 0 <= i < s.len() && slot_id(s, i) == Some(id);
                assert(slot_id(slots, i) == Some(id));
            }
        }
        assert(ids_of(slots) =~= ids_of(s).insert(last));
        assert(!ids_of(s).contains(last)) by {
            if ids_of(s).contains(last) {
                let i = choose|i: int| 0 <= i < s.len() && slot_id(s, i) == Some(last);
                assert(slot_id(slots, i) == Some(last));
            }
        }
    }
}

#[derive(Clone, Copy, PartialEq, Eq, Debug)]
pub struct RegistryEntry {
    pub handle: Handle,
    pub desc: ResourceDesc,
}

/// Holds at most one live allocation per key. It is the only holder of
/// allocations on its device: the device's live set is exactly the set of
/// handles stored here.
pub struct ResourceRegistry {
    pub slots: Vec<Option<RegistryEntry>>,
}

/// The handle stored in slot `i`, if any.
pub open spec fn slot_id(slots: Seq<Option<RegistryEntry>>, i: int) -> Option<u64> {
    match slots[i] {
        Some(e) => Some(e.handle.id),
        None => None,
    }
}

/// The set of handles stored in `slots`.
pub open spec fn ids_of(slots: Seq<Option<RegistryEntry>>) -> Set<u64> {
    Set::new(|id: u64| exists|i: int| 0 <= i < slots.len() && slot_id(slots, i) == Some(id))
}

/// Every handle stored in `slots` is stored once.
pub open spec fn distinct_ids(slots: Seq<Option<RegistryEntry>>) -> bool {
    forall|i: int, j: int|
        0 <= i < slots.len() && 0 <= j < slots.len() && i != j && (#[trigger] slot_id(slots, i)) is Some
            ==> #[trigger] slot_id(slots, j) != slot_id(slots, i)
}

impl ResourceRegistry {
    pub open spec fn entry(&self, key: ResourceKey) -> Option<RegistryEntry> {
        self.slots@[key.spec_index()]
    }

    pub open spec fn handle_of(&self, key: ResourceKey) -> Option<Handle> {
        match self.entry(key) {
            Some(e) => Some(e.handle),
            None => None,
        }
    }

    pub open spec fn desc_of(&self, key: ResourceKey) -> Option<ResourceDesc> {
        match self.entry(key) {
            Some(e) => Some(e.desc),
            None => None,
        }
    }

    pub open spec fn ids(&self) -> Set<u64> {
        ids_of(self.slots@)
    }

    /// The registry is well formed over `dev`: one slot per key, each slot of
    /// the right family, no handle stored twice, and the device's live
    /// allocations are exactly the stored handles.
    pub open spec fn wf(&self, dev: &GpuDevice) -> bool {
        &&& self.slots@.len() == SLOT_COUNT
        &&& dev.wf()
        &&& distinct_ids(self.slots@)
        &&& dev.live@ == self.ids()
        &&& forall|k: ResourceKey| (#[trigger] self.entry(k)) matches Some(e) ==> k.accepts(e.desc)
    }

    /// Two registries hold allocations of the same descriptions under the
    /// same keys: they differ at most by which handles were issued.
    pub open spec fn same_shape(&self, other: &ResourceRegistry) -> bool {
        forall|k: ResourceKey| #[trigger] self.desc_of(k) == other.desc_of(k)
    }

    /// An empty registry over a device that holds no allocation.
    pub fn new(dev: &GpuDevice) -> (r: ResourceRegistry)
        requires
            dev.wf(),
            dev.live@ == Set::<u64>::empty(),
        ensures
            r.wf(dev),
            forall|k: ResourceKey| #[trigger] r.entry(k) is None,
    {
        let mut slots: Vec<Option<RegistryEntry>> = Vec::new();
        let mut i: usize = 0;
        while i < SLOT_COUNT
            invariant
                i <= SLOT_COUNT,
                slots@.len() == i,
                forall|j: int| 0 <= j < i ==> slots@[j] is None,
            decreases SLOT_COUNT - i,
        {
            slots.push(None);
            i = i + 1;
        }
        let r = ResourceRegistry { slots };
        proof {
            assert forall|k: ResourceKey| #[trigger] r.entry(k) is None by {
                lemma_index_injective(k, k);
            }
            assert(r.ids() =~= Set::<u64>::empty());
        }
        r
    }

    /// The handle stored under `key`; `None` while it has not been built.
    pub fn get(&self, key: ResourceKey) -> (r: Option<Handle>)
        requires
            self.slots@.len() == SLOT_COUNT,
        ensures
            r == self.handle_of(key),
    {
        match self.slots[key.index()] {
            Some(e) => Some(e.handle),
            None => None,
        }
    }

    /// The entry stored under `key`.
    pub fn get_entry(&self, key: ResourceKey) -> (r: Option<RegistryEntry>)
        requires
            self.slots@.len() == SLOT_COUNT,
        ensures
            r == self.entry(key),
    {
        self.slots[key.index()]
    }

    /// Installs a new allocation of `desc` under `key`. The allocation it
    /// replaces, if any, is released first.
    pub fn set(&mut self, dev: &mut GpuDevice, key: ResourceKey, desc: ResourceDesc) -> (h: Handle)
        requires
            old(self).wf(old(dev)),
            old(dev).headroom() >= 1,
            key.accepts(desc),
        ensures
            final(self).wf(final(dev)),
            h.id == old(dev).next_id,
            final(dev).next_id == old(dev).next_id + 1,
            final(self).entry(key) == Some(RegistryEntry { handle: h, desc }),
            forall|k: ResourceKey| k != key ==> #[trigger] final(self).entry(k) == old(self).entry(k),
            old(self).entry(key) matches Some(e) ==> {
                &&& final(dev).ops@ == old(dev).ops@.push(DeviceOp::ReleaseResource { id: e.handle.id })
                    .push(DeviceOp::CreateResource { id: h.id, desc })
                &&& final(dev).live_count == old(dev).live_count
            },
            old(self).entry(key) is None ==> {
                &&& final(dev).ops@ == old(dev).ops@.push(DeviceOp::CreateResource { id: h.id, desc })
                &&& final(dev).live_count == old(dev).live_count + 1
            },
    {
        let idx = key.index();
        let old_slots = Ghost(self.slots@);
        let old_live = Ghost(dev.live@);
        match self.slots[idx] {
            Some(e) => {
                proof {
                    assert(slot_id(old_slots@, idx as int) == Some(e.handle.id));
                    assert(dev.live@.contains(e.handle.id));
                }
                dev.release_resource(e.handle);
            },
            None => {},
        }
        let h = dev.create_resource(desc);
        self.slots.set(idx, Some(RegistryEntry { handle: h, desc }));
        proof {
            let s0 = old_slots@;
            let s1 = self.slots@;
            let i = idx as int;
            assert forall|k: ResourceKey| k != key implies #[trigger] self.entry(k) == old(self).entry(k) by {
                lemma_index_injective(k, key);
            }
            // the new handle is stored nowhere else
            assert forall|j: int| 0 <= j < s0.len() && j != i && (#[trigger] slot_id(s0, j)) is Some
                implies slot_id(s0, j) != Some(h.id) by {
                assert(old_live@.contains(slot_id(s0, j)->0));
            }
            assert forall|a: int, b: int|
                0 <= a < s1.len() && 0 <= b < s1.len() && a != b && (#[trigger] slot_id(s1, a)) is Some
                implies #[trigger] slot_id(s1, b) != slot_id(s1, a) by {
                if a != i && b != i {
                    assert(slot_id(s1, a) == slot_id(s0, a));
                    assert(slot_id(s1, b) == slot_id(s0, b));
                } else if a == i {
                    assert(slot_id(s1, b) == slot_id(s0, b));
                } else {
                    assert(slot_id(s1, a) == slot_id(s0, a));
                }
            }
            let removed: Set<u64> = match s0[i] {
                Some(e) => old_live@.remove(e.handle.id),
                None => old_live@,
            };
            assert(dev.live@ == removed.insert(h.id));
            assert forall|id: u64| #[trigger] dev.live@.contains(id) <==> ids_of(s1).contains(id) by {
                if dev.live@.contains(id) {
                    if id == h.id {
                        assert(slot_id(s1, i) == Some(id));
                    } else {
                        assert(ids_of(s0).contains(id));
                        let j = choose|j: int| 0 <= j < s0.len() && slot_id(s0, j) == Some(id);
                        assert(j != i);
                        assert(slot_id(s1, j) == Some(id));
                    }
                }
                if ids_of(s1).contains(id) {
                    let j = choose|j: int| 0 <= j < s1.len() && slot_id(s1, j) == Some(id);
                    if j != i {
                        assert(slot_id(s0, j) == Some(id));
                        assert(ids_of(s0).contains(id));
                        if let Some(e) = s0[i] {
                            assert(slot_id(s0, i) != slot_id(s0, j));
                        }
                    }
                }
            }
            assert(dev.live@ =~= ids_of(s1));
            assert forall|k: ResourceKey| (#[trigger] self.entry(k)) is Some implies k.accepts(self.entry(k)->0.desc) by {
                if k != key {
                    assert(self.entry(k) == old(self).entry(k));
                }
            }
        }
        h
    }

    /// The handle under `key`; where there is none yet, a new allocation of
    /// `desc` is installed and its handle returned.
    pub fn get_or_rebuild(&mut self, dev: &mut GpuDevice, key: ResourceKey, desc: ResourceDesc) -> (h: Handle)
        requires
            old(self).wf(old(dev)),
            old(dev).headroom() >= 1,
            key.accepts(desc),
        ensures
            final(self).wf(final(dev)),
            old(self).entry(key) matches Some(e) ==> {
                &&& h == e.handle
                &&& *final(self) == *old(self)
                &&& *final(dev) == *old(dev)
            },
            old(self).entry(key) is None ==> {
                &&& h.id == old(dev).next_id
                &&& final(self).entry(key) == Some(RegistryEntry { handle: h, desc })
                &&& forall|k: ResourceKey| k != key ==> #[trigger] final(self).entry(k) == old(self).entry(k)
                &&& final(dev).ops@ == old(dev).ops@.push(DeviceOp::CreateResource { id: h.id, desc })
                &&& final(dev).live_count == old(dev).live_count + 1
            },
    {
        match self.get_entry(key) {
            Some(e) => e.handle,
            None => self.set(dev, key, desc),
        }
    }
}

} // verus!
