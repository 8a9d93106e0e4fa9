//! A realized bind group together with the layout it was built against and
//! the registry allocations it binds.
use vstd::prelude::*;
use crate::device::{GpuDevice, Handle, ObjectKind};
use crate::registry::{ResourceRegistry, ResourceKey, BufferKind, SamplerKind, TextureViewKind, SLOT_COUNT};
use crate::bindgroups::{BindGroupKind, binding_keys};
use crate::error::RenderError;

verus! {

/// One bound slot: the binding number, the registry key it was taken from
/// and the allocation that key held.
#[derive(Clone, Copy, PartialEq, Eq, Debug)]
pub struct BindEntry {
    pub binding: u32,
    pub key: ResourceKey,
    pub handle: Handle,
}

/// Every key the concern binds is held by `reg`.
pub open spec fn all_bound(kind: BindGroupKind, shown: TextureViewKind, reg: ResourceRegistry) -> bool {
    forall|i: int| 0 <= i < binding_keys(kind, shown).len()
        ==> (#[trigger] reg.handle_of(binding_keys(kind, shown)[i])) is Some
}

/// The entries a container of `kind` built from `reg` binds, slot by slot.
pub open spec fn bindings_for(kind: BindGroupKind, shown: TextureViewKind, reg: ResourceRegistry) -> Seq<BindEntry> {
    let keys = binding_keys(kind, shown);
    Seq::new(keys.len(), |i: int| BindEntry { binding: i as u32, key: keys[i], handle: reg.handle_of(keys[i])->0 })
}

/// The first key of the concern that `reg` does not hold sits at index `i`.
pub open spec fn first_missing_at(kind: BindGroupKind, shown: TextureViewKind, reg: ResourceRegistry, i: int) -> bool {
    let keys = binding_keys(kind, shown);
    &&& 0 <= i < keys.len()
    &&& reg.handle_of(keys[i]) is None
    &&& forall|j: int| 0 <= j < i ==> (#[trigger] reg.handle_of(keys[j])) is Some
}

impl BindGroupKind {
    /// The registry keys bound at this concern's slots, as `binding_keys`
    /// lists them.
    pub fn binding_keys(&self, shown: TextureViewKind) -> (r: Vec<ResourceKey>)
        ensures
            r@ == binding_keys(*self, shown),
    {
        let mut v: Vec<ResourceKey> = Vec::new();
        match self {
            BindGroupKind::Shadow => {
                v.push(ResourceKey::Buffer(BufferKind::ShadowUniform));
                v.push(ResourceKey::Buffer(BufferKind::Instances));
            },
            BindGroupKind::Uniform => {
                v.push(ResourceKey::Buffer(BufferKind::Globals));
                v.push(ResourceKey::Buffer(BufferKind::Instances));
                v.push(ResourceKey::Buffer(BufferKind::NormalMatrices));
                v.push(ResourceKey::View(TextureViewKind::ShadowDepth));
                v.push(ResourceKey::Sampler(SamplerKind::Shadow));
            },
            BindGroupKind::Lighting => {
                v.push(ResourceKey::Buffer(BufferKind::Lights));
            },
            BindGroupKind::Deferred => {
                v.push(ResourceKey::View(TextureViewKind::Position));
                v.push(ResourceKey::View(TextureViewKind::Normal));
                v.push(ResourceKey::View(TextureViewKind::Albedo));
                v.push(ResourceKey::View(TextureViewKind::Depth));
                v.push(ResourceKey::Sampler(SamplerKind::GBuffer));
            },
            BindGroupKind::DebugTexture => {
                v.push(ResourceKey::View(shown));
                v.push(ResourceKey::Sampler(SamplerKind::DebugTexture));
            },
        }
        proof {
            assert(v@ =~= binding_keys(*self, shown));
        }
        v
    }

    /// The entries this concern binds in `reg`; the first key that `reg`
    /// does not hold is an error.
    pub fn collect_bindings(&self, shown: TextureViewKind, reg: &ResourceRegistry) -> (r: Result<Vec<BindEntry>, RenderError>)
        requires
            reg.slots@.len() == SLOT_COUNT,
        ensures
            r is Ok <==> all_bound(*self, shown, *reg),
            r matches Ok(v) ==> v@ == bindings_for(*self, shown, *reg),
            r matches Err(e) ==> exists|i: int| #[trigger] first_missing_at(*self, shown, *reg, i)
                && e == RenderError::MissingResource(binding_keys(*self, shown)[i]),
    {
        let keys = self.binding_keys(shown);
        let ghost want = bindings_for(*self, shown, *reg);
        let mut v: Vec<BindEntry> = Vec::new();
        let mut i: usize = 0;
        proof {
            assert(keys@.len() <= 6);
        }
        while i < keys.len()
            invariant
                keys@ == binding_keys(*self, shown),
                keys@.len() <= 6,
                want == bindings_for(*self, shown, *reg),
                reg.slots@.len() == SLOT_COUNT,
                i <= keys@.len(),
                v@.len() == i,
                forall|j: int| 0 <= j < i ==> (#[trigger] reg.handle_of(keys@[j])) is Some,
                forall|j: int| 0 <= j < i ==> #[trigger] v@[j] == want[j],
            decreases keys@.len() - i,
        {
            let key = keys[i];
            match reg.get(key) {
                Some(handle) => {
                    v.push(BindEntry { binding: i as u32, key, handle });
                },
                None => {
                    proof {
                        assert(first_missing_at(*self, shown, *reg, i as int));
                    }
                    return Err(RenderError::MissingResource(key));
                },
            }
            i = i + 1;
        }
        proof {
            assert(v@ =~= want);
        }
        Ok(v)
    }

    /// A new container of this concern over `reg`: a new layout and a bind
    /// group over the allocations the concern binds. A key `reg` lacks is an
    /// error, and so is a device without two handles left; either way
    /// nothing is created.
    pub fn create_container(&self, dev: &mut GpuDevice, reg: &ResourceRegistry, shown: TextureViewKind) -> (r: Result<BindGroupContainer, RenderError>)
        requires
            old(dev).wf(),
            reg.slots@.len() == SLOT_COUNT,
        ensures
            final(dev).wf(),
            final(dev).live@ == old(dev).live@,
            final(dev).live_count == old(dev).live_count,
            r is Ok <==> all_bound(*self, shown, *reg) && old(dev).headroom() >= 2,
            r matches Ok(c) ==> {
                &&& c.kind == *self
                &&& c.shown == shown
                &&& c.current_in(*reg)
                &&& c.layout.id == old(dev).next_id
                &&& c.bind_group.id == old(dev).next_id + 1
                &&& final(dev).next_id == old(dev).next_id + 2
                &&& final(dev).ops@ == old(dev).ops@
                    .push(crate::device::DeviceOp::CreateObject { id: c.layout.id, what: ObjectKind::BindGroupLayout })
                    .push(crate::device::DeviceOp::CreateObject { id: c.bind_group.id, what: ObjectKind::BindGroup })
            },
            r is Err ==> *final(dev) == *old(dev),
            r matches Err(RenderError::MissingResource(k)) ==> exists|i: int| #[trigger] first_missing_at(*self, shown, *reg, i)
                && k == binding_keys(*self, shown)[i],
            r == Err::<BindGroupContainer, RenderError>(RenderError::OutOfHandles)
                <==> all_bound(*self, shown, *reg) && old(dev).headroom() < 2,
            r matches Err(e) ==> e is MissingResource || e is OutOfHandles,
    {
        let entries = match self.collect_bindings(shown, reg) {
            Ok(v) => v,
            Err(e) => return Err(e),
        };
        if dev.next_id > u64::MAX - 2 {
            return Err(RenderError::OutOfHandles);
        }
        let layout = dev.create_object(ObjectKind::BindGroupLayout);
        Ok(BindGroupContainer::build(dev, *self, layout, entries, shown, reg))
    }
}

/// Binds concrete allocations against a layout. The layout is kept for the
/// container's life; the bind group is replaced whenever the allocations it
/// binds change.
pub struct BindGroupContainer {
    pub kind: BindGroupKind,
    /// The view the debug viewer shows; other concerns ignore it.
    pub shown: TextureViewKind,
    pub layout: Handle,
    pub bind_group: Handle,
    pub entries: Vec<BindEntry>,
}

impl BindGroupContainer {
    /// The container binds what `reg` now holds under its keys: no handle it
    /// binds has been replaced since.
    pub open spec fn current_in(&self, reg: ResourceRegistry) -> bool {
        &&& all_bound(self.kind, self.shown, reg)
        &&& self.entries@ == bindings_for(self.kind, self.shown, reg)
    }

    /// The allocations the container binds, slot by slot.
    pub open spec fn bound(&self) -> Seq<BindEntry> {
        self.entries@
    }

    /// Realizes a bind group of `kind` against `layout` over `entries`, which
    /// must be what `kind` binds in `reg`.
    pub fn build(
        dev: &mut GpuDevice,
        kind: BindGroupKind,
        layout: Handle,
        entries: Vec<BindEntry>,
        shown: TextureViewKind,
        reg: &ResourceRegistry,
    ) -> (c: BindGroupContainer)
        requires
            old(dev).wf(),
            old(dev).headroom() >= 1,
            all_bound(kind, shown, *reg),
            entries@ == bindings_for(kind, shown, *reg),
        ensures
            final(dev).wf(),
            final(dev).live@ == old(dev).live@,
            final(dev).live_count == old(dev).live_count,
            final(dev).next_id == old(dev).next_id + 1,
            final(dev).ops@ == old(dev).ops@.push(crate::device::DeviceOp::CreateObject { id: old(dev).next_id, what: ObjectKind::BindGroup }),
            c.kind == kind,
            c.shown == shown,
            c.layout == layout,
            c.bind_group.id == old(dev).next_id,
            c.current_in(*reg),
    {
        let bind_group = dev.create_object(ObjectKind::BindGroup);
        BindGroupContainer { kind, shown, layout, bind_group, entries }
    }

    /// Rebinds the container to what `reg` now holds, showing `shown` if it
    /// is the debug viewer. The layout stays, and so does the bind group's
    /// handle: the object behind it is dropped and a new one made over the
    /// new allocations. Where `reg` lacks a key nothing changes.
    pub fn rebind(&mut self, dev: &mut GpuDevice, reg: &ResourceRegistry, shown: TextureViewKind) -> (r: Result<(), RenderError>)
        requires
            old(dev).wf(),
            reg.slots@.len() == SLOT_COUNT,
        ensures
            final(dev).wf(),
            final(dev).live@ == old(dev).live@,
            final(dev).live_count == old(dev).live_count,
            r is Ok <==> all_bound(old(self).kind, shown, *reg),
            r is Ok ==> {
                &&& final(self).kind == old(self).kind
                &&& final(self).layout == old(self).layout
                &&& final(self).shown == shown
                &&& final(self).current_in(*reg)
                &&& final(self).bind_group == old(self).bind_group
                &&& final(dev).next_id == old(dev).next_id
                &&& final(dev).ops@ == old(dev).ops@
                    .push(crate::device::DeviceOp::ReleaseObject { id: old(self).bind_group.id })
                    .push(crate::device::DeviceOp::CreateObject { id: old(self).bind_group.id, what: ObjectKind::BindGroup })
            },
            r matches Err(e) ==> {
                &&& *final(self) == *old(self)
                &&& *final(dev) == *old(dev)
                &&& exists|i: int| #[trigger] first_missing_at(old(self).kind, shown, *reg, i)
                    && e == RenderError::MissingResource(binding_keys(old(self).kind, shown)[i])
            },
    {
        let entries = match self.kind.collect_bindings(shown, reg) {
            Ok(v) => v,
            Err(e) => return Err(e),
        };
        dev.recreate_object(self.bind_group, ObjectKind::BindGroup);
        self.entries = entries;
        self.shown = shown;
        Ok(())
    }
}

} // verus!
