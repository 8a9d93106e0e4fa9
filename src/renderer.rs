//! The graphics context: device, registry, bind groups and pipelines, with
//! the surface they are sized for.
use vstd::prelude::*;
use crate::device::{GpuDevice, Handle, ResourceDesc, SurfaceConfig, TextureFormat, valid_size, MAX_TEXTURE_DIMENSION};
use crate::registry::{ResourceRegistry, ResourceKey, BufferKind, SamplerKind, TextureViewKind};
use crate::bindgroups::{BindGroupKind, planned, surface_sized, resource_plan, lemma_plan_well_formed};
use crate::container::{BindGroupContainer, all_bound, bindings_for};
use crate::pipelines::{PipelineKind, RenderPipeline, pipeline_state};
use crate::error::RenderError;

verus! {

/// Number of textures the debug viewer can show.
pub const INSPECTABLE_COUNT: usize = 3;

/// The texture the debug viewer shows at index `k`.
pub open spec fn inspectable(k: int) -> TextureViewKind {
    if k == 0 {
        TextureViewKind::Albedo
    } else if k == 1 {
        TextureViewKind::Normal
    } else {
        TextureViewKind::Position
    }
}

/// The texture at index `k` of the debug viewer's list, if there is one.
pub fn inspectable_view(k: usize) -> (r: Option<TextureViewKind>)
    ensures
        k < INSPECTABLE_COUNT ==> r == Some(inspectable(k as int)),
        k >= INSPECTABLE_COUNT ==> r is None,
{
    if k == 0 {
        Some(TextureViewKind::Albedo)
    } else if k == 1 {
        Some(TextureViewKind::Normal)
    } else if k == 2 {
        Some(TextureViewKind::Position)
    } else {
        None
    }
}

/// Every key holds an allocation.
pub open spec fn full(reg: ResourceRegistry) -> bool {
    forall|k: ResourceKey| #[trigger] reg.entry(k) is Some
}

/// Every key holds the allocation its owning concern plans for `surface`.
pub open spec fn planned_shape(reg: ResourceRegistry, surface: SurfaceConfig) -> bool {
    forall|k: ResourceKey| #[trigger] reg.desc_of(k) == planned(owner_of(k).0, surface, k)
}

/// Every surface-sized allocation is a texture of `width` by `height`.
pub open spec fn sized_to(reg: ResourceRegistry, width: u32, height: u32) -> bool {
    forall|k: ResourceKey| surface_sized(k) ==> {
        &&& (#[trigger] reg.desc_of(k)) matches Some(ResourceDesc::Texture(t))
        &&& t.width == width
        &&& t.height == height
    }
}

pub proof fn lemma_full_binds_all(reg: ResourceRegistry, kind: BindGroupKind, shown: TextureViewKind)
    requires
        full(reg),
    ensures
        all_bound(kind, shown, reg),
{
    let keys = crate::bindgroups::binding_keys(kind, shown);
    assert forall|i: int| 0 <= i < keys.len() implies (#[trigger] reg.handle_of(keys[i])) is Some by {
        assert(reg.entry(keys[i]) is Some);
    }
}

/// The concern that allocates `k`, and where `k` stands in its plan.
pub open spec fn owner_of(k: ResourceKey) -> (BindGroupKind, int) {
    match k {
        ResourceKey::Buffer(b) => match b {
            BufferKind::ShadowUniform => (BindGroupKind::Shadow, 0),
            BufferKind::Instances => (BindGroupKind::Uniform, 3),
            BufferKind::NormalMatrices => (BindGroupKind::Uniform, 2),
            BufferKind::Globals => (BindGroupKind::Uniform, 4),
            BufferKind::Lights => (BindGroupKind::Lighting, 0),
            BufferKind::DeferredVao => (BindGroupKind::Deferred, 5),
        },
        ResourceKey::Sampler(s) => match s {
            SamplerKind::Shadow => (BindGroupKind::Uniform, 1),
            SamplerKind::GBuffer => (BindGroupKind::Deferred, 4),
            SamplerKind::DebugTexture => (BindGroupKind::DebugTexture, 1),
        },
        ResourceKey::View(v) => match v {
            TextureViewKind::ShadowDepth => (BindGroupKind::Uniform, 0),
            TextureViewKind::Position => (BindGroupKind::Deferred, 0),
            TextureViewKind::Normal => (BindGroupKind::Deferred, 1),
            TextureViewKind::Albedo => (BindGroupKind::Deferred, 2),
            TextureViewKind::Depth => (BindGroupKind::Deferred, 3),
            TextureViewKind::DebugTarget => (BindGroupKind::DebugTexture, 0),
        },
    }
}

/// One bind-group container per concern.
pub struct BindGroups {
    pub shadow: BindGroupContainer,
    pub uniform: BindGroupContainer,
    pub lighting: BindGroupContainer,
    pub deferred: BindGroupContainer,
    pub debug: BindGroupContainer,
}

impl BindGroups {
    /// Each container is of its concern and binds what `reg` holds; the
    /// debug viewer shows `shown`.
    pub open spec fn wf(&self, reg: ResourceRegistry, shown: TextureViewKind) -> bool {
        &&& self.shadow.kind == BindGroupKind::Shadow && self.shadow.current_in(reg)
        &&& self.uniform.kind == BindGroupKind::Uniform && self.uniform.current_in(reg)
        &&& self.lighting.kind == BindGroupKind::Lighting && self.lighting.current_in(reg)
        &&& self.deferred.kind == BindGroupKind::Deferred && self.deferred.current_in(reg)
        &&& self.debug.kind == BindGroupKind::DebugTexture && self.debug.current_in(reg)
        &&& self.debug.shown == shown
    }
}

/// One pipeline per kind.
pub struct Pipelines {
    pub shadow: RenderPipeline,
    pub forward: RenderPipeline,
    pub texture: RenderPipeline,
    pub light: RenderPipeline,
}

impl Pipelines {
    /// Each pipeline is of its kind, with its fixed state for `format`, and
    /// was built from the layouts of `bg`'s containers that it binds.
    pub open spec fn wf(&self, bg: BindGroups, format: TextureFormat) -> bool {
        &&& self.shadow.spec_kind() == PipelineKind::Shadow
        &&& self.shadow.spec_state() == pipeline_state(PipelineKind::Shadow, format)
        &&& self.shadow.spec_layouts() == seq![bg.shadow.layout]
        &&& self.forward.spec_kind() == PipelineKind::Forward
        &&& self.forward.spec_state() == pipeline_state(PipelineKind::Forward, format)
        &&& self.forward.spec_layouts() == seq![bg.deferred.layout, bg.uniform.layout, bg.lighting.layout]
        &&& self.texture.spec_kind() == PipelineKind::Texture
        &&& self.texture.spec_state() == pipeline_state(PipelineKind::Texture, format)
        &&& self.texture.spec_layouts() == seq![bg.debug.layout]
        &&& self.light.spec_kind() == PipelineKind::Light
        &&& self.light.spec_state() == pipeline_state(PipelineKind::Light, format)
        &&& self.light.spec_layouts() == seq![bg.uniform.layout, bg.lighting.layout]
    }
}

/// The graphics context, built once and handed by reference to every pass.
pub struct State {
    pub device: GpuDevice,
    pub registry: ResourceRegistry,
    pub bind_groups: BindGroups,
    pub pipelines: Pipelines,
    pub surface: SurfaceConfig,
    /// Index of the texture the debug viewer shows.
    pub debug_texture: usize,
}

/// The containers of `a` and `b` hold the same layouts.
pub open spec fn same_layouts(a: BindGroups, b: BindGroups) -> bool {
    &&& a.shadow.layout == b.shadow.layout
    &&& a.uniform.layout == b.uniform.layout
    &&& a.lighting.layout == b.lighting.layout
    &&& a.deferred.layout == b.deferred.layout
    &&& a.debug.layout == b.debug.layout
}

impl State {
    pub open spec fn wf(&self) -> bool {
        &&& self.registry.wf(&self.device)
        &&& full(self.registry)
        &&& valid_size(self.surface.width, self.surface.height)
        &&& sized_to(self.registry, self.surface.width, self.surface.height)
        &&& planned_shape(self.registry, self.surface)
        &&& self.debug_texture < INSPECTABLE_COUNT
        &&& self.bind_groups.wf(self.registry, inspectable(self.debug_texture as int))
        &&& self.pipelines.wf(self.bind_groups, self.surface.format)
    }

    /// No container binds an allocation the registry no longer holds.
    pub open spec fn no_stale_bindings(&self) -> bool {
        &&& self.bind_groups.shadow.current_in(self.registry)
        &&& self.bind_groups.uniform.current_in(self.registry)
        &&& self.bind_groups.lighting.current_in(self.registry)
        &&& self.bind_groups.deferred.current_in(self.registry)
        &&& self.bind_groups.debug.current_in(self.registry)
    }

    /// The debug viewer binds, at its texture slot, what the registry holds
    /// under the `k`-th inspectable texture.
    pub open spec fn shows(&self, k: int) -> bool {
        let key = ResourceKey::View(inspectable(k));
        &&& self.bind_groups.debug.bound().len() > 0
        &&& self.bind_groups.debug.bound()[0].key == key
        &&& Some(self.bind_groups.debug.bound()[0].handle) == self.registry.handle_of(key)
    }
}

/// Handles `State::new` issues: one per allocation, two per container and
/// one per pipeline.
pub const INIT_HANDLES: u64 = 29;

impl State {
    /// Sets up the device model, allocates every concern's resources for a
    /// surface of `width` by `height` in `format`, and builds the containers
    /// and pipelines. The debug viewer starts on the first inspectable
    /// texture. A size outside `1..=MAX_TEXTURE_DIMENSION` is refused.
    pub fn new(width: u32, height: u32, format: TextureFormat) -> (r: Result<State, RenderError>)
        ensures
            r is Err <==> !valid_size(width, height),
            r matches Err(e) ==> e == (RenderError::InvalidSize { width, height }),
            r matches Ok(s) ==> {
                &&& s.wf()
                &&& s.surface == (SurfaceConfig { width, height, format })
                &&& s.debug_texture == 0
                &&& s.device.live_count == crate::registry::SLOT_COUNT
                &&& s.device.next_id == INIT_HANDLES
            },
    {
        if width < 1 || width > MAX_TEXTURE_DIMENSION || height < 1 || height > MAX_TEXTURE_DIMENSION {
            return Err(RenderError::InvalidSize { width, height });
        }
        let surface = SurfaceConfig { width, height, format };
        let mut dev = GpuDevice::new();
        let mut reg = ResourceRegistry::new(&dev);
        if let Err(e) = BindGroupKind::Shadow.allocate_resources(&mut dev, &mut reg, surface) {
            return Err(e);
        }
        if let Err(e) = BindGroupKind::Uniform.allocate_resources(&mut dev, &mut reg, surface) {
            return Err(e);
        }
        if let Err(e) = BindGroupKind::Lighting.allocate_resources(&mut dev, &mut reg, surface) {
            return Err(e);
        }
        if let Err(e) = BindGroupKind::Deferred.allocate_resources(&mut dev, &mut reg, surface) {
            return Err(e);
        }
        if let Err(e) = BindGroupKind::DebugTexture.allocate_resources(&mut dev, &mut reg, surface) {
            return Err(e);
        }
        proof {
            assert forall|k: ResourceKey| #[trigger] reg.entry(k) is Some by {
                let (owner, i) = owner_of(k);
                let p = resource_plan(owner, surface);
                assert(p[i].0 == k);
                assert(planned(owner, surface, k) is Some);
                assert(reg.desc_of(k) is Some);
            }
            assert forall|k: ResourceKey| #[trigger] reg.desc_of(k) == planned(owner_of(k).0, surface, k) by {
                let (owner, i) = owner_of(k);
                let p = resource_plan(owner, surface);
                assert(p[i].0 == k);
                assert(planned(owner, surface, k) is Some);
                lemma_planned_by_owner(BindGroupKind::Shadow, surface, k);
                lemma_planned_by_owner(BindGroupKind::Uniform, surface, k);
                lemma_planned_by_owner(BindGroupKind::Lighting, surface, k);
                lemma_planned_by_owner(BindGroupKind::Deferred, surface, k);
                lemma_planned_by_owner(BindGroupKind::DebugTexture, surface, k);
            }
            assert forall|i: int| 0 <= i < reg.slots@.len() implies (#[trigger] reg.slots@[i]) is Some by {
                crate::registry::lemma_key_at(i);
                assert(reg.entry(crate::registry::key_at(i)) is Some);
            }
            assert forall|k: ResourceKey| surface_sized(k) implies {
                &&& (#[trigger] reg.desc_of(k)) matches Some(ResourceDesc::Texture(t))
                &&& t.width == width
                &&& t.height == height
            } by {
                let (owner, i) = owner_of(k);
                let p = resource_plan(owner, surface);
                lemma_plan_well_formed(owner, surface);
                assert(p[i].0 == k);
                let j = choose|j: int| 0 <= j < p.len() && (#[trigger] p[j]).0 == k;
                assert(j == i);
            }
            lemma_full_binds_all(reg, BindGroupKind::Shadow, TextureViewKind::Albedo);
            lemma_full_binds_all(reg, BindGroupKind::Uniform, TextureViewKind::Albedo);
            lemma_full_binds_all(reg, BindGroupKind::Lighting, TextureViewKind::Albedo);
            lemma_full_binds_all(reg, BindGroupKind::Deferred, TextureViewKind::Albedo);
            lemma_full_binds_all(reg, BindGroupKind::DebugTexture, TextureViewKind::Albedo);
            crate::registry::lemma_full_count(reg.slots@);
        }
        let shadow = match BindGroupKind::Shadow.create_container(&mut dev, &reg, TextureViewKind::Albedo) {
            Ok(c) => c,
            Err(e) => return Err(e),
        };
        let uniform = match BindGroupKind::Uniform.create_container(&mut dev, &reg, TextureViewKind::Albedo) {
            Ok(c) => c,
            Err(e) => return Err(e),
        };
        let lighting = match BindGroupKind::Lighting.create_container(&mut dev, &reg, TextureViewKind::Albedo) {
            Ok(c) => c,
            Err(e) => return Err(e),
        };
        let deferred = match BindGroupKind::Deferred.create_container(&mut dev, &reg, TextureViewKind::Albedo) {
            Ok(c) => c,
            Err(e) => return Err(e),
        };
        let debug = match BindGroupKind::DebugTexture.create_container(&mut dev, &reg, TextureViewKind::Albedo) {
            Ok(c) => c,
            Err(e) => return Err(e),
        };
        let mut l: Vec<(BindGroupKind, Handle)> = Vec::new();
        l.push((BindGroupKind::Shadow, shadow.layout));
        proof {
            assert(crate::pipelines::layout_kinds(l@) =~= crate::pipelines::pipeline_layouts(PipelineKind::Shadow));
        }
        let shadow_pipeline = PipelineKind::Shadow.create_pipeline(&mut dev, &l, format);
        let mut l: Vec<(BindGroupKind, Handle)> = Vec::new();
        l.push((BindGroupKind::Deferred, deferred.layout));
        l.push((BindGroupKind::Uniform, uniform.layout));
        l.push((BindGroupKind::Lighting, lighting.layout));
        proof {
            assert(crate::pipelines::layout_kinds(l@) =~= crate::pipelines::pipeline_layouts(PipelineKind::Forward));
        }
        let forward = PipelineKind::Forward.create_pipeline(&mut dev, &l, format);
        let mut l: Vec<(BindGroupKind, Handle)> = Vec::new();
        l.push((BindGroupKind::DebugTexture, debug.layout));
        proof {
            assert(crate::pipelines::layout_kinds(l@) =~= crate::pipelines::pipeline_layouts(PipelineKind::Texture));
        }
        let texture = PipelineKind::Texture.create_pipeline(&mut dev, &l, format);
        let mut l: Vec<(BindGroupKind, Handle)> = Vec::new();
        l.push((BindGroupKind::Uniform, uniform.layout));
        l.push((BindGroupKind::Lighting, lighting.layout));
        proof {
            assert(crate::pipelines::layout_kinds(l@) =~= crate::pipelines::pipeline_layouts(PipelineKind::Light));
        }
        let light = PipelineKind::Light.create_pipeline(&mut dev, &l, format);
        let bind_groups = BindGroups { shadow, uniform, lighting, deferred, debug };
        let pipelines = Pipelines { shadow: shadow_pipeline, forward, texture, light };
        let r = State { device: dev, registry: reg, bind_groups, pipelines, surface, debug_texture: 0 };
        proof {
            assert(r.pipelines.shadow.spec_layouts() =~= seq![r.bind_groups.shadow.layout]);
            assert(r.pipelines.forward.spec_layouts()
                =~= seq![r.bind_groups.deferred.layout, r.bind_groups.uniform.layout, r.bind_groups.lighting.layout]);
            assert(r.pipelines.texture.spec_layouts() =~= seq![r.bind_groups.debug.layout]);
            assert(r.pipelines.light.spec_layouts() =~= seq![r.bind_groups.uniform.layout, r.bind_groups.lighting.layout]);
            assert(r.registry.wf(&r.device));
            assert(r.bind_groups.wf(r.registry, inspectable(0)));
            assert(r.pipelines.wf(r.bind_groups, format));
        }
        Ok(r)
    }
}

/// Each key is allocated by its owner, at the position `owner_of` gives.
pub proof fn lemma_plan_owners(kind: BindGroupKind, surface: SurfaceConfig)
    ensures
        forall|i: int| 0 <= i < resource_plan(kind, surface).len()
            ==> owner_of(#[trigger] resource_plan(kind, surface)[i].0) == (kind, i),
{
    let p = resource_plan(kind, surface);
    assert forall|i: int| 0 <= i < p.len() implies owner_of(#[trigger] p[i].0) == (kind, i) by {
        if i == 0 {
        } else if i == 1 {
        } else if i == 2 {
        } else if i == 3 {
        } else if i == 4 {
        } else {
        }
    }
}

/// Only a key's owner allocates it.
pub proof fn lemma_planned_by_owner(kind: BindGroupKind, surface: SurfaceConfig, k: ResourceKey)
    ensures
        planned(kind, surface, k) is Some ==> owner_of(k).0 == kind,
{
    lemma_plan_owners(kind, surface);
}

/// The shadow, camera and lighting concerns bind nothing that takes the
/// surface's size.
pub proof fn lemma_fixed_bindings(kind: BindGroupKind, shown: TextureViewKind)
    requires
        kind == BindGroupKind::Shadow || kind == BindGroupKind::Uniform || kind == BindGroupKind::Lighting,
    ensures
        forall|i: int| 0 <= i < crate::bindgroups::binding_keys(kind, shown).len() ==> {
            let o = owner_of(#[trigger] crate::bindgroups::binding_keys(kind, shown)[i]).0;
            o != BindGroupKind::Deferred && o != BindGroupKind::DebugTexture
        },
{
    let keys = crate::bindgroups::binding_keys(kind, shown);
    assert forall|i: int| 0 <= i < keys.len() implies {
        let o = owner_of(#[trigger] keys[i]).0;
        o != BindGroupKind::Deferred && o != BindGroupKind::DebugTexture
    } by {
        if i == 0 {
        } else if i == 1 {
        } else if i == 2 {
        } else if i == 3 {
        } else {
        }
    }
}

/// A container stays current while the handles under its keys stay.
pub proof fn lemma_current_kept(c: BindGroupContainer, reg0: ResourceRegistry, reg1: ResourceRegistry)
    requires
        c.current_in(reg0),
        forall|i: int| 0 <= i < crate::bindgroups::binding_keys(c.kind, c.shown).len()
            ==> reg1.handle_of(#[trigger] crate::bindgroups::binding_keys(c.kind, c.shown)[i])
                == reg0.handle_of(crate::bindgroups::binding_keys(c.kind, c.shown)[i]),
    ensures
        c.current_in(reg1),
{
    let keys = crate::bindgroups::binding_keys(c.kind, c.shown);
    assert(bindings_for(c.kind, c.shown, reg1) =~= bindings_for(c.kind, c.shown, reg0));
    assert forall|i: int| 0 <= i < keys.len() implies (#[trigger] reg1.handle_of(keys[i])) is Some by {
        assert(reg0.handle_of(keys[i]) is Some);
    }
}

/// `r1` is `r0` with the debug viewer pointed at the `k`-th inspectable
/// texture and rebound; nothing else the frame reads has changed.
pub open spec fn selection_step(r0: State, k: int, r1: State) -> bool {
    &&& r1.wf()
    &&& r1.debug_texture == k
    &&& r1.shows(k)
    &&& r1.registry == r0.registry
    &&& r1.surface == r0.surface
    &&& r1.pipelines == r0.pipelines
    &&& r1.device.live_count == r0.device.live_count
    &&& r1.device.next_id == r0.device.next_id
    &&& same_layouts(r1.bind_groups, r0.bind_groups)
    &&& r1.bind_groups.debug.bind_group == r0.bind_groups.debug.bind_group
    &&& r1.bind_groups.shadow == r0.bind_groups.shadow
    &&& r1.bind_groups.uniform == r0.bind_groups.uniform
    &&& r1.bind_groups.lighting == r0.bind_groups.lighting
    &&& r1.bind_groups.deferred == r0.bind_groups.deferred
}

/// Handles `State::resize` issues: one per allocation it replaces.
pub const RESIZE_HANDLES: u64 = 8;

impl State {
    /// Rebuilds everything sized from the surface for a surface of `width`
    /// by `height`: the deferred attachments and the debug viewport are
    /// allocated anew, each replacing and releasing the old one, and the
    /// containers that bind them are rebound. Pipelines and layouts stay,
    /// as the surface's format does. A size outside
    /// `1..=MAX_TEXTURE_DIMENSION` is refused, and so is a resize when the
    /// device has fewer than `RESIZE_HANDLES` handles left; either way
    /// nothing changes.
    pub fn resize(&mut self, width: u32, height: u32) -> (r: Result<(), RenderError>)
        requires
            old(self).wf(),
        ensures
            r is Ok <==> valid_size(width, height) && old(self).device.headroom() >= RESIZE_HANDLES,
            r is Err ==> *final(self) == *old(self),
            r == Err::<(), RenderError>(RenderError::InvalidSize { width, height }) <==> !valid_size(width, height),
            r == Err::<(), RenderError>(RenderError::OutOfHandles)
                <==> valid_size(width, height) && old(self).device.headroom() < RESIZE_HANDLES,
            r is Ok ==> {
                &&& final(self).wf()
                &&& final(self).surface == (SurfaceConfig { width, height, format: old(self).surface.format })
                &&& sized_to(final(self).registry, width, height)
                &&& final(self).no_stale_bindings()
                &&& final(self).device.live_count == old(self).device.live_count
                &&& final(self).device.next_id == old(self).device.next_id + RESIZE_HANDLES
                &&& final(self).debug_texture == old(self).debug_texture
                &&& final(self).pipelines == old(self).pipelines
                &&& same_layouts(final(self).bind_groups, old(self).bind_groups)
                &&& forall|k: ResourceKey| owner_of(k).0 != BindGroupKind::Deferred
                    && owner_of(k).0 != BindGroupKind::DebugTexture
                    ==> #[trigger] final(self).registry.entry(k) == old(self).registry.entry(k)
            },
    {
        if width < 1 || width > MAX_TEXTURE_DIMENSION || height < 1 || height > MAX_TEXTURE_DIMENSION {
            return Err(RenderError::InvalidSize { width, height });
        }
        if self.device.next_id > u64::MAX - RESIZE_HANDLES {
            return Err(RenderError::OutOfHandles);
        }
        let surface = SurfaceConfig { width, height, format: self.surface.format };
        let ghost reg0 = self.registry;
        if let Err(e) = BindGroupKind::Deferred.allocate_resources(&mut self.device, &mut self.registry, surface) {
            return Err(e);
        }
        let ghost reg1 = self.registry;
        if let Err(e) = BindGroupKind::DebugTexture.allocate_resources(&mut self.device, &mut self.registry, surface) {
            return Err(e);
        }
        let ghost reg2 = self.registry;
        proof {
            assert forall|k: ResourceKey| owner_of(k).0 != BindGroupKind::Deferred
                && owner_of(k).0 != BindGroupKind::DebugTexture
                implies #[trigger] reg2.entry(k) == reg0.entry(k) by {
                lemma_planned_by_owner(BindGroupKind::Deferred, surface, k);
                lemma_planned_by_owner(BindGroupKind::DebugTexture, surface, k);
            }
            assert forall|k: ResourceKey| #[trigger] reg2.entry(k) is Some by {
                assert(reg0.entry(k) is Some);
                assert(reg0.desc_of(k) is Some);
                assert(reg1.desc_of(k) is Some);
                assert(reg2.desc_of(k) is Some);
            }
            assert forall|k: ResourceKey| surface_sized(k) implies {
                &&& (#[trigger] reg2.desc_of(k)) matches Some(ResourceDesc::Texture(t))
                &&& t.width == width
                &&& t.height == height
            } by {
                let (owner, i) = owner_of(k);
                let p = resource_plan(owner, surface);
                lemma_plan_well_formed(owner, surface);
                assert(p[i].0 == k);
                let j = choose|j: int| 0 <= j < p.len() && (#[trigger] p[j]).0 == k;
                assert(j == i);
                lemma_planned_by_owner(BindGroupKind::Deferred, surface, k);
                lemma_planned_by_owner(BindGroupKind::DebugTexture, surface, k);
            }
            let old_surface = self.surface;
            assert forall|k: ResourceKey| #[trigger] reg2.desc_of(k) == planned(owner_of(k).0, surface, k) by {
                let (owner, i) = owner_of(k);
                let p = resource_plan(owner, surface);
                assert(p[i].0 == k);
                assert(planned(owner, surface, k) is Some);
                lemma_planned_by_owner(BindGroupKind::Deferred, surface, k);
                lemma_planned_by_owner(BindGroupKind::DebugTexture, surface, k);
                if owner != BindGroupKind::Deferred && owner != BindGroupKind::DebugTexture {
                    assert(resource_plan(owner, surface) == resource_plan(owner, old_surface));
                    assert(reg0.desc_of(k) == planned(owner, old_surface, k));
                }
            }
            lemma_full_binds_all(reg2, BindGroupKind::Deferred, self.bind_groups.deferred.shown);
            lemma_full_binds_all(reg2, BindGroupKind::DebugTexture, self.bind_groups.debug.shown);
            lemma_fixed_bindings(BindGroupKind::Shadow, self.bind_groups.shadow.shown);
            lemma_fixed_bindings(BindGroupKind::Uniform, self.bind_groups.uniform.shown);
            lemma_fixed_bindings(BindGroupKind::Lighting, self.bind_groups.lighting.shown);
            lemma_current_kept(self.bind_groups.shadow, reg0, reg2);
            lemma_current_kept(self.bind_groups.uniform, reg0, reg2);
            lemma_current_kept(self.bind_groups.lighting, reg0, reg2);
        }
        self.surface = surface;
        let shown = self.bind_groups.deferred.shown;
        match self.bind_groups.deferred.rebind(&mut self.device, &self.registry, shown) {
            Ok(()) => {},
            Err(e) => return Err(e),
        }
        let shown = self.bind_groups.debug.shown;
        match self.bind_groups.debug.rebind(&mut self.device, &self.registry, shown) {
            Ok(()) => {},
            Err(e) => return Err(e),
        }
        Ok(())
    }

    /// Points the debug viewer at the `k`-th inspectable texture and rebinds
    /// it to what the registry holds there. An index past the list is
    /// refused and changes nothing.
    pub fn select_debug_texture(&mut self, k: usize) -> (r: Result<(), RenderError>)
        requires
            old(self).wf(),
        ensures
            r is Err <==> k >= INSPECTABLE_COUNT,
            r matches Err(e) ==> e == RenderError::NoSuchDebugTexture(k) && *final(self) == *old(self),
            r is Ok ==> selection_step(*old(self), k as int, *final(self)),
    {
        let view = match inspectable_view(k) {
            Some(v) => v,
            None => return Err(RenderError::NoSuchDebugTexture(k)),
        };
        proof {
            lemma_full_binds_all(self.registry, BindGroupKind::DebugTexture, view);
        }
        match self.bind_groups.debug.rebind(&mut self.device, &self.registry, view) {
            Ok(()) => {},
            Err(e) => return Err(e),
        }
        self.debug_texture = k;
        proof {
            assert(self.registry.entry(ResourceKey::View(view)) is Some);
        }
        Ok(())
    }
}

} // verus!
