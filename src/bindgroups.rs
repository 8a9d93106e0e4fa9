//! The binding concerns: for each, the layout it binds against and the
//! allocations it owns in the registry.
use vstd::prelude::*;
use crate::device::{
    GpuDevice, ResourceDesc, BufferDesc, TextureDesc, SamplerDesc, TextureFormat, CompareFunction,
    FilterMode, SurfaceConfig, BUFFER_COPY_DST, BUFFER_VERTEX, BUFFER_UNIFORM, BUFFER_STORAGE,
    TEXTURE_BINDING, TEXTURE_RENDER_ATTACHMENT,
};
use crate::registry::{ResourceRegistry, ResourceKey, BufferKind, SamplerKind, TextureViewKind};
use crate::error::RenderError;

verus! {

/// wgpu's `ShaderStages` bits.
pub const STAGE_VERTEX: u32 = 1;
pub const STAGE_FRAGMENT: u32 = 2;

/// Side of the square shadow map, in texels.
pub const SHADOW_MAP_SIZE: u32 = 1024;
/// Number of lights, and of shadow-map layers (`LIGHT_LIST_SIZE` has room
/// for as many).
pub const MAX_LIGHTS: u32 = 10;
/// Number of entities the per-instance buffers have room for.
pub const MAX_ENTITY_COUNT: u64 = 1000;
/// A 4x4 matrix of 32-bit floats.
pub const MATRIX_SIZE: u64 = 64;
/// The per-instance and normal-matrix buffers: one matrix per entity.
pub const ENTITY_MATRICES_SIZE: u64 = MAX_ENTITY_COUNT * MATRIX_SIZE;
/// The light list: one entry per light.
pub const LIGHT_LIST_SIZE: u64 = LIGHT_SIZE * 10;
/// The shadow pass's uniform: the light's view-projection matrix.
pub const SHADOW_UNIFORMS_SIZE: u64 = 64;
/// The camera uniform: view-projection matrix, eye position and light count,
/// padded to 16 bytes.
pub const GLOBALS_SIZE: u64 = 96;
/// One light in the light list: position, color and attenuation, each four
/// 32-bit floats.
pub const LIGHT_SIZE: u64 = 48;
/// Six vertices of a full-screen quad, each a 3-float position and a 2-float
/// texture coordinate.
pub const FULLSCREEN_QUAD_SIZE: u64 = 120;

#[derive(Clone, Copy, PartialEq, Eq, Debug)]
pub enum TextureSampleType {
    Float { filterable: bool },
    Depth,
}

#[derive(Clone, Copy, PartialEq, Eq, Debug)]
pub enum ViewDimension {
    D2,
    D2Array,
}

#[derive(Clone, Copy, PartialEq, Eq, Debug)]
pub enum BindingType {
    UniformBuffer,
    StorageBuffer { read_only: bool },
    Texture { sample_type: TextureSampleType, dimension: ViewDimension },
    Sampler { comparison: bool, filtering: bool },
}

/// One slot of a binding layout.
#[derive(Clone, Copy, PartialEq, Eq, Debug)]
pub struct LayoutEntry {
    pub binding: u32,
    pub visibility: u32,
    pub ty: BindingType,
}

/// The closed set of binding concerns.
#[derive(Clone, Copy, PartialEq, Eq, Structural, Debug)]
pub enum BindGroupKind {
    Shadow,
    Uniform,
    Lighting,
    Deferred,
    DebugTexture,
}

pub open spec fn entry(binding: u32, visibility: u32, ty: BindingType) -> LayoutEntry {
    LayoutEntry { binding, visibility, ty }
}

/// The layout of each concern, slot by slot.
pub open spec fn layout_spec(kind: BindGroupKind) -> Seq<LayoutEntry> {
    let vf = STAGE_VERTEX | STAGE_FRAGMENT;
    let storage = BindingType::StorageBuffer { read_only: true };
    let unfiltered = BindingType::Texture {
        sample_type: TextureSampleType::Float { filterable: false },
        dimension: ViewDimension::D2,
    };
    let plain_sampler = BindingType::Sampler { comparison: false, filtering: false };
    match kind {
        BindGroupKind::Shadow => seq![
            entry(0, STAGE_VERTEX, BindingType::UniformBuffer),
            entry(1, STAGE_VERTEX, storage),
        ],
        BindGroupKind::Uniform => seq![
            entry(0, vf, BindingType::UniformBuffer),
            entry(1, vf, storage),
            entry(2, STAGE_VERTEX, storage),
            entry(3, STAGE_FRAGMENT, BindingType::Texture {
                sample_type: TextureSampleType::Depth,
                dimension: ViewDimension::D2Array,
            }),
            entry(4, STAGE_FRAGMENT, BindingType::Sampler { comparison: true, filtering: false }),
        ],
        BindGroupKind::Lighting => seq![entry(0, vf, storage)],
        BindGroupKind::Deferred => seq![
            entry(0, STAGE_FRAGMENT, unfiltered),
            entry(1, STAGE_FRAGMENT, unfiltered),
            entry(2, STAGE_FRAGMENT, unfiltered),
            entry(3, STAGE_FRAGMENT, BindingType::Texture {
                sample_type: TextureSampleType::Depth,
                dimension: ViewDimension::D2,
            }),
            entry(4, STAGE_FRAGMENT, plain_sampler),
        ],
        BindGroupKind::DebugTexture => seq![
            entry(0, STAGE_FRAGMENT, unfiltered),
            entry(1, STAGE_FRAGMENT, plain_sampler),
        ],
    }
}

/// The registry key bound at each slot of a concern's layout. The debug
/// viewer binds whichever view `shown` names.
pub open spec fn binding_keys(kind: BindGroupKind, shown: TextureViewKind) -> Seq<ResourceKey> {
    match kind {
        BindGroupKind::Shadow => seq![
            ResourceKey::Buffer(BufferKind::ShadowUniform),
            ResourceKey::Buffer(BufferKind::Instances),
        ],
        BindGroupKind::Uniform => seq![
            ResourceKey::Buffer(BufferKind::Globals),
            ResourceKey::Buffer(BufferKind::Instances),
            ResourceKey::Buffer(BufferKind::NormalMatrices),
            ResourceKey::View(TextureViewKind::ShadowDepth),
            ResourceKey::Sampler(SamplerKind::Shadow),
        ],
        BindGroupKind::Lighting => seq![ResourceKey::Buffer(BufferKind::Lights)],
        BindGroupKind::Deferred => seq![
            ResourceKey::View(TextureViewKind::Position),
            ResourceKey::View(TextureViewKind::Normal),
            ResourceKey::View(TextureViewKind::Albedo),
            ResourceKey::View(TextureViewKind::Depth),
            ResourceKey::Sampler(SamplerKind::GBuffer),
        ],
        BindGroupKind::DebugTexture => seq![
            ResourceKey::View(shown),
            ResourceKey::Sampler(SamplerKind::DebugTexture),
        ],
    }
}

pub open spec fn buffer(size: u64, usage: u32) -> ResourceDesc {
    ResourceDesc::Buffer(BufferDesc { size, usage })
}

pub open spec fn attachment(width: u32, height: u32, format: TextureFormat) -> ResourceDesc {
    ResourceDesc::Texture(TextureDesc {
        width,
        height,
        layers: 1,
        format,
        usage: TEXTURE_RENDER_ATTACHMENT | TEXTURE_BINDING,
    })
}

pub open spec fn nearest_sampler() -> ResourceDesc {
    ResourceDesc::Sampler(SamplerDesc { filter: FilterMode::Nearest, compare: None })
}

/// What each concern allocates, in order: a key and the description of the
/// allocation installed under it. Deferred attachments and the debug
/// viewport take the surface's size.
pub open spec fn resource_plan(kind: BindGroupKind, surface: SurfaceConfig) -> Seq<(ResourceKey, ResourceDesc)> {
    let (w, h) = (surface.width, surface.height);
    match kind {
        BindGroupKind::Shadow => seq![
            (ResourceKey::Buffer(BufferKind::ShadowUniform), buffer(SHADOW_UNIFORMS_SIZE, BUFFER_COPY_DST | BUFFER_UNIFORM)),
        ],
        BindGroupKind::Uniform => seq![
            (ResourceKey::View(TextureViewKind::ShadowDepth), ResourceDesc::Texture(TextureDesc {
                width: SHADOW_MAP_SIZE,
                height: SHADOW_MAP_SIZE,
                layers: MAX_LIGHTS,
                format: TextureFormat::Depth32Float,
                usage: TEXTURE_BINDING | TEXTURE_RENDER_ATTACHMENT,
            })),
            (ResourceKey::Sampler(SamplerKind::Shadow), ResourceDesc::Sampler(SamplerDesc {
                filter: FilterMode::Linear,
                compare: Some(CompareFunction::LessEqual),
            })),
            (ResourceKey::Buffer(BufferKind::NormalMatrices), buffer(ENTITY_MATRICES_SIZE, BUFFER_COPY_DST | BUFFER_STORAGE)),
            (ResourceKey::Buffer(BufferKind::Instances), buffer(ENTITY_MATRICES_SIZE, BUFFER_STORAGE | BUFFER_COPY_DST)),
            (ResourceKey::Buffer(BufferKind::Globals), buffer(GLOBALS_SIZE, BUFFER_UNIFORM | BUFFER_COPY_DST)),
        ],
        BindGroupKind::Lighting => seq![
            (ResourceKey::Buffer(BufferKind::Lights), buffer(LIGHT_LIST_SIZE, BUFFER_STORAGE | BUFFER_COPY_DST)),
        ],
        BindGroupKind::Deferred => seq![
            (ResourceKey::View(TextureViewKind::Position), attachment(w, h, TextureFormat::Rgba32Float)),
            (ResourceKey::View(TextureViewKind::Normal), attachment(w, h, TextureFormat::Rgba16Float)),
            (ResourceKey::View(TextureViewKind::Albedo), attachment(w, h, TextureFormat::Bgra8Unorm)),
            (ResourceKey::View(TextureViewKind::Depth), attachment(w, h, TextureFormat::Depth32Float)),
            (ResourceKey::Sampler(SamplerKind::GBuffer), nearest_sampler()),
            (ResourceKey::Buffer(BufferKind::DeferredVao), buffer(FULLSCREEN_QUAD_SIZE, BUFFER_VERTEX | BUFFER_COPY_DST)),
        ],
        BindGroupKind::DebugTexture => seq![
            (ResourceKey::View(TextureViewKind::DebugTarget), attachment(w, h, TextureFormat::Bgra8Unorm)),
            (ResourceKey::Sampler(SamplerKind::DebugTexture), nearest_sampler()),
        ],
    }
}

/// The description a concern installs under `key`, if it allocates one
/// there.
pub open spec fn planned(kind: BindGroupKind, surface: SurfaceConfig, key: ResourceKey) -> Option<ResourceDesc> {
    let plan = resource_plan(kind, surface);
    if exists|i: int| 0 <= i < plan.len() && (#[trigger] plan[i]).0 == key {
        let i = choose|i: int| 0 <= i < plan.len() && (#[trigger] plan[i]).0 == key;
        Some(plan[i].1)
    } else {
        None
    }
}

/// No key occurs twice in a plan, and each description suits its key.
pub proof fn lemma_plan_well_formed(kind: BindGroupKind, surface: SurfaceConfig)
    ensures
        forall|i: int, j: int| 0 <= i < j < resource_plan(kind, surface).len()
            ==> (#[trigger] resource_plan(kind, surface)[i]).0 != (#[trigger] resource_plan(kind, surface)[j]).0,
        forall|i: int| 0 <= i < resource_plan(kind, surface).len()
            ==> (#[trigger] resource_plan(kind, surface)[i]).0.accepts(resource_plan(kind, surface)[i].1),
{
}

/// The registry keys whose allocations take the surface's size.
pub open spec fn surface_sized(key: ResourceKey) -> bool {
    match key {
        ResourceKey::View(v) => match v {
            TextureViewKind::ShadowDepth => false,
            _ => true,
        },
        _ => false,
    }
}

impl BindGroupKind {
    /// The layout this concern binds against; the same on every call.
    pub fn get_layout(&self) -> (r: Vec<LayoutEntry>)
        ensures
            r@ == layout_spec(*self),
    {
        let vf = STAGE_VERTEX | STAGE_FRAGMENT;
        let storage = BindingType::StorageBuffer { read_only: true };
        let unfiltered = BindingType::Texture {
            sample_type: TextureSampleType::Float { filterable: false },
            dimension: ViewDimension::D2,
        };
        let plain_sampler = BindingType::Sampler { comparison: false, filtering: false };
        let mut v: Vec<LayoutEntry> = Vec::new();
        match self {
            BindGroupKind::Shadow => {
                v.push(LayoutEntry { binding: 0, visibility: STAGE_VERTEX, ty: BindingType::UniformBuffer });
                v.push(LayoutEntry { binding: 1, visibility: STAGE_VERTEX, ty: storage });
            },
            BindGroupKind::Uniform => {
                v.push(LayoutEntry { binding: 0, visibility: vf, ty: BindingType::UniformBuffer });
                v.push(LayoutEntry { binding: 1, visibility: vf, ty: storage });
                v.push(LayoutEntry { binding: 2, visibility: STAGE_VERTEX, ty: storage });
                v.push(LayoutEntry {
                    binding: 3,
                    visibility: STAGE_FRAGMENT,
                    ty: BindingType::Texture {
                        sample_type: TextureSampleType::Depth,
                        dimension: ViewDimension::D2Array,
                    },
                });
                v.push(LayoutEntry {
                    binding: 4,
                    visibility: STAGE_FRAGMENT,
                    ty: BindingType::Sampler { comparison: true, filtering: false },
                });
            },
            BindGroupKind::Lighting => {
                v.push(LayoutEntry { binding: 0, visibility: vf, ty: storage });
            },
            BindGroupKind::Deferred => {
                v.push(LayoutEntry { binding: 0, visibility: STAGE_FRAGMENT, ty: unfiltered });
                v.push(LayoutEntry { binding: 1, visibility: STAGE_FRAGMENT, ty: unfiltered });
                v.push(LayoutEntry { binding: 2, visibility: STAGE_FRAGMENT, ty: unfiltered });
                v.push(LayoutEntry {
                    binding: 3,
                    visibility: STAGE_FRAGMENT,
                    ty: BindingType::Texture {
                        sample_type: TextureSampleType::Depth,
                        dimension: ViewDimension::D2,
                    },
                });
                v.push(LayoutEntry { binding: 4, visibility: STAGE_FRAGMENT, ty: plain_sampler });
            },
            BindGroupKind::DebugTexture => {
                v.push(LayoutEntry { binding: 0, visibility: STAGE_FRAGMENT, ty: unfiltered });
                v.push(LayoutEntry { binding: 1, visibility: STAGE_FRAGMENT, ty: plain_sampler });
            },
        }
        proof {
            assert(v@ =~= layout_spec(*self));
        }
        v
    }
}

/// `reg` holds an allocation of `desc` under `key`, issued at or after
/// `start`.
pub open spec fn installed(reg: ResourceRegistry, key: ResourceKey, desc: ResourceDesc, start: u64) -> bool {
    &&& reg.entry(key) is Some
    &&& reg.entry(key)->0.desc == desc
    &&& reg.entry(key)->0.handle.id >= start
}

/// `(dev1, reg1)` is what allocating `kind`'s resources for `surface` makes
/// of `(dev0, reg0)`: each key the concern owns holds a new allocation of
/// its planned description, every other key is untouched, and the live
/// count grows only by keys that held nothing before.
pub open spec fn allocation_step(
    kind: BindGroupKind,
    surface: SurfaceConfig,
    dev0: GpuDevice,
    reg0: ResourceRegistry,
    dev1: GpuDevice,
    reg1: ResourceRegistry,
) -> bool {
    &&& reg1.wf(&dev1)
    &&& dev1.next_id == dev0.next_id + resource_plan(kind, surface).len()
    &&& forall|k: ResourceKey| #[trigger] reg1.desc_of(k) == match planned(kind, surface, k) {
        Some(d) => Some(d),
        None => reg0.desc_of(k),
    }
    &&& forall|k: ResourceKey| planned(kind, surface, k) is None ==> #[trigger] reg1.entry(k) == reg0.entry(k)
    &&& forall|k: ResourceKey| planned(kind, surface, k) is Some
        ==> (#[trigger] reg1.entry(k))->0.handle.id >= dev0.next_id
    &&& (forall|k: ResourceKey| planned(kind, surface, k) is Some ==> #[trigger] reg0.entry(k) is Some)
        ==> dev1.live_count == dev0.live_count
}

impl BindGroupKind {
    /// The allocations this concern owns, as `resource_plan` lists them.
    pub fn resource_plan(&self, surface: SurfaceConfig) -> (r: Vec<(ResourceKey, ResourceDesc)>)
        ensures
            r@ == resource_plan(*self, surface),
    {
        let (w, h) = (surface.width, surface.height);
        let mut v: Vec<(ResourceKey, ResourceDesc)> = Vec::new();
        let nearest = ResourceDesc::Sampler(SamplerDesc { filter: FilterMode::Nearest, compare: None });
        let sized = TEXTURE_RENDER_ATTACHMENT | TEXTURE_BINDING;
        match self {
            BindGroupKind::Shadow => {
                v.push((
                    ResourceKey::Buffer(BufferKind::ShadowUniform),
                    ResourceDesc::Buffer(BufferDesc { size: SHADOW_UNIFORMS_SIZE, usage: BUFFER_COPY_DST | BUFFER_UNIFORM }),
                ));
            },
            BindGroupKind::Uniform => {
                v.push((
                    ResourceKey::View(TextureViewKind::ShadowDepth),
                    ResourceDesc::Texture(TextureDesc {
                        width: SHADOW_MAP_SIZE,
                        height: SHADOW_MAP_SIZE,
                        layers: MAX_LIGHTS,
                        format: TextureFormat::Depth32Float,
                        usage: TEXTURE_BINDING | TEXTURE_RENDER_ATTACHMENT,
                    }),
                ));
                v.push((
                    ResourceKey::Sampler(SamplerKind::Shadow),
                    ResourceDesc::Sampler(SamplerDesc {
                        filter: FilterMode::Linear,
                        compare: Some(CompareFunction::LessEqual),
                    }),
                ));
                v.push((
                    ResourceKey::Buffer(BufferKind::NormalMatrices),
                    ResourceDesc::Buffer(BufferDesc { size: ENTITY_MATRICES_SIZE, usage: BUFFER_COPY_DST | BUFFER_STORAGE }),
                ));
                v.push((
                    ResourceKey::Buffer(BufferKind::Instances),
                    ResourceDesc::Buffer(BufferDesc { size: ENTITY_MATRICES_SIZE, usage: BUFFER_STORAGE | BUFFER_COPY_DST }),
                ));
                v.push((
                    ResourceKey::Buffer(BufferKind::Globals),
                    ResourceDesc::Buffer(BufferDesc { size: GLOBALS_SIZE, usage: BUFFER_UNIFORM | BUFFER_COPY_DST }),
                ));
            },
            BindGroupKind::Lighting => {
                v.push((
                    ResourceKey::Buffer(BufferKind::Lights),
                    ResourceDesc::Buffer(BufferDesc { size: LIGHT_LIST_SIZE, usage: BUFFER_STORAGE | BUFFER_COPY_DST }),
                ));
            },
            BindGroupKind::Deferred => {
                v.push((
                    ResourceKey::View(TextureViewKind::Position),
                    ResourceDesc::Texture(TextureDesc { width: w, height: h, layers: 1, format: TextureFormat::Rgba32Float, usage: sized }),
                ));
                v.push((
                    ResourceKey::View(TextureViewKind::Normal),
                    ResourceDesc::Texture(TextureDesc { width: w, height: h, layers: 1, format: TextureFormat::Rgba16Float, usage: sized }),
                ));
                v.push((
                    ResourceKey::View(TextureViewKind::Albedo),
                    ResourceDesc::Texture(TextureDesc { width: w, height: h, layers: 1, format: TextureFormat::Bgra8Unorm, usage: sized }),
                ));
                v.push((
                    ResourceKey::View(TextureViewKind::Depth),
                    ResourceDesc::Texture(TextureDesc { width: w, height: h, layers: 1, format: TextureFormat::Depth32Float, usage: sized }),
                ));
                v.push((ResourceKey::Sampler(SamplerKind::GBuffer), nearest));
                v.push((
                    ResourceKey::Buffer(BufferKind::DeferredVao),
                    ResourceDesc::Buffer(BufferDesc { size: FULLSCREEN_QUAD_SIZE, usage: BUFFER_VERTEX | BUFFER_COPY_DST }),
                ));
            },
            BindGroupKind::DebugTexture => {
                v.push((
                    ResourceKey::View(TextureViewKind::DebugTarget),
                    ResourceDesc::Texture(TextureDesc { width: w, height: h, layers: 1, format: TextureFormat::Bgra8Unorm, usage: sized }),
                ));
                v.push((ResourceKey::Sampler(SamplerKind::DebugTexture), nearest));
            },
        }
        proof {
            assert(v@ =~= resource_plan(*self, surface));
        }
        v
    }

    /// Installs in `reg` every allocation this concern owns, releasing what
    /// each replaces. Keys the concern does not own are left as they were.
    /// A device without a handle left for each allocation is an error, and
    /// then nothing changes.
    pub fn allocate_resources(&self, dev: &mut GpuDevice, reg: &mut ResourceRegistry, surface: SurfaceConfig)
        -> (r: Result<(), RenderError>)
        requires
            old(reg).wf(old(dev)),
        ensures
            r is Ok <==> old(dev).headroom() >= resource_plan(*self, surface).len(),
            r is Ok ==> allocation_step(*self, surface, *old(dev), *old(reg), *final(dev), *final(reg)),
            r is Err ==> r == Err::<(), RenderError>(RenderError::OutOfHandles) && *final(dev) == *old(dev)
                && *final(reg) == *old(reg),
    {
        let plan = self.resource_plan(surface);
        if dev.next_id > u64::MAX - plan.len() as u64 {
            return Err(RenderError::OutOfHandles);
        }
        let ghost p = resource_plan(*self, surface);
        let ghost start = dev.next_id;
        let ghost count0 = dev.live_count;
        let ghost reg0 = *reg;
        let ghost all_present = forall|k: ResourceKey| planned(*self, surface, k) is Some ==> #[trigger] reg0.entry(k) is Some;
        proof {
            lemma_plan_well_formed(*self, surface);
        }
        let mut i: usize = 0;
        while i < plan.len()
            invariant
                plan@ == p,
                p == resource_plan(*self, surface),
                i <= p.len(),
                reg.wf(dev),
                dev.next_id == start + i,
                start + p.len() <= u64::MAX,
                forall|a: int, b: int| 0 <= a < b < p.len() ==> (#[trigger] p[a]).0 != (#[trigger] p[b]).0,
                forall|a: int| 0 <= a < p.len() ==> (#[trigger] p[a]).0.accepts(p[a].1),
                forall|j: int| 0 <= j < i ==> #[trigger] installed(*reg, p[j].0, p[j].1, start),
                forall|k: ResourceKey| (forall|j: int| 0 <= j < i ==> (#[trigger] p[j]).0 != k)
                    ==> #[trigger] reg.entry(k) == reg0.entry(k),
                all_present == forall|k: ResourceKey| planned(*self, surface, k) is Some ==> #[trigger] reg0.entry(k) is Some,
                all_present ==> dev.live_count == count0,
                all_present ==> forall|j: int| 0 <= j < p.len() ==> #[trigger] reg0.entry(p[j].0) is Some,
            decreases p.len() - i,
        {
            let (key, desc) = plan[i];
            proof {
                if all_present {
                    let k = p[i as int].0;
                    assert(exists|x: int| 0 <= x < p.len() && (#[trigger] p[x]).0 == k);
                    assert(planned(*self, surface, k) is Some);
                }
            }
            let ghost before = *reg;
            reg.set(dev, key, desc);
            proof {
                assert forall|j: int| 0 <= j < i + 1 implies #[trigger] installed(*reg, p[j].0, p[j].1, start) by {
                    if j < i {
                        assert(installed(before, p[j].0, p[j].1, start));
                        assert(p[j].0 != key);
                        assert(reg.entry(p[j].0) == before.entry(p[j].0));
                    } else {
                        assert(p[j] == (key, desc));
                    }
                }
                assert forall|k: ResourceKey| (forall|j: int| 0 <= j < i + 1 ==> (#[trigger] p[j]).0 != k)
                    implies #[trigger] reg.entry(k) == reg0.entry(k) by {
                    assert(p[i as int].0 != k);
                    assert(forall|j: int| 0 <= j < i ==> (#[trigger] p[j]).0 != k);
                }
                if all_present {
                    let k = p[i as int].0;
                    assert(forall|j: int| 0 <= j < i ==> (#[trigger] p[j]).0 != k);
                    assert(before.entry(k) == reg0.entry(k));
                }
            }
            i = i + 1;
        }
        proof {
            assert forall|k: ResourceKey| #[trigger] reg.desc_of(k) == match planned(*self, surface, k) {
                Some(d) => Some(d),
                None => reg0.desc_of(k),
            } by {
                if exists|x: int| 0 <= x < p.len() && (#[trigger] p[x]).0 == k {
                    let x = choose|x: int| 0 <= x < p.len() && (#[trigger] p[x]).0 == k;
                    assert(installed(*reg, p[x].0, p[x].1, start));
                } else {
                    assert(reg.entry(k) == reg0.entry(k));
                }
            }
            assert forall|k: ResourceKey| planned(*self, surface, k) is None implies #[trigger] reg.entry(k) == reg0.entry(k) by {
                if exists|x: int| 0 <= x < p.len() && (#[trigger] p[x]).0 == k {
                } else {
                }
            }
            assert forall|k: ResourceKey| planned(*self, surface, k) is Some
                implies (#[trigger] reg.entry(k))->0.handle.id >= start by {
                let x = choose|x: int| 0 <= x < p.len() && (#[trigger] p[x]).0 == k;
                assert(installed(*reg, p[x].0, p[x].1, start));
            }
        }
        Ok(())
    }
}

} // verus!
