use horizon::bindgroups::{BindGroupKind, BindingType, LayoutEntry, ENTITY_MATRICES_SIZE, LIGHT_LIST_SIZE, STAGE_FRAGMENT, STAGE_VERTEX};
use horizon::device::{
    BufferDesc, CompareFunction, DeviceOp, FilterMode, GpuDevice, ObjectKind, ResourceDesc, SamplerDesc, SurfaceConfig,
    TextureFormat, BUFFER_COPY_DST, BUFFER_UNIFORM,
};
use horizon::error::RenderError;
use horizon::pipelines::{CullMode, PipelineKind};
use horizon::registry::{BufferKind, ResourceKey, ResourceRegistry, SamplerKind, TextureViewKind};

fn surface(width: u32, height: u32) -> SurfaceConfig {
    SurfaceConfig { width, height, format: TextureFormat::Bgra8UnormSrgb }
}

fn uniform_desc(size: u64) -> ResourceDesc {
    ResourceDesc::Buffer(BufferDesc { size, usage: BUFFER_COPY_DST | BUFFER_UNIFORM })
}

#[test]
fn empty_registry_has_nothing() {
    let dev = GpuDevice::new();
    let reg = ResourceRegistry::new(&dev);
    assert_eq!(reg.get(ResourceKey::Buffer(BufferKind::Globals)), None);
    assert_eq!(reg.get(ResourceKey::View(TextureViewKind::Albedo)), None);
    assert_eq!(reg.slots.len(), 15);
}

#[test]
fn set_replaces_and_releases_the_old_handle() {
    let mut dev = GpuDevice::new();
    let mut reg = ResourceRegistry::new(&dev);
    let key = ResourceKey::Buffer(BufferKind::Globals);
    let first = reg.set(&mut dev, key, uniform_desc(96));
    assert_eq!(dev.live_count, 1);
    let second = reg.set(&mut dev, key, uniform_desc(128));
    assert_ne!(first, second);
    assert_eq!(dev.live_count, 1);
    assert_eq!(reg.get(key), Some(second));
    assert_eq!(reg.get_entry(key).unwrap().desc, uniform_desc(128));
    assert_eq!(
        dev.ops,
        vec![
            DeviceOp::CreateResource { id: first.id, desc: uniform_desc(96) },
            DeviceOp::ReleaseResource { id: first.id },
            DeviceOp::CreateResource { id: second.id, desc: uniform_desc(128) },
        ]
    );
}

#[test]
fn get_or_rebuild_keeps_a_present_handle() {
    let mut dev = GpuDevice::new();
    let mut reg = ResourceRegistry::new(&dev);
    let key = ResourceKey::Sampler(SamplerKind::Shadow);
    let desc = ResourceDesc::Sampler(SamplerDesc { filter: FilterMode::Linear, compare: Some(CompareFunction::LessEqual) });
    let built = reg.get_or_rebuild(&mut dev, key, desc);
    let again = reg.get_or_rebuild(&mut dev, key, desc);
    assert_eq!(built, again);
    assert_eq!(dev.live_count, 1);
    assert_eq!(dev.ops.len(), 1);
}

#[test]
fn allocate_resources_twice_keeps_count_and_shape() {
    let mut dev = GpuDevice::new();
    let mut reg = ResourceRegistry::new(&dev);
    let s = surface(800, 600);
    BindGroupKind::Uniform.allocate_resources(&mut dev, &mut reg, s).unwrap();
    let count = dev.live_count;
    let descs: Vec<_> = reg.slots.iter().map(|e| e.map(|e| e.desc)).collect();
    let handles: Vec<_> = reg.slots.iter().map(|e| e.map(|e| e.handle)).collect();
    BindGroupKind::Uniform.allocate_resources(&mut dev, &mut reg, s).unwrap();
    assert_eq!(count, 5);
    assert_eq!(dev.live_count, count);
    let descs2: Vec<_> = reg.slots.iter().map(|e| e.map(|e| e.desc)).collect();
    assert_eq!(descs, descs2);
    let handles2: Vec<_> = reg.slots.iter().map(|e| e.map(|e| e.handle)).collect();
    assert_ne!(handles, handles2);
    let releases = dev.ops.iter().filter(|op| matches!(op, DeviceOp::ReleaseResource { .. })).count();
    assert_eq!(releases, 5);
}

#[test]
fn uniform_plan_sizes() {
    let plan = BindGroupKind::Uniform.resource_plan(surface(800, 600));
    assert_eq!(plan.len(), 5);
    assert_eq!(ENTITY_MATRICES_SIZE, 64000);
    assert_eq!(LIGHT_LIST_SIZE, 480);
    assert_eq!(plan[3].0, ResourceKey::Buffer(BufferKind::Instances));
    match plan[3].1 {
        ResourceDesc::Buffer(b) => assert_eq!(b.size, 64000),
        _ => panic!("instances must be a buffer"),
    }
    match plan[0].1 {
        ResourceDesc::Texture(t) => {
            assert_eq!((t.width, t.height, t.layers), (1024, 1024, 10));
            assert_eq!(t.format, TextureFormat::Depth32Float);
        }
        _ => panic!("the shadow map must be a texture"),
    }
}

#[test]
fn deferred_plan_takes_the_surface_size() {
    let plan = BindGroupKind::Deferred.resource_plan(surface(640, 480));
    let sized: Vec<_> = plan
        .iter()
        .filter_map(|(_, d)| match d {
            ResourceDesc::Texture(t) => Some((t.width, t.height)),
            _ => None,
        })
        .collect();
    assert_eq!(sized, vec![(640, 480); 4]);
}

#[test]
fn uniform_layout_slots() {
    let layout = BindGroupKind::Uniform.get_layout();
    assert_eq!(layout.len(), 5);
    assert_eq!(
        layout[0],
        LayoutEntry { binding: 0, visibility: STAGE_VERTEX | STAGE_FRAGMENT, ty: BindingType::UniformBuffer }
    );
    assert_eq!(layout[4].ty, BindingType::Sampler { comparison: true, filtering: false });
    assert_eq!(layout[4].visibility, STAGE_FRAGMENT);
    assert_eq!(BindGroupKind::Uniform.get_layout(), layout);
}

#[test]
fn shadow_layout_slots() {
    let layout = BindGroupKind::Shadow.get_layout();
    assert_eq!(layout.len(), 2);
    assert_eq!(layout[0].ty, BindingType::UniformBuffer);
    assert_eq!(layout[1].ty, BindingType::StorageBuffer { read_only: true });
}

#[test]
fn container_needs_every_bound_resource() {
    let mut dev = GpuDevice::new();
    let mut reg = ResourceRegistry::new(&dev);
    BindGroupKind::Shadow.allocate_resources(&mut dev, &mut reg, surface(800, 600)).unwrap();
    let before = dev.ops.len();
    let r = BindGroupKind::Shadow.create_container(&mut dev, &reg, TextureViewKind::Albedo);
    assert_eq!(r.err(), Some(RenderError::MissingResource(ResourceKey::Buffer(BufferKind::Instances))));
    assert_eq!(dev.ops.len(), before);
}

#[test]
fn rebuilt_container_binds_the_same_resources() {
    let mut dev = GpuDevice::new();
    let mut reg = ResourceRegistry::new(&dev);
    BindGroupKind::Uniform.allocate_resources(&mut dev, &mut reg, surface(800, 600)).unwrap();
    let a = BindGroupKind::Uniform.create_container(&mut dev, &reg, TextureViewKind::Albedo).unwrap();
    let b = BindGroupKind::Uniform.create_container(&mut dev, &reg, TextureViewKind::Albedo).unwrap();
    assert_ne!(a.layout, b.layout);
    assert_ne!(a.bind_group, b.bind_group);
    assert_eq!(a.entries, b.entries);
    assert_eq!(a.entries.len(), 5);
    assert_eq!(a.entries[3].key, ResourceKey::View(TextureViewKind::ShadowDepth));
    assert_eq!(Some(a.entries[3].handle), reg.get(ResourceKey::View(TextureViewKind::ShadowDepth)));
    let objects = dev
        .ops
        .iter()
        .filter(|op| matches!(op, DeviceOp::CreateObject { what: ObjectKind::BindGroupLayout, .. }))
        .count();
    assert_eq!(objects, 2);
}

#[test]
fn shadow_pipeline_state_and_layouts() {
    let mut dev = GpuDevice::new();
    let mut reg = ResourceRegistry::new(&dev);
    BindGroupKind::Shadow.allocate_resources(&mut dev, &mut reg, surface(800, 600)).unwrap();
    BindGroupKind::Uniform.allocate_resources(&mut dev, &mut reg, surface(800, 600)).unwrap();
    let s = BindGroupKind::Shadow.create_container(&mut dev, &reg, TextureViewKind::Albedo).unwrap();
    let layouts = vec![(BindGroupKind::Shadow, s.layout)];
    let p = PipelineKind::Shadow.create_pipeline(&mut dev, &layouts, TextureFormat::Bgra8UnormSrgb);
    assert_eq!(p.kind(), PipelineKind::Shadow);
    assert_eq!(p.layout_at(0), Some(s.layout));
    assert_eq!(p.layout_at(1), None);
    let state = p.state();
    assert_eq!(state.color_target, None);
    assert_eq!(state.cull, CullMode::Front);
    let depth = state.depth.unwrap();
    assert_eq!(depth.format, TextureFormat::Depth32Float);
    assert_eq!((depth.bias.constant, depth.bias.slope_scale), (2, 2));
}

#[test]
fn take_ops_drains_the_log() {
    let mut dev = GpuDevice::new();
    let mut reg = ResourceRegistry::new(&dev);
    let key = ResourceKey::Buffer(BufferKind::ShadowUniform);
    let first = reg.set(&mut dev, key, uniform_desc(64));
    let ops = dev.take_ops();
    assert_eq!(ops, vec![DeviceOp::CreateResource { id: first.id, desc: uniform_desc(64) }]);
    assert!(dev.ops.is_empty());
    let second = reg.set(&mut dev, key, uniform_desc(64));
    assert_eq!(
        dev.take_ops(),
        vec![
            DeviceOp::ReleaseResource { id: first.id },
            DeviceOp::CreateResource { id: second.id, desc: uniform_desc(64) },
        ]
    );
    assert_eq!(dev.live_count, 1);
    assert_eq!(dev.next_id, 2);
}

#[test]
fn allocation_without_handles_left_changes_nothing() {
    let mut dev = GpuDevice::new();
    let mut reg = ResourceRegistry::new(&dev);
    dev.next_id = u64::MAX - 4;
    let r = BindGroupKind::Uniform.allocate_resources(&mut dev, &mut reg, surface(800, 600));
    assert_eq!(r, Err(RenderError::OutOfHandles));
    assert_eq!(dev.next_id, u64::MAX - 4);
    assert!(dev.ops.is_empty());
    assert_eq!(reg.get(ResourceKey::Buffer(BufferKind::Globals)), None);
}

#[test]
fn container_without_handles_left_is_refused() {
    let mut dev = GpuDevice::new();
    let mut reg = ResourceRegistry::new(&dev);
    BindGroupKind::Lighting.allocate_resources(&mut dev, &mut reg, surface(800, 600)).unwrap();
    dev.next_id = u64::MAX - 1;
    let ops = dev.ops.len();
    let r = BindGroupKind::Lighting.create_container(&mut dev, &reg, TextureViewKind::Albedo);
    assert_eq!(r.err(), Some(RenderError::OutOfHandles));
    assert_eq!(dev.ops.len(), ops);
}
