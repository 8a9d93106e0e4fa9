use horizon::device::{Handle, ResourceDesc, TextureFormat};
use horizon::error::{RenderError, SurfaceError};
use horizon::frame::{ColorAttachment, FrameContext, FrameOutcome, FrameStage, PassKind, RenderCommand};
use horizon::passes::{MeshDraw, RenderForwardPass};
use horizon::registry::{BufferKind, ResourceKey, TextureViewKind};
use horizon::renderer::{State, INIT_HANDLES, RESIZE_HANDLES};

const SIZED: [TextureViewKind; 5] = [
    TextureViewKind::Albedo,
    TextureViewKind::Normal,
    TextureViewKind::Position,
    TextureViewKind::Depth,
    TextureViewKind::DebugTarget,
];

fn texture_size(r: &State, v: TextureViewKind) -> (u32, u32) {
    match r.registry.get_entry(ResourceKey::View(v)).unwrap().desc {
        ResourceDesc::Texture(t) => (t.width, t.height),
        _ => panic!("a view key must hold a texture"),
    }
}

fn draws(cmds: &[RenderCommand]) -> usize {
    cmds.iter().filter(|c| matches!(c, RenderCommand::Draw { .. } | RenderCommand::DrawIndexed { .. })).count()
}

fn meshes() -> Vec<MeshDraw> {
    vec![
        MeshDraw { vertex_buffer: Handle { id: 1000 }, index_buffer: Handle { id: 1001 }, index_count: 36, instance_start: 0, instance_count: 4 },
        MeshDraw { vertex_buffer: Handle { id: 1002 }, index_buffer: Handle { id: 1003 }, index_count: 9, instance_start: 4, instance_count: 1 },
    ]
}

fn assert_current(r: &State) {
    for c in [&r.bind_groups.shadow, &r.bind_groups.uniform, &r.bind_groups.lighting, &r.bind_groups.deferred, &r.bind_groups.debug] {
        for e in &c.entries {
            assert_eq!(r.registry.get(e.key), Some(e.handle));
        }
    }
}

#[test]
fn renders_then_resizes_and_renders_again() {
    let mut r = State::new(800, 600, TextureFormat::Bgra8UnormSrgb).unwrap();
    assert_eq!(r.device.live_count, 15);
    for v in SIZED {
        assert_eq!(texture_size(&r, v), (800, 600));
    }
    let (outcome, frame) = r.render(Ok(()), &meshes());
    assert_eq!(outcome, FrameOutcome::Presented);
    assert!(frame.submitted);
    assert_eq!(frame.stage, FrameStage::Presented);
    assert_eq!(r.resize(400, 300), Ok(()));
    let (outcome, _) = r.render(Ok(()), &meshes());
    assert_eq!(outcome, FrameOutcome::Presented);
    for v in SIZED {
        assert_eq!(texture_size(&r, v), (400, 300));
    }
    assert_eq!(texture_size(&r, TextureViewKind::ShadowDepth), (1024, 1024));
    assert_eq!(r.device.live_count, 15);
    assert_current(&r);
}

#[test]
fn failed_acquisition_aborts_with_no_draws() {
    let mut r = State::new(800, 600, TextureFormat::Bgra8UnormSrgb).unwrap();
    let ops = r.device.ops.len();
    let debug = r.bind_groups.debug.bind_group;
    let (outcome, frame) = r.render(Err(SurfaceError::Outdated), &meshes());
    assert_eq!(outcome, FrameOutcome::Aborted(SurfaceError::Outdated));
    assert_eq!(frame.stage, FrameStage::Aborted);
    assert_eq!(frame.result, Some(SurfaceError::Outdated));
    assert_eq!(draws(&frame.commands), 0);
    assert!(frame.commands.is_empty());
    assert!(!frame.submitted);
    assert_eq!(r.device.ops.len(), ops);
    assert_eq!(r.bind_groups.debug.bind_group, debug);
    let (outcome, _) = r.render(Ok(()), &meshes());
    assert_eq!(outcome, FrameOutcome::Presented);
}

#[test]
fn every_surface_error_aborts() {
    let mut r = State::new(64, 64, TextureFormat::Bgra8Unorm).unwrap();
    for e in [SurfaceError::Timeout, SurfaceError::Outdated, SurfaceError::Lost, SurfaceError::OutOfMemory, SurfaceError::Other] {
        let (outcome, frame) = r.render(Err(e), &Vec::new());
        assert_eq!(outcome, FrameOutcome::Aborted(e));
        assert_eq!(draws(&frame.commands), 0);
    }
}

#[test]
fn frame_records_passes_in_order() {
    let mut r = State::new(800, 600, TextureFormat::Bgra8UnormSrgb).unwrap();
    let m = meshes();
    let (_, frame) = r.render(Ok(()), &m);
    let c = &frame.commands;
    let shadow_map = r.registry.get(ResourceKey::View(TextureViewKind::ShadowDepth)).unwrap();
    let vao = r.registry.get(ResourceKey::Buffer(BufferKind::DeferredVao)).unwrap();
    let target = r.registry.get(ResourceKey::View(TextureViewKind::DebugTarget)).unwrap();
    assert_eq!(c.len(), 3 + 6 + 1 + 8 + 7);
    assert_eq!(c[0], RenderCommand::BeginPass { pass: PassKind::Shadow, color: None, depth: Some(shadow_map) });
    assert_eq!(c[1], RenderCommand::SetPipeline(r.pipelines.shadow.handle()));
    assert_eq!(c[2], RenderCommand::SetBindGroup { slot: 0, group: r.bind_groups.shadow.bind_group });
    assert_eq!(c[3], RenderCommand::SetVertexBuffer { slot: 0, buffer: Handle { id: 1000 } });
    assert_eq!(c[4], RenderCommand::SetIndexBuffer(Handle { id: 1001 }));
    assert_eq!(c[5], RenderCommand::DrawIndexed { indices: 36, first_instance: 0, instances: 4 });
    assert_eq!(c[8], RenderCommand::DrawIndexed { indices: 9, first_instance: 4, instances: 1 });
    assert_eq!(c[9], RenderCommand::EndPass);
    assert_eq!(c[10], RenderCommand::BeginPass { pass: PassKind::Composite, color: Some(ColorAttachment::Surface), depth: None });
    assert_eq!(c[11], RenderCommand::SetPipeline(r.pipelines.forward.handle()));
    assert_eq!(c[12], RenderCommand::SetBindGroup { slot: 0, group: r.bind_groups.deferred.bind_group });
    assert_eq!(c[13], RenderCommand::SetBindGroup { slot: 1, group: r.bind_groups.uniform.bind_group });
    assert_eq!(c[14], RenderCommand::SetBindGroup { slot: 2, group: r.bind_groups.lighting.bind_group });
    assert_eq!(c[15], RenderCommand::SetVertexBuffer { slot: 0, buffer: vao });
    assert_eq!(c[16], RenderCommand::Draw { vertices: 6, instances: 1 });
    assert_eq!(c[17], RenderCommand::EndPass);
    assert_eq!(
        c[18],
        RenderCommand::BeginPass { pass: PassKind::Debug, color: Some(ColorAttachment::Texture(target)), depth: None }
    );
    assert_eq!(c[21], RenderCommand::SetBindGroup { slot: 0, group: r.bind_groups.debug.bind_group });
    assert_eq!(c[22], RenderCommand::Draw { vertices: 6, instances: 1 });
    assert_eq!(c[23], RenderCommand::EndPass);
    assert_eq!(c[24], RenderCommand::DrawOverlay);
    assert_eq!(draws(c), 4);
}

#[test]
fn debug_rebind_follows_selection() {
    let mut r = State::new(800, 600, TextureFormat::Bgra8UnormSrgb).unwrap();
    assert_eq!(r.select_debug_texture(0), Ok(()));
    let old_group = r.bind_groups.debug.bind_group;
    assert_eq!(r.select_debug_texture(1), Ok(()));
    let normal = r.registry.get(ResourceKey::View(TextureViewKind::Normal)).unwrap();
    assert_eq!(r.bind_groups.debug.entries[0].key, ResourceKey::View(TextureViewKind::Normal));
    assert_eq!(r.bind_groups.debug.entries[0].handle, normal);
    let (_, frame) = r.render(Ok(()), &Vec::new());
    assert_eq!(r.bind_groups.debug.bind_group, old_group);
    assert_eq!(r.bind_groups.debug.entries[0].handle, normal);
    let bound = frame.commands.iter().any(|c| *c == RenderCommand::SetBindGroup { slot: 0, group: r.bind_groups.debug.bind_group });
    assert!(bound);
}

#[test]
fn debug_selection_past_the_list_is_refused() {
    let mut r = State::new(800, 600, TextureFormat::Bgra8UnormSrgb).unwrap();
    let group = r.bind_groups.debug.bind_group;
    assert_eq!(r.select_debug_texture(3), Err(RenderError::NoSuchDebugTexture(3)));
    assert_eq!(r.debug_texture, 0);
    assert_eq!(r.bind_groups.debug.bind_group, group);
}

#[test]
fn invalid_sizes_are_refused() {
    assert_eq!(State::new(0, 600, TextureFormat::Bgra8Unorm).err(), Some(RenderError::InvalidSize { width: 0, height: 600 }));
    assert!(State::new(8193, 1, TextureFormat::Bgra8Unorm).is_err());
    let mut r = State::new(800, 600, TextureFormat::Bgra8Unorm).unwrap();
    let ops = r.device.ops.len();
    assert_eq!(r.resize(400, 0), Err(RenderError::InvalidSize { width: 400, height: 0 }));
    assert_eq!(r.surface.width, 800);
    assert_eq!(r.device.ops.len(), ops);
    assert_eq!(r.resize(8192, 8192), Ok(()));
    assert_eq!(texture_size(&r, TextureViewKind::Albedo), (8192, 8192));
}

#[test]
fn resize_keeps_pipelines_and_fixed_resources() {
    let mut r = State::new(800, 600, TextureFormat::Bgra8UnormSrgb).unwrap();
    let forward = r.pipelines.forward.handle();
    let globals = r.registry.get(ResourceKey::Buffer(BufferKind::Globals));
    let albedo = r.registry.get(ResourceKey::View(TextureViewKind::Albedo));
    let layout = r.bind_groups.deferred.layout;
    let uniform_group = r.bind_groups.uniform.bind_group;
    r.resize(1024, 768).unwrap();
    assert_eq!(r.pipelines.forward.handle(), forward);
    assert_eq!(r.registry.get(ResourceKey::Buffer(BufferKind::Globals)), globals);
    assert_ne!(r.registry.get(ResourceKey::View(TextureViewKind::Albedo)), albedo);
    assert_eq!(r.bind_groups.deferred.layout, layout);
    assert_eq!(r.bind_groups.uniform.bind_group, uniform_group);
    assert_eq!(r.device.live_count, 15);
    assert_current(&r);
}

#[test]
fn passes_do_nothing_on_an_aborted_frame() {
    let r = State::new(800, 600, TextureFormat::Bgra8UnormSrgb).unwrap();
    let mut frame = FrameContext::new();
    frame.acquire(Err(SurfaceError::Lost));
    frame.begin_encoding();
    RenderForwardPass.run(&r, &mut frame);
    assert!(frame.commands.is_empty());
    frame.submit();
    assert!(!frame.submitted);
    assert_eq!(frame.present(), FrameOutcome::Aborted(SurfaceError::Lost));
}

#[test]
fn handle_consumption_is_as_stated() {
    let mut r = State::new(320, 240, TextureFormat::Bgra8Unorm).unwrap();
    assert_eq!(r.device.next_id, INIT_HANDLES);
    r.render(Ok(()), &Vec::new());
    assert_eq!(r.device.next_id, INIT_HANDLES);
    r.render(Err(SurfaceError::Timeout), &Vec::new());
    assert_eq!(r.select_debug_texture(2), Ok(()));
    assert_eq!(r.device.next_id, INIT_HANDLES);
    r.resize(640, 480).unwrap();
    assert_eq!(r.device.next_id, INIT_HANDLES + RESIZE_HANDLES);
    assert_eq!(RESIZE_HANDLES, 8);
}

#[test]
fn resize_without_handles_left_changes_nothing() {
    let mut r = State::new(320, 240, TextureFormat::Bgra8Unorm).unwrap();
    r.device.next_id = u64::MAX - 7;
    assert_eq!(r.resize(640, 480), Err(RenderError::OutOfHandles));
    assert_eq!(r.surface.width, 320);
    assert_eq!(texture_size(&r, TextureViewKind::Albedo), (320, 240));
    assert_eq!(r.resize(0, 480), Err(RenderError::InvalidSize { width: 0, height: 480 }));
    let (outcome, _) = r.render(Ok(()), &Vec::new());
    assert_eq!(outcome, FrameOutcome::Presented);
}
