//! The passes of a frame and the frame sequence that runs them: shadow,
//! composite, debug viewer with the interface overlay, then submit and
//! present.
use vstd::prelude::*;
use crate::device::Handle;
use crate::registry::{ResourceKey, BufferKind, TextureViewKind};
use crate::bindgroups::BindGroupKind;
use crate::frame::{FrameContext, FrameOutcome, FrameStage, PassKind, ColorAttachment, RenderCommand, draw_count};
use crate::renderer::{State, inspectable_view, lemma_full_binds_all, same_layouts};
use crate::error::SurfaceError;

verus! {

/// One indexed mesh of the scene: its geometry buffers and the range of
/// instances drawn from the instance buffer.
#[derive(Clone, Copy, PartialEq, Eq, Debug)]
pub struct MeshDraw {
    pub vertex_buffer: Handle,
    pub index_buffer: Handle,
    pub index_count: u32,
    pub instance_start: u32,
    pub instance_count: u32,
}

/// Vertices of the full-screen quad.
pub const QUAD_VERTICES: u32 = 6;

pub open spec fn draw_mesh(m: MeshDraw) -> Seq<RenderCommand> {
    seq![
        RenderCommand::SetVertexBuffer { slot: 0, buffer: m.vertex_buffer },
        RenderCommand::SetIndexBuffer(m.index_buffer),
        RenderCommand::DrawIndexed { indices: m.index_count, first_instance: m.instance_start, instances: m.instance_count },
    ]
}

/// The draws of `meshes`, in order.
pub open spec fn mesh_commands(meshes: Seq<MeshDraw>) -> Seq<RenderCommand>
    decreases meshes.len(),
{
    if meshes.len() == 0 {
        Seq::empty()
    } else {
        mesh_commands(meshes.drop_last()) + draw_mesh(meshes.last())
    }
}

pub open spec fn handle_at(r: State, key: ResourceKey) -> Handle {
    r.registry.handle_of(key)->0
}

/// The shadow pass: depth only, from the light, into the first layer of the
/// shadow map.
pub open spec fn shadow_commands(r: State, meshes: Seq<MeshDraw>) -> Seq<RenderCommand> {
    seq![
        RenderCommand::BeginPass {
            pass: PassKind::Shadow,
            color: None,
            depth: Some(handle_at(r, ResourceKey::View(TextureViewKind::ShadowDepth))),
        },
        RenderCommand::SetPipeline(r.pipelines.shadow.spec_handle()),
        RenderCommand::SetBindGroup { slot: 0, group: r.bind_groups.shadow.bind_group },
    ] + mesh_commands(meshes) + seq![RenderCommand::EndPass]
}

/// The composite pass: one full-screen draw onto the presentation target
/// with the deferred attachments, the camera and the light list bound in
/// that slot order.
pub open spec fn forward_commands(r: State) -> Seq<RenderCommand> {
    seq![
        RenderCommand::BeginPass { pass: PassKind::Composite, color: Some(ColorAttachment::Surface), depth: None },
        RenderCommand::SetPipeline(r.pipelines.forward.spec_handle()),
        RenderCommand::SetBindGroup { slot: 0, group: r.bind_groups.deferred.bind_group },
        RenderCommand::SetBindGroup { slot: 1, group: r.bind_groups.uniform.bind_group },
        RenderCommand::SetBindGroup { slot: 2, group: r.bind_groups.lighting.bind_group },
        RenderCommand::SetVertexBuffer { slot: 0, buffer: handle_at(r, ResourceKey::Buffer(BufferKind::DeferredVao)) },
        RenderCommand::Draw { vertices: QUAD_VERTICES, instances: 1 },
        RenderCommand::EndPass,
    ]
}

/// The debug pass: the selected texture drawn full-screen into the debug
/// viewport, then the interface overlay.
pub open spec fn debug_commands(r: State) -> Seq<RenderCommand> {
    seq![
        RenderCommand::BeginPass {
            pass: PassKind::Debug,
            color: Some(ColorAttachment::Texture(handle_at(r, ResourceKey::View(TextureViewKind::DebugTarget)))),
            depth: None,
        },
        RenderCommand::SetPipeline(r.pipelines.texture.spec_handle()),
        RenderCommand::SetVertexBuffer { slot: 0, buffer: handle_at(r, ResourceKey::Buffer(BufferKind::DeferredVao)) },
        RenderCommand::SetBindGroup { slot: 0, group: r.bind_groups.debug.bind_group },
        RenderCommand::Draw { vertices: QUAD_VERTICES, instances: 1 },
        RenderCommand::EndPass,
        RenderCommand::DrawOverlay,
    ]
}

/// Whether passes may record into `frame`, read at run time.
pub fn may_record(frame: &FrameContext) -> (r: bool)
    ensures
        r == frame.recording(),
{
    frame.stage == FrameStage::Encoding && frame.result.is_none() && !frame.in_pass
}

pub struct RenderShadowPass;

impl RenderShadowPass {
    /// Records the shadow pass; a no-op on a frame that is not recording.
    pub fn run(&self, r: &State, frame: &mut FrameContext, meshes: &Vec<MeshDraw>)
        requires
            r.wf(),
            old(frame).wf(),
        ensures
            final(frame).wf(),
            old(frame).recording() ==> final(frame).recording() && final(frame).stage == old(frame).stage
                && final(frame).commands@ == old(frame).commands@ + shadow_commands(*r, meshes@),
            !old(frame).recording() ==> *final(frame) == *old(frame),
    {
        if !may_record(frame) {
            return;
        }
        let ghost start = frame.commands@;
        let depth = r.registry.get(ResourceKey::View(TextureViewKind::ShadowDepth)).unwrap();
        frame.begin_pass(PassKind::Shadow, None, Some(depth));
        frame.record(RenderCommand::SetPipeline(r.pipelines.shadow.handle()));
        frame.record(RenderCommand::SetBindGroup { slot: 0, group: r.bind_groups.shadow.bind_group });
        let ghost head = frame.commands@;
        let mut i: usize = 0;
        while i < meshes.len()
            invariant
                frame.wf(),
                frame.in_pass,
                frame.result is None,
                frame.stage == FrameStage::Encoding,
                i <= meshes@.len(),
                frame.commands@ == head + mesh_commands(meshes@.take(i as int)),
            decreases meshes@.len() - i,
        {
            let m = meshes[i];
            frame.record(RenderCommand::SetVertexBuffer { slot: 0, buffer: m.vertex_buffer });
            frame.record(RenderCommand::SetIndexBuffer(m.index_buffer));
            frame.record(RenderCommand::DrawIndexed {
                indices: m.index_count,
                first_instance: m.instance_start,
                instances: m.instance_count,
            });
            proof {
                let t = meshes@.take(i as int + 1);
                assert(t.drop_last() =~= meshes@.take(i as int));
                assert(t.last() == m);
                assert(frame.commands@ =~= head + mesh_commands(t));
            }
            i = i + 1;
        }
        frame.end_pass();
        proof {
            assert(meshes@.take(meshes@.len() as int) =~= meshes@);
            assert(frame.commands@ =~= start + shadow_commands(*r, meshes@));
        }
    }
}

pub struct RenderForwardPass;

impl RenderForwardPass {
    /// Records the composite pass; a no-op on a frame that is not
    /// recording.
    pub fn run(&self, r: &State, frame: &mut FrameContext)
        requires
            r.wf(),
            old(frame).wf(),
        ensures
            final(frame).wf(),
            old(frame).recording() ==> final(frame).recording() && final(frame).stage == old(frame).stage
                && final(frame).commands@ == old(frame).commands@ + forward_commands(*r),
            !old(frame).recording() ==> *final(frame) == *old(frame),
    {
        if !may_record(frame) {
            return;
        }
        let ghost start = frame.commands@;
        let vao = r.registry.get(ResourceKey::Buffer(BufferKind::DeferredVao)).unwrap();
        frame.begin_pass(PassKind::Composite, Some(ColorAttachment::Surface), None);
        frame.record(RenderCommand::SetPipeline(r.pipelines.forward.handle()));
        frame.record(RenderCommand::SetBindGroup { slot: 0, group: r.bind_groups.deferred.bind_group });
        frame.record(RenderCommand::SetBindGroup { slot: 1, group: r.bind_groups.uniform.bind_group });
        frame.record(RenderCommand::SetBindGroup { slot: 2, group: r.bind_groups.lighting.bind_group });
        frame.record(RenderCommand::SetVertexBuffer { slot: 0, buffer: vao });
        frame.record(RenderCommand::Draw { vertices: QUAD_VERTICES, instances: 1 });
        frame.end_pass();
        proof {
            assert(frame.commands@ =~= start + forward_commands(*r));
        }
    }
}

pub struct RenderUIPass;

impl RenderUIPass {
    /// Rebinds the debug viewer to the texture now selected, draws it into
    /// the debug viewport and records the interface overlay. A no-op on a
    /// frame that is not recording.
    pub fn run(&self, r: &mut State, frame: &mut FrameContext)
        requires
            old(r).wf(),
            old(frame).wf(),
        ensures
            final(r).wf(),
            final(frame).wf(),
            old(frame).recording() ==> {
                &&& final(frame).recording()
                &&& final(frame).stage == old(frame).stage
                &&& final(frame).commands@ == old(frame).commands@ + debug_commands(*final(r))
                &&& final(r).shows(old(r).debug_texture as int)
                &&& final(r).debug_texture == old(r).debug_texture
                &&& final(r).registry == old(r).registry
                &&& final(r).surface == old(r).surface
                &&& final(r).pipelines == old(r).pipelines
                &&& final(r).device.live_count == old(r).device.live_count
                &&& final(r).device.next_id == old(r).device.next_id
                &&& final(r).bind_groups.debug.bind_group == old(r).bind_groups.debug.bind_group
                &&& same_layouts(final(r).bind_groups, old(r).bind_groups)
                &&& final(r).bind_groups.shadow == old(r).bind_groups.shadow
                &&& final(r).bind_groups.uniform == old(r).bind_groups.uniform
                &&& final(r).bind_groups.lighting == old(r).bind_groups.lighting
                &&& final(r).bind_groups.deferred == old(r).bind_groups.deferred
            },
            !old(frame).recording() ==> *final(frame) == *old(frame) && *final(r) == *old(r),
    {
        if !may_record(frame) {
            return;
        }
        let view = inspectable_view(r.debug_texture).unwrap();
        proof {
            lemma_full_binds_all(r.registry, BindGroupKind::DebugTexture, view);
        }
        match r.bind_groups.debug.rebind(&mut r.device, &r.registry, view) {
            Ok(()) => {},
            Err(_) => return,
        }
        proof {
            assert(r.registry.entry(ResourceKey::View(view)) is Some);
        }
        let ghost start = frame.commands@;
        let target = r.registry.get(ResourceKey::View(TextureViewKind::DebugTarget)).unwrap();
        let vao = r.registry.get(ResourceKey::Buffer(BufferKind::DeferredVao)).unwrap();
        frame.begin_pass(PassKind::Debug, Some(ColorAttachment::Texture(target)), None);
        frame.record(RenderCommand::SetPipeline(r.pipelines.texture.handle()));
        frame.record(RenderCommand::SetVertexBuffer { slot: 0, buffer: vao });
        frame.record(RenderCommand::SetBindGroup { slot: 0, group: r.bind_groups.debug.bind_group });
        frame.record(RenderCommand::Draw { vertices: QUAD_VERTICES, instances: 1 });
        frame.end_pass();
        frame.record_overlay();
        proof {
            assert(frame.commands@ =~= start + debug_commands(*r));
        }
    }
}

impl State {
    /// Runs one frame. `acquired` is the outcome of acquiring the
    /// presentation target. On success the passes record, in order, the
    /// shadow, composite and debug passes into one encoder, which is
    /// submitted once, and the target is presented. On failure the frame
    /// is aborted with that error: nothing is recorded or submitted and the
    /// renderer is left as it was. The returned frame holds what the backend
    /// replays.
    pub fn render(&mut self, acquired: Result<(), SurfaceError>, meshes: &Vec<MeshDraw>) -> (r: (FrameOutcome, FrameContext))
        requires
            old(self).wf(),
        ensures
            final(self).wf(),
            r.1.wf(),
            acquired matches Err(e) ==> {
                &&& r.0 == FrameOutcome::Aborted(e)
                &&& r.1.stage == FrameStage::Aborted
                &&& r.1.commands@.len() == 0
                &&& draw_count(r.1.commands@) == 0
                &&& !r.1.submitted
                &&& *final(self) == *old(self)
            },
            acquired is Ok ==> {
                &&& r.0 == FrameOutcome::Presented
                &&& r.1.stage == FrameStage::Presented
                &&& r.1.submitted
                &&& r.1.commands@ == shadow_commands(*old(self), meshes@) + forward_commands(*old(self))
                    + debug_commands(*final(self))
                &&& final(self).shows(old(self).debug_texture as int)
                &&& final(self).debug_texture == old(self).debug_texture
                &&& final(self).registry == old(self).registry
                &&& final(self).surface == old(self).surface
                &&& final(self).pipelines == old(self).pipelines
                &&& final(self).device.live_count == old(self).device.live_count
                &&& final(self).device.next_id == old(self).device.next_id
                &&& same_layouts(final(self).bind_groups, old(self).bind_groups)
                &&& final(self).bind_groups.debug.bind_group == old(self).bind_groups.debug.bind_group
                &&& final(self).bind_groups.shadow == old(self).bind_groups.shadow
                &&& final(self).bind_groups.uniform == old(self).bind_groups.uniform
                &&& final(self).bind_groups.lighting == old(self).bind_groups.lighting
                &&& final(self).bind_groups.deferred == old(self).bind_groups.deferred
            },
    {
        let mut frame = FrameContext::new();
        frame.acquire(acquired);
        frame.begin_encoding();
        RenderShadowPass.run(self, &mut frame, meshes);
        RenderForwardPass.run(self, &mut frame);
        RenderUIPass.run(self, &mut frame);
        frame.submit();
        let outcome = frame.present();
        proof {
            if acquired is Err {
                assert(draw_count(frame.commands@) == 0);
            } else {
                assert(frame.commands@ =~= shadow_commands(*old(self), meshes@) + forward_commands(*old(self))
                    + debug_commands(*self));
            }
        }
        (outcome, frame)
    }
}

} // verus!
