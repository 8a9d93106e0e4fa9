//! The pipeline family: fixed-function state per pipeline and the layouts
//! each one is built from.
use vstd::prelude::*;
use crate::device::{GpuDevice, Handle, ObjectKind, DeviceOp, TextureFormat, CompareFunction};
use crate::bindgroups::BindGroupKind;

verus! {

#[derive(Clone, Copy, PartialEq, Eq, Structural, Debug)]
pub enum PipelineKind {
    /// Depth-only draw of the scene from a light.
    Shadow,
    /// Full-screen composite of the deferred attachments.
    Forward,
    /// Full-screen blit of one texture into the debug viewport.
    Texture,
    /// Forward draw of the light markers over the scene.
    Light,
}

/// The vertex stream a pipeline reads.
#[derive(Clone, Copy, PartialEq, Eq, Debug)]
pub enum VertexLayout {
    /// Model vertices: position, texture coordinate and normal.
    Model,
    /// Full-screen quad vertices: position and texture coordinate.
    Quad,
}

#[derive(Clone, Copy, PartialEq, Eq, Debug)]
pub enum CullMode {
    Front,
    Back,
}

#[derive(Clone, Copy, PartialEq, Eq, Debug)]
pub enum Topology {
    TriangleList,
}

/// Depth bias in whole units: `constant` in depth-buffer steps and
/// `slope_scale` as a factor of the polygon's depth slope.
#[derive(Clone, Copy, PartialEq, Eq, Debug)]
pub struct DepthBias {
    pub constant: i32,
    pub slope_scale: u32,
}

#[derive(Clone, Copy, PartialEq, Eq, Debug)]
pub struct DepthState {
    pub format: TextureFormat,
    pub compare: CompareFunction,
    pub write: bool,
    pub bias: DepthBias,
}

/// The fixed-function state of a pipeline. `color_target` is `None` for a
/// pipeline without a fragment stage.
#[derive(Clone, Copy, PartialEq, Eq, Debug)]
pub struct PipelineState {
    pub vertex: VertexLayout,
    pub color_target: Option<TextureFormat>,
    pub depth: Option<DepthState>,
    pub cull: CullMode,
    pub topology: Topology,
}

/// The depth compare the shadow map is written and sampled with; the shadow
/// pass clears depth to the far plane.
pub open spec fn shadow_depth() -> DepthState {
    DepthState {
        format: TextureFormat::Depth32Float,
        compare: CompareFunction::LessEqual,
        write: true,
        bias: DepthBias { constant: 2, slope_scale: 2 },
    }
}

/// The fixed-function state of each pipeline; `surface` is the format of
/// the presentation surface.
pub open spec fn pipeline_state(kind: PipelineKind, surface: TextureFormat) -> PipelineState {
    match kind {
        PipelineKind::Shadow => PipelineState {
            vertex: VertexLayout::Model,
            color_target: None,
            depth: Some(shadow_depth()),
            cull: CullMode::Front,
            topology: Topology::TriangleList,
        },
        PipelineKind::Forward => PipelineState {
            vertex: VertexLayout::Quad,
            color_target: Some(surface),
            depth: None,
            cull: CullMode::Back,
            topology: Topology::TriangleList,
        },
        PipelineKind::Texture => PipelineState {
            vertex: VertexLayout::Quad,
            color_target: Some(TextureFormat::Bgra8Unorm),
            depth: None,
            cull: CullMode::Back,
            topology: Topology::TriangleList,
        },
        PipelineKind::Light => PipelineState {
            vertex: VertexLayout::Model,
            color_target: Some(surface),
            depth: None,
            cull: CullMode::Back,
            topology: Topology::TriangleList,
        },
    }
}

/// The bind-group layouts each pipeline binds, in slot order.
pub open spec fn pipeline_layouts(kind: PipelineKind) -> Seq<BindGroupKind> {
    match kind {
        PipelineKind::Shadow => seq![BindGroupKind::Shadow],
        PipelineKind::Forward => seq![BindGroupKind::Deferred, BindGroupKind::Uniform, BindGroupKind::Lighting],
        PipelineKind::Texture => seq![BindGroupKind::DebugTexture],
        PipelineKind::Light => seq![BindGroupKind::Uniform, BindGroupKind::Lighting],
    }
}

/// The kinds of the given layouts, in order.
pub open spec fn layout_kinds(layouts: Seq<(BindGroupKind, Handle)>) -> Seq<BindGroupKind> {
    layouts.map_values(|l: (BindGroupKind, Handle)| l.0)
}

/// A compiled pipeline. Nothing changes it after it is built: a new layout
/// takes a new pipeline.
pub struct RenderPipeline {
    handle: Handle,
    kind: PipelineKind,
    state: PipelineState,
    layouts: Vec<Handle>,
}

impl RenderPipeline {
    pub closed spec fn spec_handle(&self) -> Handle {
        self.handle
    }

    pub closed spec fn spec_kind(&self) -> PipelineKind {
        self.kind
    }

    pub closed spec fn spec_state(&self) -> PipelineState {
        self.state
    }

    /// The layouts the pipeline was built from, in slot order.
    pub closed spec fn spec_layouts(&self) -> Seq<Handle> {
        self.layouts@
    }

    pub fn handle(&self) -> (r: Handle)
        ensures
            r == self.spec_handle(),
    {
        self.handle
    }

    pub fn kind(&self) -> (r: PipelineKind)
        ensures
            r == self.spec_kind(),
    {
        self.kind
    }

    pub fn state(&self) -> (r: PipelineState)
        ensures
            r == self.spec_state(),
    {
        self.state
    }

    pub fn layout_at(&self, i: usize) -> (r: Option<Handle>)
        ensures
            i < self.spec_layouts().len() ==> r == Some(self.spec_layouts()[i as int]),
            i >= self.spec_layouts().len() ==> r is None,
    {
        if i < self.layouts.len() {
            Some(self.layouts[i])
        } else {
            None
        }
    }
}

impl PipelineKind {
    /// The fixed-function state of this pipeline, as `pipeline_state` gives
    /// it.
    pub fn state(&self, surface: TextureFormat) -> (r: PipelineState)
        ensures
            r == pipeline_state(*self, surface),
    {
        match self {
            PipelineKind::Shadow => PipelineState {
                vertex: VertexLayout::Model,
                color_target: None,
                depth: Some(DepthState {
                    format: TextureFormat::Depth32Float,
                    compare: CompareFunction::LessEqual,
                    write: true,
                    bias: DepthBias { constant: 2, slope_scale: 2 },
                }),
                cull: CullMode::Front,
                topology: Topology::TriangleList,
            },
            PipelineKind::Forward => PipelineState {
                vertex: VertexLayout::Quad,
                color_target: Some(surface),
                depth: None,
                cull: CullMode::Back,
                topology: Topology::TriangleList,
            },
            PipelineKind::Texture => PipelineState {
                vertex: VertexLayout::Quad,
                color_target: Some(TextureFormat::Bgra8Unorm),
                depth: None,
                cull: CullMode::Back,
                topology: Topology::TriangleList,
            },
            PipelineKind::Light => PipelineState {
                vertex: VertexLayout::Model,
                color_target: Some(surface),
                depth: None,
                cull: CullMode::Back,
                topology: Topology::TriangleList,
            },
        }
    }

    /// Builds this pipeline from `layouts`, each a layout's concern and
    /// handle. They must be the concerns `pipeline_layouts` names, in that
    /// order: other layouts are a configuration error, which callers rule
    /// out before the build.
    pub fn create_pipeline(&self, dev: &mut GpuDevice, layouts: &Vec<(BindGroupKind, Handle)>, surface: TextureFormat)
        -> (p: RenderPipeline)
        requires
            old(dev).wf(),
            old(dev).headroom() >= 1,
            layout_kinds(layouts@) == pipeline_layouts(*self),
        ensures
            final(dev).wf(),
            final(dev).live@ == old(dev).live@,
            final(dev).live_count == old(dev).live_count,
            p.spec_handle().id == old(dev).next_id,
            p.spec_kind() == *self,
            p.spec_state() == pipeline_state(*self, surface),
            p.spec_layouts() == layouts@.map_values(|l: (BindGroupKind, Handle)| l.1),
            final(dev).next_id == old(dev).next_id + 1,
            final(dev).ops@ == old(dev).ops@.push(DeviceOp::CreateObject { id: old(dev).next_id, what: ObjectKind::Pipeline }),
    {
        let mut handles: Vec<Handle> = Vec::new();
        let mut i: usize = 0;
        while i < layouts.len()
            invariant
                i <= layouts@.len(),
                handles@.len() == i,
                forall|j: int| 0 <= j < i ==> #[trigger] handles@[j] == layouts@[j].1,
            decreases layouts@.len() - i,
        {
            handles.push(layouts[i].1);
            i = i + 1;
        }
        proof {
            assert(handles@ =~= layouts@.map_values(|l: (BindGroupKind, Handle)| l.1));
        }
        let handle = dev.create_object(ObjectKind::Pipeline);
        RenderPipeline { handle, kind: *self, state: self.state(surface), layouts: handles }
    }
}

} // verus!
