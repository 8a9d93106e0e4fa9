//! The graphics device as this library sees it: an issuer of handles and a
//! log of the creations and releases that a backend carries out.
use vstd::prelude::*;

verus! {

/// wgpu's `BufferUsages` bits that the renderer uses.
pub const BUFFER_COPY_DST: u32 = 8;
pub const BUFFER_VERTEX: u32 = 32;
pub const BUFFER_UNIFORM: u32 = 64;
pub const BUFFER_STORAGE: u32 = 128;

/// wgpu's `TextureUsages` bits that the renderer uses.
pub const TEXTURE_BINDING: u32 = 4;
pub const TEXTURE_RENDER_ATTACHMENT: u32 = 16;

/// An opaque name for one object that lives on the device.
#[derive(Clone, Copy, PartialEq, Eq, Debug)]
pub struct Handle {
    pub id: u64,
}

#[derive(Clone, Copy, PartialEq, Eq, Debug)]
pub enum TextureFormat {
    Depth32Float,
    Bgra8Unorm,
    Bgra8UnormSrgb,
    Rgba8Unorm,
    Rgba16Float,
    Rgba32Float,
}

#[derive(Clone, Copy, PartialEq, Eq, Debug)]
pub enum CompareFunction {
    Never,
    Less,
    Equal,
    LessEqual,
    Greater,
    NotEqual,
    GreaterEqual,
    Always,
}

#[derive(Clone, Copy, PartialEq, Eq, Debug)]
pub enum FilterMode {
    Nearest,
    Linear,
}

#[derive(Clone, Copy, PartialEq, Eq, Debug)]
pub struct BufferDesc {
    /// Size in bytes.
    pub size: u64,
    pub usage: u32,
}

/// A two-dimensional texture with `layers` array layers, created together
/// with the default view over all of its layers.
#[derive(Clone, Copy, PartialEq, Eq, Debug)]
pub struct TextureDesc {
    pub width: u32,
    pub height: u32,
    pub layers: u32,
    pub format: TextureFormat,
    pub usage: u32,
}

#[derive(Clone, Copy, PartialEq, Eq, Debug)]
pub struct SamplerDesc {
    pub filter: FilterMode,
    pub compare: Option<CompareFunction>,
}

/// A GPU allocation: what a registry slot holds.
#[derive(Clone, Copy, PartialEq, Eq, Debug)]
pub enum ResourceDesc {
    Buffer(BufferDesc),
    Texture(TextureDesc),
    Sampler(SamplerDesc),
}

/// What a binding object is; its full description stays with the value
/// (container or pipeline) that holds its handle.
#[derive(Clone, Copy, PartialEq, Eq, Debug)]
pub enum ObjectKind {
    BindGroupLayout,
    BindGroup,
    Pipeline,
}

/// One request to the backend.
#[derive(Clone, Copy, PartialEq, Eq, Debug)]
pub enum DeviceOp {
    /// Allocate the resource `desc` and know it as `id` from now on.
    CreateResource { id: u64, desc: ResourceDesc },
    /// Free the allocation known as `id`.
    ReleaseResource { id: u64 },
    /// Bring into being a binding object whose description the caller holds
    /// under `id`.
    CreateObject { id: u64, what: ObjectKind },
    /// Drop the binding object known as `id`.
    ReleaseObject { id: u64 },
}

/// The device model. Every handle it gives out is new. `live` is the set of
/// allocations that have been created and not yet released; `live_count`
/// counts them at run time.
pub struct GpuDevice {
    pub next_id: u64,
    pub live_count: u64,
    pub ops: Vec<DeviceOp>,
    pub live: Ghost<Set<u64>>,
}

impl GpuDevice {
    pub open spec fn wf(&self) -> bool {
        &&& self.live@.finite()
        &&& self.live@.len() == self.live_count
        &&& self.live_count <= self.next_id
        &&& forall|id: u64| #[trigger] self.live@.contains(id) ==> id < self.next_id
    }

    /// How many more handles can be issued.
    pub open spec fn headroom(&self) -> int {
        u64::MAX - self.next_id
    }

    pub fn new() -> (r: GpuDevice)
        ensures
            r.wf(),
            r.next_id == 0,
            r.live@ == Set::<u64>::empty(),
            r.live_count == 0,
            r.ops@ == Seq::<DeviceOp>::empty(),
    {
        GpuDevice { next_id: 0, live_count: 0, ops: Vec::new(), live: Ghost(Set::empty()) }
    }

    /// Allocates a resource of `desc` under a new handle.
    pub fn create_resource(&mut self, desc: ResourceDesc) -> (h: Handle)
        requires
            old(self).wf(),
            old(self).headroom() >= 1,
        ensures
            final(self).wf(),
            h.id == old(self).next_id,
            final(self).next_id == old(self).next_id + 1,
            final(self).live@ == old(self).live@.insert(h.id),
            !old(self).live@.contains(h.id),
            final(self).live_count == old(self).live_count + 1,
            final(self).ops@ == old(self).ops@.push(DeviceOp::CreateResource { id: h.id, desc }),
    {
        let id = self.next_id;
        proof {
            assert(!self.live@.contains(id));
        }
        self.next_id = id + 1;
        self.live_count = self.live_count + 1;
        self.ops.push(DeviceOp::CreateResource { id, desc });
        self.live = Ghost(self.live@.insert(id));
        Handle { id }
    }

    /// Frees the allocation `h`, which must be live.
    pub fn release_resource(&mut self, h: Handle)
        requires
            old(self).wf(),
            old(self).live@.contains(h.id),
        ensures
            final(self).wf(),
            final(self).next_id == old(self).next_id,
            final(self).live@ == old(self).live@.remove(h.id),
            final(self).live_count == old(self).live_count - 1,
            final(self).ops@ == old(self).ops@.push(DeviceOp::ReleaseResource { id: h.id }),
    {
        proof {
            assert(self.live_count > 0) by {
                if self.live_count == 0 {
                    vstd::set_lib::lemma_set_empty_equivalency_len(self.live@);
                }
            }
        }
        self.live_count = self.live_count - 1;
        self.ops.push(DeviceOp::ReleaseResource { id: h.id });
        self.live = Ghost(self.live@.remove(h.id));
    }

    /// Issues a handle for a new binding object.
    pub fn create_object(&mut self, what: ObjectKind) -> (h: Handle)
        requires
            old(self).wf(),
            old(self).headroom() >= 1,
        ensures
            final(self).wf(),
            h.id == old(self).next_id,
            final(self).next_id == old(self).next_id + 1,
            final(self).live@ == old(self).live@,
            final(self).live_count == old(self).live_count,
            final(self).ops@ == old(self).ops@.push(DeviceOp::CreateObject { id: h.id, what }),
    {
        let id = self.next_id;
        self.next_id = id + 1;
        self.ops.push(DeviceOp::CreateObject { id, what });
        Handle { id }
    }

    /// Replaces the binding object `h` by a new one known under the same
    /// handle: the old object is dropped and a new one of kind `what` made.
    /// No handle is issued.
    pub fn recreate_object(&mut self, h: Handle, what: ObjectKind)
        requires
            old(self).wf(),
        ensures
            final(self).wf(),
            final(self).next_id == old(self).next_id,
            final(self).live@ == old(self).live@,
            final(self).live_count == old(self).live_count,
            final(self).ops@ == old(self).ops@.push(DeviceOp::ReleaseObject { id: h.id })
                .push(DeviceOp::CreateObject { id: h.id, what }),
    {
        self.ops.push(DeviceOp::ReleaseObject { id: h.id });
        self.ops.push(DeviceOp::CreateObject { id: h.id, what });
    }

    /// Hands over the requests made since the last call, oldest first, and
    /// empties the log. Nothing else changes.
    pub fn take_ops(&mut self) -> (r: Vec<DeviceOp>)
        requires
            old(self).wf(),
        ensures
            final(self).wf(),
            r@ == old(self).ops@,
            final(self).ops@.len() == 0,
            final(self).next_id == old(self).next_id,
            final(self).live@ == old(self).live@,
            final(self).live_count == old(self).live_count,
    {
        let mut r: Vec<DeviceOp> = Vec::new();
        core::mem::swap(&mut r, &mut self.ops);
        r
    }
}

} // verus!

verus! {

/// wgpu's default limit on a two-dimensional texture's width and height.
pub const MAX_TEXTURE_DIMENSION: u32 = 8192;

/// The presentation surface: its pixel size and format.
#[derive(Clone, Copy, PartialEq, Eq, Debug)]
pub struct SurfaceConfig {
    pub width: u32,
    pub height: u32,
    pub format: TextureFormat,
}

/// A pixel size that surface-sized textures can take.
pub open spec fn valid_size(width: u32, height: u32) -> bool {
    1 <= width <= MAX_TEXTURE_DIMENSION && 1 <= height <= MAX_TEXTURE_DIMENSION
}

} // verus!
