//! Properties that relate several calls, stated over the functions' own
//! contracts and proved.
use vstd::prelude::*;
use crate::device::{GpuDevice, SurfaceConfig};
use crate::registry::{ResourceRegistry, ResourceKey};
use crate::bindgroups::{BindGroupKind, allocation_step, planned};
use crate::container::BindGroupContainer;
use crate::renderer::{State, selection_step, inspectable, INSPECTABLE_COUNT};

verus! {

/// Allocating a concern's resources a second time, with no resize between,
/// leaves the registry well formed and holding allocations of the same
/// descriptions under the same keys as the first time, with as many live
/// allocations: each one is replaced and released, none is added.
pub proof fn allocate_resources_twice(
    kind: BindGroupKind,
    surface: SurfaceConfig,
    dev0: GpuDevice,
    reg0: ResourceRegistry,
    dev1: GpuDevice,
    reg1: ResourceRegistry,
    dev2: GpuDevice,
    reg2: ResourceRegistry,
)
    requires
        reg0.wf(&dev0),
        allocation_step(kind, surface, dev0, reg0, dev1, reg1),
        allocation_step(kind, surface, dev1, reg1, dev2, reg2),
    ensures
        reg2.wf(&dev2),
        reg2.same_shape(&reg1),
        dev2.live_count == dev1.live_count,
        dev2.live@.len() == dev1.live@.len(),
{
    assert forall|k: ResourceKey| planned(kind, surface, k) is Some implies #[trigger] reg1.entry(k) is Some by {
        assert(reg1.desc_of(k) is Some);
    }
    assert forall|k: ResourceKey| #[trigger] reg2.desc_of(k) == reg1.desc_of(k) by {}
}

/// Rebuilding a layout, and with it the container bound against it, over
/// backing allocations that did not change gives a container that binds
/// the very same allocations, slot by slot.
pub proof fn rebuilt_container_binds_same(c1: BindGroupContainer, c2: BindGroupContainer, reg: ResourceRegistry)
    requires
        c1.kind == c2.kind,
        c1.shown == c2.shown,
        c1.current_in(reg),
        c2.current_in(reg),
    ensures
        c1.bound() == c2.bound(),
{
}

/// Selecting the `k`-th and then the `k + 1`-th inspectable texture leaves
/// the debug viewer bound to what the registry holds under the latter, not
/// to anything of the former, and no container bound to a stale handle.
pub proof fn debug_rebind_follows_selection(r0: State, k: int, r1: State, r2: State)
    requires
        0 <= k,
        k + 1 < INSPECTABLE_COUNT,
        selection_step(r0, k, r1),
        selection_step(r1, k + 1, r2),
    ensures
        r2.shows(k + 1),
        r2.bind_groups.debug.bound()[0].key != ResourceKey::View(inspectable(k)),
        r2.no_stale_bindings(),
{
}

} // verus!
