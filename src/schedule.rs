//! The scheduling contract between passes: each pass declares which shared
//! resources it reads and writes, and two passes whose declarations clash
//! run one after the other.
use vstd::prelude::*;
use crate::frame::PassKind;

verus! {

/// The frame-scoped resources passes share.
#[derive(Clone, Copy, PartialEq, Eq, Structural, Debug)]
pub enum SharedResource {
    Device,
    Registry,
    BindGroups,
    Pipelines,
    /// The frame context: its encoder and result flag.
    Frame,
}

#[derive(Clone, Copy, PartialEq, Eq, Structural, Debug)]
pub enum Access {
    Read,
    Write,
}

/// What each pass reads and writes. The debug pass rebinds the debug
/// viewer, so it writes the bind groups and the device.
pub open spec fn declared(pass: PassKind) -> Seq<(SharedResource, Access)> {
    match pass {
        PassKind::Shadow | PassKind::Composite => seq![
            (SharedResource::Registry, Access::Read),
            (SharedResource::BindGroups, Access::Read),
            (SharedResource::Pipelines, Access::Read),
            (SharedResource::Frame, Access::Write),
        ],
        PassKind::Debug => seq![
            (SharedResource::Device, Access::Write),
            (SharedResource::Registry, Access::Read),
            (SharedResource::BindGroups, Access::Write),
            (SharedResource::Pipelines, Access::Read),
            (SharedResource::Frame, Access::Write),
        ],
    }
}

/// One declaration writes what the other touches.
pub open spec fn clash(a: (SharedResource, Access), b: (SharedResource, Access)) -> bool {
    a.0 == b.0 && (a.1 == Access::Write || b.1 == Access::Write)
}

/// Systems with declarations `a` and `b` may not run at the same time.
pub open spec fn conflict(a: Seq<(SharedResource, Access)>, b: Seq<(SharedResource, Access)>) -> bool {
    exists|i: int, j: int| 0 <= i < a.len() && 0 <= j < b.len() && #[trigger] clash(a[i], b[j])
}

/// The declarations of `pass`, as `declared` lists them.
pub fn declared_access(pass: PassKind) -> (r: Vec<(SharedResource, Access)>)
    ensures
        r@ == declared(pass),
{
    let mut v: Vec<(SharedResource, Access)> = Vec::new();
    match pass {
        PassKind::Shadow | PassKind::Composite => {
            v.push((SharedResource::Registry, Access::Read));
            v.push((SharedResource::BindGroups, Access::Read));
            v.push((SharedResource::Pipelines, Access::Read));
            v.push((SharedResource::Frame, Access::Write));
        },
        PassKind::Debug => {
            v.push((SharedResource::Device, Access::Write));
            v.push((SharedResource::Registry, Access::Read));
            v.push((SharedResource::BindGroups, Access::Write));
            v.push((SharedResource::Pipelines, Access::Read));
            v.push((SharedResource::Frame, Access::Write));
        },
    }
    proof {
        assert(v@ =~= declared(pass));
    }
    v
}

/// Whether declarations `da` and `db` clash, so that a scheduler must run
/// their systems one after the other.
pub fn conflicts(da: &Vec<(SharedResource, Access)>, db: &Vec<(SharedResource, Access)>) -> (r: bool)
    ensures
        r == conflict(da@, db@),
{
    let mut i: usize = 0;
    while i < da.len()
        invariant
            i <= da@.len(),
            forall|x: int, y: int| 0 <= x < i && 0 <= y < db@.len() ==> !#[trigger] clash(da@[x], db@[y]),
        decreases da@.len() - i,
    {
        let mut j: usize = 0;
        while j < db.len()
            invariant
                i < da@.len(),
                j <= db@.len(),
                forall|x: int, y: int| 0 <= x < i && 0 <= y < db@.len() ==> !#[trigger] clash(da@[x], db@[y]),
                forall|y: int| 0 <= y < j ==> !#[trigger] clash(da@[i as int], db@[y]),
            decreases db@.len() - j,
        {
            let (ra, aa) = da[i];
            let (rb, ab) = db[j];
            if ra == rb && (aa == Access::Write || ab == Access::Write) {
                proof {
                    assert(clash(da@[i as int], db@[j as int]));
                }
                return true;
            }
            j = j + 1;
        }
        i = i + 1;
    }
    false
}

/// Every pass writes the frame's encoder, so no two passes of a frame may
/// run at the same time: a scheduler serializes them.
pub proof fn passes_are_serialized(a: PassKind, b: PassKind)
    ensures
        conflict(declared(a), declared(b)),
{
    let ia = declared(a).len() - 1;
    let ib = declared(b).len() - 1;
    assert(clash(declared(a)[ia], declared(b)[ib]));
}

} // verus!
