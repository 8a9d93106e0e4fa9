use horizon::frame::PassKind;
use horizon::schedule::{conflicts, declared_access, Access, SharedResource};

#[test]
fn every_two_passes_conflict() {
    let passes = [PassKind::Shadow, PassKind::Composite, PassKind::Debug];
    for a in passes {
        for b in passes {
            assert!(conflicts(&declared_access(a), &declared_access(b)));
        }
    }
}

#[test]
fn unrelated_systems_do_not_conflict() {
    let physics = vec![];
    assert!(!conflicts(&declared_access(PassKind::Shadow), &physics));
    let reader = vec![(SharedResource::Registry, Access::Read), (SharedResource::Pipelines, Access::Read)];
    assert!(!conflicts(&declared_access(PassKind::Composite), &reader));
    assert!(!conflicts(&reader, &reader));
}

#[test]
fn debug_pass_writes_what_others_read() {
    let device_reader = vec![(SharedResource::Device, Access::Read)];
    assert!(conflicts(&declared_access(PassKind::Debug), &device_reader));
    assert!(!conflicts(&declared_access(PassKind::Shadow), &device_reader));
    let bind_group_reader = vec![(SharedResource::BindGroups, Access::Read)];
    assert!(conflicts(&bind_group_reader, &declared_access(PassKind::Debug)));
}
