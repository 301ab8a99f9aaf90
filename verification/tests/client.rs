use threebug::entity::{DebugEntity, ParryDebugEntityType, Vec3Bits};

#[test]
fn it_works() {}

#[test]
fn init_runs() {
    threebug::init();
}

#[test]
fn aabb_entity_starts_bare() {
    let mins = Vec3Bits { x: (-1.0f32).to_bits(), y: 0, z: 3 };
    let maxs = Vec3Bits { x: 1.0f32.to_bits(), y: 9, z: 4 };
    let e = DebugEntity::new_aabb_entity(mins, maxs);
    assert_eq!(e.id, None);
    assert_eq!(e.visual_handle, None);
    assert_eq!(e.entity_type, ParryDebugEntityType::Aabb { mins, maxs });
}

#[test]
fn with_visual_handle_sets_only_the_handle() {
    let mins = Vec3Bits { x: 1, y: 2, z: 3 };
    let maxs = Vec3Bits { x: 4, y: 5, z: 6 };
    let e = DebugEntity::new_aabb_entity(mins, maxs);
    let h = e.with_visual_handle(42);
    assert_eq!(h.visual_handle, Some(42));
    assert_eq!(h.id, e.id);
    assert_eq!(h.entity_type, e.entity_type);
}
