use threebug::codec::{decode_entity, deframe_message, encode_entity, frame_message};
use threebug::entity::{DebugEntity, ParryDebugEntityType, Vec3Bits};
use threebug::registry::EntityRegistry;
use threebug::table::Sessions;
use threebug::view::{RenderOp, SessionsState};

fn entity(tag: u32) -> DebugEntity {
    DebugEntity::new_aabb_entity(
        Vec3Bits { x: tag, y: 0, z: 0 },
        Vec3Bits { x: tag, y: 1, z: 1 },
    )
}

#[test]
fn refresh_spawns_only_the_new_entity() {
    let mut table = Sessions::new();
    let mut registry = EntityRegistry::new();
    let mut view = SessionsState::new();

    table.handle_connect(1);
    assert!(table.handle_message(&mut registry, 1, entity(10)));
    assert!(table.handle_message(&mut registry, 1, entity(11)));

    // First tick renders both entities; the collaborator reports handles.
    let ops = view.tick(&mut table);
    assert_eq!(ops.len(), 2);
    view.record_spawn(&mut table, 1, 0, 100);
    view.record_spawn(&mut table, 1, 1, 101);

    // A third entity arrives: the session is dirty again.
    assert!(table.handle_message(&mut registry, 1, entity(12)));
    assert!(table.get(1).unwrap().is_dirty());

    // The refresh emits exactly one spawn, for the new entity only.
    let ops = view.tick(&mut table);
    assert_eq!(ops.len(), 1);
    match ops[0] {
        RenderOp::Spawn { connection_id, index, entity } => {
            assert_eq!(connection_id, 1);
            assert_eq!(index, 2);
            assert_eq!(entity.id, Some(2));
            assert_eq!(entity.visual_handle, None);
            assert_eq!(
                entity.entity_type,
                ParryDebugEntityType::Aabb {
                    mins: Vec3Bits { x: 12, y: 0, z: 0 },
                    maxs: Vec3Bits { x: 12, y: 1, z: 1 },
                }
            );
        }
        RenderOp::Despawn { .. } => panic!("a refresh must not despawn"),
    }
    assert!(!table.get(1).unwrap().is_dirty());
}

#[test]
fn swap_despawns_previous_then_spawns_new_in_order() {
    let mut table = Sessions::new();
    let mut registry = EntityRegistry::new();
    let mut view = SessionsState::new();

    // Session 1 with one entity is rendered.
    table.handle_connect(1);
    assert!(table.handle_message(&mut registry, 1, entity(10)));
    let ops = view.tick(&mut table);
    assert_eq!(ops.len(), 1);
    view.record_spawn(&mut table, 1, 0, 100);
    assert_eq!(view.last_rendered(), Some(1));

    // Session 2 connects (most-recently-connected policy selects it) and
    // sends two entities.
    table.handle_connect(2);
    assert!(table.handle_message(&mut registry, 2, entity(20)));
    assert!(table.handle_message(&mut registry, 2, entity(21)));

    let ops = view.tick(&mut table);
    assert_eq!(ops.len(), 3);
    assert_eq!(ops[0], RenderOp::Despawn { handle: 100 });
    match ops[1] {
        RenderOp::Spawn { connection_id, index, entity } => {
            assert_eq!((connection_id, index), (2, 0));
            assert_eq!(entity.id, Some(1));
        }
        _ => panic!("the first spawn must follow the despawn"),
    }
    match ops[2] {
        RenderOp::Spawn { connection_id, index, entity } => {
            assert_eq!((connection_id, index), (2, 1));
            assert_eq!(entity.id, Some(2));
        }
        _ => panic!("the second spawn must come last"),
    }
    assert_eq!(view.last_rendered(), Some(2));
    assert!(!table.get(2).unwrap().is_dirty());
}

#[test]
fn unchanged_clean_selection_is_a_noop() {
    let mut table = Sessions::new();
    let mut registry = EntityRegistry::new();
    let mut view = SessionsState::new();
    table.handle_connect(1);
    assert!(table.handle_message(&mut registry, 1, entity(10)));
    let _ = view.tick(&mut table);
    view.record_spawn(&mut table, 1, 0, 100);
    assert!(view.is_current(&table));
    let ops = view.tick(&mut table);
    assert!(ops.is_empty());
}

#[test]
fn removed_session_is_despawned_from_the_snapshot() {
    let mut table = Sessions::new();
    let mut registry = EntityRegistry::new();
    let mut view = SessionsState::new();
    table.handle_connect(1);
    assert!(table.handle_message(&mut registry, 1, entity(10)));
    let _ = view.tick(&mut table);
    view.record_spawn(&mut table, 1, 0, 100);

    // The producer disconnects: the session leaves the table before the
    // next tick, but the view still knows what it has on screen.
    table.remove(1);
    let ops = view.tick(&mut table);
    assert_eq!(ops, vec![RenderOp::Despawn { handle: 100 }]);
    assert_eq!(view.last_rendered(), None);
    assert!(view.rendered_handles().is_empty());
}

#[test]
fn view_state_steps_mirror_the_tick() {
    // The composed tick is equivalent to asking the individual questions:
    // is the rendered session current, what to despawn, what to spawn.
    let mut table = Sessions::new();
    let mut registry = EntityRegistry::new();
    let mut view = SessionsState::new();

    table.handle_connect(1);
    assert!(table.handle_message(&mut registry, 1, entity(10)));
    assert!(!view.is_current(&table));

    let despawns = view.despawn_current_session();
    assert!(despawns.is_empty());
    view.update_current_session(&table);
    assert_eq!(view.last_rendered(), Some(1));
    assert!(view.is_current(&table));

    let spawns = view.spawn_current_session(&table, false);
    assert_eq!(spawns.len(), 1);
    match spawns[0] {
        RenderOp::Spawn { connection_id, index, .. } => {
            assert_eq!((connection_id, index), (1, 0));
        }
        _ => panic!("a full spawn pass emits spawns only"),
    }
    view.record_spawn(&mut table, 1, 0, 100);

    // Incremental spawning skips what already carries a handle.
    let spawns = view.spawn_current_session(&table, true);
    assert!(spawns.is_empty());

    // Selecting nothing makes the rendered session stale.
    table.select(None);
    assert!(!view.is_current(&table));
    let despawns = view.despawn_current_session();
    assert_eq!(despawns, vec![RenderOp::Despawn { handle: 100 }]);
    assert!(view.rendered_handles().is_empty());
}

#[test]
fn producer_viewer_end_to_end() {
    // Producer side: connect and send one bounding box over the wire.
    let produced = DebugEntity::new_aabb_entity(
        Vec3Bits {
            x: (-1.0f32).to_bits(),
            y: (-1.0f32).to_bits(),
            z: (-1.0f32).to_bits(),
        },
        Vec3Bits {
            x: 1.0f32.to_bits(),
            y: 1.0f32.to_bits(),
            z: 1.0f32.to_bits(),
        },
    );
    let wire = frame_message(&encode_entity(&produced));

    // Viewer side: the connection X is accepted, the frame arrives.
    let conn_x = 17;
    let mut table = Sessions::new();
    let mut registry = EntityRegistry::new();
    let mut view = SessionsState::new();
    table.handle_connect(conn_x);

    let (payload, consumed) = deframe_message(&wire).unwrap();
    assert_eq!(consumed, wire.len());
    let received = decode_entity(&payload).unwrap();
    assert!(table.handle_message(&mut registry, conn_x, received));

    // The entity got id 0; the session is dirty and holds one entity.
    let session = table.get(conn_x).unwrap();
    assert!(session.is_dirty());
    assert_eq!(session.len(), 1);
    assert_eq!(session.entities()[0].id, Some(0));

    // First-ever render tick: a swap from none — no despawns, one spawn.
    let ops = view.tick(&mut table);
    assert_eq!(ops.len(), 1);
    match ops[0] {
        RenderOp::Spawn { connection_id, index, entity } => {
            assert_eq!((connection_id, index), (conn_x, 0));
            assert_eq!(entity.id, Some(0));
            assert_eq!(entity.entity_type, produced.entity_type);
        }
        _ => panic!("the first tick must spawn the received box"),
    }
    view.record_spawn(&mut table, conn_x, 0, 1000);
    assert!(!table.get(conn_x).unwrap().is_dirty());
    assert_eq!(
        table.get(conn_x).unwrap().entities()[0].visual_handle,
        Some(1000)
    );

    // The producer disconnects; the next tick despawns what was on screen.
    table.remove(conn_x);
    let ops = view.tick(&mut table);
    assert_eq!(ops, vec![RenderOp::Despawn { handle: 1000 }]);
    assert_eq!(view.last_rendered(), None);
}
