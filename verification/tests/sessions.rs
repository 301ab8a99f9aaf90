use threebug::entity::{DebugEntity, Vec3Bits};
use threebug::registry::EntityRegistry;
use threebug::session::Session;
use threebug::table::Sessions;

fn entity() -> DebugEntity {
    DebugEntity::new_aabb_entity(
        Vec3Bits { x: 0, y: 0, z: 0 },
        Vec3Bits { x: 1, y: 1, z: 1 },
    )
}

#[test]
fn assigned_ids_are_unique_and_increasing() {
    let mut registry = EntityRegistry::new();
    let mut ids = Vec::new();
    for _ in 0..100 {
        let mut e = entity();
        registry.assign_id(&mut e);
        ids.push(e.id.unwrap());
    }
    for i in 1..ids.len() {
        assert!(ids[i - 1] < ids[i]);
    }
}

#[test]
fn assign_id_is_idempotent() {
    let mut registry = EntityRegistry::new();
    let mut e = entity();
    registry.assign_id(&mut e);
    let first = e.id;
    registry.assign_id(&mut e);
    assert_eq!(e.id, first);
    // The counter did not advance for the second, assigning call either:
    // the next fresh entity receives the next id, not one further on.
    let mut f = entity();
    registry.assign_id(&mut f);
    assert_eq!(f.id, Some(first.unwrap() + 1));
}

#[test]
fn advisory_id_is_kept() {
    let mut registry = EntityRegistry::new();
    let mut e = entity();
    e.id = Some(55);
    registry.assign_id(&mut e);
    assert_eq!(e.id, Some(55));
}

#[test]
fn push_marks_dirty_and_keeps_order() {
    let mut s = Session::new(1);
    assert!(!s.is_dirty());
    assert_eq!(s.len(), 0);
    let a = entity();
    let mut b = entity();
    b.id = Some(9);
    s.push(a);
    s.push(b);
    assert!(s.is_dirty());
    assert_eq!(s.len(), 2);
    assert_eq!(s.entities()[0], a);
    assert_eq!(s.entities()[1], b);
}

#[test]
fn clean_after_full_consumption_clears_dirty() {
    let mut s = Session::new(1);
    s.push(entity());
    let observed = s.generation();
    s.clean(observed);
    assert!(!s.is_dirty());
}

#[test]
fn concurrent_push_is_not_lost_by_clean() {
    // The consumer observes the generation, a producer's push lands, then
    // the consumer cleans what it observed: the push must stay visible.
    let mut s = Session::new(1);
    s.push(entity());
    let observed = s.generation();
    s.push(entity()); // interleaved push
    s.clean(observed);
    assert!(s.is_dirty());

    // The same interleaving with the clean first: still dirty afterwards.
    let mut s = Session::new(2);
    s.push(entity());
    let observed = s.generation();
    s.clean(observed);
    s.push(entity());
    assert!(s.is_dirty());

    // A stale, reordered clean cannot resurrect consumed state either.
    let mut s = Session::new(3);
    s.push(entity());
    let early = s.generation();
    s.push(entity());
    let late = s.generation();
    s.clean(late);
    s.clean(early);
    assert!(!s.is_dirty());
}

#[test]
fn remove_then_get_is_absent() {
    let mut table = Sessions::new();
    table.insert(Session::new(4));
    assert!(table.get(4).is_some());
    assert!(table.get_mut(4).is_some());
    table.remove(4);
    assert!(table.get(4).is_none());
    assert!(table.get_mut(4).is_none());
    assert!(!table.contains(4));
}

#[test]
fn mutation_through_get_mut_sticks() {
    let mut table = Sessions::new();
    table.handle_connect(4);
    let session = table.get_mut(4).unwrap();
    session.push(entity());
    assert!(table.get(4).unwrap().is_dirty());
    assert_eq!(table.get(4).unwrap().len(), 1);
    let current = table.current_session_mut().unwrap();
    let observed = current.generation();
    current.clean(observed);
    assert!(!table.get(4).unwrap().is_dirty());
}

#[test]
fn insert_same_connection_replaces_the_session() {
    let mut table = Sessions::new();
    let mut s = Session::new(4);
    s.push(entity());
    table.insert(s);
    assert_eq!(table.get(4).unwrap().len(), 1);
    table.insert(Session::new(4));
    assert_eq!(table.get(4).unwrap().len(), 0);
    assert_eq!(table.len(), 1);
}

#[test]
fn selection_is_a_soft_pointer() {
    let mut table = Sessions::new();
    table.handle_connect(4);
    assert_eq!(table.current_connection(), Some(4));
    assert_eq!(table.current_session().unwrap().id(), 4);
    table.remove(4);
    // The stale selection resolves to absent instead of dangling.
    assert_eq!(table.selected(), Some(4));
    assert_eq!(table.current_connection(), None);
    assert!(table.current_session().is_none());
}

#[test]
fn unknown_connection_message_is_dropped() {
    let mut table = Sessions::new();
    let mut registry = EntityRegistry::new();
    table.handle_connect(1);
    let delivered = table.handle_message(&mut registry, 2, entity());
    assert!(!delivered);
    assert_eq!(table.get(1).unwrap().len(), 0);
    // The registry did not advance for the dropped message.
    let mut e = entity();
    registry.assign_id(&mut e);
    assert_eq!(e.id, Some(0));
}
