use std::sync::Arc;

use phlow::capability::PhlowRegistry;
use phlow::extensions::register_core_extensions;
use phlow::object::PhlowObject;
use phlow::server::{PhlowObjectDescription, PhlowServer};
use phlow::value::{IntegerKind, Value};

fn core_registry() -> Arc<PhlowRegistry> {
    let mut registry = PhlowRegistry::new(vec!["CoreExtensions".to_string()]);
    register_core_extensions(&mut registry);
    Arc::new(registry)
}

fn server() -> (Arc<PhlowRegistry>, PhlowServer) {
    let registry = core_registry();
    let root = PhlowObject::object(Value::Text("root".to_string()), &registry);
    let server = PhlowServer::new(root, &registry);
    (registry, server)
}

#[test]
fn new_server_registers_root_and_itself() {
    let (_, server) = server();
    let all = server.inspect_objects();
    assert_eq!(all.len(), 2);
    assert!(all[0].id < all[1].id);
    assert!(all.iter().all(|d| d.reference_count == 1 && !d.should_auto_release));
    assert!(server.find_object(server.id()).is_some());
    assert_eq!(server.root_phlow_views().len(), 2);
}

#[test]
fn scenario_register_twice_release_twice() {
    let (registry, mut server) = server();
    let a = PhlowObject::object(Value::Integer(IntegerKind::I32, 42), &registry);
    let first = server.register_object(a.clone());
    assert_eq!(first.reference_count, 1);
    assert!(first.should_auto_release);
    assert_eq!(first.object_type, "i32");
    assert_eq!(first.print_string, "42");
    let second = server.register_object(a.clone());
    assert_eq!(second.id, first.id);
    assert_eq!(second.reference_count, 2);
    let session = server.session();
    assert!(server.release_object(session, first.id).is_none());
    let listed: Vec<PhlowObjectDescription> =
        server.inspect_objects().into_iter().filter(|d| d.id == first.id).collect();
    assert_eq!(listed.len(), 1);
    assert_eq!(listed[0].reference_count, 1);
    let released = server.release_object(session, first.id).expect("last handle");
    assert_eq!(released.value_ptr(), a.value_ptr());
    assert!(server.find_object(first.id).is_none());
    assert!(server.release_object(session, first.id).is_none());
}

#[test]
fn find_leaves_counts_alone_and_retrieve_adds_a_handle() {
    let (registry, mut server) = server();
    let a = PhlowObject::object(Value::Boolean(true), &registry);
    let d = server.register_object(a);
    for _ in 0..3 {
        assert!(server.find_object(d.id).is_some());
    }
    let count = |s: &PhlowServer| s.inspect_objects().into_iter().find(|x| x.id == d.id).unwrap().reference_count;
    assert_eq!(count(&server), 1);
    let retrieved = server.retrieve_object(d.id).unwrap();
    assert_eq!(retrieved.reference_count, 2);
    assert_eq!(count(&server), 2);
    assert!(server.retrieve_object(u64::MAX).is_none());
}

#[test]
fn release_from_another_session_fails() {
    let (registry, mut server) = server();
    let a = PhlowObject::object(Value::Boolean(true), &registry);
    let d = server.register_object(a);
    let other = server.session().wrapping_add(1);
    assert!(server.release_object(other, d.id).is_none());
    assert!(server.release_object(other, u64::MAX).is_none());
    assert!(!server.release_object_for("not a session", d.id));
    assert!(server.find_object(d.id).is_some());
    let text = server.session_string();
    assert_eq!(text.len(), 36);
    assert_eq!(text.matches('-').count(), 4);
    assert!(server.release_object_for(&text, d.id));
    assert!(server.find_object(d.id).is_none());
    assert!(!server.release_object_for(&text, d.id));
}

#[test]
fn view_requests_register_items_and_sent_objects() {
    let (registry, mut server) = server();
    let number = PhlowObject::object(Value::Integer(IntegerKind::I32, 42), &registry);
    let d = server.register_object(number);
    let specs = server.object_views(d.id);
    assert_eq!(specs.len(), 2);
    assert!(server.object_views(u64::MAX).is_empty());
    assert!(server.object_view(d.id, "i32::info_for").is_some());
    assert!(server.object_view(d.id, "nothing").is_none());
    let nodes = server.object_view_items(d.id, "i32::info_for").unwrap();
    assert_eq!(nodes.len(), 4);
    assert_eq!(nodes[1].phlow_object.print_string, "Doesn't support Display or Debug");
    assert_eq!(nodes[1].node_id, nodes[1].phlow_object.id);
    assert!(server.find_object(nodes[1].node_id).is_some());
    let sent = server.object_view_sent_item(d.id, "i32::info_for", nodes[1].node_id).unwrap();
    assert_eq!(sent.print_string, "2A");
    assert_eq!(sent.object_type, "alloc::string::String");
    assert!(server.object_view_sent_item(d.id, "i32::info_for", u64::MAX).is_none());
    assert!(server.object_view_items(d.id, "nothing").is_none());
}

#[test]
fn routes_are_recorded() {
    let (_, mut server) = server();
    server.add_route("GET", "session");
    assert_eq!(server.get_routes().len(), 1);
    assert_eq!(server.get_routes()[0], ("GET".to_string(), "session".to_string()));
}

#[test]
fn register_then_release_removes_the_entry() {
    let (registry, mut server) = server();
    let before = server.inspect_objects().len();
    let a = PhlowObject::object(Value::Character('z'), &registry);
    let d = server.register_object(a);
    assert_eq!(server.inspect_objects().len(), before + 1);
    let session = server.session();
    let released = server.release_object(session, d.id).expect("the only handle");
    assert_eq!(released.to_string(), "z");
    assert_eq!(server.inspect_objects().len(), before);
    assert!(server.release_object(session, d.id).is_none());
}

#[test]
fn server_object_shows_its_session() {
    let mut registry = PhlowRegistry::new(vec![
        "CoreExtensions".to_string(),
        "PhlowServerExtensions".to_string(),
    ]);
    register_core_extensions(&mut registry);
    phlow::extensions::register_server_extensions(&mut registry);
    let registry = Arc::new(registry);
    let root = PhlowObject::object(Value::Boolean(true), &registry);
    let mut server = PhlowServer::new(root, &registry);
    let own = server.find_object(server.id()).unwrap();
    assert_eq!(own.value_type_name(), "phlow_server::PhlowServer");
    let nodes = server
        .object_view_items(server.id(), "phlow_server::PhlowServer::info_for")
        .unwrap();
    assert_eq!(nodes.len(), 1);
    let sent = server
        .object_view_sent_item(server.id(), "phlow_server::PhlowServer::info_for", nodes[0].node_id)
        .unwrap();
    assert_eq!(sent.print_string, server.session_string());
}

#[test]
fn listed_items_are_registered_under_their_own_ids() {
    let (registry, mut server) = server();
    let number = PhlowObject::object(Value::Integer(IntegerKind::I32, 42), &registry);
    let d = server.register_object(number.clone());
    assert_eq!(d.id, number.object_id());
    let before = server.inspect_objects().len();
    let nodes = server.object_view_items(d.id, "i32::info_for").unwrap();
    assert_eq!(server.inspect_objects().len(), before + 4);
    for node in &nodes {
        assert_eq!(node.node_id, node.node_value.phlow_object().object_id());
        assert_eq!(node.phlow_object.reference_count, 1);
    }
    let again = server.object_view_items(d.id, "i32::info_for").unwrap();
    assert_eq!(server.inspect_objects().len(), before + 8);
    assert_eq!(again[0].phlow_object.reference_count, 1);
}

#[test]
fn fresh_server_holds_root_and_itself_once() {
    let registry = Arc::new(PhlowRegistry::new(vec![]));
    let root = PhlowObject::object(Value::Boolean(true), &registry);
    let server = PhlowServer::new(root.clone(), &registry);
    let all = server.inspect_objects();
    assert_eq!(all.len(), 2);
    assert!(all.iter().any(|d| d.id == root.object_id() && d.reference_count == 1));
    assert!(all.iter().any(|d| d.id == server.id() && d.reference_count == 1));
    assert_eq!(server.find_object(server.id()).unwrap().value_type_name(), "phlow_server::PhlowServer");
}
