use std::cell::RefCell;
use std::collections::HashSet;
use std::rc::Rc;

use fusion::messenger::Client;
use fusion::node::{Node, NodeError};

#[test]
fn from_path_accepts_absolute_paths() {
    let client = Client::new();
    let node = Node::from_path(&client, "/a/b").unwrap();
    assert_eq!(node.get_path(), "/a/b");
    assert_eq!(node.get_name(), "b");
}

#[test]
fn from_path_root_has_empty_name() {
    let client = Client::new();
    let node = Node::from_path(&client, "/").unwrap();
    assert_eq!(node.get_path(), "/");
    assert_eq!(node.get_name(), "");
}

#[test]
fn from_path_rejects_path_without_leading_slash() {
    let client = Client::new();
    assert!(matches!(Node::from_path(&client, "a/b"), Err(NodeError::InvalidPath)));
    assert!(matches!(Node::from_path(&client, ""), Err(NodeError::InvalidPath)));
}

#[test]
fn generate_with_parent_composes_child_path() {
    let client = Client::new();
    let (node, id) = Node::generate_with_parent(&client, "/scene").unwrap();
    assert_eq!(id.len(), 10);
    assert_eq!(node.get_path(), format!("/scene/{}", id));
    assert_eq!(node.get_name(), id);
}

#[test]
fn generate_with_parent_keeps_single_separator() {
    let client = Client::new();
    let (node, id) = Node::generate_with_parent(&client, "/scene/").unwrap();
    assert_eq!(node.get_path(), format!("/scene/{}", id));
    assert_eq!(node.get_name(), id);
}

#[test]
fn generate_with_parent_rejects_relative_parent() {
    let client = Client::new();
    assert!(matches!(
        Node::generate_with_parent(&client, "scene"),
        Err(NodeError::InvalidPath)
    ));
}

#[test]
fn generated_ids_are_distinct_and_url_safe() {
    let client = Client::new();
    let mut seen: HashSet<String> = HashSet::new();
    for _ in 0..10_000 {
        let (_, id) = Node::generate_with_parent(&client, "/scene").unwrap();
        assert_eq!(id.len(), 10);
        assert!(id
            .chars()
            .all(|c| c == '_' || c == '-' || c.is_ascii_alphanumeric()));
        assert!(seen.insert(id));
    }
    assert_eq!(seen.len(), 10_000);
}

#[test]
fn local_signal_invokes_handler_once_with_payload() {
    let client = Client::new();
    let mut node = Node::from_path(&client, "/a").unwrap();
    let calls: Rc<RefCell<Vec<Vec<u8>>>> = Rc::new(RefCell::new(Vec::new()));
    let record = calls.clone();
    node.register_local_signal("x", move |data: &[u8]| {
        record.borrow_mut().push(data.to_vec());
    });
    node.send_local_signal("x", b"payload").unwrap();
    assert_eq!(calls.borrow().len(), 1);
    assert_eq!(calls.borrow()[0], b"payload".to_vec());
}

#[test]
fn local_signal_unregistered_name_fails() {
    let client = Client::new();
    let mut node = Node::from_path(&client, "/a").unwrap();
    node.register_local_signal("x", |_data: &[u8]| {});
    assert_eq!(node.send_local_signal("y", b"payload").unwrap_err(), NodeError::MethodNotFound);
}

#[test]
fn local_signal_registration_replaces() {
    let client = Client::new();
    let mut node = Node::from_path(&client, "/a").unwrap();
    let calls: Rc<RefCell<Vec<u32>>> = Rc::new(RefCell::new(Vec::new()));
    let first = calls.clone();
    node.register_local_signal("x", move |_data: &[u8]| {
        first.borrow_mut().push(1);
    });
    let second = calls.clone();
    node.register_local_signal("x", move |_data: &[u8]| {
        second.borrow_mut().push(2);
    });
    node.send_local_signal("x", b"").unwrap();
    assert_eq!(*calls.borrow(), vec![2]);
}

#[test]
fn local_method_returns_handler_output() {
    let client = Client::new();
    let mut node = Node::from_path(&client, "/a").unwrap();
    node.register_local_method("ping", |data: &[u8]| {
        let mut out = data.to_vec();
        out.reverse();
        out
    });
    assert_eq!(node.execute_local_method("ping", b"ab").unwrap(), b"ba".to_vec());
    assert_eq!(
        node.execute_local_method("pong", b"ab").unwrap_err(),
        NodeError::MethodNotFound
    );
}

#[test]
fn end_to_end_generate_register_execute() {
    let client = Client::new();
    let (mut node, id) = Node::generate_with_parent(&client, "/scene").unwrap();
    assert_eq!(id.len(), 10);
    assert_eq!(node.get_path(), format!("/scene/{}", id));
    node.register_local_method("ping", |data: &[u8]| {
        let mut out = data.to_vec();
        out.reverse();
        out
    });
    assert_eq!(node.execute_local_method("ping", b"ab").unwrap(), b"ba".to_vec());
}

#[test]
fn remote_signal_queues_addressed_message() {
    let mut client = Client::new();
    let node = Node::from_path(&client, "/a").unwrap();
    node.send_remote_signal("test", b"xyz").unwrap();
    let sent = client.take_sent_messages();
    assert_eq!(sent.len(), 1);
    assert_eq!(sent[0].path, "/a");
    assert_eq!(sent[0].method, "test");
    assert_eq!(sent[0].payload, b"xyz".to_vec());
    assert!(!sent[0].expects_response);
    assert_eq!(client.take_sent_messages().len(), 0);
}

#[test]
fn released_messenger_fails_remote_operations() {
    let client = Client::new();
    let node = Node::from_path(&client, "/a").unwrap();
    node.send_remote_signal("test", b"").unwrap();
    drop(client);
    assert_eq!(node.send_remote_signal("test", b"").unwrap_err(), NodeError::InvalidMessenger);
    assert_eq!(
        node.execute_remote_method("m", b"", |_data: &[u8]| {}).unwrap_err(),
        NodeError::InvalidMessenger
    );
    assert_eq!(node.destroy().unwrap_err(), NodeError::InvalidMessenger);
    assert_eq!(node.set_enabled(true).unwrap_err(), NodeError::InvalidMessenger);
}

#[test]
fn destroy_sends_empty_signal() {
    let mut client = Client::new();
    let node = Node::from_path(&client, "/a").unwrap();
    node.destroy().unwrap();
    let sent = client.take_sent_messages();
    assert_eq!(sent.len(), 1);
    assert_eq!(sent[0].method, "destroy");
    assert!(sent[0].payload.is_empty());
}

#[test]
fn set_enabled_sends_boolean_singleton() {
    let mut client = Client::new();
    let node = Node::from_path(&client, "/a").unwrap();
    node.set_enabled(true).unwrap();
    node.set_enabled(false).unwrap();
    let sent = client.take_sent_messages();
    assert_eq!(sent.len(), 2);
    assert_eq!(sent[0].method, "setEnabled");
    let root = flexbuffers::Reader::get_root(sent[0].payload.as_slice()).unwrap();
    assert!(root.as_bool());
    let root = flexbuffers::Reader::get_root(sent[1].payload.as_slice()).unwrap();
    assert!(!root.as_bool());
}

#[test]
fn remote_method_response_reaches_callback_once() {
    let mut client = Client::new();
    let node = Node::from_path(&client, "/a").unwrap();
    let got: Rc<RefCell<Vec<Vec<u8>>>> = Rc::new(RefCell::new(Vec::new()));
    let sink = got.clone();
    node.execute_remote_method("m", b"req", move |data: &[u8]| {
        sink.borrow_mut().push(data.to_vec());
    })
    .unwrap();
    let sent = client.take_sent_messages();
    assert_eq!(sent.len(), 1);
    assert!(sent[0].expects_response);
    assert_eq!(sent[0].payload, b"req".to_vec());
    assert!(client.respond_next(b"resp"));
    assert_eq!(*got.borrow(), vec![b"resp".to_vec()]);
    assert!(!client.respond_next(b"resp"));
    assert_eq!(got.borrow().len(), 1);
}

#[test]
fn error_descriptions() {
    assert_eq!(NodeError::ServerCreationFailed.describe(), "server creation failed");
    assert_eq!(NodeError::InvalidMessenger.describe(), "messenger is invalid");
    assert_eq!(NodeError::MessengerWrite.describe(), "messenger write failed");
    assert_eq!(NodeError::InvalidPath.describe(), "invalid path");
    assert_eq!(NodeError::NodeNotFound.describe(), "node doesn't exist");
    assert_eq!(NodeError::MethodNotFound.describe(), "method doesn't exist");
}
