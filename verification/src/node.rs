use vstd::prelude::*;
use vstd::string::*;

use crate::codec::encode_singleton_bool;
use crate::dispatch::{method_names, signal_names, MethodHandlers, SignalHandlers};
use crate::ident::{generate_id, is_id_char, ID_LENGTH};
use crate::messenger::{Client, MessengerHandle, SentMessage};
use crate::paths::{
    compose_child, find_last_slash, is_last_slash, path_name, spec_compose_child,
    starts_with_slash,
};

verus! {

/// Everything that can go wrong in this layer. Every fallible operation
/// returns one of these; none of the verified functions panics.
#[derive(Clone, Copy, Debug, PartialEq, Eq, Structural)]
pub enum NodeError {
    /// A remote creation call was rejected or failed to submit.
    ServerCreationFailed,
    /// The weak channel reference could not be resolved: its owner released it.
    InvalidMessenger,
    /// The transport reported a submission failure.
    MessengerWrite,
    /// A malformed path was supplied to construction.
    InvalidPath,
    /// Reserved for lookup failures in a node registry.
    NodeNotFound,
    /// A local dispatch miss: no handler is registered under the name.
    MethodNotFound,
}

impl NodeError {
    /// A short description of the error, in words.
    pub fn describe(&self) -> (r: &'static str)
        ensures
            *self == NodeError::ServerCreationFailed ==> r@ == "server creation failed"@,
            *self == NodeError::InvalidMessenger ==> r@ == "messenger is invalid"@,
            *self == NodeError::MessengerWrite ==> r@ == "messenger write failed"@,
            *self == NodeError::InvalidPath ==> r@ == "invalid path"@,
            *self == NodeError::NodeNotFound ==> r@ == "node doesn't exist"@,
            *self == NodeError::MethodNotFound ==> r@ == "method doesn't exist"@,
    {
        match self {
            NodeError::ServerCreationFailed => "server creation failed",
            NodeError::InvalidMessenger => "messenger is invalid",
            NodeError::MessengerWrite => "messenger write failed",
            NodeError::InvalidPath => "invalid path",
            NodeError::NodeNotFound => "node doesn't exist",
            NodeError::MethodNotFound => "method doesn't exist",
        }
    }
}

/// The model of a node: its path, the offset of the path's last `/`, and the
/// names under which local signal and method handlers are registered.
#[verifier::ext_equal]
pub struct NodeView {
    pub path: Seq<char>,
    pub slash: int,
    pub signals: Set<Seq<char>>,
    pub methods: Set<Seq<char>>,
}

/// A client-side handle to a remote object, identified by a hierarchical
/// `/`-separated path. A node addresses outgoing signals and method calls to
/// its path through the messenger it holds a weak handle to, and dispatches
/// incoming ones to the local handlers registered on it. Two nodes with the
/// same path are independent handles to the same remote object.
pub struct Node {
    path: String,
    trailing_slash_pos: usize,
    /// The non-owning reference to the channel; remote operations fail with
    /// `InvalidMessenger` once its owner has released it.
    pub messenger: MessengerHandle,
    local_signals: SignalHandlers,
    local_methods: MethodHandlers,
}

impl View for Node {
    type V = NodeView;

    closed spec fn view(&self) -> NodeView {
        NodeView {
            path: self.path@,
            slash: self.trailing_slash_pos as int,
            signals: signal_names(self.local_signals),
            methods: method_names(self.local_methods),
        }
    }
}

impl Node {
    /// A node is well-formed when its path starts with `/` and the cached
    /// offset really points at the path's last `/`. Every constructor
    /// establishes this and every operation preserves it.
    pub open spec fn wf(&self) -> bool {
        &&& starts_with_slash(self@.path)
        &&& is_last_slash(self@.path, self@.slash)
    }

    /// The node's local name: what follows the last `/` of its path.
    pub open spec fn name_spec(&self) -> Seq<char> {
        path_name(self@.path, self@.slash)
    }

    /// The messenger handle this node holds; resolved anew on every remote
    /// operation, never cached across calls.
    pub fn get_messenger(&self) -> &MessengerHandle {
        &self.messenger
    }

    /// The node's full path.
    pub fn get_path(&self) -> (r: &str)
        ensures
            r@ == self@.path,
    {
        self.path.as_str()
    }

    /// The node's local name, split off after the cached last `/` without
    /// re-scanning the path.
    pub fn get_name(&self) -> (r: &str)
        requires
            self.wf(),
        ensures
            r@ == self.name_spec(),
    {
        let len = self.path.as_str().unicode_len();
        self.path.as_str().substring_char(self.trailing_slash_pos + 1, len)
    }

    /// Attaches to an existing path: validates it and wraps it in a fresh
    /// node with no local handlers, holding a weak reference to the client's
    /// messenger. No remote side effect. Fails with `InvalidPath` exactly
    /// when the path does not start with `/`.
    pub fn from_path(client: &Client, path: &str) -> (r: Result<Node, NodeError>)
        ensures
            r is Ok <==> starts_with_slash(path@),
            r matches Ok(n) ==> {
                &&& n.wf()
                &&& n@.path == path@
                &&& n@.signals == Set::<Seq<char>>::empty()
                &&& n@.methods == Set::<Seq<char>>::empty()
            },
            r is Err ==> r == Err::<Node, NodeError>(NodeError::InvalidPath),
    {
        if path.is_empty() || path.get_char(0) != '/' {
            return Err(NodeError::InvalidPath);
        }
        let slash = match find_last_slash(path) {
            Some(i) => i,
            None => {
                proof {
                    assert(path@[0] == '/');
                    assert(false);
                }
                return Err(NodeError::InvalidPath);
            },
        };
        Ok(
            Node {
                path: path.to_owned(),
                trailing_slash_pos: slash,
                messenger: client.get_weak_messenger(),
                local_signals: SignalHandlers::new(),
                local_methods: MethodHandlers::new(),
            },
        )
    }

    /// Generates a fresh child under `parent`: a new unique identifier is
    /// drawn client-side, the child path is composed from it, and the bare
    /// identifier is returned beside the node, since remote creation calls
    /// pass it alongside the parent path. No remote creation happens here;
    /// announcing the new object is the caller's affair. Fails with
    /// `InvalidPath` exactly when `parent` does not start with `/`.
    pub fn generate_with_parent(client: &Client, parent: &str) -> (r: Result<
        (Node, String),
        NodeError,
    >)
        ensures
            r is Ok <==> starts_with_slash(parent@),
            r matches Ok((n, id)) ==> {
                &&& id@.len() == ID_LENGTH
                &&& forall|i: int| 0 <= i < id@.len() ==> is_id_char(#[trigger] id@[i])
                &&& n.wf()
                &&& n@.path == spec_compose_child(parent@, id@)
                &&& n.name_spec() == id@
                &&& n@.signals == Set::<Seq<char>>::empty()
                &&& n@.methods == Set::<Seq<char>>::empty()
            },
            r is Err ==> r == Err::<(Node, String), NodeError>(NodeError::InvalidPath),
    {
        let id = generate_id(ID_LENGTH);
        proof {
            assert forall|j: int| 0 <= j < id@.len() implies id@[j] != '/' by {
                assert(is_id_char(id@[j]));
            }
        }
        let (path, slash) = match compose_child(parent, id.as_str()) {
            Ok(x) => x,
            Err(_) => {
                return Err(NodeError::InvalidPath);
            },
        };
        Ok(
            (
                Node {
                    path,
                    trailing_slash_pos: slash,
                    messenger: client.get_weak_messenger(),
                    local_signals: SignalHandlers::new(),
                    local_methods: MethodHandlers::new(),
                },
                id,
            ),
        )
    }

    /// Registers a one-way local signal handler under `method`; a later
    /// registration under the same name replaces the earlier one.
    pub fn register_local_signal<F: Fn(&[u8]) + 'static>(&mut self, method: &str, handler: F)
        ensures
            final(self)@ == (NodeView {
                signals: old(self)@.signals.insert(method@),
                ..old(self)@
            }),
    {
        self.local_signals.insert(method, handler);
    }

    /// Registers a request/response local method handler under `method`; a
    /// later registration under the same name replaces the earlier one.
    pub fn register_local_method<F: Fn(&[u8]) -> Vec<u8> + 'static>(
        &mut self,
        method: &str,
        handler: F,
    )
        ensures
            final(self)@ == (NodeView {
                methods: old(self)@.methods.insert(method@),
                ..old(self)@
            }),
    {
        self.local_methods.insert(method, handler);
    }

    /// Looks `method` up among the local signal handlers and, when found,
    /// invokes it synchronously, once, with exactly `data`, discarding any
    /// result. Fails with `MethodNotFound` exactly when no signal handler is
    /// registered under the name.
    pub fn send_local_signal(&self, method: &str, data: &[u8]) -> (r: Result<(), NodeError>)
        ensures
            r is Ok <==> self@.signals.contains(method@),
            r is Err ==> r == Err::<(), NodeError>(NodeError::MethodNotFound),
    {
        if self.local_signals.invoke(method, data) {
            Ok(())
        } else {
            Err(NodeError::MethodNotFound)
        }
    }

    /// Looks `method` up among the local method handlers and, when found,
    /// invokes it synchronously, once, with exactly `data`, and returns the
    /// handler's output bytes. Fails with `MethodNotFound` exactly when no
    /// method handler is registered under the name.
    pub fn execute_local_method(&self, method: &str, data: &[u8]) -> (r: Result<
        Vec<u8>,
        NodeError,
    >)
        ensures
            r is Ok <==> self@.methods.contains(method@),
            r is Err ==> r == Err::<Vec<u8>, NodeError>(NodeError::MethodNotFound),
    {
        match self.local_methods.invoke(method, data) {
            Some(output) => Ok(output),
            None => Err(NodeError::MethodNotFound),
        }
    }

    /// Resolves the weak messenger reference and asks the messenger to
    /// deliver a one-way message addressed to `(self.path, method)` carrying
    /// `data`. Fails with `InvalidMessenger` when the channel's owner has
    /// released it, and maps any transport failure to `MessengerWrite`;
    /// nothing else can come back.
    pub fn send_remote_signal(&self, method: &str, data: &[u8]) -> (r: Result<(), NodeError>)
        ensures
            r is Ok || r == Err::<(), NodeError>(NodeError::InvalidMessenger) || r == Err::<
                (),
                NodeError,
            >(NodeError::MessengerWrite),
    {
        let resolved = match self.messenger.upgrade() {
            Some(m) => m,
            None => {
                return Err(NodeError::InvalidMessenger);
            },
        };
        let message = SentMessage::new(self.path.as_str(), method, data, false);
        match resolved.submit_signal(message) {
            Ok(()) => Ok(()),
            Err(_) => Err(NodeError::MessengerWrite),
        }
    }

    /// Resolves the weak messenger reference and submits a request addressed
    /// to `(self.path, method)` carrying `data`; `callback` is registered to
    /// be invoked exactly once, later, with the raw response bytes. Returns
    /// as soon as submission succeeds or fails: `InvalidMessenger` when the
    /// channel's owner has released it, `MessengerWrite` for a transport
    /// failure; nothing else can come back, and the remote outcome is never
    /// reported here.
    pub fn execute_remote_method<F: Fn(&[u8]) + 'static>(
        &self,
        method: &str,
        data: &[u8],
        callback: F,
    ) -> (r: Result<(), NodeError>)
        ensures
            r is Ok || r == Err::<(), NodeError>(NodeError::InvalidMessenger) || r == Err::<
                (),
                NodeError,
            >(NodeError::MessengerWrite),
    {
        let resolved = match self.messenger.upgrade() {
            Some(m) => m,
            None => {
                return Err(NodeError::InvalidMessenger);
            },
        };
        let message = SentMessage::new(self.path.as_str(), method, data, true);
        match resolved.submit_request(message, callback) {
            Ok(()) => Ok(()),
            Err(_) => Err(NodeError::MessengerWrite),
        }
    }

    /// Tells the remote side to release this node's counterpart: the
    /// `destroy` signal with an empty payload.
    pub fn destroy(&self) -> (r: Result<(), NodeError>)
        ensures
            r is Ok || r == Err::<(), NodeError>(NodeError::InvalidMessenger) || r == Err::<
                (),
                NodeError,
            >(NodeError::MessengerWrite),
    {
        let empty: Vec<u8> = Vec::new();
        self.send_remote_signal("destroy", empty.as_slice())
    }

    /// Sends the `setEnabled` signal with a single boolean payload.
    pub fn set_enabled(&self, enabled: bool) -> (r: Result<(), NodeError>)
        ensures
            r is Ok || r == Err::<(), NodeError>(NodeError::InvalidMessenger) || r == Err::<
                (),
                NodeError,
            >(NodeError::MessengerWrite),
    {
        let payload = encode_singleton_bool(enabled);
        self.send_remote_signal("setEnabled", payload.as_slice())
    }
}

} // verus!
