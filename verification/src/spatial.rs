use vstd::prelude::*;

use crate::codec::{
    arg_models, decode_transform_response, encode_arg_vector, encode_singleton_str, ArgModel,
    FlexArg,
};
use crate::ident::{is_id_char, ID_LENGTH};
use crate::messenger::{Client, SentMessage};
use crate::node::{Node, NodeError, NodeView};
use crate::paths::{is_last_slash, spec_compose_child, starts_with_slash};
use crate::values::{Quat, Vec3};

verus! {

/// The path template under which fresh spatial identifiers are minted.
pub const SPATIAL_ID_TEMPLATE_PATH: &'static str = "/spatial/spatial";

/// The factory address that creation signals are announced to.
pub const SPATIAL_FACTORY_PATH: &'static str = "/spatial";

/// A typed proxy for a remote spatial-transform object, built purely from
/// `Node` primitives: a fixed remote-call schema (create, get-transform,
/// set-transform) layered over the node's path and messenger.
pub struct Spatial {
    node: Node,
}

impl View for Spatial {
    type V = NodeView;

    closed spec fn view(&self) -> NodeView {
        self.node@
    }
}

/// The fixed-order argument vector of a creation announcement:
/// the fresh identifier, the parent path, position, rotation, scale, and the
/// four capability flags.
pub open spec fn spec_create_args(
    id: Seq<char>,
    parent_path: Seq<char>,
    position: Vec3,
    rotation: Quat,
    scale: Vec3,
    translatable: bool,
    rotatable: bool,
    scalable: bool,
    zoneable: bool,
) -> Seq<ArgModel> {
    seq![
        ArgModel::Str(id),
        ArgModel::Str(parent_path),
        ArgModel::Vec3(position),
        ArgModel::Quat(rotation),
        ArgModel::Vec3(scale),
        ArgModel::Bool(translatable),
        ArgModel::Bool(rotatable),
        ArgModel::Bool(scalable),
        ArgModel::Bool(zoneable),
    ]
}

/// The sparse argument vector of a transform update: the reference path
/// first, then only the fields that are present, in the fixed order
/// position, rotation, scale; absent fields are omitted entirely.
pub open spec fn spec_set_transform_args(
    reference_path: Seq<char>,
    position: Option<Vec3>,
    rotation: Option<Quat>,
    scale: Option<Vec3>,
) -> Seq<ArgModel> {
    seq![ArgModel::Str(reference_path)] + (match position {
        Some(p) => seq![ArgModel::Vec3(p)],
        None => Seq::<ArgModel>::empty(),
    }) + (match rotation {
        Some(q) => seq![ArgModel::Quat(q)],
        None => Seq::<ArgModel>::empty(),
    }) + (match scale {
        Some(s) => seq![ArgModel::Vec3(s)],
        None => Seq::<ArgModel>::empty(),
    })
}

impl Spatial {
    /// Same well-formedness as the underlying node.
    pub open spec fn wf(&self) -> bool {
        &&& starts_with_slash(self@.path)
        &&& is_last_slash(self@.path, self@.slash)
    }

    /// The path of the underlying node.
    pub fn get_path(&self) -> (r: &str)
        ensures
            r@ == self@.path,
    {
        self.node.get_path()
    }

    /// Creates a fresh remote spatial: mints an identifier and the child
    /// path under the identifier template, then announces the creation to
    /// the factory address with the fixed-order argument vector
    /// `[id, parent path, position, rotation, scale, translatable,
    /// rotatable, scalable, zoneable]`. The object's path is fixed before
    /// the announcement completes, so descendants can compose below it at
    /// once. Fails with `InvalidMessenger` when the channel is gone, and
    /// with `ServerCreationFailed` when the announcement fails to submit.
    pub fn create(
        client: &Client,
        spatial_parent: &Spatial,
        position: Vec3,
        rotation: Quat,
        scale: Vec3,
        translatable: bool,
        rotatable: bool,
        scalable: bool,
        zoneable: bool,
    ) -> (r: Result<Spatial, NodeError>)
        ensures
            r matches Ok(s) ==> {
                &&& s.wf()
                &&& s.node_name().len() == ID_LENGTH
                &&& forall|i: int|
                    0 <= i < s.node_name().len() ==> is_id_char(#[trigger] s.node_name()[i])
                &&& s@.path == spec_compose_child(SPATIAL_ID_TEMPLATE_PATH@, s.node_name())
                &&& s@.signals == Set::<Seq<char>>::empty()
                &&& s@.methods == Set::<Seq<char>>::empty()
            },
            r is Err ==> r == Err::<Spatial, NodeError>(NodeError::InvalidMessenger) || r
                == Err::<Spatial, NodeError>(NodeError::ServerCreationFailed),
    {
        proof {
            reveal_strlit("/spatial/spatial");
        }
        let (node, id) = match Node::generate_with_parent(client, SPATIAL_ID_TEMPLATE_PATH) {
            Ok(x) => x,
            Err(_) => {
                proof {
                    assert(false);
                }
                return Err(NodeError::InvalidMessenger);
            },
        };
        let args = Self::create_args(
            id.as_str(),
            spatial_parent.node.get_path(),
            position,
            rotation,
            scale,
            translatable,
            rotatable,
            scalable,
            zoneable,
        );
        let payload = encode_arg_vector(&args);
        let resolved = match node.get_messenger().upgrade() {
            Some(m) => m,
            None => {
                return Err(NodeError::InvalidMessenger);
            },
        };
        let message = SentMessage::new(
            SPATIAL_FACTORY_PATH,
            "createSpatial",
            payload.as_slice(),
            false,
        );
        match resolved.submit_signal(message) {
            Ok(()) => Ok(Spatial { node }),
            Err(_) => Err(NodeError::ServerCreationFailed),
        }
    }

    /// The argument vector that a creation announcement sends: the fresh
    /// identifier, the parent path, position, rotation, scale, and the four
    /// capability flags, in that fixed order.
    pub fn create_args(
        id: &str,
        parent_path: &str,
        position: Vec3,
        rotation: Quat,
        scale: Vec3,
        translatable: bool,
        rotatable: bool,
        scalable: bool,
        zoneable: bool,
    ) -> (r: Vec<FlexArg>)
        ensures
            arg_models(r@) == spec_create_args(
                id@,
                parent_path@,
                position,
                rotation,
                scale,
                translatable,
                rotatable,
                scalable,
                zoneable,
            ),
    {
        let mut args: Vec<FlexArg> = Vec::new();
        args.push(FlexArg::Str(id.to_owned()));
        args.push(FlexArg::Str(parent_path.to_owned()));
        args.push(FlexArg::Vec3(position));
        args.push(FlexArg::Quat(rotation));
        args.push(FlexArg::Vec3(scale));
        args.push(FlexArg::Bool(translatable));
        args.push(FlexArg::Bool(rotatable));
        args.push(FlexArg::Bool(scalable));
        args.push(FlexArg::Bool(zoneable));
        proof {
            assert(arg_models(args@) =~= spec_create_args(
                id@,
                parent_path@,
                position,
                rotation,
                scale,
                translatable,
                rotatable,
                scalable,
                zoneable,
            ));
        }
        args
    }

    /// The name of the underlying node, in the model.
    pub open spec fn node_name(&self) -> Seq<char> {
        self@.path.subrange(self@.slash + 1, self@.path.len() as int)
    }

    /// Attaches to an existing spatial by path; no remote side effect.
    /// Fails with `InvalidPath` exactly when the path does not start
    /// with `/`.
    pub fn from_path(client: &Client, path: &str) -> (r: Result<Spatial, NodeError>)
        ensures
            r is Ok <==> starts_with_slash(path@),
            r matches Ok(s) ==> {
                &&& s.wf()
                &&& s@.path == path@
                &&& s@.signals == Set::<Seq<char>>::empty()
                &&& s@.methods == Set::<Seq<char>>::empty()
            },
            r is Err ==> r == Err::<Spatial, NodeError>(NodeError::InvalidPath),
    {
        match Node::from_path(client, path) {
            Ok(node) => Ok(Spatial { node }),
            Err(e) => Err(e),
        }
    }

    /// Issues an asynchronous transform request relative to `relative_to`:
    /// the payload is that node's path, and when the reply arrives the
    /// messenger invokes the wrapped callback once with the decoded
    /// position, rotation and scale. A reply that does not decode to that
    /// shape is a contract violation of the remote side and is dropped.
    /// Reports only submission failure: `InvalidMessenger` or
    /// `MessengerWrite`.
    pub fn get_transform<F: Fn(Vec3, Quat, Vec3) + 'static>(
        &self,
        relative_to: &Spatial,
        callback: F,
    ) -> (r: Result<(), NodeError>)
        requires
            forall|p: Vec3, q: Quat, s: Vec3| call_requires(callback, (p, q, s)),
        ensures
            r is Ok || r == Err::<(), NodeError>(NodeError::InvalidMessenger) || r == Err::<
                (),
                NodeError,
            >(NodeError::MessengerWrite),
    {
        let payload = encode_singleton_str(relative_to.node.get_path());
        self.node.execute_remote_method(
            "getTransform",
            payload.as_slice(),
            move |data: &[u8]|
                {
                    match decode_transform_response(data) {
                        Some((p, q, s)) => callback(p, q, s),
                        None => {},
                    }
                },
        )
    }

    /// The argument vector that a sparse transform update sends: the
    /// reference path, then exactly the present fields in the order
    /// position, rotation, scale. With all three absent it is the reference
    /// path alone.
    pub fn set_transform_args(
        relative_to: &Spatial,
        position: Option<Vec3>,
        rotation: Option<Quat>,
        scale: Option<Vec3>,
    ) -> (r: Vec<FlexArg>)
        ensures
            arg_models(r@) == spec_set_transform_args(relative_to@.path, position, rotation, scale),
            position is None && rotation is None && scale is None ==> arg_models(r@) == seq![
                ArgModel::Str(relative_to@.path),
            ],
    {
        let mut args: Vec<FlexArg> = Vec::new();
        args.push(FlexArg::Str(relative_to.node.get_path().to_owned()));
        if let Some(p) = position {
            args.push(FlexArg::Vec3(p));
        }
        if let Some(q) = rotation {
            args.push(FlexArg::Quat(q));
        }
        if let Some(s) = scale {
            args.push(FlexArg::Vec3(s));
        }
        proof {
            assert(arg_models(args@) =~= spec_set_transform_args(
                relative_to@.path,
                position,
                rotation,
                scale,
            ));
            if position is None && rotation is None && scale is None {
                assert(arg_models(args@) =~= seq![ArgModel::Str(relative_to@.path)]);
            }
        }
        args
    }

    /// Sends a sparse transform update relative to `relative_to` as a
    /// one-way signal: only the present fields travel, and the remote side
    /// leaves absent ones unchanged. Reports only submission failure:
    /// `InvalidMessenger` or `MessengerWrite`.
    pub fn set_transform(
        &self,
        relative_to: &Spatial,
        position: Option<Vec3>,
        rotation: Option<Quat>,
        scale: Option<Vec3>,
    ) -> (r: Result<(), NodeError>)
        ensures
            r is Ok || r == Err::<(), NodeError>(NodeError::InvalidMessenger) || r == Err::<
                (),
                NodeError,
            >(NodeError::MessengerWrite),
    {
        let args = Self::set_transform_args(relative_to, position, rotation, scale);
        let payload = encode_arg_vector(&args);
        self.node.send_remote_signal("setTransform", payload.as_slice())
    }
}

} // verus!
