use vstd::prelude::*;

use crate::values::{Quat, Vec3};

verus! {

/// A positional argument of a remote-call argument vector, by semantic shape:
/// a string, a boolean, a vector of three floats or a quaternion of four.
/// Float components travel as IEEE-754 bit patterns (see `values`); the codec
/// reinterprets them as numbers when it writes the wire form.
pub enum FlexArg {
    Str(String),
    Bool(bool),
    Vec3(Vec3),
    Quat(Quat),
}

/// The mathematical model of a `FlexArg`: the same shape with the string
/// replaced by its character sequence.
pub enum ArgModel {
    Str(Seq<char>),
    Bool(bool),
    Vec3(Vec3),
    Quat(Quat),
}

impl View for FlexArg {
    type V = ArgModel;

    open spec fn view(&self) -> ArgModel {
        match self {
            FlexArg::Str(s) => ArgModel::Str(s@),
            FlexArg::Bool(b) => ArgModel::Bool(*b),
            FlexArg::Vec3(v) => ArgModel::Vec3(*v),
            FlexArg::Quat(q) => ArgModel::Quat(*q),
        }
    }
}

/// The models of a sequence of arguments, in order.
pub open spec fn arg_models(args: Seq<FlexArg>) -> Seq<ArgModel> {
    args.map_values(|a: FlexArg| a@)
}

/// The byte encoding that the argument codec produces for an ordered argument
/// vector: a function of the arguments alone.
pub uninterp spec fn flex_vector_bytes(args: Seq<ArgModel>) -> Seq<u8>;

/// The byte encoding of a single root value: a function of the value alone.
pub uninterp spec fn flex_singleton_bytes(arg: ArgModel) -> Seq<u8>;

/// The float bit pattern stored at position `inner` of the nested vector at
/// position `outer` of an encoded root vector, or `None` where the bytes do
/// not decode to that shape.
pub uninterp spec fn nested_float_bits(data: Seq<u8>, outer: int, inner: int) -> Option<u32>;

/// Relies on flexbuffers::Builder: encodes the arguments, in order, as one
/// self-describing root vector; strings and booleans are pushed directly,
/// three- and four-float shapes as nested typed vectors of their components.
#[verifier::external_body]
pub fn encode_arg_vector(args: &Vec<FlexArg>) -> (r: Vec<u8>)
    ensures
        r@ == flex_vector_bytes(arg_models(args@)),
{
    let mut b = flexbuffers::Builder::default();
    let mut v = b.start_vector();
    let fb = |bits: u32| <byteorder::LittleEndian as byteorder::ByteOrder>::read_f32(&bits.to_le_bytes());
    for a in args.iter() {
        match a {
            FlexArg::Str(s) => v.push(s.as_str()),
            FlexArg::Bool(x) => v.push(*x),
            FlexArg::Vec3(w) => v.push(&[fb(w.x), fb(w.y), fb(w.z)]),
            FlexArg::Quat(q) => v.push(&[fb(q.x), fb(q.y), fb(q.z), fb(q.w)]),
        }
    }
    v.end_vector();
    b.take_buffer()
}

/// Relies on flexbuffers::singleton: encodes one boolean as the buffer's root.
#[verifier::external_body]
pub fn encode_singleton_bool(b: bool) -> (r: Vec<u8>)
    ensures
        r@ == flex_singleton_bytes(ArgModel::Bool(b)),
{
    flexbuffers::singleton(b)
}

/// Relies on flexbuffers::singleton: encodes one string as the buffer's root.
#[verifier::external_body]
pub fn encode_singleton_str(s: &str) -> (r: Vec<u8>)
    ensures
        r@ == flex_singleton_bytes(ArgModel::Str(s@)),
{
    flexbuffers::singleton(s)
}

/// Relies on flexbuffers::Reader: reads the root of `data` as a vector, its
/// entry at `outer` as a nested vector, and that vector's entry at `inner` as
/// a float, returned as its bit pattern; `None` where either vector is not
/// there or the position is out of range. A nested entry of another type
/// reads as zero, flexbuffers' defaulting conversion. The result depends on
/// the bytes and the two positions alone.
#[verifier::external_body]
fn read_nested_float_bits(data: &[u8], outer: usize, inner: usize) -> (r: Option<u32>)
    ensures
        r == nested_float_bits(data@, outer as int, inner as int),
{
    let root = flexbuffers::Reader::get_root(data).ok()?;
    let outer_vec = root.get_vector().ok()?;
    if outer >= outer_vec.len() {
        return None;
    }
    let inner_vec = outer_vec.idx(outer).get_vector().ok()?;
    if inner >= inner_vec.len() {
        return None;
    }
    Some(inner_vec.idx(inner).as_f32().to_bits())
}

/// What a well-formed reply to a transform request decodes to: three nested
/// vectors holding position, rotation and scale, read component by component.
pub open spec fn spec_transform_response(data: Seq<u8>) -> Option<(Vec3, Quat, Vec3)> {
    let px = nested_float_bits(data, 0, 0);
    let py = nested_float_bits(data, 0, 1);
    let pz = nested_float_bits(data, 0, 2);
    let qx = nested_float_bits(data, 1, 0);
    let qy = nested_float_bits(data, 1, 1);
    let qz = nested_float_bits(data, 1, 2);
    let qw = nested_float_bits(data, 1, 3);
    let sx = nested_float_bits(data, 2, 0);
    let sy = nested_float_bits(data, 2, 1);
    let sz = nested_float_bits(data, 2, 2);
    if px is Some && py is Some && pz is Some && qx is Some && qy is Some && qz is Some
        && qw is Some && sx is Some && sy is Some && sz is Some {
        Some(
            (
                Vec3 { x: px->Some_0, y: py->Some_0, z: pz->Some_0 },
                Quat { x: qx->Some_0, y: qy->Some_0, z: qz->Some_0, w: qw->Some_0 },
                Vec3 { x: sx->Some_0, y: sy->Some_0, z: sz->Some_0 },
            ),
        )
    } else {
        None
    }
}

/// Decodes a transform reply: position, rotation and scale, each component an
/// IEEE-754 bit pattern, or `None` where the bytes do not have that shape.
pub fn decode_transform_response(data: &[u8]) -> (r: Option<(Vec3, Quat, Vec3)>)
    ensures
        r == spec_transform_response(data@),
{
    let px = read_nested_float_bits(data, 0, 0);
    let py = read_nested_float_bits(data, 0, 1);
    let pz = read_nested_float_bits(data, 0, 2);
    let qx = read_nested_float_bits(data, 1, 0);
    let qy = read_nested_float_bits(data, 1, 1);
    let qz = read_nested_float_bits(data, 1, 2);
    let qw = read_nested_float_bits(data, 1, 3);
    let sx = read_nested_float_bits(data, 2, 0);
    let sy = read_nested_float_bits(data, 2, 1);
    let sz = read_nested_float_bits(data, 2, 2);
    match (px, py, pz, qx, qy, qz, qw, sx, sy, sz) {
        (
            Some(px),
            Some(py),
            Some(pz),
            Some(qx),
            Some(qy),
            Some(qz),
            Some(qw),
            Some(sx),
            Some(sy),
            Some(sz),
        ) => Some(
            (
                Vec3 { x: px, y: py, z: pz },
                Quat { x: qx, y: qy, z: qz, w: qw },
                Vec3 { x: sx, y: sy, z: sz },
            ),
        ),
        _ => None,
    }
}

} // verus!
