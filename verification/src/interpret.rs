//! The reply interpreter: classifies a decoded reply by its status field and
//! extracts a typed result. Each decoder's contract pins its result down for
//! every document, error cases included.

use vstd::prelude::*;
use crate::domain::{Point, Rect};
use crate::errors::{err_view, BridgeError, ErrorModel};
use crate::wire::{get_field, str_eq, Doc, Node, NodeModel, Scalar, ScalarModel};

verus! {

/// The status text of a reply, when it has one that is text.
pub open spec fn status_of(d: Map<Seq<char>, NodeModel>) -> Option<Seq<char>> {
    if d.contains_key("status"@) {
        match d["status"@] {
            NodeModel::Prim(ScalarModel::Text(s)) => Some(s),
            _ => None,
        }
    } else {
        None
    }
}

/// The message text of an error reply, when it has one that is text.
pub open spec fn msg_of(d: Map<Seq<char>, NodeModel>) -> Option<Seq<char>> {
    if d.contains_key("msg"@) {
        match d["msg"@] {
            NodeModel::Prim(ScalarModel::Text(m)) => Some(m),
            _ => None,
        }
    } else {
        None
    }
}

/// What interpreting a reply yields: without a textual status the reply is
/// malformed; an error status carries the child's message through verbatim,
/// and lacking one is again malformed; any other status hands the result
/// field on, which must be present.
pub open spec fn interpret_model(d: Map<Seq<char>, NodeModel>) -> Result<NodeModel, ErrorModel> {
    match status_of(d) {
        None => Err(ErrorModel::MalformedReply),
        Some(st) => if st == "error"@ {
            match msg_of(d) {
                Some(m) => Err(ErrorModel::RemoteError(m)),
                None => Err(ErrorModel::MalformedReply),
            }
        } else if d.contains_key("result"@) {
            Ok(d["result"@])
        } else {
            Err(ErrorModel::MalformedReply)
        },
    }
}

/// Classifies a reply by its status and extracts its result field, exactly
/// as `interpret_model` says. The child's message in an error reply is
/// passed through verbatim, whatever result type the caller expected.
pub fn interpret<'a>(doc: &'a Doc) -> (r: Result<&'a Node, BridgeError>)
    ensures
        match r {
            Ok(n) => interpret_model(doc@) == Ok::<NodeModel, ErrorModel>(n@),
            Err(e) => interpret_model(doc@) == Err::<NodeModel, ErrorModel>(e@),
        },
{
    let status = match get_field(doc, "status") {
        Some(n) => n,
        None => {
            return Err(BridgeError::MalformedReply);
        },
    };
    let st = match status {
        Node::Prim(Scalar::Text(s)) => s,
        _ => {
            return Err(BridgeError::MalformedReply);
        },
    };
    if str_eq(st.as_str(), "error") {
        match get_field(doc, "msg") {
            Some(n) => match n {
                Node::Prim(Scalar::Text(m)) => Err(BridgeError::RemoteError(m.clone())),
                _ => Err(BridgeError::MalformedReply),
            },
            None => Err(BridgeError::MalformedReply),
        }
    } else {
        match get_field(doc, "result") {
            Some(n) => Ok(n),
            None => Err(BridgeError::MalformedReply),
        }
    }
}

/// The boolean reading of a result: an integer result means true exactly
/// when it is one; anything that is not an integer is a type mismatch.
pub open spec fn bool_model(n: NodeModel) -> Result<bool, ErrorModel> {
    match n {
        NodeModel::Prim(ScalarModel::Int(i)) => Ok(i == 1),
        _ => Err(ErrorModel::TypeMismatch),
    }
}

pub fn decode_bool(n: &Node) -> (r: Result<bool, BridgeError>)
    ensures
        err_view(r) == bool_model(n@),
{
    match n {
        Node::Prim(Scalar::Int(i)) => Ok(*i == 1),
        Node::Prim(Scalar::UInt(u)) => Ok(*u == 1),
        _ => Err(BridgeError::TypeMismatch),
    }
}

/// The unsigned reading of a result: an integer that fits an u64; anything
/// else is a type mismatch.
pub open spec fn u64_model(n: NodeModel) -> Result<u64, ErrorModel> {
    match n {
        NodeModel::Prim(ScalarModel::Int(i)) => if 0 <= i <= u64::MAX {
            Ok(i as u64)
        } else {
            Err(ErrorModel::TypeMismatch)
        },
        _ => Err(ErrorModel::TypeMismatch),
    }
}

pub fn decode_u64(n: &Node) -> (r: Result<u64, BridgeError>)
    ensures
        err_view(r) == u64_model(n@),
{
    match n {
        Node::Prim(Scalar::UInt(u)) => Ok(*u),
        Node::Prim(Scalar::Int(i)) => if *i >= 0 {
            Ok(*i as u64)
        } else {
            Err(BridgeError::TypeMismatch)
        },
        _ => Err(BridgeError::TypeMismatch),
    }
}

/// An array element read as a signed machine integer, when it is an integer
/// that fits one.
pub open spec fn scalar_i64(s: ScalarModel) -> Option<int> {
    match s {
        ScalarModel::Int(i) => if i64::MIN <= i <= i64::MAX {
            Some(i)
        } else {
            None
        },
        _ => None,
    }
}

fn scalar_to_i64(s: &Scalar) -> (r: Option<i64>)
    ensures
        match r {
            Some(v) => scalar_i64(s@) == Some(v as int),
            None => scalar_i64(s@) is None,
        },
{
    match s {
        Scalar::Int(i) => Some(*i),
        Scalar::UInt(u) => if *u <= i64::MAX as u64 {
            Some(*u as i64)
        } else {
            None
        },
        _ => None,
    }
}

/// The point-search reading of a result: an array of at least three
/// integers. A trailing sentinel of minus one means the search found
/// nothing, which is an absent result, not an error.
pub open spec fn point_model(n: NodeModel) -> Result<Option<(int, int)>, ErrorModel> {
    match n {
        NodeModel::Arr(es) => if es.len() < 3 {
            Err(ErrorModel::ArityError)
        } else if scalar_i64(es[0]) is None || scalar_i64(es[1]) is None || scalar_i64(es[2])
            is None {
            Err(ErrorModel::TypeMismatch)
        } else if scalar_i64(es[2]) == Some(-1int) {
            Ok(None)
        } else {
            Ok(Some((scalar_i64(es[0])->0, scalar_i64(es[1])->0)))
        },
        _ => Err(ErrorModel::TypeMismatch),
    }
}

/// A decoded point search at the model level.
pub open spec fn point_res_view(r: Result<Option<Point>, BridgeError>) -> Result<
    Option<(int, int)>,
    ErrorModel,
> {
    match r {
        Ok(op) => match op {
            Some(p) => Ok(Some((p.x as int, p.y as int))),
            None => Ok(None),
        },
        Err(e) => Err(e@),
    }
}

pub fn decode_point_search(n: &Node) -> (r: Result<Option<Point>, BridgeError>)
    ensures
        point_res_view(r) == point_model(n@),
{
    let es = match n {
        Node::Arr(es) => es,
        _ => {
            return Err(BridgeError::TypeMismatch);
        },
    };
    if es.len() < 3 {
        return Err(BridgeError::ArityError);
    }
    let x = match scalar_to_i64(&es[0]) {
        Some(v) => v,
        None => {
            return Err(BridgeError::TypeMismatch);
        },
    };
    let y = match scalar_to_i64(&es[1]) {
        Some(v) => v,
        None => {
            return Err(BridgeError::TypeMismatch);
        },
    };
    let flag = match scalar_to_i64(&es[2]) {
        Some(v) => v,
        None => {
            return Err(BridgeError::TypeMismatch);
        },
    };
    if flag == -1 {
        Ok(None)
    } else {
        Ok(Some(Point { x, y }))
    }
}

/// The rectangle reading of a result: an array of at least five integers,
/// the first four being the corners. A trailing sentinel of zero means the
/// operation failed on the child's side.
pub open spec fn rect_model(n: NodeModel) -> Result<(int, int, int, int), ErrorModel> {
    match n {
        NodeModel::Arr(es) => if es.len() < 5 {
            Err(ErrorModel::ArityError)
        } else if scalar_i64(es[0]) is None || scalar_i64(es[1]) is None || scalar_i64(es[2])
            is None || scalar_i64(es[3]) is None || scalar_i64(es[4]) is None {
            Err(ErrorModel::TypeMismatch)
        } else if scalar_i64(es[4]) == Some(0int) {
            Err(ErrorModel::OperationFailed)
        } else {
            Ok((scalar_i64(es[0])->0, scalar_i64(es[1])->0, scalar_i64(es[2])->0, scalar_i64(es[3])->0))
        },
        _ => Err(ErrorModel::TypeMismatch),
    }
}

/// A decoded rectangle at the model level.
pub open spec fn rect_res_view(r: Result<Rect, BridgeError>) -> Result<
    (int, int, int, int),
    ErrorModel,
> {
    match r {
        Ok(rc) => Ok((rc.x1 as int, rc.y1 as int, rc.x2 as int, rc.y2 as int)),
        Err(e) => Err(e@),
    }
}

pub fn decode_rect(n: &Node) -> (r: Result<Rect, BridgeError>)
    ensures
        rect_res_view(r) == rect_model(n@),
{
    let es = match n {
        Node::Arr(es) => es,
        _ => {
            return Err(BridgeError::TypeMismatch);
        },
    };
    if es.len() < 5 {
        return Err(BridgeError::ArityError);
    }
    let x1 = match scalar_to_i64(&es[0]) {
        Some(v) => v,
        None => {
            return Err(BridgeError::TypeMismatch);
        },
    };
    let y1 = match scalar_to_i64(&es[1]) {
        Some(v) => v,
        None => {
            return Err(BridgeError::TypeMismatch);
        },
    };
    let x2 = match scalar_to_i64(&es[2]) {
        Some(v) => v,
        None => {
            return Err(BridgeError::TypeMismatch);
        },
    };
    let y2 = match scalar_to_i64(&es[3]) {
        Some(v) => v,
        None => {
            return Err(BridgeError::TypeMismatch);
        },
    };
    let flag = match scalar_to_i64(&es[4]) {
        Some(v) => v,
        None => {
            return Err(BridgeError::TypeMismatch);
        },
    };
    if flag == 0 {
        Err(BridgeError::OperationFailed)
    } else {
        Ok(Rect { x1, y1, x2, y2 })
    }
}

/// Interprets a reply and reads its result as a boolean; a failure anywhere
/// on the way — transport, parse, status, or shape — comes through unchanged.
pub fn to_bool(v: Result<Doc, BridgeError>) -> (r: Result<bool, BridgeError>)
    ensures
        match v {
            Err(e) => r matches Err(e2) && e2@ == e@,
            Ok(doc) => match interpret_model(doc@) {
                Ok(n) => err_view(r) == bool_model(n),
                Err(e) => err_view(r) == Err::<bool, ErrorModel>(e),
            },
        },
{
    match v {
        Err(e) => Err(e),
        Ok(doc) => match interpret(&doc) {
            Err(e) => Err(e),
            Ok(n) => decode_bool(n),
        },
    }
}

/// Interprets a reply and reads its result as an unsigned integer.
pub fn to_u64(v: Result<Doc, BridgeError>) -> (r: Result<u64, BridgeError>)
    ensures
        match v {
            Err(e) => r matches Err(e2) && e2@ == e@,
            Ok(doc) => match interpret_model(doc@) {
                Ok(n) => err_view(r) == u64_model(n),
                Err(e) => err_view(r) == Err::<u64, ErrorModel>(e),
            },
        },
{
    match v {
        Err(e) => Err(e),
        Ok(doc) => match interpret(&doc) {
            Err(e) => Err(e),
            Ok(n) => decode_u64(n),
        },
    }
}

/// Interprets a reply and reads its result as an optional point.
pub fn to_point_search(v: Result<Doc, BridgeError>) -> (r: Result<Option<Point>, BridgeError>)
    ensures
        match v {
            Err(e) => r matches Err(e2) && e2@ == e@,
            Ok(doc) => match interpret_model(doc@) {
                Ok(n) => point_res_view(r) == point_model(n),
                Err(e) => point_res_view(r) == Err::<Option<(int, int)>, ErrorModel>(e),
            },
        },
{
    match v {
        Err(e) => Err(e),
        Ok(doc) => match interpret(&doc) {
            Err(e) => Err(e),
            Ok(n) => decode_point_search(n),
        },
    }
}

/// Interprets a reply and reads its result as a rectangle.
pub fn to_rect(v: Result<Doc, BridgeError>) -> (r: Result<Rect, BridgeError>)
    ensures
        match v {
            Err(e) => r matches Err(e2) && e2@ == e@,
            Ok(doc) => match interpret_model(doc@) {
                Ok(n) => rect_res_view(r) == rect_model(n),
                Err(e) => rect_res_view(r) == Err::<(int, int, int, int), ErrorModel>(e),
            },
        },
{
    match v {
        Err(e) => Err(e),
        Ok(doc) => match interpret(&doc) {
            Err(e) => Err(e),
            Ok(n) => decode_rect(n),
        },
    }
}

} // verus!
