//! The document model of the wire protocol: what one line of JSON looks like
//! to the bridge. A line is a flat object whose field values are scalars,
//! arrays of scalars, or one level of nested object (the request payload);
//! anything deeper is kept opaque, since no part of the protocol reads it.

use vstd::prelude::*;
use vstd::string::StrSliceExecFns;

verus! {

/// A JSON scalar as the bridge sees it. Integers are kept exactly; a number
/// with exactly three fractional digits can be represented as thousandths
/// (the similarity threshold of a picture search is sent that way); every
/// other number and every nested container is recorded only by kind.
#[derive(Debug, Clone, PartialEq)]
pub enum Scalar {
    Null,
    Bool(bool),
    Int(i64),
    UInt(u64),
    /// A decimal number with three fractional digits, stored as thousandths.
    Milli(u32),
    /// A number that is not an integer; its value is not kept, because no
    /// decoder reads one.
    Float,
    Text(String),
    /// An array or object nested deeper than the protocol ever reads.
    Nested,
}

/// The model of a scalar. Signed and unsigned integers collapse into one
/// mathematical integer; text becomes a sequence of characters.
pub enum ScalarModel {
    Null,
    Bool(bool),
    Int(int),
    Milli(int),
    Float,
    Text(Seq<char>),
    Nested,
}

impl View for Scalar {
    type V = ScalarModel;

    open spec fn view(&self) -> ScalarModel {
        match self {
            Scalar::Null => ScalarModel::Null,
            Scalar::Bool(b) => ScalarModel::Bool(*b),
            Scalar::Int(i) => ScalarModel::Int(*i as int),
            Scalar::UInt(u) => ScalarModel::Int(*u as int),
            Scalar::Milli(m) => ScalarModel::Milli(*m as int),
            Scalar::Float => ScalarModel::Float,
            Scalar::Text(s) => ScalarModel::Text(s@),
            Scalar::Nested => ScalarModel::Nested,
        }
    }
}

/// One field value of a wire document: a scalar, an array of scalars, or a
/// flat object of scalars.
#[derive(Debug, Clone, PartialEq)]
pub enum Node {
    Prim(Scalar),
    Arr(Vec<Scalar>),
    Obj(Vec<(String, Scalar)>),
}

/// The model of a field value. An object is a map from field name to scalar;
/// when a name is given twice, the later binding wins.
pub enum NodeModel {
    Prim(ScalarModel),
    Arr(Seq<ScalarModel>),
    Obj(Map<Seq<char>, ScalarModel>),
}

/// The map denoted by a sequence of (name, scalar) fields: later bindings win.
pub open spec fn obj_model(fields: Seq<(String, Scalar)>) -> Map<Seq<char>, ScalarModel>
    decreases fields.len(),
{
    if fields.len() == 0 {
        Map::empty()
    } else {
        obj_model(fields.drop_last()).insert(fields.last().0@, fields.last().1@)
    }
}

impl View for Node {
    type V = NodeModel;

    open spec fn view(&self) -> NodeModel {
        match self {
            Node::Prim(s) => NodeModel::Prim(s@),
            Node::Arr(v) => NodeModel::Arr(v@.map_values(|s: Scalar| s@)),
            Node::Obj(fields) => NodeModel::Obj(obj_model(fields@)),
        }
    }
}

/// A whole wire document: one line of the protocol, a JSON object.
#[derive(Debug, Clone, PartialEq)]
pub struct Doc {
    pub fields: Vec<(String, Node)>,
}

/// The model of a document, again with later bindings winning.
pub open spec fn doc_model(fields: Seq<(String, Node)>) -> Map<Seq<char>, NodeModel>
    decreases fields.len(),
{
    if fields.len() == 0 {
        Map::empty()
    } else {
        doc_model(fields.drop_last()).insert(fields.last().0@, fields.last().1@)
    }
}

impl View for Doc {
    type V = Map<Seq<char>, NodeModel>;

    open spec fn view(&self) -> Map<Seq<char>, NodeModel> {
        doc_model(self.fields@)
    }
}

/// The payload of a request: a flat object built by the typed call catalogue.
#[derive(Debug, Clone, PartialEq)]
pub struct Payload {
    pub fields: Vec<(String, Scalar)>,
}

impl View for Payload {
    type V = Map<Seq<char>, ScalarModel>;

    open spec fn view(&self) -> Map<Seq<char>, ScalarModel> {
        obj_model(self.fields@)
    }
}

/// A scalar that survives a trip over the wire unchanged: integers, booleans,
/// null and text do; thousandths come back as a plain non-integer number, and
/// kinds that drop their value cannot come back at all.
pub open spec fn wf_scalar(s: ScalarModel) -> bool {
    !(s is Milli || s is Float || s is Nested)
}

/// Every scalar of a payload map survives the wire.
pub open spec fn wf_obj(o: Map<Seq<char>, ScalarModel>) -> bool {
    forall|k: Seq<char>| o.contains_key(k) ==> wf_scalar(#[trigger] o[k])
}

pub open spec fn wf_node(n: NodeModel) -> bool {
    match n {
        NodeModel::Prim(s) => wf_scalar(s),
        NodeModel::Arr(ss) => forall|i: int| 0 <= i < ss.len() ==> wf_scalar(#[trigger] ss[i]),
        NodeModel::Obj(o) => wf_obj(o),
    }
}

/// Every value of a document survives the wire; such a document decodes back
/// to exactly its own model.
pub open spec fn wf_doc(d: Map<Seq<char>, NodeModel>) -> bool {
    forall|k: Seq<char>| d.contains_key(k) ==> wf_node(#[trigger] d[k])
}

/// Appending a field to an object updates its model by one insertion.
pub proof fn lemma_obj_model_push(fields: Seq<(String, Scalar)>, k: String, s: Scalar)
    ensures
        obj_model(fields.push((k, s))) == obj_model(fields).insert(k@, s@),
{
    assert(fields.push((k, s)).drop_last() =~= fields);
    assert(fields.push((k, s)).last() == (k, s));
}

/// Appending a field to a document updates its model by one insertion.
pub proof fn lemma_doc_model_push(fields: Seq<(String, Node)>, k: String, n: Node)
    ensures
        doc_model(fields.push((k, n))) == doc_model(fields).insert(k@, n@),
{
    assert(fields.push((k, n)).drop_last() =~= fields);
    assert(fields.push((k, n)).last() == (k, n));
}

/// What a document's model holds at a key, in terms of its field sequence:
/// the key is present exactly when some field bears it, and its value is the
/// value of the last such field.
pub proof fn lemma_doc_model_get(fields: Seq<(String, Node)>, k: Seq<char>)
    ensures
        doc_model(fields).contains_key(k) <==> exists|j: int|
            0 <= j < fields.len() && (#[trigger] fields[j]).0@ == k,
        forall|j: int|
            0 <= j < fields.len() && (#[trigger] fields[j]).0@ == k && (forall|l: int|
                j < l < fields.len() ==> (#[trigger] fields[l]).0@ != k) ==> doc_model(fields)[k]
                == fields[j].1@,
    decreases fields.len(),
{
    if fields.len() > 0 {
        lemma_doc_model_get(fields.drop_last(), k);
        assert forall|j: int|
            0 <= j < fields.len() && (#[trigger] fields[j]).0@ == k && (forall|l: int|
                j < l < fields.len() ==> (#[trigger] fields[l]).0@ != k) implies doc_model(
            fields,
        )[k] == fields[j].1@ by {
            if j == fields.len() - 1 {
                assert(fields.last() == fields[j]);
            } else {
                assert(fields.last().0@ != k);
                assert(fields.drop_last()[j] == fields[j]);
                assert(forall|l: int|
                    j < l < fields.drop_last().len() ==> (#[trigger] fields.drop_last()[l]).0@
                        != k);
            }
        }
        if doc_model(fields).contains_key(k) {
            if fields.last().0@ == k {
                assert(fields[fields.len() - 1].0@ == k);
            } else {
                assert(exists|j: int|
                    0 <= j < fields.drop_last().len() && (#[trigger] fields.drop_last()[j]).0@
                        == k);
                let j = choose|j: int|
                    0 <= j < fields.drop_last().len() && (#[trigger] fields.drop_last()[j]).0@
                        == k;
                assert(fields[j].0@ == k);
            }
        }
        if exists|j: int| 0 <= j < fields.len() && (#[trigger] fields[j]).0@ == k {
            let j = choose|j: int| 0 <= j < fields.len() && (#[trigger] fields[j]).0@ == k;
            if j == fields.len() - 1 {
                assert(doc_model(fields).contains_key(k));
            } else {
                assert(fields.drop_last()[j] == fields[j]);
                assert(doc_model(fields.drop_last()).contains_key(k));
            }
        }
    }
}

/// Character-by-character string equality, proved against the string views.
pub fn str_eq(a: &str, b: &str) -> (r: bool)
    ensures
        r == (a@ == b@),
{
    let la: usize = a.unicode_len();
    let lb: usize = b.unicode_len();
    if la != lb {
        return false;
    }
    let mut i: usize = 0;
    while i < la
        invariant
            i <= la,
            la == a@.len(),
            la == b@.len(),
            forall|j: int| 0 <= j < i ==> a@[j] == b@[j],
        decreases la - i,
    {
        if a.get_char(i) != b.get_char(i) {
            return false;
        }
        i = i + 1;
    }
    proof {
        assert(a@ =~= b@);
    }
    true
}

/// Looks a field up in a document, honouring the model's rule that the last
/// binding of a name wins.
pub fn get_field<'a>(doc: &'a Doc, key: &str) -> (r: Option<&'a Node>)
    ensures
        match r {
            Some(n) => doc@.contains_key(key@) && doc@[key@] == n@,
            None => !doc@.contains_key(key@),
        },
{
    let mut i: usize = doc.fields.len();
    while i > 0
        invariant
            i <= doc.fields.len(),
            forall|l: int| i <= l < doc.fields@.len() ==> (#[trigger] doc.fields@[l]).0@ != key@,
        decreases i,
    {
        i = i - 1;
        if str_eq(doc.fields[i].0.as_str(), key) {
            proof {
                lemma_doc_model_get(doc.fields@, key@);
            }
            return Some(&doc.fields[i].1);
        }
    }
    proof {
        lemma_doc_model_get(doc.fields@, key@);
    }
    None
}

} // verus!
