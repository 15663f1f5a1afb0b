//! The typed value model and its marshaling against native node records.
//!
//! `MpvNode` is the closed, recursive value type of the binding: everything
//! the engine can produce or accept.  `NodeSpec` is its mathematical shadow,
//! used by every contract.  Decoding turns a [`NativeNode`] record into an
//! `MpvNode`, covering exactly the tags the ABI defines and failing — never
//! defaulting — on any other; encoding builds the native record whose decode
//! is the original value, which is the round-trip law of the marshaling
//! layer.

use vstd::prelude::*;

use crate::libmpv::error::Error;
use crate::libmpv::native::{
    NativeNode, MPV_FORMAT_BYTE_ARRAY, MPV_FORMAT_DOUBLE, MPV_FORMAT_FLAG, MPV_FORMAT_INT64,
    MPV_FORMAT_NODE, MPV_FORMAT_NODE_ARRAY, MPV_FORMAT_NODE_MAP, MPV_FORMAT_NONE,
    MPV_FORMAT_OSD_STRING, MPV_FORMAT_STRING,
};
use crate::libmpv::utils::{contains_nul, dec_str, has_nul_byte, string_bytes, u32_to_string};
use crate::libmpv::Mpv;

verus! {

/// The value formats a caller can ask a property in.
#[derive(Debug, Clone, Copy, PartialEq, Eq, Structural)]
pub enum MpvFormat {
    Str,
    Flag,
    Int64,
    Double,
    Node,
}

impl MpvFormat {
    /// The ABI tag this format is wired to.
    pub open spec fn spec_code(self) -> u32 {
        match self {
            MpvFormat::Str => MPV_FORMAT_STRING,
            MpvFormat::Flag => MPV_FORMAT_FLAG,
            MpvFormat::Int64 => MPV_FORMAT_INT64,
            MpvFormat::Double => MPV_FORMAT_DOUBLE,
            MpvFormat::Node => MPV_FORMAT_NODE,
        }
    }

    /// Returns the ABI tag this format is wired to.
    pub fn code(self) -> (r: u32)
        ensures
            r == self.spec_code(),
    {
        match self {
            MpvFormat::Str => MPV_FORMAT_STRING,
            MpvFormat::Flag => MPV_FORMAT_FLAG,
            MpvFormat::Int64 => MPV_FORMAT_INT64,
            MpvFormat::Double => MPV_FORMAT_DOUBLE,
            MpvFormat::Node => MPV_FORMAT_NODE,
        }
    }

    /// The format a configuration names by its lower-case name, if any.
    pub open spec fn spec_of_name(s: Seq<char>) -> Option<MpvFormat> {
        if s == "string"@ {
            Some(MpvFormat::Str)
        } else if s == "flag"@ {
            Some(MpvFormat::Flag)
        } else if s == "int64"@ {
            Some(MpvFormat::Int64)
        } else if s == "double"@ {
            Some(MpvFormat::Double)
        } else if s == "node"@ {
            Some(MpvFormat::Node)
        } else {
            None
        }
    }

    /// Parses the lower-case format name a configuration uses.
    pub fn from_name(name: &String) -> (r: Option<MpvFormat>)
        ensures
            r == MpvFormat::spec_of_name(name@),
    {
        proof {
            reveal_strlit("string");
            reveal_strlit("flag");
            reveal_strlit("int64");
            reveal_strlit("double");
            reveal_strlit("node");
        }
        if *name == "string".to_owned() {
            Some(MpvFormat::Str)
        } else if *name == "flag".to_owned() {
            Some(MpvFormat::Flag)
        } else if *name == "int64".to_owned() {
            Some(MpvFormat::Int64)
        } else if *name == "double".to_owned() {
            Some(MpvFormat::Double)
        } else if *name == "node".to_owned() {
            Some(MpvFormat::Node)
        } else {
            None
        }
    }
}

/// A value that can be written to a property.  Composite nodes are carried
/// but cannot be written back (a native limitation): encoding one fails
/// explicitly.  A double is its raw bit pattern, never interpreted here.
#[derive(Debug, PartialEq)]
pub enum PropertyValue {
    Str(String),
    Flag(bool),
    Int64(i64),
    Double(u64),
    Node(MpvNode),
}

/// Any value the engine can produce or accept: the closed, recursive sum
/// type of the binding.  A map keeps insertion order and unique keys; a
/// double travels as its raw bit pattern.
#[derive(Debug, PartialEq)]
pub enum MpvNode {
    Null,
    Str(String),
    Flag(bool),
    Int64(i64),
    Double(u64),
    NodeArray(Vec<MpvNode>),
    NodeMap(Vec<(String, MpvNode)>),
    ByteArray(Vec<u8>),
}

/// The mathematical shadow of [`MpvNode`]: the same tree over `Seq`.
pub ghost enum NodeSpec {
    Null,
    Str(Seq<char>),
    Flag(bool),
    Int64(i64),
    Double(u64),
    NodeArray(Seq<NodeSpec>),
    NodeMap(Seq<(Seq<char>, NodeSpec)>),
    ByteArray(Seq<u8>),
}

/// The mathematical value of a node.
pub open spec fn node_model(n: MpvNode) -> NodeSpec
    decreases n,
{
    match n {
        MpvNode::Null => NodeSpec::Null,
        MpvNode::Str(s) => NodeSpec::Str(s@),
        MpvNode::Flag(b) => NodeSpec::Flag(b),
        MpvNode::Int64(i) => NodeSpec::Int64(i),
        MpvNode::Double(d) => NodeSpec::Double(d),
        MpvNode::NodeArray(cs) => NodeSpec::NodeArray(nodes_model(cs@)),
        MpvNode::NodeMap(es) => NodeSpec::NodeMap(entries_model(es@)),
        MpvNode::ByteArray(bs) => NodeSpec::ByteArray(bs@),
    }
}

/// The mathematical values of a sequence of nodes.
pub open spec fn nodes_model(s: Seq<MpvNode>) -> Seq<NodeSpec>
    decreases s,
{
    if s.len() == 0 {
        Seq::empty()
    } else {
        nodes_model(s.drop_last()).push(node_model(s.last()))
    }
}

/// The mathematical values of a sequence of map entries.
pub open spec fn entries_model(s: Seq<(String, MpvNode)>) -> Seq<(Seq<char>, NodeSpec)>
    decreases s,
{
    if s.len() == 0 {
        Seq::empty()
    } else {
        entries_model(s.drop_last()).push((s.last().0@, node_model(s.last().1)))
    }
}

pub proof fn lemma_entries_model_index(s: Seq<(String, MpvNode)>)
    ensures
        entries_model(s).len() == s.len(),
        forall|i: int| 0 <= i < s.len() ==> entries_model(s)[i] == (s[i].0@, node_model(s[i].1)),
    decreases s,
{
    if s.len() > 0 {
        lemma_entries_model_index(s.drop_last());
    }
}

/// The printable name of a value-format tag; an unknown tag prints as its
/// number.
pub open spec fn format_name(f: u32) -> Seq<char> {
    if f == MPV_FORMAT_NONE {
        "MPV_FORMAT_NONE"@
    } else if f == MPV_FORMAT_STRING {
        "MPV_FORMAT_STRING"@
    } else if f == MPV_FORMAT_OSD_STRING {
        "MPV_FORMAT_OSD_STRING"@
    } else if f == MPV_FORMAT_FLAG {
        "MPV_FORMAT_FLAG"@
    } else if f == MPV_FORMAT_INT64 {
        "MPV_FORMAT_INT64"@
    } else if f == MPV_FORMAT_DOUBLE {
        "MPV_FORMAT_DOUBLE"@
    } else if f == MPV_FORMAT_NODE {
        "MPV_FORMAT_NODE"@
    } else if f == MPV_FORMAT_NODE_ARRAY {
        "MPV_FORMAT_NODE_ARRAY"@
    } else if f == MPV_FORMAT_NODE_MAP {
        "MPV_FORMAT_NODE_MAP"@
    } else if f == MPV_FORMAT_BYTE_ARRAY {
        "MPV_FORMAT_BYTE_ARRAY"@
    } else {
        "Unknown format code ("@ + dec_str(f as nat) + ")"@
    }
}

/// Renders the printable name of a value-format tag.
pub fn format_to_string(format_code: u32) -> (r: String)
    ensures
        r@ == format_name(format_code),
{
    if format_code == MPV_FORMAT_NONE {
        "MPV_FORMAT_NONE".to_owned()
    } else if format_code == MPV_FORMAT_STRING {
        "MPV_FORMAT_STRING".to_owned()
    } else if format_code == MPV_FORMAT_OSD_STRING {
        "MPV_FORMAT_OSD_STRING".to_owned()
    } else if format_code == MPV_FORMAT_FLAG {
        "MPV_FORMAT_FLAG".to_owned()
    } else if format_code == MPV_FORMAT_INT64 {
        "MPV_FORMAT_INT64".to_owned()
    } else if format_code == MPV_FORMAT_DOUBLE {
        "MPV_FORMAT_DOUBLE".to_owned()
    } else if format_code == MPV_FORMAT_NODE {
        "MPV_FORMAT_NODE".to_owned()
    } else if format_code == MPV_FORMAT_NODE_ARRAY {
        "MPV_FORMAT_NODE_ARRAY".to_owned()
    } else if format_code == MPV_FORMAT_NODE_MAP {
        "MPV_FORMAT_NODE_MAP".to_owned()
    } else if format_code == MPV_FORMAT_BYTE_ARRAY {
        "MPV_FORMAT_BYTE_ARRAY".to_owned()
    } else {
        let mut s = "Unknown format code (".to_owned();
        proof {
            reveal_strlit("Unknown format code (");
            reveal_strlit(")");
        }
        let num = u32_to_string(format_code);
        s.append(num.as_str());
        s.append(")");
        s
    }
}

/// Whether a format tag is one a node record can carry.
pub open spec fn node_format_known(f: u32) -> bool {
    ||| f == MPV_FORMAT_NONE
    ||| f == MPV_FORMAT_STRING
    ||| f == MPV_FORMAT_FLAG
    ||| f == MPV_FORMAT_INT64
    ||| f == MPV_FORMAT_DOUBLE
    ||| f == MPV_FORMAT_NODE_ARRAY
    ||| f == MPV_FORMAT_NODE_MAP
    ||| f == MPV_FORMAT_BYTE_ARRAY
}

/// Whether a format tag is one a property record can carry.
pub open spec fn property_format_known(f: u32) -> bool {
    ||| f == MPV_FORMAT_NONE
    ||| f == MPV_FORMAT_STRING
    ||| f == MPV_FORMAT_OSD_STRING
    ||| f == MPV_FORMAT_FLAG
    ||| f == MPV_FORMAT_INT64
    ||| f == MPV_FORMAT_DOUBLE
    ||| f == MPV_FORMAT_NODE
}

/// Position of the first entry holding the given key, or the length when no
/// entry does.
pub open spec fn key_index(es: Seq<(Seq<char>, NodeSpec)>, k: Seq<char>) -> int
    decreases es,
{
    if es.len() == 0 {
        0
    } else if es[0].0 == k {
        0
    } else {
        1 + key_index(es.drop_first(), k)
    }
}

pub proof fn lemma_key_index(es: Seq<(Seq<char>, NodeSpec)>, k: Seq<char>)
    ensures
        0 <= key_index(es, k) <= es.len(),
        key_index(es, k) < es.len() ==> es[key_index(es, k)].0 == k,
        forall|j: int| 0 <= j < key_index(es, k) ==> es[j].0 != k,
    decreases es,
{
    if es.len() > 0 && es[0].0 != k {
        lemma_key_index(es.drop_first(), k);
        assert forall|j: int| 0 <= j < key_index(es, k) implies es[j].0 != k by {
            if j > 0 {
                assert(es.drop_first()[j - 1] == es[j]);
            }
        }
    }
}

/// Insertion with map semantics: an existing key keeps its position and gets
/// the new value; a fresh key is appended.
pub open spec fn entries_insert(
    es: Seq<(Seq<char>, NodeSpec)>,
    k: Seq<char>,
    v: NodeSpec,
) -> Seq<(Seq<char>, NodeSpec)> {
    let i = key_index(es, k);
    if i < es.len() {
        es.update(i, (k, v))
    } else {
        es.push((k, v))
    }
}

/// What a native node record means: the decoded value, or nothing when the
/// record carries an unknown tag or a malformed map shape.
pub open spec fn decode_node_spec(n: NativeNode) -> Option<NodeSpec>
    decreases n,
{
    if n.format == MPV_FORMAT_NONE {
        Some(NodeSpec::Null)
    } else if n.format == MPV_FORMAT_STRING {
        Some(NodeSpec::Str(n.str_val@))
    } else if n.format == MPV_FORMAT_FLAG {
        Some(NodeSpec::Flag(n.flag_val != 0))
    } else if n.format == MPV_FORMAT_INT64 {
        Some(NodeSpec::Int64(n.int_val))
    } else if n.format == MPV_FORMAT_DOUBLE {
        Some(NodeSpec::Double(n.double_bits))
    } else if n.format == MPV_FORMAT_NODE_ARRAY {
        match decode_nodes_spec(n.children@) {
            Some(cs) => Some(NodeSpec::NodeArray(cs)),
            None => None,
        }
    } else if n.format == MPV_FORMAT_NODE_MAP {
        if n.keys@.len() == n.children@.len() {
            match decode_entries_spec(n.keys@, n.children@) {
                Some(es) => Some(NodeSpec::NodeMap(es)),
                None => None,
            }
        } else {
            None
        }
    } else if n.format == MPV_FORMAT_BYTE_ARRAY {
        Some(NodeSpec::ByteArray(n.bytes@))
    } else {
        None
    }
}

/// Decodes a child list left to right; any failing child fails the list.
pub open spec fn decode_nodes_spec(s: Seq<NativeNode>) -> Option<Seq<NodeSpec>>
    decreases s,
{
    if s.len() == 0 {
        Some(Seq::empty())
    } else {
        match (decode_nodes_spec(s.drop_last()), decode_node_spec(s.last())) {
            (Some(front), Some(x)) => Some(front.push(x)),
            _ => None,
        }
    }
}

/// Decodes a key list and child list pairwise into map entries, inserting
/// left to right with map semantics.
pub open spec fn decode_entries_spec(keys: Seq<String>, vals: Seq<NativeNode>) -> Option<
    Seq<(Seq<char>, NodeSpec)>,
>
    decreases vals,
{
    if vals.len() == 0 {
        Some(Seq::empty())
    } else {
        match (decode_entries_spec(keys.drop_last(), vals.drop_last()), decode_node_spec(
            vals.last(),
        )) {
            (Some(front), Some(x)) => Some(entries_insert(front, keys.last()@, x)),
            _ => None,
        }
    }
}

pub proof fn lemma_decode_nodes_none(s: Seq<NativeNode>, i: int)
    requires
        0 <= i < s.len(),
        decode_node_spec(s[i]) is None,
    ensures
        decode_nodes_spec(s) is None,
    decreases s,
{
    if i < s.len() - 1 {
        lemma_decode_nodes_none(s.drop_last(), i);
    }
}

pub proof fn lemma_decode_entries_none(keys: Seq<String>, vals: Seq<NativeNode>, i: int)
    requires
        0 <= i < vals.len(),
        decode_node_spec(vals[i]) is None,
    ensures
        decode_entries_spec(keys, vals) is None,
    decreases vals,
{
    if i < vals.len() - 1 {
        lemma_decode_entries_none(keys.drop_last(), vals.drop_last(), i);
    }
}

pub proof fn lemma_entries_model_update(s: Seq<(String, MpvNode)>, j: int, e: (String, MpvNode))
    requires
        0 <= j < s.len(),
    ensures
        entries_model(s.update(j, e)) == entries_model(s).update(j, (e.0@, node_model(e.1))),
{
    lemma_entries_model_index(s);
    lemma_entries_model_index(s.update(j, e));
    assert(entries_model(s.update(j, e)) =~= entries_model(s).update(
        j,
        (e.0@, node_model(e.1)),
    ));
}

/// Finds the first entry whose key equals the given one.
fn find_entry_index(es: &Vec<(String, MpvNode)>, key: &String) -> (r: Option<usize>)
    ensures
        match r {
            Some(j) => 0 <= j < es@.len() && es@[j as int].0@ == key@ && (forall|l: int|
                0 <= l < j ==> es@[l].0@ != key@),
            None => forall|l: int| 0 <= l < es@.len() ==> es@[l].0@ != key@,
        },
{
    let mut j: usize = 0;
    while j < es.len()
        invariant
            j <= es@.len(),
            forall|l: int| 0 <= l < j ==> es@[l].0@ != key@,
        decreases es@.len() - j,
    {
        if es[j].0 == *key {
            return Some(j);
        }
        j += 1;
    }
    None
}

impl MpvNode {
    /// Decodes a native node record, covering every tag the ABI defines for
    /// node records and failing on any other — never defaulting.
    pub fn from_node(n: &NativeNode) -> (r: Result<MpvNode, Error>)
        ensures
            r is Ok <==> decode_node_spec(*n) is Some,
            r matches Ok(v) ==> decode_node_spec(*n) == Some(node_model(v)),
            r matches Err(e) ==> e matches Error::NodeConversion(_),
            r matches Ok(v) ==> node_wf(v),
            !node_format_known(n.format) ==> (r matches Err(e) && e matches Error::NodeConversion(
                m,
            ) && m@ == "Unsupported mpv_node format: "@ + format_name(n.format)),
        decreases *n,
    {
        let f = n.format;
        if f == MPV_FORMAT_NONE {
            Ok(MpvNode::Null)
        } else if f == MPV_FORMAT_STRING {
            Ok(MpvNode::Str(n.str_val.clone()))
        } else if f == MPV_FORMAT_FLAG {
            Ok(MpvNode::Flag(n.flag_val != 0))
        } else if f == MPV_FORMAT_INT64 {
            Ok(MpvNode::Int64(n.int_val))
        } else if f == MPV_FORMAT_DOUBLE {
            Ok(MpvNode::Double(n.double_bits))
        } else if f == MPV_FORMAT_NODE_ARRAY {
            let ghost cs = n.children@;
            let mut out: Vec<MpvNode> = Vec::new();
            let mut i: usize = 0;
            proof {
                assert(cs.take(0) =~= Seq::<NativeNode>::empty());
                assert(nodes_wf(out@));
            }
            while i < n.children.len()
                invariant
                    i <= cs.len(),
                    n.format == MPV_FORMAT_NODE_ARRAY,
                    cs == n.children@,
                    out@.len() == i,
                    nodes_wf(out@),
                    decode_nodes_spec(cs.take(i as int)) == Some(nodes_model(out@)),
                decreases cs.len() - i,
            {
                proof {
                    assert(decreases_to!(*n => n.children));
                    assert(decreases_to!(n.children => n.children[i as int]));
                }
                match MpvNode::from_node(&n.children[i]) {
                    Ok(v) => {
                        proof {
                            assert(cs.take(i + 1).drop_last() =~= cs.take(i as int));
                            assert(cs.take(i + 1).last() == cs[i as int]);
                            assert(out@.push(v).drop_last() =~= out@);
                            assert(nodes_wf(out@.push(v)));
                        }
                        out.push(v);
                        i = i + 1;
                    },
                    Err(e) => {
                        proof {
                            lemma_decode_nodes_none(cs, i as int);
                        }
                        return Err(e);
                    },
                }
            }
            proof {
                assert(cs.take(cs.len() as int) =~= cs);
            }
            Ok(MpvNode::NodeArray(out))
        } else if f == MPV_FORMAT_NODE_MAP {
            if n.keys.len() != n.children.len() {
                return Err(Error::NodeConversion("Malformed mpv_node map record".to_owned()));
            }
            let ghost ks = n.keys@;
            let ghost cs = n.children@;
            let mut out: Vec<(String, MpvNode)> = Vec::new();
            let mut i: usize = 0;
            proof {
                assert(ks.take(0) =~= Seq::<String>::empty());
                assert(cs.take(0) =~= Seq::<NativeNode>::empty());
                assert(entries_wf(out@));
            }
            while i < n.children.len()
                invariant
                    i <= cs.len(),
                    n.format == MPV_FORMAT_NODE_MAP,
                    ks == n.keys@,
                    cs == n.children@,
                    ks.len() == cs.len(),
                    entries_wf(out@),
                    decode_entries_spec(ks.take(i as int), cs.take(i as int)) == Some(
                        entries_model(out@),
                    ),
                decreases cs.len() - i,
            {
                proof {
                    assert(decreases_to!(*n => n.children));
                    assert(decreases_to!(n.children => n.children[i as int]));
                }
                match MpvNode::from_node(&n.children[i]) {
                    Ok(v) => {
                        let key = n.keys[i].clone();
                        let ghost front = entries_model(out@);
                        proof {
                            lemma_entries_model_index(out@);
                            lemma_key_index(front, key@);
                        }
                        match find_entry_index(&out, &key) {
                            Some(j) => {
                                proof {
                                    // the first matching position is the same at the
                                    // model level, so this is the insert's update branch
                                    let ki = key_index(front, key@);
                                    assert(front.len() == out@.len());
                                    assert(front[j as int].0 == out@[j as int].0@);
                                    if ki < j as int {
                                        assert(front[ki].0 == out@[ki].0@);
                                        assert(false);
                                    }
                                    if ki > j as int {
                                        assert(false);
                                    }
                                    lemma_entries_model_update(out@, j as int, (key, v));
                                    lemma_entries_wf_update(out@, j as int, (key, v));
                                }
                                let ghost old_out = out@;
                                out.set(j, (key, v));
                                proof {
                                    assert(entries_model(out@) =~= entries_insert(
                                        front,
                                        ks[i as int]@,
                                        node_model(v),
                                    ));
                                }
                            },
                            None => {
                                proof {
                                    let ki = key_index(front, key@);
                                    assert(front.len() == out@.len());
                                    if ki < front.len() {
                                        assert(front[ki].0 == out@[ki].0@);
                                        assert(false);
                                    }
                                    assert(out@.push((key, v)).drop_last() =~= out@);
                                    assert(entries_wf(out@.push((key, v))));
                                }
                                out.push((key, v));
                                proof {
                                    assert(entries_model(out@) =~= entries_insert(
                                        front,
                                        ks[i as int]@,
                                        node_model(v),
                                    ));
                                }
                            },
                        }
                        proof {
                            assert(ks.take(i + 1).drop_last() =~= ks.take(i as int));
                            assert(cs.take(i + 1).drop_last() =~= cs.take(i as int));
                            assert(cs.take(i + 1).last() == cs[i as int]);
                            assert(ks.take(i + 1).last() == ks[i as int]);
                        }
                        i = i + 1;
                    },
                    Err(e) => {
                        proof {
                            lemma_decode_entries_none(ks, cs, i as int);
                        }
                        return Err(e);
                    },
                }
            }
            proof {
                assert(ks.take(ks.len() as int) =~= ks);
                assert(cs.take(cs.len() as int) =~= cs);
            }
            Ok(MpvNode::NodeMap(out))
        } else if f == MPV_FORMAT_BYTE_ARRAY {
            Ok(MpvNode::ByteArray(n.bytes.clone()))
        } else {
            let mut m = "Unsupported mpv_node format: ".to_owned();
            proof {
                reveal_strlit("Unsupported mpv_node format: ");
            }
            let name = format_to_string(f);
            m.append(name.as_str());
            Err(Error::NodeConversion(m))
        }
    }
}

/// What a native property record means.  Property records carry a narrower
/// tag set than node records: plain and OSD strings both mean a string, and
/// the node tag defers to the full node decoding.
pub open spec fn decode_property_spec(format: u32, d: NativeNode) -> Option<NodeSpec> {
    if format == MPV_FORMAT_NONE {
        Some(NodeSpec::Null)
    } else if format == MPV_FORMAT_STRING || format == MPV_FORMAT_OSD_STRING {
        Some(NodeSpec::Str(d.str_val@))
    } else if format == MPV_FORMAT_FLAG {
        Some(NodeSpec::Flag(d.flag_val != 0))
    } else if format == MPV_FORMAT_INT64 {
        Some(NodeSpec::Int64(d.int_val))
    } else if format == MPV_FORMAT_DOUBLE {
        Some(NodeSpec::Double(d.double_bits))
    } else if format == MPV_FORMAT_NODE {
        decode_node_spec(d)
    } else {
        None
    }
}

impl MpvNode {
    /// Decodes the payload of a native property record, under the record's
    /// own format tag.
    pub fn from_property(format: u32, data: &NativeNode) -> (r: Result<MpvNode, Error>)
        ensures
            r is Ok <==> decode_property_spec(format, *data) is Some,
            r matches Ok(v) ==> decode_property_spec(format, *data) == Some(node_model(v)),
            r matches Err(e) ==> (e matches Error::PropertyConversion(_) || e
                matches Error::NodeConversion(_)),
            r matches Ok(v) ==> node_wf(v),
            !property_format_known(format) ==> (r matches Err(e) && e
                matches Error::PropertyConversion(m) && m@
                == "Unsupported mpv_event_property format: "@ + format_name(format)),
    {
        if format == MPV_FORMAT_NONE {
            Ok(MpvNode::Null)
        } else if format == MPV_FORMAT_STRING || format == MPV_FORMAT_OSD_STRING {
            Ok(MpvNode::Str(data.str_val.clone()))
        } else if format == MPV_FORMAT_FLAG {
            Ok(MpvNode::Flag(data.flag_val != 0))
        } else if format == MPV_FORMAT_INT64 {
            Ok(MpvNode::Int64(data.int_val))
        } else if format == MPV_FORMAT_DOUBLE {
            Ok(MpvNode::Double(data.double_bits))
        } else if format == MPV_FORMAT_NODE {
            MpvNode::from_node(data)
        } else {
            let mut m = "Unsupported mpv_event_property format: ".to_owned();
            proof {
                reveal_strlit("Unsupported mpv_event_property format: ");
            }
            let name = format_to_string(format);
            m.append(name.as_str());
            Err(Error::PropertyConversion(m))
        }
    }
}

/// The node invariant: every map in the tree keeps its keys unique.
pub open spec fn node_wf(n: MpvNode) -> bool
    decreases n,
{
    match n {
        MpvNode::NodeArray(cs) => nodes_wf(cs@),
        MpvNode::NodeMap(es) => entries_wf(es@),
        _ => true,
    }
}

pub open spec fn nodes_wf(s: Seq<MpvNode>) -> bool
    decreases s,
{
    s.len() == 0 || (nodes_wf(s.drop_last()) && node_wf(s.last()))
}

pub open spec fn entries_wf(s: Seq<(String, MpvNode)>) -> bool
    decreases s,
{
    if s.len() == 0 {
        true
    } else {
        &&& entries_wf(s.drop_last())
        &&& node_wf(s.last().1)
        &&& forall|j: int| 0 <= j < s.len() - 1 ==> s[j].0@ != s.last().0@
    }
}

pub proof fn lemma_nodes_wf_index(s: Seq<MpvNode>)
    requires
        nodes_wf(s),
    ensures
        forall|i: int| 0 <= i < s.len() ==> node_wf(#[trigger] s[i]),
    decreases s,
{
    if s.len() > 0 {
        lemma_nodes_wf_index(s.drop_last());
        assert forall|i: int| 0 <= i < s.len() implies node_wf(#[trigger] s[i]) by {
            if i < s.len() - 1 {
                assert(s.drop_last()[i] == s[i]);
            }
        }
    }
}

pub proof fn lemma_entries_wf_update(s: Seq<(String, MpvNode)>, j: int, e: (String, MpvNode))
    requires
        entries_wf(s),
        0 <= j < s.len(),
        e.0@ == s[j].0@,
        node_wf(e.1),
    ensures
        entries_wf(s.update(j, e)),
    decreases s,
{
    let s2 = s.update(j, e);
    if j == s.len() - 1 {
        assert(s2.drop_last() =~= s.drop_last());
        assert(s2.last() == e);
        assert forall|l: int| 0 <= l < s2.len() - 1 implies s2[l].0@ != s2.last().0@ by {
            assert(s2[l] == s[l]);
        }
    } else {
        assert(s2.drop_last() =~= s.drop_last().update(j, e));
        lemma_entries_wf_update(s.drop_last(), j, e);
        assert(s2.last() == s.last());
        assert forall|l: int| 0 <= l < s2.len() - 1 implies s2[l].0@ != s2.last().0@ by {
            if l != j {
                assert(s2[l] == s[l]);
            }
        }
    }
}

pub proof fn lemma_entries_wf_index(s: Seq<(String, MpvNode)>)
    requires
        entries_wf(s),
    ensures
        forall|i: int| 0 <= i < s.len() ==> node_wf(#[trigger] s[i].1),
        forall|i: int, j: int| 0 <= i < j < s.len() ==> s[i].0@ != s[j].0@,
    decreases s,
{
    if s.len() > 0 {
        lemma_entries_wf_index(s.drop_last());
        assert forall|i: int| 0 <= i < s.len() implies node_wf(#[trigger] s[i].1) by {
            if i < s.len() - 1 {
                assert(s.drop_last()[i] == s[i]);
            }
        }
        assert forall|i: int, j: int| 0 <= i < j < s.len() implies s[i].0@ != s[j].0@ by {
            if j < s.len() - 1 {
                assert(s.drop_last()[i] == s[i]);
                assert(s.drop_last()[j] == s[j]);
            }
        }
    }
}

/// The format tag a value encodes under.
pub open spec fn spec_node_format(n: MpvNode) -> u32 {
    match n {
        MpvNode::Null => MPV_FORMAT_NONE,
        MpvNode::Str(_) => MPV_FORMAT_STRING,
        MpvNode::Flag(_) => MPV_FORMAT_FLAG,
        MpvNode::Int64(_) => MPV_FORMAT_INT64,
        MpvNode::Double(_) => MPV_FORMAT_DOUBLE,
        MpvNode::NodeArray(_) => MPV_FORMAT_NODE_ARRAY,
        MpvNode::NodeMap(_) => MPV_FORMAT_NODE_MAP,
        MpvNode::ByteArray(_) => MPV_FORMAT_BYTE_ARRAY,
    }
}

impl MpvNode {
    /// Encodes a value as the native node record that decodes back to it.
    ///
    /// The postcondition is the round-trip law of the marshaling layer: for
    /// every well-formed value, decoding its encoding yields exactly the
    /// value again, for all of the tags a node record can carry.
    pub fn to_native(&self) -> (r: NativeNode)
        requires
            node_wf(*self),
        ensures
            decode_node_spec(r) == Some(node_model(*self)),
            r.format == spec_node_format(*self),
        decreases *self,
    {
        match self {
            MpvNode::Null => NativeNode::blank(MPV_FORMAT_NONE),
            MpvNode::Str(s) => {
                let mut out = NativeNode::blank(MPV_FORMAT_STRING);
                out.str_val = s.clone();
                out
            },
            MpvNode::Flag(b) => {
                let mut out = NativeNode::blank(MPV_FORMAT_FLAG);
                out.flag_val = if *b {
                    1
                } else {
                    0
                };
                out
            },
            MpvNode::Int64(x) => {
                let mut out = NativeNode::blank(MPV_FORMAT_INT64);
                out.int_val = *x;
                out
            },
            MpvNode::Double(d) => {
                let mut out = NativeNode::blank(MPV_FORMAT_DOUBLE);
                out.double_bits = *d;
                out
            },
            MpvNode::NodeArray(cs) => {
                let mut children: Vec<NativeNode> = Vec::new();
                let mut i: usize = 0;
                proof {
                    lemma_nodes_wf_index(cs@);
                    assert(cs@.take(0) =~= Seq::<MpvNode>::empty());
                }
                while i < cs.len()
                    invariant
                        i <= cs@.len(),
                        *self == MpvNode::NodeArray(*cs),
                        node_wf(*self),
                        forall|l: int| 0 <= l < cs@.len() ==> node_wf(#[trigger] cs@[l]),
                        children@.len() == i,
                        decode_nodes_spec(children@) == Some(nodes_model(cs@.take(i as int))),
                    decreases cs@.len() - i,
                {
                    proof {
                        assert(decreases_to!(*self => *cs));
                        assert(decreases_to!(*cs => cs[i as int]));
                    }
                    let enc = cs[i].to_native();
                    proof {
                        assert(children@.push(enc).drop_last() =~= children@);
                        assert(cs@.take(i + 1).drop_last() =~= cs@.take(i as int));
                        assert(cs@.take(i + 1).last() == cs@[i as int]);
                    }
                    children.push(enc);
                    i = i + 1;
                }
                let mut out = NativeNode::blank(MPV_FORMAT_NODE_ARRAY);
                out.children = children;
                proof {
                    assert(cs@.take(cs@.len() as int) =~= cs@);
                }
                out
            },
            MpvNode::NodeMap(es) => {
                let mut keys: Vec<String> = Vec::new();
                let mut children: Vec<NativeNode> = Vec::new();
                let mut i: usize = 0;
                proof {
                    lemma_entries_wf_index(es@);
                    assert(es@.take(0) =~= Seq::<(String, MpvNode)>::empty());
                }
                while i < es.len()
                    invariant
                        i <= es@.len(),
                        *self == MpvNode::NodeMap(*es),
                        node_wf(*self),
                        forall|l: int| 0 <= l < es@.len() ==> node_wf(#[trigger] es@[l].1),
                        forall|l: int, m: int| 0 <= l < m < es@.len() ==> es@[l].0@ != es@[m].0@,
                        keys@.len() == i,
                        children@.len() == i,
                        forall|l: int| 0 <= l < i ==> #[trigger] keys@[l]@ == es@[l].0@,
                        decode_entries_spec(keys@, children@) == Some(
                            entries_model(es@.take(i as int)),
                        ),
                    decreases es@.len() - i,
                {
                    proof {
                        assert(decreases_to!(*self => *es));
                        assert(decreases_to!(*es => es[i as int]));
                        assert(decreases_to!(es[i as int] => es[i as int].1));
                    }
                    let enc = es[i].1.to_native();
                    let k = es[i].0.clone();
                    proof {
                        let ghost front = entries_model(es@.take(i as int));
                        lemma_entries_model_index(es@.take(i as int));
                        lemma_key_index(front, k@);
                        let ki = key_index(front, k@);
                        if ki < front.len() {
                            assert(front[ki].0 == es@.take(i as int)[ki].0@);
                            assert(es@[ki].0@ == es@[i as int].0@);
                            assert(false);
                        }
                        assert(keys@.push(k).drop_last() =~= keys@);
                        assert(children@.push(enc).drop_last() =~= children@);
                        assert(es@.take(i + 1).drop_last() =~= es@.take(i as int));
                        assert(es@.take(i + 1).last() == es@[i as int]);
                    }
                    keys.push(k);
                    children.push(enc);
                    i = i + 1;
                }
                let mut out = NativeNode::blank(MPV_FORMAT_NODE_MAP);
                out.keys = keys;
                out.children = children;
                proof {
                    assert(es@.take(es@.len() as int) =~= es@);
                }
                out
            },
            MpvNode::ByteArray(bs) => {
                let mut bytes: Vec<u8> = Vec::new();
                let mut i: usize = 0;
                while i < bs.len()
                    invariant
                        i <= bs@.len(),
                        bytes@ == bs@.take(i as int),
                    decreases bs@.len() - i,
                {
                    let b = bs[i];
                    proof {
                        assert(bs@.take(i + 1) =~= bs@.take(i as int).push(bs@[i as int]));
                    }
                    bytes.push(b);
                    i = i + 1;
                }
                let mut out = NativeNode::blank(MPV_FORMAT_BYTE_ARRAY);
                out.bytes = bytes;
                proof {
                    assert(bs@.take(bs@.len() as int) =~= bs@);
                }
                out
            },
        }
    }
}

/// Builds a representative native record for a format tag: the encoding of a
/// small sample value of that shape, usable to exercise a decoder.  Yields
/// nothing exactly for the tags a node record cannot carry.
pub fn encode_representative_native_value(format: u32) -> (r: Option<NativeNode>)
    ensures
        r is Some <==> node_format_known(format),
        r matches Some(nn) ==> nn.format == format && decode_node_spec(nn) is Some,
{
    let sample: MpvNode = if format == MPV_FORMAT_NONE {
        MpvNode::Null
    } else if format == MPV_FORMAT_STRING {
        MpvNode::Str("example".to_owned())
    } else if format == MPV_FORMAT_FLAG {
        MpvNode::Flag(true)
    } else if format == MPV_FORMAT_INT64 {
        MpvNode::Int64(42)
    } else if format == MPV_FORMAT_DOUBLE {
        MpvNode::Double(0x3FF0000000000000)
    } else if format == MPV_FORMAT_NODE_ARRAY {
        let mut cs: Vec<MpvNode> = Vec::new();
        cs.push(MpvNode::Int64(7));
        proof {
            assert(nodes_wf(Seq::<MpvNode>::empty()));
            assert(cs@.drop_last() =~= Seq::<MpvNode>::empty());
            assert(node_wf(MpvNode::Int64(7)));
            assert(nodes_wf(cs@));
        }
        MpvNode::NodeArray(cs)
    } else if format == MPV_FORMAT_NODE_MAP {
        let mut es: Vec<(String, MpvNode)> = Vec::new();
        es.push(("key".to_owned(), MpvNode::Int64(7)));
        proof {
            assert(entries_wf(Seq::<(String, MpvNode)>::empty()));
            assert(es@.drop_last() =~= Seq::<(String, MpvNode)>::empty());
            assert(node_wf(MpvNode::Int64(7)));
            assert(entries_wf(es@));
        }
        MpvNode::NodeMap(es)
    } else if format == MPV_FORMAT_BYTE_ARRAY {
        let mut bs: Vec<u8> = Vec::new();
        bs.push(1);
        bs.push(2);
        MpvNode::ByteArray(bs)
    } else {
        return None;
    };
    proof {
        assert(node_wf(sample));
    }
    Some(sample.to_native())
}

/// One native property write, dispatched to the correctly-typed native
/// entry point: a string setter for text, and typed pointers for flag,
/// integer and double writes.
#[derive(Debug, PartialEq)]
pub enum PropertyWrite {
    Text(String),
    Flag(i32),
    Int64(i64),
    Double(u64),
}

/// Encodes a property value as the native write that carries it.  Composite
/// node values cannot be written back — a native limitation — and fail
/// explicitly rather than coerce.
pub fn encode_property_value(value: PropertyValue) -> (r: Result<PropertyWrite, Error>)
    ensures
        value matches PropertyValue::Str(s) ==> (r matches Ok(w) && w matches PropertyWrite::Text(
            t,
        ) && t@ == s@),
        value matches PropertyValue::Flag(b) ==> (r matches Ok(w) && w matches PropertyWrite::Flag(
            x,
        ) && x == if b {
            1int
        } else {
            0int
        }),
        value matches PropertyValue::Int64(i) ==> r == Ok::<PropertyWrite, Error>(
            PropertyWrite::Int64(i),
        ),
        value matches PropertyValue::Double(d) ==> r == Ok::<PropertyWrite, Error>(
            PropertyWrite::Double(d),
        ),
        value matches PropertyValue::Node(_) ==> (r matches Err(e) && e
            matches Error::Unsupported(m) && m@
            == "Setting a property with a Node value is not supported"@),
{
    match value {
        PropertyValue::Str(s) => Ok(PropertyWrite::Text(s)),
        PropertyValue::Flag(b) => Ok(
            PropertyWrite::Flag(
                if b {
                    1
                } else {
                    0
                },
            ),
        ),
        PropertyValue::Int64(i) => Ok(PropertyWrite::Int64(i)),
        PropertyValue::Double(d) => Ok(PropertyWrite::Double(d)),
        PropertyValue::Node(_) => {
            proof {
                reveal_strlit("Setting a property with a Node value is not supported");
            }
            Err(
                Error::Unsupported(
                    "Setting a property with a Node value is not supported".to_owned(),
                ),
            )
        },
    }
}

/// Whether a property write is acceptable before any native call: the name
/// and a text value must be clean of NUL bytes, and a composite node value
/// is never writable.
pub open spec fn spec_set_property_ok(name: String, value: PropertyValue) -> bool {
    &&& !has_nul_byte(string_bytes(name))
    &&& match value {
        PropertyValue::Str(s) => !has_nul_byte(string_bytes(s)),
        PropertyValue::Node(_) => false,
        _ => true,
    }
}

/// Validates one property write and dispatches it to its typed native
/// entry point, before any native call is made.
pub fn set_property_request(name: &String, value: PropertyValue) -> (r: Result<
    PropertyWrite,
    Error,
>)
    ensures
        has_nul_byte(string_bytes(*name)) ==> (r matches Err(e) && e
            matches Error::InvalidCString(_)),
        !has_nul_byte(string_bytes(*name)) ==> match value {
            PropertyValue::Str(s) => {
                if has_nul_byte(string_bytes(s)) {
                    r matches Err(e) && e matches Error::InvalidCString(_)
                } else {
                    r matches Ok(w) && w matches PropertyWrite::Text(t) && t@ == s@
                }
            },
            PropertyValue::Flag(b) => (r matches Ok(w) && w matches PropertyWrite::Flag(x) && x
                == if b {
                1int
            } else {
                0int
            }),
            PropertyValue::Int64(i) => r == Ok::<PropertyWrite, Error>(PropertyWrite::Int64(i)),
            PropertyValue::Double(d) => r == Ok::<PropertyWrite, Error>(PropertyWrite::Double(d)),
            PropertyValue::Node(_) => (r matches Err(e) && e matches Error::Unsupported(_)),
        },
{
    if contains_nul(name.as_str()) {
        return Err(Error::InvalidCString("property name holds a NUL byte".to_owned()));
    }
    if let PropertyValue::Str(s) = &value {
        if contains_nul(s.as_str()) {
            return Err(Error::InvalidCString("property value holds a NUL byte".to_owned()));
        }
    }
    encode_property_value(value)
}

impl Mpv {
    /// The decision core of one blocking property write: the request must
    /// be acceptable, and a negative native status becomes the typed write
    /// error carrying the property name and the engine's message.
    pub fn set_property(
        &self,
        name: &String,
        value: PropertyValue,
        status: i32,
        native_message: String,
    ) -> (r: Result<(), Error>)
        ensures
            spec_set_property_ok(*name, value) && status >= 0 ==> r == Ok::<(), Error>(()),
            spec_set_property_ok(*name, value) && status < 0 ==> (r matches Err(e) && e
                matches Error::SetProperty { name: n, message } && n@ == name@ && message@
                == native_message@),
            !spec_set_property_ok(*name, value) ==> (r matches Err(e) && (e
                matches Error::InvalidCString(_) || e matches Error::Unsupported(_))),
    {
        match set_property_request(name, value) {
            Ok(_) => {
                if status < 0 {
                    Err(Error::SetProperty { name: name.clone(), message: native_message })
                } else {
                    Ok(())
                }
            },
            Err(e) => Err(e),
        }
    }

    /// One blocking string-property read: a negative status is the typed
    /// read error; a null result pointer reads as the empty string.
    pub fn get_property_string(
        &self,
        name: &String,
        status: i32,
        data: Option<String>,
        native_message: String,
    ) -> (r: Result<String, Error>)
        ensures
            has_nul_byte(string_bytes(*name)) ==> (r matches Err(e) && e
                matches Error::InvalidCString(_)),
            !has_nul_byte(string_bytes(*name)) && status < 0 ==> (r matches Err(e) && e
                matches Error::GetProperty { name: n, message } && n@ == name@ && message@
                == native_message@),
            !has_nul_byte(string_bytes(*name)) && status >= 0 ==> (r matches Ok(s) && s@
                == match data {
                Some(d) => d@,
                None => Seq::<char>::empty(),
            }),
    {
        if contains_nul(name.as_str()) {
            return Err(Error::InvalidCString("property name holds a NUL byte".to_owned()));
        }
        if status < 0 {
            return Err(Error::GetProperty { name: name.clone(), message: native_message });
        }
        match data {
            Some(d) => Ok(d),
            None => Ok(String::new()),
        }
    }

    /// One blocking flag-property read.
    pub fn get_property_flag(
        &self,
        name: &String,
        status: i32,
        data: i32,
        native_message: String,
    ) -> (r: Result<bool, Error>)
        ensures
            has_nul_byte(string_bytes(*name)) ==> (r matches Err(e) && e
                matches Error::InvalidCString(_)),
            !has_nul_byte(string_bytes(*name)) && status < 0 ==> (r matches Err(e) && e
                matches Error::GetProperty { name: n, message } && n@ == name@ && message@
                == native_message@),
            !has_nul_byte(string_bytes(*name)) && status >= 0 ==> r == Ok::<bool, Error>(
                data != 0,
            ),
    {
        if contains_nul(name.as_str()) {
            return Err(Error::InvalidCString("property name holds a NUL byte".to_owned()));
        }
        if status < 0 {
            return Err(Error::GetProperty { name: name.clone(), message: native_message });
        }
        Ok(data != 0)
    }

    /// One blocking integer-property read.
    pub fn get_property_int64(
        &self,
        name: &String,
        status: i32,
        data: i64,
        native_message: String,
    ) -> (r: Result<i64, Error>)
        ensures
            has_nul_byte(string_bytes(*name)) ==> (r matches Err(e) && e
                matches Error::InvalidCString(_)),
            !has_nul_byte(string_bytes(*name)) && status < 0 ==> (r matches Err(e) && e
                matches Error::GetProperty { name: n, message } && n@ == name@ && message@
                == native_message@),
            !has_nul_byte(string_bytes(*name)) && status >= 0 ==> r == Ok::<i64, Error>(data),
    {
        if contains_nul(name.as_str()) {
            return Err(Error::InvalidCString("property name holds a NUL byte".to_owned()));
        }
        if status < 0 {
            return Err(Error::GetProperty { name: name.clone(), message: native_message });
        }
        Ok(data)
    }

    /// One blocking double-property read; the value stays in its raw bit
    /// pattern.
    pub fn get_property_double(
        &self,
        name: &String,
        status: i32,
        data_bits: u64,
        native_message: String,
    ) -> (r: Result<u64, Error>)
        ensures
            has_nul_byte(string_bytes(*name)) ==> (r matches Err(e) && e
                matches Error::InvalidCString(_)),
            !has_nul_byte(string_bytes(*name)) && status < 0 ==> (r matches Err(e) && e
                matches Error::GetProperty { name: n, message } && n@ == name@ && message@
                == native_message@),
            !has_nul_byte(string_bytes(*name)) && status >= 0 ==> r == Ok::<u64, Error>(
                data_bits,
            ),
    {
        if contains_nul(name.as_str()) {
            return Err(Error::InvalidCString("property name holds a NUL byte".to_owned()));
        }
        if status < 0 {
            return Err(Error::GetProperty { name: name.clone(), message: native_message });
        }
        Ok(data_bits)
    }

    /// One blocking node-property read: a null result pointer reads as the
    /// null node, and any other record is decoded in full.
    pub fn get_property_node(
        &self,
        name: &String,
        status: i32,
        data: Option<&NativeNode>,
        native_message: String,
    ) -> (r: Result<MpvNode, Error>)
        ensures
            has_nul_byte(string_bytes(*name)) ==> (r matches Err(e) && e
                matches Error::InvalidCString(_)),
            !has_nul_byte(string_bytes(*name)) && status < 0 ==> (r matches Err(e) && e
                matches Error::GetProperty { name: n, message } && n@ == name@ && message@
                == native_message@),
            !has_nul_byte(string_bytes(*name)) && status >= 0 ==> match data {
                Some(d) => {
                    if decode_node_spec(*d) is Some {
                        r matches Ok(v) && Some(node_model(v)) == decode_node_spec(*d)
                    } else {
                        r matches Err(e) && e matches Error::NodeConversion(_)
                    }
                },
                None => r == Ok::<MpvNode, Error>(MpvNode::Null),
            },
    {
        if contains_nul(name.as_str()) {
            return Err(Error::InvalidCString("property name holds a NUL byte".to_owned()));
        }
        if status < 0 {
            return Err(Error::GetProperty { name: name.clone(), message: native_message });
        }
        match data {
            Some(d) => MpvNode::from_node(d),
            None => Ok(MpvNode::Null),
        }
    }
}

} // verus!
