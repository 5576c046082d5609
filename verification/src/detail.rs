//! The tree of labelled lines that shows the parts of a transaction in the
//! explorer's detail view. Each line has an identifier, made of a kind and
//! the path of indices that leads to it, and a text.

use vstd::prelude::*;
use vstd::string::*;
use crate::hexcodec::{hex_encode, hex_text};
use crate::numbers::{decimal, i64_to_decimal, signed_decimal, u64_to_decimal};
use vstd::utf8::{decode_utf8, encode_utf8, valid_utf8};

verus! {

/// A line of the tree with the lines under it.
#[derive(Debug)]
pub struct TreeNode {
    pub id: String,
    pub text: String,
    pub children: Vec<TreeNode>,
}

/// A line of the tree as values.
pub struct TreeView {
    pub id: Seq<char>,
    pub text: Seq<char>,
    pub children: Seq<TreeView>,
}

pub open spec fn tree_view(t: TreeNode) -> TreeView
    decreases t,
{
    TreeView { id: t.id@, text: t.text@, children: trees_view(t.children@) }
}

pub open spec fn trees_view(s: Seq<TreeNode>) -> Seq<TreeView>
    decreases s,
{
    if s.len() == 0 {
        Seq::empty()
    } else {
        trees_view(s.drop_last()).push(tree_view(s.last()))
    }
}

proof fn lemma_trees_view_push(s: Seq<TreeNode>, x: TreeNode)
    ensures
        trees_view(s.push(x)) == trees_view(s).push(tree_view(x)),
{
    assert(s.push(x).drop_last() =~= s);
}

/// A line without lines under it.
pub open spec fn leaf(id: Seq<char>, text: Seq<char>) -> TreeView {
    TreeView { id, text, children: Seq::empty() }
}

/// The path of the `j`-th item under `index`.
pub open spec fn child_index(index: Seq<char>, j: int) -> Seq<char> {
    index + seq!['_'] + decimal(j as nat)
}

/// `a` followed by `b`.
fn join(a: &str, b: &str) -> (r: String)
    ensures
        r@ == a@ + b@,
{
    let mut out = String::from_str(a);
    out.append(b);
    out
}

/// A line without lines under it.
fn new_leaf(id: String, text: String) -> (r: TreeNode)
    ensures
        tree_view(r) == leaf(id@, text@),
{
    let r = TreeNode { id, text, children: Vec::new() };
    assert(trees_view(r.children@) =~= Seq::<TreeView>::empty());
    r
}

/// The path of the `j`-th item under `index`.
fn child_path(index: &str, j: usize) -> (r: String)
    ensures
        r@ == child_index(index@, j as int),
{
    let mut out = String::from_str(index);
    out.append("_");
    let d = u64_to_decimal(j as u64);
    out.append(d.as_str());
    proof {
        reveal_strlit("_");
    }
    assert(out@ =~= child_index(index@, j as int));
    out
}

/// An integer of Plutus data: one that fits 64 bits, or the bytes of a
/// larger one, unsigned or negative.
#[derive(Debug)]
pub enum BigIntValue {
    Int(i64),
    BigUInt(Vec<u8>),
    BigNInt(Vec<u8>),
    Missing,
}

/// Plutus data.
#[derive(Debug)]
pub enum PlutusDatum {
    Constr { tag: u32, any_constructor: u64, fields: Vec<PlutusDatum> },
    Pairs(Vec<(Option<PlutusDatum>, Option<PlutusDatum>)>),
    BigInt(BigIntValue),
    BoundedBytes(Vec<u8>),
    Array(Vec<PlutusDatum>),
    Missing,
}

/// The text of an integer of Plutus data.
pub open spec fn big_int_text(b: BigIntValue) -> Seq<char> {
    match b {
        BigIntValue::Int(i) => "Int: "@ + signed_decimal(i as int),
        BigIntValue::BigUInt(bytes) => "BigUInt: "@ + hex_text(bytes@),
        BigIntValue::BigNInt(bytes) => "BigNInt: "@ + hex_text(bytes@),
        BigIntValue::Missing => "BigInt: None"@,
    }
}

/// The lines that show Plutus data at a path.
pub open spec fn plutus_tree(d: PlutusDatum, index: Seq<char>) -> TreeView
    decreases d,
{
    match d {
        PlutusDatum::Constr { tag, any_constructor, fields } => TreeView {
            id: "plutus_constr_"@ + index,
            text: "Constr"@,
            children: seq![
                leaf("constr_tag_"@ + index, "Tag: "@ + decimal(tag as nat)),
                leaf("constr_any_"@ + index, "Any Constructor: "@ + decimal(any_constructor as nat)),
            ] + if fields@.len() > 0 {
                seq![TreeView {
                    id: "constr_fields_"@ + index,
                    text: "Fields"@,
                    children: plutus_list(fields@, index),
                }]
            } else {
                Seq::empty()
            },
        },
        PlutusDatum::Pairs(pairs) => TreeView {
            id: "plutus_map_"@ + index,
            text: "Map"@,
            children: plutus_pairs(pairs@, index),
        },
        PlutusDatum::BigInt(b) => leaf("plutus_bigint_"@ + index, big_int_text(b)),
        PlutusDatum::BoundedBytes(bytes) => leaf("plutus_bytes_"@ + index, "Bounded Bytes: "@ + hex_text(bytes@)),
        PlutusDatum::Array(items) => TreeView {
            id: "plutus_array_"@ + index,
            text: "Array"@,
            children: plutus_list(items@, index),
        },
        PlutusDatum::Missing => leaf("plutus_none_"@ + index, "PlutusData: None"@),
    }
}

/// The lines of a list of Plutus data, the `j`-th at path `index_j`.
pub open spec fn plutus_list(items: Seq<PlutusDatum>, index: Seq<char>) -> Seq<TreeView>
    decreases items,
{
    if items.len() == 0 {
        Seq::empty()
    } else {
        plutus_list(items.drop_last(), index).push(plutus_tree(items.last(), child_index(index, items.len() - 1)))
    }
}

/// The lines of a key or a value of a map of Plutus data.
pub open spec fn plutus_side(side: Option<PlutusDatum>, path: Seq<char>, missing: Seq<char>) -> TreeView
    decreases side,
{
    match side {
        Some(d) => plutus_tree(d, path),
        None => leaf(path, missing),
    }
}

/// The lines of the pairs of a map of Plutus data.
pub open spec fn plutus_pairs(pairs: Seq<(Option<PlutusDatum>, Option<PlutusDatum>)>, index: Seq<char>) -> Seq<TreeView>
    decreases pairs,
{
    if pairs.len() == 0 {
        Seq::empty()
    } else {
        let j = pairs.len() - 1;
        let p = pairs.last();
        let path = child_index(index, j);
        plutus_pairs(pairs.drop_last(), index).push(TreeView {
            id: "map_pair_"@ + path,
            text: "Pair "@ + decimal(j as nat),
            children: seq![
                plutus_side(p.0, path + "_key"@, "Key: None"@),
                plutus_side(p.1, path + "_value"@, "Value: None"@),
            ],
        })
    }
}

/// The text of an integer of Plutus data.
fn big_int_line(b: &BigIntValue) -> (r: String)
    ensures
        r@ == big_int_text(*b),
{
    match b {
        BigIntValue::Int(i) => {
            let d = i64_to_decimal(*i);
            join("Int: ", d.as_str())
        },
        BigIntValue::BigUInt(bytes) => {
            let h = hex_encode(bytes.as_slice());
            join("BigUInt: ", h.as_str())
        },
        BigIntValue::BigNInt(bytes) => {
            let h = hex_encode(bytes.as_slice());
            join("BigNInt: ", h.as_str())
        },
        BigIntValue::Missing => String::from_str("BigInt: None"),
    }
}

/// The lines of a list of Plutus data under `index`.
fn map_plutus_list(items: &Vec<PlutusDatum>, index: &str, Ghost(whole): Ghost<PlutusDatum>) -> (r: Vec<TreeNode>)
    requires
        forall|k: int| 0 <= k < items@.len() ==> decreases_to!(whole => #[trigger] items@[k]),
    ensures
        trees_view(r@) == plutus_list(items@, index@),
    decreases whole, 0nat,
{
    let mut out: Vec<TreeNode> = Vec::new();
    let mut j: usize = 0;
    while j < items.len()
        invariant
            j <= items@.len(),
            forall|k: int| 0 <= k < items@.len() ==> decreases_to!(whole => #[trigger] items@[k]),
            trees_view(out@) == plutus_list(items@.take(j as int), index@),
        decreases items@.len() - j,
    {
        let path = child_path(index, j);
        assert(decreases_to!(whole => items@[j as int]));
        let node = map_plutus_data(&items[j], path.as_str());
        proof {
            lemma_trees_view_push(out@, node);
            assert(items@.take(j + 1).drop_last() =~= items@.take(j as int));
        }
        out.push(node);
        j += 1;
    }
    assert(items@.take(j as int) =~= items@);
    out
}

/// The lines that show Plutus data at path `index`.
pub fn map_plutus_data(plutus_data: &PlutusDatum, index: &str) -> (r: TreeNode)
    ensures
        tree_view(r) == plutus_tree(*plutus_data, index@),
    decreases *plutus_data, 1nat,
{
    let ghost whole = *plutus_data;
    match plutus_data {
        PlutusDatum::Constr { tag, any_constructor, fields } => {
            let mut children: Vec<TreeNode> = Vec::new();
            let t = u64_to_decimal(*tag as u64);
            let tag_leaf = new_leaf(join("constr_tag_", index), join("Tag: ", t.as_str()));
            let a = u64_to_decimal(*any_constructor);
            let any_leaf = new_leaf(join("constr_any_", index), join("Any Constructor: ", a.as_str()));
            proof {
                assert(trees_view(children@) =~= Seq::<TreeView>::empty());
                lemma_trees_view_push(children@, tag_leaf);
                lemma_trees_view_push(children@.push(tag_leaf), any_leaf);
            }
            children.push(tag_leaf);
            children.push(any_leaf);
            assert(trees_view(children@) =~= seq![tree_view(tag_leaf), tree_view(any_leaf)]);
            proof {
                assert(forall|k: int| 0 <= k < fields@.len() ==> decreases_to!(*plutus_data => #[trigger] fields@[k])) by {
                    assert(decreases_to!(*plutus_data => fields));
                    assert(decreases_to!(fields => fields@));
                }
            }
            let ghost head = trees_view(children@);
            if fields.len() > 0 {
                let list = map_plutus_list(fields, index, Ghost(*plutus_data));
                let node = TreeNode { id: join("constr_fields_", index), text: String::from_str("Fields"), children: list };
                proof {
                    lemma_trees_view_push(children@, node);
                }
                children.push(node);
            }
            let r = TreeNode { id: join("plutus_constr_", index), text: String::from_str("Constr"), children };
            proof {
                reveal_strlit("Constr");
                reveal_strlit("Fields");
                assert(trees_view(children@) =~= plutus_tree(*plutus_data, index@).children);
            }
            r
        },
        PlutusDatum::Pairs(pairs) => {
            let mut out: Vec<TreeNode> = Vec::new();
            let mut j: usize = 0;
            while j < pairs.len()
                invariant
                    j <= pairs@.len(),
                    *plutus_data == PlutusDatum::Pairs(*pairs),
                    whole == *plutus_data,
                    trees_view(out@) == plutus_pairs(pairs@.take(j as int), index@),
                decreases pairs@.len() - j,
            {
                let path = child_path(index, j);
                let key_path = join(path.as_str(), "_key");
                let value_path = join(path.as_str(), "_value");
                assert(decreases_to!(whole => whole->Pairs_0));
                assert(whole->Pairs_0 == *pairs);
                assert(decreases_to!(*pairs => pairs@));
                assert(decreases_to!(pairs@ => pairs@[j as int]));
                let key_node = match &pairs[j].0 {
                    Some(k) => {
                        assert(decreases_to!(pairs@[j as int] => pairs@[j as int].0));
                        assert(decreases_to!(pairs@[j as int].0 => pairs@[j as int].0->0));
                        assert(decreases_to!(*plutus_data => *k));
                        map_plutus_data(k, key_path.as_str())
                    },
                    None => new_leaf(key_path, String::from_str("Key: None")),
                };
                let value_node = match &pairs[j].1 {
                    Some(v) => {
                        assert(decreases_to!(pairs@[j as int] => pairs@[j as int].1));
                        assert(decreases_to!(pairs@[j as int].1 => pairs@[j as int].1->0));
                        assert(decreases_to!(*plutus_data => *v));
                        map_plutus_data(v, value_path.as_str())
                    },
                    None => new_leaf(value_path, String::from_str("Value: None")),
                };
                let mut pair_children: Vec<TreeNode> = Vec::new();
                proof {
                    assert(trees_view(pair_children@) =~= Seq::<TreeView>::empty());
                    lemma_trees_view_push(pair_children@, key_node);
                    lemma_trees_view_push(pair_children@.push(key_node), value_node);
                }
                pair_children.push(key_node);
                pair_children.push(value_node);
                let d = u64_to_decimal(j as u64);
                let node = TreeNode { id: join("map_pair_", path.as_str()), text: join("Pair ", d.as_str()), children: pair_children };
                proof {
                    reveal_strlit("Key: None");
                    reveal_strlit("Value: None");
                    lemma_trees_view_push(out@, node);
                    let tk = pairs@.take(j + 1);
                    assert(tk.drop_last() =~= pairs@.take(j as int));
                    assert(tk.last() == pairs@[j as int]);
                    assert(trees_view(pair_children@) =~= seq![tree_view(key_node), tree_view(value_node)]);
                    let p = pairs@[j as int];
                    let cp = child_index(index@, j as int);
                    assert(tree_view(key_node) == plutus_side(p.0, cp + "_key"@, "Key: None"@));
                    assert(tree_view(value_node) == plutus_side(p.1, cp + "_value"@, "Value: None"@));
                    assert(tree_view(node) == TreeView {
                        id: "map_pair_"@ + cp,
                        text: "Pair "@ + decimal(j as nat),
                        children: seq![
                            plutus_side(p.0, cp + "_key"@, "Key: None"@),
                            plutus_side(p.1, cp + "_value"@, "Value: None"@),
                        ],
                    });
                }
                out.push(node);
                j += 1;
            }
            assert(pairs@.take(j as int) =~= pairs@);
            proof {
                reveal_strlit("Map");
            }
            TreeNode { id: join("plutus_map_", index), text: String::from_str("Map"), children: out }
        },
        PlutusDatum::BigInt(b) => new_leaf(join("plutus_bigint_", index), big_int_line(b)),
        PlutusDatum::BoundedBytes(bytes) => {
            let h = hex_encode(bytes.as_slice());
            new_leaf(join("plutus_bytes_", index), join("Bounded Bytes: ", h.as_str()))
        },
        PlutusDatum::Array(items) => {
            proof {
                assert(forall|k: int| 0 <= k < items@.len() ==> decreases_to!(*plutus_data => #[trigger] items@[k])) by {
                    assert(decreases_to!(*plutus_data => items));
                    assert(decreases_to!(items => items@));
                }
                reveal_strlit("Array");
            }
            let list = map_plutus_list(items, index, Ghost(*plutus_data));
            TreeNode { id: join("plutus_array_", index), text: String::from_str("Array"), children: list }
        },
        PlutusDatum::Missing => {
            proof {
                reveal_strlit("PlutusData: None");
            }
            new_leaf(join("plutus_none_", index), String::from_str("PlutusData: None"))
        },
    }
}

/// Transaction metadata.
#[derive(Debug)]
pub enum MetadatumValue {
    Int(i64),
    Bytes(Vec<u8>),
    Text(String),
    Array(Vec<MetadatumValue>),
    Pairs(Vec<(Option<MetadatumValue>, Option<MetadatumValue>)>),
    Missing,
}

/// The lines that show metadata at a path.
pub open spec fn metadatum_tree(m: MetadatumValue, index: Seq<char>) -> TreeView
    decreases m,
{
    match m {
        MetadatumValue::Int(i) => leaf("metadatum_int_"@ + index, "Int: "@ + signed_decimal(i as int)),
        MetadatumValue::Bytes(b) => leaf("metadatum_bytes_"@ + index, "Bytes: "@ + hex_text(b@)),
        MetadatumValue::Text(t) => leaf("metadatum_text_"@ + index, "Text: "@ + t@),
        MetadatumValue::Array(items) => TreeView {
            id: "metadatum_array_"@ + index,
            text: "Array"@,
            children: metadatum_list(items@, index),
        },
        MetadatumValue::Pairs(pairs) => TreeView {
            id: "metadatum_map_"@ + index,
            text: "Map"@,
            children: metadatum_pairs(pairs@, index),
        },
        MetadatumValue::Missing => leaf("metadatum_none_"@ + index, "Metadatum: None"@),
    }
}

/// The lines of a list of metadata, the `j`-th at path `index_j`.
pub open spec fn metadatum_list(items: Seq<MetadatumValue>, index: Seq<char>) -> Seq<TreeView>
    decreases items,
{
    if items.len() == 0 {
        Seq::empty()
    } else {
        metadatum_list(items.drop_last(), index).push(metadatum_tree(items.last(), child_index(index, items.len() - 1)))
    }
}

/// The lines of a key or a value of a metadata map.
pub open spec fn metadatum_side(side: Option<MetadatumValue>, path: Seq<char>, missing: Seq<char>) -> TreeView
    decreases side,
{
    match side {
        Some(m) => metadatum_tree(m, path),
        None => leaf(path, missing),
    }
}

/// The lines of the pairs of a metadata map.
pub open spec fn metadatum_pairs(pairs: Seq<(Option<MetadatumValue>, Option<MetadatumValue>)>, index: Seq<char>) -> Seq<TreeView>
    decreases pairs,
{
    if pairs.len() == 0 {
        Seq::empty()
    } else {
        let j = pairs.len() - 1;
        let p = pairs.last();
        let path = child_index(index, j);
        metadatum_pairs(pairs.drop_last(), index).push(TreeView {
            id: "metadatum_pair_"@ + path,
            text: "Pair "@ + decimal(j as nat),
            children: seq![
                metadatum_side(p.0, path + "_key"@, "Key: None"@),
                metadatum_side(p.1, path + "_value"@, "Value: None"@),
            ],
        })
    }
}

/// The lines of a list of metadata under `index`.
fn map_metadatum_list(items: &Vec<MetadatumValue>, index: &str, Ghost(whole): Ghost<MetadatumValue>) -> (r: Vec<TreeNode>)
    requires
        forall|k: int| 0 <= k < items@.len() ==> decreases_to!(whole => #[trigger] items@[k]),
    ensures
        trees_view(r@) == metadatum_list(items@, index@),
    decreases whole, 0nat,
{
    let mut out: Vec<TreeNode> = Vec::new();
    let mut j: usize = 0;
    while j < items.len()
        invariant
            j <= items@.len(),
            forall|k: int| 0 <= k < items@.len() ==> decreases_to!(whole => #[trigger] items@[k]),
            trees_view(out@) == metadatum_list(items@.take(j as int), index@),
        decreases items@.len() - j,
    {
        let path = child_path(index, j);
        assert(decreases_to!(whole => items@[j as int]));
        let node = map_metadatum(&items[j], path.as_str());
        proof {
            lemma_trees_view_push(out@, node);
            assert(items@.take(j + 1).drop_last() =~= items@.take(j as int));
        }
        out.push(node);
        j += 1;
    }
    assert(items@.take(j as int) =~= items@);
    out
}

/// The lines that show metadata at path `index`.
pub fn map_metadatum(metadatum: &MetadatumValue, index: &str) -> (r: TreeNode)
    ensures
        tree_view(r) == metadatum_tree(*metadatum, index@),
    decreases *metadatum, 1nat,
{
    let ghost whole = *metadatum;
    match metadatum {
        MetadatumValue::Int(i) => {
            let d = i64_to_decimal(*i);
            new_leaf(join("metadatum_int_", index), join("Int: ", d.as_str()))
        },
        MetadatumValue::Bytes(b) => {
            let h = hex_encode(b.as_slice());
            new_leaf(join("metadatum_bytes_", index), join("Bytes: ", h.as_str()))
        },
        MetadatumValue::Text(t) => new_leaf(join("metadatum_text_", index), join("Text: ", t.as_str())),
        MetadatumValue::Array(items) => {
            proof {
                assert(forall|k: int| 0 <= k < items@.len() ==> decreases_to!(*metadatum => #[trigger] items@[k])) by {
                    assert(decreases_to!(*metadatum => items));
                    assert(decreases_to!(items => items@));
                }
                reveal_strlit("Array");
            }
            let list = map_metadatum_list(items, index, Ghost(*metadatum));
            TreeNode { id: join("metadatum_array_", index), text: String::from_str("Array"), children: list }
        },
        MetadatumValue::Pairs(pairs) => {
            let mut out: Vec<TreeNode> = Vec::new();
            let mut j: usize = 0;
            while j < pairs.len()
                invariant
                    j <= pairs@.len(),
                    *metadatum == MetadatumValue::Pairs(*pairs),
                    whole == *metadatum,
                    trees_view(out@) == metadatum_pairs(pairs@.take(j as int), index@),
                decreases pairs@.len() - j,
            {
                let path = child_path(index, j);
                let key_path = join(path.as_str(), "_key");
                let value_path = join(path.as_str(), "_value");
                assert(decreases_to!(whole => whole->Pairs_0));
                assert(whole->Pairs_0 == *pairs);
                assert(decreases_to!(*pairs => pairs@));
                assert(decreases_to!(pairs@ => pairs@[j as int]));
                let key_node = match &pairs[j].0 {
                    Some(k) => {
                        assert(decreases_to!(pairs@[j as int] => pairs@[j as int].0));
                        assert(decreases_to!(pairs@[j as int].0 => pairs@[j as int].0->0));
                        assert(decreases_to!(*metadatum => *k));
                        map_metadatum(k, key_path.as_str())
                    },
                    None => new_leaf(key_path, String::from_str("Key: None")),
                };
                let value_node = match &pairs[j].1 {
                    Some(v) => {
                        assert(decreases_to!(pairs@[j as int] => pairs@[j as int].1));
                        assert(decreases_to!(pairs@[j as int].1 => pairs@[j as int].1->0));
                        assert(decreases_to!(*metadatum => *v));
                        map_metadatum(v, value_path.as_str())
                    },
                    None => new_leaf(value_path, String::from_str("Value: None")),
                };
                let mut pair_children: Vec<TreeNode> = Vec::new();
                proof {
                    assert(trees_view(pair_children@) =~= Seq::<TreeView>::empty());
                    lemma_trees_view_push(pair_children@, key_node);
                    lemma_trees_view_push(pair_children@.push(key_node), value_node);
                }
                pair_children.push(key_node);
                pair_children.push(value_node);
                let d = u64_to_decimal(j as u64);
                let node = TreeNode { id: join("metadatum_pair_", path.as_str()), text: join("Pair ", d.as_str()), children: pair_children };
                proof {
                    reveal_strlit("Key: None");
                    reveal_strlit("Value: None");
                    lemma_trees_view_push(out@, node);
                    let tk = pairs@.take(j + 1);
                    assert(tk.drop_last() =~= pairs@.take(j as int));
                    assert(tk.last() == pairs@[j as int]);
                    assert(trees_view(pair_children@) =~= seq![tree_view(key_node), tree_view(value_node)]);
                    let p = pairs@[j as int];
                    let cp = child_index(index@, j as int);
                    assert(tree_view(key_node) == metadatum_side(p.0, cp + "_key"@, "Key: None"@));
                    assert(tree_view(value_node) == metadatum_side(p.1, cp + "_value"@, "Value: None"@));
                    assert(tree_view(node) == TreeView {
                        id: "metadatum_pair_"@ + cp,
                        text: "Pair "@ + decimal(j as nat),
                        children: seq![
                            metadatum_side(p.0, cp + "_key"@, "Key: None"@),
                            metadatum_side(p.1, cp + "_value"@, "Value: None"@),
                        ],
                    });
                }
                out.push(node);
                j += 1;
            }
            assert(pairs@.take(j as int) =~= pairs@);
            proof {
                reveal_strlit("Map");
            }
            TreeNode { id: join("metadatum_map_", index), text: String::from_str("Map"), children: out }
        },
        MetadatumValue::Missing => {
            proof {
                reveal_strlit("Metadatum: None");
            }
            new_leaf(join("metadatum_none_", index), String::from_str("Metadatum: None"))
        },
    }
}

/// A native script.
#[derive(Debug)]
pub enum NativeScriptValue {
    ScriptPubkey(Vec<u8>),
    ScriptAll(Vec<NativeScriptValue>),
    ScriptAny(Vec<NativeScriptValue>),
    ScriptNOfK { k: u32, scripts: Vec<NativeScriptValue> },
    InvalidBefore(u64),
    InvalidHereafter(u64),
    Missing,
}

/// The lines that show a native script at a path.
pub open spec fn native_script_tree(n: NativeScriptValue, index: Seq<char>) -> TreeView
    decreases n,
{
    match n {
        NativeScriptValue::ScriptPubkey(b) => leaf("script_pubkey_"@ + index, "Pubkey: "@ + hex_text(b@)),
        NativeScriptValue::ScriptAll(items) => TreeView {
            id: "script_all_"@ + index,
            text: "All"@,
            children: native_script_list(items@, index),
        },
        NativeScriptValue::ScriptAny(items) => TreeView {
            id: "script_any_"@ + index,
            text: "Any"@,
            children: native_script_list(items@, index),
        },
        NativeScriptValue::ScriptNOfK { k, scripts } => TreeView {
            id: "script_n_of_k_"@ + index,
            text: "N of K"@,
            children: seq![leaf("n_of_k_"@ + index, "K: "@ + decimal(k as nat))] + native_script_list(scripts@, index),
        },
        NativeScriptValue::InvalidBefore(slot) => leaf("invalid_before_"@ + index, "Invalid Before: "@ + decimal(slot as nat)),
        NativeScriptValue::InvalidHereafter(slot) => leaf("invalid_hereafter_"@ + index, "Invalid Hereafter: "@ + decimal(slot as nat)),
        NativeScriptValue::Missing => leaf("native_script_"@ + index, "Native Script: None"@),
    }
}

/// The lines of a list of native scripts, the `j`-th at path `index_j`.
pub open spec fn native_script_list(items: Seq<NativeScriptValue>, index: Seq<char>) -> Seq<TreeView>
    decreases items,
{
    if items.len() == 0 {
        Seq::empty()
    } else {
        native_script_list(items.drop_last(), index).push(native_script_tree(items.last(), child_index(index, items.len() - 1)))
    }
}

/// The lines of a list of native scripts under `index`.
fn map_native_script_list(items: &Vec<NativeScriptValue>, index: &str, Ghost(whole): Ghost<NativeScriptValue>) -> (r: Vec<TreeNode>)
    requires
        forall|k: int| 0 <= k < items@.len() ==> decreases_to!(whole => #[trigger] items@[k]),
    ensures
        trees_view(r@) == native_script_list(items@, index@),
    decreases whole, 0nat,
{
    let mut out: Vec<TreeNode> = Vec::new();
    let mut j: usize = 0;
    while j < items.len()
        invariant
            j <= items@.len(),
            forall|k: int| 0 <= k < items@.len() ==> decreases_to!(whole => #[trigger] items@[k]),
            trees_view(out@) == native_script_list(items@.take(j as int), index@),
        decreases items@.len() - j,
    {
        let path = child_path(index, j);
        assert(decreases_to!(whole => items@[j as int]));
        let node = map_native_script(&items[j], path.as_str());
        proof {
            lemma_trees_view_push(out@, node);
            assert(items@.take(j + 1).drop_last() =~= items@.take(j as int));
        }
        out.push(node);
        j += 1;
    }
    assert(items@.take(j as int) =~= items@);
    out
}

/// The lines that show a native script at path `index`.
pub fn map_native_script(native: &NativeScriptValue, index: &str) -> (r: TreeNode)
    ensures
        tree_view(r) == native_script_tree(*native, index@),
    decreases *native, 1nat,
{
    match native {
        NativeScriptValue::ScriptPubkey(b) => {
            let h = hex_encode(b.as_slice());
            new_leaf(join("script_pubkey_", index), join("Pubkey: ", h.as_str()))
        },
        NativeScriptValue::ScriptAll(items) => {
            proof {
                assert(forall|k: int| 0 <= k < items@.len() ==> decreases_to!(*native => #[trigger] items@[k])) by {
                    assert(decreases_to!(*native => items));
                    assert(decreases_to!(items => items@));
                }
                reveal_strlit("All");
            }
            let list = map_native_script_list(items, index, Ghost(*native));
            TreeNode { id: join("script_all_", index), text: String::from_str("All"), children: list }
        },
        NativeScriptValue::ScriptAny(items) => {
            proof {
                assert(forall|k: int| 0 <= k < items@.len() ==> decreases_to!(*native => #[trigger] items@[k])) by {
                    assert(decreases_to!(*native => items));
                    assert(decreases_to!(items => items@));
                }
                reveal_strlit("Any");
            }
            let list = map_native_script_list(items, index, Ghost(*native));
            TreeNode { id: join("script_any_", index), text: String::from_str("Any"), children: list }
        },
        NativeScriptValue::ScriptNOfK { k, scripts } => {
            proof {
                assert(forall|q: int| 0 <= q < scripts@.len() ==> decreases_to!(*native => #[trigger] scripts@[q])) by {
                    assert(decreases_to!(*native => scripts));
                    assert(decreases_to!(scripts => scripts@));
                }
                reveal_strlit("N of K");
            }
            let d = u64_to_decimal(*k as u64);
            let first = new_leaf(join("n_of_k_", index), join("K: ", d.as_str()));
            let rest = map_native_script_list(scripts, index, Ghost(*native));
            let mut children: Vec<TreeNode> = Vec::new();
            children.push(first);
            let ghost head = children@;
            let mut i: usize = 0;
            let mut rest = rest;
            let ghost rest_all = rest@;
            let total = rest.len();
            proof {
                assert(head =~= Seq::<TreeNode>::empty().push(first));
                lemma_trees_view_push(Seq::<TreeNode>::empty(), first);
                assert(trees_view(Seq::<TreeNode>::empty()) =~= Seq::<TreeView>::empty());
                assert(trees_view(head) =~= seq![tree_view(first)]);
                assert(rest_all.take(0) =~= Seq::<TreeNode>::empty());
            }
            while rest.len() > 0
                invariant
                    i + rest@.len() == rest_all.len(),
                    rest@ == rest_all.skip(i as int),
                    trees_view(children@) == seq![tree_view(first)] + trees_view(rest_all.take(i as int)),
                    rest_all.len() == total,
                decreases rest@.len(),
            {
                let node = rest.remove(0);
                proof {
                    assert(node == rest_all[i as int]);
                    assert(rest@ =~= rest_all.skip(i + 1));
                    lemma_trees_view_push(children@, node);
                    assert(rest_all.take(i + 1) =~= rest_all.take(i as int).push(node));
                    lemma_trees_view_push(rest_all.take(i as int), node);
                }
                children.push(node);
                i += 1;
            }
            assert(rest_all.take(i as int) =~= rest_all);
            TreeNode { id: join("script_n_of_k_", index), text: String::from_str("N of K"), children }
        },
        NativeScriptValue::InvalidBefore(slot) => {
            let d = u64_to_decimal(*slot);
            new_leaf(join("invalid_before_", index), join("Invalid Before: ", d.as_str()))
        },
        NativeScriptValue::InvalidHereafter(slot) => {
            let d = u64_to_decimal(*slot);
            new_leaf(join("invalid_hereafter_", index), join("Invalid Hereafter: ", d.as_str()))
        },
        NativeScriptValue::Missing => {
            proof {
                reveal_strlit("Native Script: None");
            }
            new_leaf(join("native_script_", index), String::from_str("Native Script: None"))
        },
    }
}

/// The views of two sequences of lines, one after the other.
proof fn lemma_trees_view_concat(a: Seq<TreeNode>, b: Seq<TreeNode>)
    ensures
        trees_view(a + b) == trees_view(a) + trees_view(b),
    decreases b.len(),
{
    if b.len() == 0 {
        assert(a + b =~= a);
        assert(trees_view(b) =~= Seq::<TreeView>::empty());
        assert(trees_view(a) + trees_view(b) =~= trees_view(a));
    } else {
        lemma_trees_view_concat(a, b.drop_last());
        assert((a + b).drop_last() =~= a + b.drop_last());
        assert((a + b).last() == b.last());
        assert(trees_view(a) + trees_view(b.drop_last()).push(tree_view(b.last()))
            =~= (trees_view(a) + trees_view(b.drop_last())).push(tree_view(b.last())));
    }
}

/// No lines.
fn no_nodes() -> (r: Vec<TreeNode>)
    ensures
        trees_view(r@) == Seq::<TreeView>::empty(),
{
    let r: Vec<TreeNode> = Vec::new();
    assert(trees_view(r@) =~= Seq::<TreeView>::empty());
    r
}

/// Adds a line after the others.
fn push_node(v: &mut Vec<TreeNode>, n: TreeNode)
    ensures
        trees_view(final(v)@) == trees_view(old(v)@).push(tree_view(n)),
{
    proof {
        lemma_trees_view_push(v@, n);
    }
    v.push(n);
}

/// Adds lines after the others.
fn append_nodes(v: &mut Vec<TreeNode>, other: Vec<TreeNode>)
    ensures
        trees_view(final(v)@) == trees_view(old(v)@) + trees_view(other@),
{
    let ghost start = v@;
    let ghost all = other@;
    let total = other.len();
    let mut rest = other;
    let mut i: usize = 0;
    while rest.len() > 0
        invariant
            i + rest@.len() == all.len(),
            all.len() == total,
            rest@ == all.skip(i as int),
            v@ == start + all.take(i as int),
        decreases rest@.len(),
    {
        let n = rest.remove(0);
        proof {
            assert(n == all[i as int]);
            assert(rest@ =~= all.skip(i + 1));
            assert(start + all.take(i + 1) =~= (start + all.take(i as int)).push(n));
        }
        v.push(n);
        i += 1;
    }
    proof {
        assert(all.take(i as int) =~= all);
        lemma_trees_view_concat(start, all);
    }
}

/// A line with lines under it.
fn new_node(id: String, text: String, children: Vec<TreeNode>) -> (r: TreeNode)
    ensures
        tree_view(r) == (TreeView { id: id@, text: text@, children: trees_view(children@) }),
{
    TreeNode { id, text, children }
}

/// One line.
fn one_node(n: TreeNode) -> (r: Vec<TreeNode>)
    ensures
        trees_view(r@) == seq![tree_view(n)],
{
    let mut v = no_nodes();
    push_node(&mut v, n);
    assert(Seq::<TreeView>::empty().push(tree_view(n)) =~= seq![tree_view(n)]);
    v
}

/// `a`, `b` and `c` one after the other.
fn join3(a: &str, b: &str, c: &str) -> (r: String)
    ensures
        r@ == a@ + b@ + c@,
{
    let mut out = String::from_str(a);
    out.append(b);
    out.append(c);
    out
}

/// A datum attached to an output.
#[derive(Debug)]
pub struct DatumValue {
    pub hash: Vec<u8>,
    pub payload: Option<PlutusDatum>,
    pub original_cbor: Vec<u8>,
}

/// The lines that show an output's datum.
pub open spec fn datum_tree(d: Option<DatumValue>, index: Seq<char>) -> TreeView {
    match d {
        Some(d) => TreeView {
            id: "datum_"@ + index,
            text: "Datum"@,
            children: seq![
                leaf("datum_hash_"@ + index, "Datum Hash: "@ + hex_text(d.hash@)),
                leaf("original_cbor_"@ + index, "Original CBOR: "@ + hex_text(d.original_cbor@)),
            ] + match d.payload {
                Some(p) => seq![plutus_tree(p, "datum_"@ + index)],
                None => Seq::empty(),
            },
        },
        None => leaf("datum_"@ + index, "Datum: None"@),
    }
}

/// The lines that show an output's datum.
pub fn map_datum(datum: &Option<DatumValue>, index: &str) -> (r: TreeNode)
    ensures
        tree_view(r) == datum_tree(*datum, index@),
{
    match datum {
        Some(d) => {
            let mut children = no_nodes();
            let h = hex_encode(d.hash.as_slice());
            push_node(&mut children, new_leaf(join("datum_hash_", index), join("Datum Hash: ", h.as_str())));
            let c = hex_encode(d.original_cbor.as_slice());
            push_node(&mut children, new_leaf(join("original_cbor_", index), join("Original CBOR: ", c.as_str())));
            let ghost head = trees_view(children@);
            match &d.payload {
                Some(p) => {
                    let path = join("datum_", index);
                    push_node(&mut children, map_plutus_data(p, path.as_str()));
                },
                None => {},
            }
            proof {
                reveal_strlit("Datum");
                assert(trees_view(children@) =~= datum_tree(*datum, index@).children);
            }
            new_node(join("datum_", index), String::from_str("Datum"), children)
        },
        None => {
            proof {
                reveal_strlit("Datum: None");
            }
            new_leaf(join("datum_", index), String::from_str("Datum: None"))
        },
    }
}

/// A script attached to an output or a witness set.
#[derive(Debug)]
pub enum ScriptValue {
    Native(NativeScriptValue),
    PlutusV1(Vec<u8>),
    PlutusV2(Vec<u8>),
    PlutusV3(Vec<u8>),
    Missing,
}

/// The lines that show a script.
pub open spec fn script_tree(s: Option<ScriptValue>, index: Seq<char>) -> TreeView {
    match s {
        Some(ScriptValue::Native(n)) => TreeView {
            id: "script_"@ + index,
            text: "Native Script"@,
            children: seq![native_script_tree(n, "native_"@ + index)],
        },
        Some(ScriptValue::PlutusV1(b)) => TreeView {
            id: "script_"@ + index,
            text: "Plutus V1 Script"@,
            children: seq![leaf("plutus_v1_"@ + index, "Script: "@ + hex_text(b@))],
        },
        Some(ScriptValue::PlutusV2(b)) => TreeView {
            id: "script_"@ + index,
            text: "Plutus V2 Script"@,
            children: seq![leaf("plutus_v2_"@ + index, "Script: "@ + hex_text(b@))],
        },
        Some(ScriptValue::PlutusV3(b)) => TreeView {
            id: "script_"@ + index,
            text: "Plutus V3 Script"@,
            children: seq![leaf("plutus_v3_"@ + index, "Script: "@ + hex_text(b@))],
        },
        Some(ScriptValue::Missing) => TreeView { id: "script_"@ + index, text: "Script: None"@, children: Seq::empty() },
        None => leaf("script_"@ + index, "Script: None"@),
    }
}

/// The lines that show a script.
pub fn map_script(script: &Option<ScriptValue>, index: &str) -> (r: TreeNode)
    ensures
        tree_view(r) == script_tree(*script, index@),
{
    match script {
        Some(s) => map_present_script(s, index),
        None => {
            proof {
                reveal_strlit("Script: None");
            }
            new_leaf(join("script_", index), String::from_str("Script: None"))
        },
    }
}

/// The lines that show a script that is there.
fn map_present_script(script: &ScriptValue, index: &str) -> (r: TreeNode)
    ensures
        tree_view(r) == script_tree(Some(*script), index@),
{
    let id = join("script_", index);
    match script {
        ScriptValue::Native(n) => {
            let path = join("native_", index);
            let children = one_node(map_native_script(n, path.as_str()));
            proof {
                reveal_strlit("Native Script");
            }
            new_node(id, String::from_str("Native Script"), children)
        },
        ScriptValue::PlutusV1(b) => {
            let h = hex_encode(b.as_slice());
            let children = one_node(new_leaf(join("plutus_v1_", index), join("Script: ", h.as_str())));
            proof {
                reveal_strlit("Plutus V1 Script");
            }
            new_node(id, String::from_str("Plutus V1 Script"), children)
        },
        ScriptValue::PlutusV2(b) => {
            let h = hex_encode(b.as_slice());
            let children = one_node(new_leaf(join("plutus_v2_", index), join("Script: ", h.as_str())));
            proof {
                reveal_strlit("Plutus V2 Script");
            }
            new_node(id, String::from_str("Plutus V2 Script"), children)
        },
        ScriptValue::PlutusV3(b) => {
            let h = hex_encode(b.as_slice());
            let children = one_node(new_leaf(join("plutus_v3_", index), join("Script: ", h.as_str())));
            proof {
                reveal_strlit("Plutus V3 Script");
            }
            new_node(id, String::from_str("Plutus V3 Script"), children)
        },
        ScriptValue::Missing => {
            proof {
                reveal_strlit("Script: None");
            }
            new_node(id, String::from_str("Script: None"), no_nodes())
        },
    }
}

/// A redeemer: its purpose code, index, original CBOR, execution units
/// (steps and memory) and payload.
#[derive(Debug)]
pub struct RedeemerValue {
    pub purpose: i32,
    pub index: u32,
    pub original_cbor: Vec<u8>,
    pub ex_units: Option<(u64, u64)>,
    pub payload: Option<PlutusDatum>,
}

/// The name of a redeemer purpose code.
pub open spec fn purpose_text(p: i32) -> Seq<char> {
    if p == 0 {
        "Unspecified"@
    } else if p == 1 {
        "Spend"@
    } else if p == 2 {
        "Mint"@
    } else if p == 3 {
        "Cert"@
    } else if p == 4 {
        "Reward"@
    } else if p == 5 {
        "Vote"@
    } else if p == 6 {
        "Propose"@
    } else {
        "Unknown ("@ + signed_decimal(p as int) + ")"@
    }
}

/// The name of a redeemer purpose code.
fn purpose_name(p: i32) -> (r: String)
    ensures
        r@ == purpose_text(p),
{
    if p == 0 {
        String::from_str("Unspecified")
    } else if p == 1 {
        String::from_str("Spend")
    } else if p == 2 {
        String::from_str("Mint")
    } else if p == 3 {
        String::from_str("Cert")
    } else if p == 4 {
        String::from_str("Reward")
    } else if p == 5 {
        String::from_str("Vote")
    } else if p == 6 {
        String::from_str("Propose")
    } else {
        let d = i64_to_decimal(p as i64);
        join3("Unknown (", d.as_str(), ")")
    }
}

/// The lines that show a redeemer.
pub open spec fn redeemer_tree(r: Option<RedeemerValue>, index: Seq<char>) -> TreeView {
    match r {
        Some(r) => TreeView {
            id: "redeemer_"@ + index,
            text: "Redeemer"@,
            children: seq![
                leaf("redeemer_purpose_"@ + index, "Purpose: "@ + purpose_text(r.purpose)),
                leaf("redeemer_index_"@ + index, "Index: "@ + decimal(r.index as nat)),
                leaf("redeemer_cbor_"@ + index, "Original CBOR: "@ + hex_text(r.original_cbor@)),
            ] + match r.ex_units {
                Some((steps, memory)) => seq![TreeView {
                    id: "redeemer_ex_units_"@ + index,
                    text: "Execution Units"@,
                    children: seq![
                        leaf("ex_units_steps_"@ + index, "Steps: "@ + decimal(steps as nat)),
                        leaf("ex_units_memory_"@ + index, "Memory: "@ + decimal(memory as nat)),
                    ],
                }],
                None => Seq::empty(),
            } + match r.payload {
                Some(p) => seq![plutus_tree(p, "redeemer_"@ + index)],
                None => Seq::empty(),
            },
        },
        None => leaf("redeemer_"@ + index, "Redeemer: None"@),
    }
}

/// The lines that show a redeemer.
pub fn map_redeemer(redeemer: &Option<RedeemerValue>, index: &str) -> (r: TreeNode)
    ensures
        tree_view(r) == redeemer_tree(*redeemer, index@),
{
    let id = join("redeemer_", index);
    match redeemer {
        Some(rd) => {
            let mut children = no_nodes();
            let purpose = purpose_name(rd.purpose);
            push_node(&mut children, new_leaf(join("redeemer_purpose_", index), join("Purpose: ", purpose.as_str())));
            let n = u64_to_decimal(rd.index as u64);
            push_node(&mut children, new_leaf(join("redeemer_index_", index), join("Index: ", n.as_str())));
            let c = hex_encode(rd.original_cbor.as_slice());
            push_node(&mut children, new_leaf(join("redeemer_cbor_", index), join("Original CBOR: ", c.as_str())));
            let ghost first = trees_view(children@);
            assert(first =~= seq![
                leaf("redeemer_purpose_"@ + index@, "Purpose: "@ + purpose_text(rd.purpose)),
                leaf("redeemer_index_"@ + index@, "Index: "@ + decimal(rd.index as nat)),
                leaf("redeemer_cbor_"@ + index@, "Original CBOR: "@ + hex_text(rd.original_cbor@)),
            ]);
            match rd.ex_units {
                Some((steps, memory)) => {
                    let mut units = no_nodes();
                    let sd = u64_to_decimal(steps);
                    push_node(&mut units, new_leaf(join("ex_units_steps_", index), join("Steps: ", sd.as_str())));
                    let md = u64_to_decimal(memory);
                    push_node(&mut units, new_leaf(join("ex_units_memory_", index), join("Memory: ", md.as_str())));
                    proof {
                        reveal_strlit("Execution Units");
                    }
                    assert(trees_view(units@) =~= seq![
                        leaf("ex_units_steps_"@ + index@, "Steps: "@ + decimal(steps as nat)),
                        leaf("ex_units_memory_"@ + index@, "Memory: "@ + decimal(memory as nat)),
                    ]);
                    push_node(&mut children, new_node(join("redeemer_ex_units_", index), String::from_str("Execution Units"), units));
                },
                None => {
                    assert(first + Seq::<TreeView>::empty() =~= first);
                },
            }
            let ghost second = trees_view(children@);
            assert(second =~= first + match rd.ex_units {
                Some((steps, memory)) => seq![TreeView {
                    id: "redeemer_ex_units_"@ + index@,
                    text: "Execution Units"@,
                    children: seq![
                        leaf("ex_units_steps_"@ + index@, "Steps: "@ + decimal(steps as nat)),
                        leaf("ex_units_memory_"@ + index@, "Memory: "@ + decimal(memory as nat)),
                    ],
                }],
                None => Seq::<TreeView>::empty(),
            });
            match &rd.payload {
                Some(p) => push_node(&mut children, map_plutus_data(p, id.as_str())),
                None => {},
            }
            proof {
                reveal_strlit("Redeemer");
                assert(trees_view(children@) =~= redeemer_tree(*redeemer, index@).children);
            }
            new_node(id, String::from_str("Redeemer"), children)
        },
        None => {
            proof {
                reveal_strlit("Redeemer: None");
            }
            new_leaf(id, String::from_str("Redeemer: None"))
        },
    }
}

/// The text `pallas` gives for the address whose bytes these are, when
/// they are an address.
pub uninterp spec fn address_bytes_text(bytes: Seq<u8>) -> Option<Seq<char>>;

/// Calls `pallas::ledger::addresses::Address::from_bytes` and shows the
/// address with `to_string`; `None` when the bytes are not an address.
#[verifier::external_body]
fn address_text(bytes: &[u8]) -> (r: Option<String>)
    ensures
        match (r, address_bytes_text(bytes@)) {
            (Some(t), Some(u)) => t@ == u,
            (None, None) => true,
            _ => false,
        },
{
    match pallas::ledger::addresses::Address::from_bytes(bytes) {
        Ok(a) => Some(a.to_string()),
        Err(_) => None,
    }
}

/// Calls `String::from_utf8`: the text whose UTF-8 encoding the bytes are,
/// when they are valid UTF-8.
#[verifier::external_body]
fn utf8_text(bytes: Vec<u8>) -> (r: Option<String>)
    ensures
        match r {
            Some(t) => valid_utf8(bytes@) && t@ == decode_utf8(bytes@),
            None => !valid_utf8(bytes@),
        },
{
    match String::from_utf8(bytes) {
        Ok(t) => Some(t),
        Err(_) => None,
    }
}

/// An asset of an output: its name and its minted and output amounts.
#[derive(Debug)]
pub struct AssetValue {
    pub name: Vec<u8>,
    pub mint_coin: i64,
    pub output_coin: u64,
}

/// The assets of one policy, with the redeemer of the policy's script.
#[derive(Debug)]
pub struct MultiassetValue {
    pub policy_id: Vec<u8>,
    pub assets: Vec<AssetValue>,
    pub redeemer: Option<RedeemerValue>,
}

/// An output of a transaction.
#[derive(Debug)]
pub struct TxOutputValue {
    pub address: Vec<u8>,
    pub coin: u64,
    pub assets: Vec<MultiassetValue>,
    pub datum: Option<DatumValue>,
    pub script: Option<ScriptValue>,
}

/// An input of a transaction: the output it spends, that output when it
/// is known, and its redeemer.
#[derive(Debug)]
pub struct TxInputValue {
    pub tx_hash: Vec<u8>,
    pub output_index: u32,
    pub as_output: Option<TxOutputValue>,
    pub redeemer: Option<RedeemerValue>,
}

/// An asset's name as shown: its text when it is UTF-8, else ` - `.
pub open spec fn asset_name_text(name: Seq<u8>) -> Seq<char> {
    if valid_utf8(name) { decode_utf8(name) } else { " - "@ }
}

/// The lines of the `j`-th asset of the `i`-th policy, for ids starting
/// with `kind`.
pub open spec fn asset_tree(a: AssetValue, kind: Seq<char>, policy: Seq<char>, i: int, j: int) -> TreeView {
    let key = policy + "_"@ + decimal(i as nat) + "_"@ + decimal(j as nat);
    TreeView {
        id: kind + "_asset_"@ + key,
        text: "Asset: "@ + asset_name_text(a.name@),
        children: seq![
            leaf(kind + "_asset_mintcoin_"@ + key, "Mint Coin: "@ + signed_decimal(a.mint_coin as int)),
            leaf(kind + "_asset_outputcoin_"@ + key, "Output Coin: "@ + decimal(a.output_coin as nat)),
        ],
    }
}

/// The lines of the assets of the `i`-th policy.
pub open spec fn asset_list(assets: Seq<AssetValue>, kind: Seq<char>, policy: Seq<char>, i: int) -> Seq<TreeView>
    decreases assets.len(),
{
    if assets.len() == 0 {
        Seq::empty()
    } else {
        asset_list(assets.drop_last(), kind, policy, i).push(asset_tree(assets.last(), kind, policy, i, assets.len() - 1))
    }
}

/// The lines of the `i`-th policy of an output.
pub open spec fn policy_tree(m: MultiassetValue, i: int) -> TreeView {
    let policy = hex_text(m.policy_id@);
    TreeView {
        id: "output_policy_"@ + policy + "_"@ + decimal(i as nat),
        text: "Policy: "@ + policy,
        children: asset_list(m.assets@, "output"@, policy, i).push(redeemer_tree(m.redeemer, "output_"@ + decimal(i as nat))),
    }
}

/// The lines of the policies of an output.
pub open spec fn policy_list(ms: Seq<MultiassetValue>) -> Seq<TreeView>
    decreases ms.len(),
{
    if ms.len() == 0 {
        Seq::empty()
    } else {
        policy_list(ms.drop_last()).push(policy_tree(ms.last(), ms.len() - 1))
    }
}

/// How an output's address is shown.
pub open spec fn address_line(bytes: Seq<u8>) -> Seq<char> {
    match address_bytes_text(bytes) {
        Some(t) => t,
        None => "decoded fail"@,
    }
}

/// The lines that show the `index`-th output of transaction `tx_hash`.
pub open spec fn output_tree(o: TxOutputValue, index: nat, tx_hash: Seq<char>) -> TreeView {
    let base = "output_"@ + tx_hash + "_"@ + decimal(index);
    TreeView {
        id: base,
        text: tx_hash + "#"@ + decimal(index),
        children: seq![
            leaf(base + "_address"@, "Address: "@ + address_line(o.address@)),
            leaf(base + "_coin"@, "Coin: "@ + decimal(o.coin as nat)),
        ] + (if o.assets@.len() > 0 {
            seq![TreeView { id: base + "_assets"@, text: "Assets"@, children: policy_list(o.assets@) }]
        } else {
            Seq::empty()
        }) + seq![datum_tree(o.datum, decimal(index)), script_tree(o.script, decimal(index))],
    }
}

/// The lines of an asset.
fn map_asset(a: &AssetValue, kind: &str, policy: &str, i: usize, j: usize) -> (r: TreeNode)
    ensures
        tree_view(r) == asset_tree(*a, kind@, policy@, i as int, j as int),
{
    let di = u64_to_decimal(i as u64);
    let dj = u64_to_decimal(j as u64);
    let left = join3(policy, "_", di.as_str());
    let key = join3(left.as_str(), "_", dj.as_str());
    let name = match utf8_text(crate::balance::copy_bytes(&a.name)) {
        Some(t) => t,
        None => String::from_str(" - "),
    };
    let mut children = no_nodes();
    let mint = i64_to_decimal(a.mint_coin);
    push_node(&mut children, new_leaf(join3(kind, "_asset_mintcoin_", key.as_str()), join("Mint Coin: ", mint.as_str())));
    let out = u64_to_decimal(a.output_coin);
    push_node(&mut children, new_leaf(join3(kind, "_asset_outputcoin_", key.as_str()), join("Output Coin: ", out.as_str())));
    proof {
        reveal_strlit(" - ");
        assert(trees_view(children@) =~= asset_tree(*a, kind@, policy@, i as int, j as int).children);
    }
    new_node(join3(kind, "_asset_", key.as_str()), join("Asset: ", name.as_str()), children)
}

/// The lines of the assets of the `i`-th policy.
fn map_assets(assets: &Vec<AssetValue>, kind: &str, policy: &str, i: usize) -> (r: Vec<TreeNode>)
    ensures
        trees_view(r@) == asset_list(assets@, kind@, policy@, i as int),
{
    let mut out = no_nodes();
    let mut j: usize = 0;
    while j < assets.len()
        invariant
            j <= assets@.len(),
            trees_view(out@) == asset_list(assets@.take(j as int), kind@, policy@, i as int),
        decreases assets@.len() - j,
    {
        proof {
            assert(assets@.take(j + 1).drop_last() =~= assets@.take(j as int));
        }
        push_node(&mut out, map_asset(&assets[j], kind, policy, i, j));
        j += 1;
    }
    assert(assets@.take(j as int) =~= assets@);
    out
}

/// The lines of the policies of an output.
fn map_policies(ms: &Vec<MultiassetValue>) -> (r: Vec<TreeNode>)
    ensures
        trees_view(r@) == policy_list(ms@),
{
    let mut out = no_nodes();
    let mut i: usize = 0;
    while i < ms.len()
        invariant
            i <= ms@.len(),
            trees_view(out@) == policy_list(ms@.take(i as int)),
        decreases ms@.len() - i,
    {
        let m = &ms[i];
        let policy = hex_encode(m.policy_id.as_slice());
        let mut children = map_assets(&m.assets, "output", policy.as_str(), i);
        let di = u64_to_decimal(i as u64);
        let path = join("output_", di.as_str());
        push_node(&mut children, map_redeemer(&m.redeemer, path.as_str()));
        let node = new_node(join3("output_policy_", policy.as_str(), join("_", di.as_str()).as_str()), join("Policy: ", policy.as_str()), children);
        proof {
            assert(ms@.take(i + 1).drop_last() =~= ms@.take(i as int));
            assert(tree_view(node).id =~= "output_policy_"@ + policy@ + "_"@ + decimal(i as nat));
        }
        push_node(&mut out, node);
        i += 1;
    }
    assert(ms@.take(i as int) =~= ms@);
    out
}

/// The lines that show the `index`-th output of transaction `tx_hash`.
pub fn map_tx_output(output: &TxOutputValue, index: usize, tx_hash: &str) -> (r: TreeNode)
    ensures
        tree_view(r) == output_tree(*output, index as nat, tx_hash@),
{
    let di = u64_to_decimal(index as u64);
    let base = join3("output_", tx_hash, join("_", di.as_str()).as_str());
    assert(base@ =~= "output_"@ + tx_hash@ + "_"@ + decimal(index as nat));
    let address = match address_text(output.address.as_slice()) {
        Some(t) => t,
        None => String::from_str("decoded fail"),
    };
    let mut children = no_nodes();
    push_node(&mut children, new_leaf(join(base.as_str(), "_address"), join("Address: ", address.as_str())));
    let coin = u64_to_decimal(output.coin);
    push_node(&mut children, new_leaf(join(base.as_str(), "_coin"), join("Coin: ", coin.as_str())));
    let ghost head = trees_view(children@);
    if output.assets.len() > 0 {
        let policies = map_policies(&output.assets);
        proof {
            reveal_strlit("Assets");
        }
        push_node(&mut children, new_node(join(base.as_str(), "_assets"), String::from_str("Assets"), policies));
    }
    let ghost middle = trees_view(children@);
    push_node(&mut children, map_datum(&output.datum, di.as_str()));
    push_node(&mut children, map_script(&output.script, di.as_str()));
    proof {
        reveal_strlit("decoded fail");
        let o = *output;
        let b = "output_"@ + tx_hash@ + "_"@ + decimal(index as nat);
        assert(head =~= seq![
            leaf(b + "_address"@, "Address: "@ + address_line(o.address@)),
            leaf(b + "_coin"@, "Coin: "@ + decimal(o.coin as nat)),
        ]);
        assert(middle =~= head + (if o.assets@.len() > 0 {
            seq![TreeView { id: b + "_assets"@, text: "Assets"@, children: policy_list(o.assets@) }]
        } else {
            Seq::<TreeView>::empty()
        }));
        assert(trees_view(children@) =~= output_tree(*output, index as nat, tx_hash@).children);
    }
    new_node(base, join3(tx_hash, "#", di.as_str()), children)
}

/// The lines that show an input under path `index` of transaction `tx_hash`.
pub open spec fn input_tree(i: TxInputValue, index: Seq<char>, tx_hash: Seq<char>) -> TreeView {
    TreeView {
        id: "input_"@ + tx_hash + "_"@ + index,
        text: hex_text(i.tx_hash@) + "#"@ + decimal(i.output_index as nat),
        children: seq![
            leaf("input_hash_"@ + index, "Hash: "@ + hex_text(i.tx_hash@)),
            leaf("input_index_"@ + index, "Index: "@ + decimal(i.output_index as nat)),
        ] + match i.as_output {
            Some(o) => seq![TreeView {
                id: "input_as_output_"@ + tx_hash + "_"@ + index,
                text: "Output Spent"@,
                children: seq![output_tree(o, i.output_index as nat, tx_hash)],
            }],
            None => Seq::empty(),
        } + seq![redeemer_tree(i.redeemer, index)],
    }
}

/// The lines that show an input under path `index` of transaction `tx_hash`.
pub fn map_tx_input(input: &TxInputValue, index: &str, tx_hash: &str) -> (r: TreeNode)
    ensures
        tree_view(r) == input_tree(*input, index@, tx_hash@),
{
    let h = hex_encode(input.tx_hash.as_slice());
    let n = u64_to_decimal(input.output_index as u64);
    let mut children = no_nodes();
    push_node(&mut children, new_leaf(join("input_hash_", index), join("Hash: ", h.as_str())));
    push_node(&mut children, new_leaf(join("input_index_", index), join("Index: ", n.as_str())));
    let ghost head = trees_view(children@);
    let tail = join("_", index);
    match &input.as_output {
        Some(o) => {
            let at: usize = input.output_index as usize;
            assert(at as nat == input.output_index as nat);
            let out_node = map_tx_output(o, at, tx_hash);
            let spent = one_node(out_node);
            proof {
                reveal_strlit("Output Spent");
            }
            let spent_id = join3("input_as_output_", tx_hash, tail.as_str());
            assert(spent_id@ =~= "input_as_output_"@ + tx_hash@ + "_"@ + index@);
            push_node(&mut children, new_node(spent_id, String::from_str("Output Spent"), spent));
        },
        None => {
            assert(head + Seq::<TreeView>::empty() =~= head);
        },
    }
    let ghost middle = trees_view(children@);
    push_node(&mut children, map_redeemer(&input.redeemer, index));
    proof {
        let i = *input;
        assert(head =~= seq![
            leaf("input_hash_"@ + index@, "Hash: "@ + hex_text(i.tx_hash@)),
            leaf("input_index_"@ + index@, "Index: "@ + decimal(i.output_index as nat)),
        ]);
        assert(middle =~= head + match i.as_output {
            Some(o) => seq![TreeView {
                id: "input_as_output_"@ + tx_hash@ + "_"@ + index@,
                text: "Output Spent"@,
                children: seq![output_tree(o, i.output_index as nat, tx_hash@)],
            }],
            None => Seq::<TreeView>::empty(),
        });
        assert(trees_view(children@) =~= input_tree(*input, index@, tx_hash@).children);
    }
    let label = join3(h.as_str(), "#", n.as_str());
    let id = join3("input_", tx_hash, tail.as_str());
    assert(id@ =~= "input_"@ + tx_hash@ + "_"@ + index@);
    new_node(id, label, children)
}

/// A key witness: the key and the signature.
#[derive(Debug)]
pub struct VKeyWitnessValue {
    pub vkey: Vec<u8>,
    pub signature: Vec<u8>,
}

/// The witnesses of a transaction.
#[derive(Debug)]
pub struct WitnessSetValue {
    pub vkeywitness: Vec<VKeyWitnessValue>,
    pub script: Vec<ScriptValue>,
    pub plutus_datums: Vec<PlutusDatum>,
}

/// The lines that show a key witness.
pub open spec fn vkey_witness_tree(w: VKeyWitnessValue, index: Seq<char>) -> TreeView {
    TreeView {
        id: "vkey_witness_"@ + index,
        text: "VKey Witness"@,
        children: seq![
            leaf("vkey_"@ + index, "VKey: "@ + hex_text(w.vkey@)),
            leaf("signature_"@ + index, "Signature: "@ + hex_text(w.signature@)),
        ],
    }
}

/// The lines that show a key witness.
pub fn map_vkey_witness(w: &VKeyWitnessValue, index: &str) -> (r: TreeNode)
    ensures
        tree_view(r) == vkey_witness_tree(*w, index@),
{
    let mut children = no_nodes();
    let k = hex_encode(w.vkey.as_slice());
    push_node(&mut children, new_leaf(join("vkey_", index), join("VKey: ", k.as_str())));
    let sg = hex_encode(w.signature.as_slice());
    push_node(&mut children, new_leaf(join("signature_", index), join("Signature: ", sg.as_str())));
    proof {
        reveal_strlit("VKey Witness");
        assert(trees_view(children@) =~= vkey_witness_tree(*w, index@).children);
    }
    new_node(join("vkey_witness_", index), String::from_str("VKey Witness"), children)
}

/// The path `index` followed by `middle` and the position `j`.
pub open spec fn sub_index(index: Seq<char>, middle: Seq<char>, j: int) -> Seq<char> {
    index + middle + decimal(j as nat)
}

/// `index`, `middle` and the position `j`, as a text.
fn sub_path(index: &str, middle: &str, j: usize) -> (r: String)
    ensures
        r@ == sub_index(index@, middle@, j as int),
{
    let d = u64_to_decimal(j as u64);
    join3(index, middle, d.as_str())
}

/// The lines of key witnesses.
pub open spec fn vkey_witness_list(ws: Seq<VKeyWitnessValue>, index: Seq<char>) -> Seq<TreeView>
    decreases ws.len(),
{
    if ws.len() == 0 {
        Seq::empty()
    } else {
        vkey_witness_list(ws.drop_last(), index).push(
            vkey_witness_tree(ws.last(), sub_index(index, "_vkeywitness_"@, ws.len() - 1)))
    }
}

/// The lines of scripts, the `j`-th under `index` + `middle` + `j`.
pub open spec fn script_list(ss: Seq<ScriptValue>, index: Seq<char>, middle: Seq<char>) -> Seq<TreeView>
    decreases ss.len(),
{
    if ss.len() == 0 {
        Seq::empty()
    } else {
        script_list(ss.drop_last(), index, middle).push(
            script_tree(Some(ss.last()), sub_index(index, middle, ss.len() - 1)))
    }
}

/// The lines of a transaction's witnesses.
pub open spec fn witness_set_tree(ws: Option<WitnessSetValue>, index: nat) -> TreeView {
    let n = decimal(index);
    match ws {
        Some(w) => TreeView {
            id: "witness_set_"@ + n,
            text: "Witness Set"@,
            children: (if w.vkeywitness@.len() > 0 {
                seq![TreeView {
                    id: "vkey_witnesses_"@ + n,
                    text: "VKey Witnesses"@,
                    children: vkey_witness_list(w.vkeywitness@, n),
                }]
            } else {
                Seq::empty()
            }) + (if w.script@.len() > 0 {
                seq![TreeView { id: "scripts_"@ + n, text: "Scripts"@, children: script_list(w.script@, n, "_script_"@) }]
            } else {
                Seq::empty()
            }) + (if w.plutus_datums@.len() > 0 {
                seq![TreeView {
                    id: "plutus_datums_"@ + n,
                    text: "Plutus Datums"@,
                    children: plutus_list(w.plutus_datums@, n),
                }]
            } else {
                Seq::empty()
            }),
        },
        None => leaf("witness_set_"@ + n, "Witness Set: None"@),
    }
}

/// The lines of scripts, the `j`-th under `index` + `middle` + `j`.
fn map_scripts(ss: &Vec<ScriptValue>, index: &str, middle: &str) -> (r: Vec<TreeNode>)
    ensures
        trees_view(r@) == script_list(ss@, index@, middle@),
{
    let mut out = no_nodes();
    let mut j: usize = 0;
    while j < ss.len()
        invariant
            j <= ss@.len(),
            trees_view(out@) == script_list(ss@.take(j as int), index@, middle@),
        decreases ss@.len() - j,
    {
        proof {
            assert(ss@.take(j + 1).drop_last() =~= ss@.take(j as int));
        }
        let path = sub_path(index, middle, j);
        push_node(&mut out, map_present_script(&ss[j], path.as_str()));
        j += 1;
    }
    assert(ss@.take(j as int) =~= ss@);
    out
}

/// The lines of Plutus data, the `j`-th under `index_j`.
fn map_plutus_items(items: &Vec<PlutusDatum>, index: &str) -> (r: Vec<TreeNode>)
    ensures
        trees_view(r@) == plutus_list(items@, index@),
{
    let mut out = no_nodes();
    let mut j: usize = 0;
    while j < items.len()
        invariant
            j <= items@.len(),
            trees_view(out@) == plutus_list(items@.take(j as int), index@),
        decreases items@.len() - j,
    {
        proof {
            assert(items@.take(j + 1).drop_last() =~= items@.take(j as int));
        }
        let path = child_path(index, j);
        push_node(&mut out, map_plutus_data(&items[j], path.as_str()));
        j += 1;
    }
    assert(items@.take(j as int) =~= items@);
    out
}

/// The lines of a transaction's witnesses.
pub fn map_witness_set(witness_set: &Option<WitnessSetValue>, index: usize) -> (r: TreeNode)
    ensures
        tree_view(r) == witness_set_tree(*witness_set, index as nat),
{
    let n = u64_to_decimal(index as u64);
    match witness_set {
        Some(w) => {
            let mut children = no_nodes();
            if w.vkeywitness.len() > 0 {
                let mut keys = no_nodes();
                let mut j: usize = 0;
                while j < w.vkeywitness.len()
                    invariant
                        j <= w.vkeywitness@.len(),
                        trees_view(keys@) == vkey_witness_list(w.vkeywitness@.take(j as int), n@),
                    decreases w.vkeywitness@.len() - j,
                {
                    proof {
                        assert(w.vkeywitness@.take(j + 1).drop_last() =~= w.vkeywitness@.take(j as int));
                    }
                    let path = sub_path(n.as_str(), "_vkeywitness_", j);
                    push_node(&mut keys, map_vkey_witness(&w.vkeywitness[j], path.as_str()));
                    j += 1;
                }
                assert(w.vkeywitness@.take(j as int) =~= w.vkeywitness@);
                proof {
                    reveal_strlit("VKey Witnesses");
                }
                push_node(&mut children, new_node(join("vkey_witnesses_", n.as_str()), String::from_str("VKey Witnesses"), keys));
            }
            let ghost first = trees_view(children@);
            if w.script.len() > 0 {
                let scripts = map_scripts(&w.script, n.as_str(), "_script_");
                proof {
                    reveal_strlit("Scripts");
                }
                push_node(&mut children, new_node(join("scripts_", n.as_str()), String::from_str("Scripts"), scripts));
            }
            let ghost second = trees_view(children@);
            if w.plutus_datums.len() > 0 {
                let datums = map_plutus_items(&w.plutus_datums, n.as_str());
                proof {
                    reveal_strlit("Plutus Datums");
                }
                push_node(&mut children, new_node(join("plutus_datums_", n.as_str()), String::from_str("Plutus Datums"), datums));
            }
            proof {
                reveal_strlit("Witness Set");
                let t = witness_set_tree(*witness_set, index as nat);
                let part1 = if w.vkeywitness@.len() > 0 {
                    seq![TreeView {
                        id: "vkey_witnesses_"@ + n@,
                        text: "VKey Witnesses"@,
                        children: vkey_witness_list(w.vkeywitness@, n@),
                    }]
                } else {
                    Seq::<TreeView>::empty()
                };
                let part2 = if w.script@.len() > 0 {
                    seq![TreeView { id: "scripts_"@ + n@, text: "Scripts"@, children: script_list(w.script@, n@, "_script_"@) }]
                } else {
                    Seq::<TreeView>::empty()
                };
                assert(first =~= part1);
                assert(second =~= part1 + part2);
                assert(trees_view(children@) =~= t.children);
            }
            new_node(join("witness_set_", n.as_str()), String::from_str("Witness Set"), children)
        },
        None => {
            proof {
                reveal_strlit("Witness Set: None");
            }
            new_leaf(join("witness_set_", n.as_str()), String::from_str("Witness Set: None"))
        },
    }
}

/// When a transaction can be included: the first slot and the last.
#[derive(Debug)]
pub struct TxValidityValue {
    pub start: u64,
    pub ttl: u64,
}

/// The lines of a transaction's validity interval.
pub open spec fn validity_tree(v: Option<TxValidityValue>, index: nat) -> TreeView {
    let n = decimal(index);
    match v {
        Some(v) => TreeView {
            id: "validity_"@ + n,
            text: "Validity"@,
            children: seq![
                leaf("validity_start_"@ + n, "Start: "@ + decimal(v.start as nat)),
                leaf("validity_ttl_"@ + n, "TTL: "@ + decimal(v.ttl as nat)),
            ],
        },
        None => leaf("validity_"@ + n, "Validity: None"@),
    }
}

/// The lines of a transaction's validity interval.
pub fn map_tx_validity(validity: &Option<TxValidityValue>, index: usize) -> (r: TreeNode)
    ensures
        tree_view(r) == validity_tree(*validity, index as nat),
{
    let n = u64_to_decimal(index as u64);
    match validity {
        Some(v) => {
            let mut children = no_nodes();
            let st = u64_to_decimal(v.start);
            push_node(&mut children, new_leaf(join("validity_start_", n.as_str()), join("Start: ", st.as_str())));
            let tl = u64_to_decimal(v.ttl);
            push_node(&mut children, new_leaf(join("validity_ttl_", n.as_str()), join("TTL: ", tl.as_str())));
            proof {
                reveal_strlit("Validity");
                assert(trees_view(children@) =~= validity_tree(*validity, index as nat).children);
            }
            new_node(join("validity_", n.as_str()), String::from_str("Validity"), children)
        },
        None => {
            proof {
                reveal_strlit("Validity: None");
            }
            new_leaf(join("validity_", n.as_str()), String::from_str("Validity: None"))
        },
    }
}

/// A withdrawal of rewards.
#[derive(Debug)]
pub struct WithdrawalValue {
    pub reward_account: Vec<u8>,
    pub coin: u64,
    pub redeemer: Option<RedeemerValue>,
}

/// The lines of a withdrawal under `index`.
pub open spec fn withdrawal_trees(w: WithdrawalValue, index: Seq<char>) -> Seq<TreeView> {
    seq![
        leaf("withdrawal_account_"@ + index, "Reward Account: "@ + hex_text(w.reward_account@)),
        leaf("withdrawal_coin_"@ + index, "Coin: "@ + decimal(w.coin as nat)),
        redeemer_tree(w.redeemer, index),
    ]
}

/// The lines of a withdrawal under `index`.
pub fn map_withdrawal(w: &WithdrawalValue, index: &str) -> (r: Vec<TreeNode>)
    ensures
        trees_view(r@) == withdrawal_trees(*w, index@),
{
    let mut children = no_nodes();
    let a = hex_encode(w.reward_account.as_slice());
    push_node(&mut children, new_leaf(join("withdrawal_account_", index), join("Reward Account: ", a.as_str())));
    let c = u64_to_decimal(w.coin);
    push_node(&mut children, new_leaf(join("withdrawal_coin_", index), join("Coin: ", c.as_str())));
    push_node(&mut children, map_redeemer(&w.redeemer, index));
    assert(trees_view(children@) =~= withdrawal_trees(*w, index@));
    children
}

/// The auxiliary data of a transaction: labelled metadata and scripts.
#[derive(Debug)]
pub struct AuxDataValue {
    pub metadata: Vec<(u64, Option<MetadatumValue>)>,
    pub scripts: Vec<ScriptValue>,
}

/// The lines of the `j`-th metadata entry.
pub open spec fn metadata_entry_tree(e: (u64, Option<MetadatumValue>), n: Seq<char>, j: int) -> TreeView {
    let key = n + "_"@ + decimal(j as nat);
    TreeView {
        id: "metadata_"@ + key,
        text: "Metadata "@ + decimal(j as nat),
        children: seq![leaf("metadata_label_"@ + key, "Label: "@ + decimal(e.0 as nat))] + match e.1 {
            Some(m) => seq![metadatum_tree(m, key)],
            None => Seq::empty(),
        },
    }
}

/// The lines of metadata entries.
pub open spec fn metadata_list(es: Seq<(u64, Option<MetadatumValue>)>, n: Seq<char>) -> Seq<TreeView>
    decreases es.len(),
{
    if es.len() == 0 {
        Seq::empty()
    } else {
        metadata_list(es.drop_last(), n).push(metadata_entry_tree(es.last(), n, es.len() - 1))
    }
}

/// The parts of auxiliary data that are there.
pub open spec fn aux_children(a: AuxDataValue, n: Seq<char>) -> Seq<TreeView> {
    (if a.metadata@.len() > 0 {
        seq![TreeView { id: "metadata_"@ + n, text: "Metadata"@, children: metadata_list(a.metadata@, n) }]
    } else {
        Seq::empty()
    }) + (if a.scripts@.len() > 0 {
        seq![TreeView { id: "aux_scripts_"@ + n, text: "Scripts"@, children: script_list(a.scripts@, n, "_"@) }]
    } else {
        Seq::empty()
    })
}

/// The lines of auxiliary data: one line holding its parts, or none when
/// it has no part.
pub open spec fn aux_data_trees(aux: Option<AuxDataValue>, index: nat) -> Seq<TreeView> {
    let n = decimal(index);
    match aux {
        Some(a) => if aux_children(a, n).len() > 0 {
            seq![TreeView { id: "aux_data_"@ + n, text: "Auxiliary Data"@, children: aux_children(a, n) }]
        } else {
            Seq::empty()
        },
        None => Seq::empty(),
    }
}

/// The lines of auxiliary data.
pub fn map_aux_data(aux_data: &Option<AuxDataValue>, index: usize) -> (r: Vec<TreeNode>)
    ensures
        trees_view(r@) == aux_data_trees(*aux_data, index as nat),
{
    let n = u64_to_decimal(index as u64);
    match aux_data {
        Some(a) => {
            let mut children = no_nodes();
            if a.metadata.len() > 0 {
                let mut entries = no_nodes();
                let mut j: usize = 0;
                while j < a.metadata.len()
                    invariant
                        j <= a.metadata@.len(),
                        trees_view(entries@) == metadata_list(a.metadata@.take(j as int), n@),
                    decreases a.metadata@.len() - j,
                {
                    proof {
                        assert(a.metadata@.take(j + 1).drop_last() =~= a.metadata@.take(j as int));
                    }
                    let key = child_path(n.as_str(), j);
                    let dj = u64_to_decimal(j as u64);
                    proof {
                        reveal_strlit("_");
                        assert(key@ =~= n@ + "_"@ + decimal(j as nat));
                    }
                    let mut entry_children = no_nodes();
                    let label = u64_to_decimal(a.metadata[j].0);
                    push_node(&mut entry_children, new_leaf(join("metadata_label_", key.as_str()), join("Label: ", label.as_str())));
                    let ghost head = trees_view(entry_children@);
                    assert(head =~= seq![leaf("metadata_label_"@ + key@, "Label: "@ + decimal(a.metadata@[j as int].0 as nat))]);
                    match &a.metadata[j].1 {
                        Some(m) => push_node(&mut entry_children, map_metadatum(m, key.as_str())),
                        None => {
                            assert(head + Seq::<TreeView>::empty() =~= head);
                        },
                    }
                    let node = new_node(join("metadata_", key.as_str()), join("Metadata ", dj.as_str()), entry_children);
                    proof {
                        let e = a.metadata@[j as int];
                        assert(trees_view(entry_children@) =~= metadata_entry_tree(e, n@, j as int).children);
                    }
                    push_node(&mut entries, node);
                    j += 1;
                }
                assert(a.metadata@.take(j as int) =~= a.metadata@);
                proof {
                    reveal_strlit("Metadata");
                }
                push_node(&mut children, new_node(join("metadata_", n.as_str()), String::from_str("Metadata"), entries));
            }
            let ghost first = trees_view(children@);
            if a.scripts.len() > 0 {
                let scripts = map_scripts(&a.scripts, n.as_str(), "_");
                proof {
                    reveal_strlit("Scripts");
                }
                push_node(&mut children, new_node(join("aux_scripts_", n.as_str()), String::from_str("Scripts"), scripts));
            }
            proof {
                let part1 = if a.metadata@.len() > 0 {
                    seq![TreeView { id: "metadata_"@ + n@, text: "Metadata"@, children: metadata_list(a.metadata@, n@) }]
                } else {
                    Seq::<TreeView>::empty()
                };
                assert(first =~= part1);
                assert(trees_view(children@) =~= aux_children(*a, n@));
            }
            if children.len() > 0 {
                proof {
                    reveal_strlit("Auxiliary Data");
                }
                one_node(new_node(join("aux_data_", n.as_str()), String::from_str("Auxiliary Data"), children))
            } else {
                no_nodes()
            }
        },
        None => no_nodes(),
    }
}

/// A credential: a key hash or a script hash.
#[derive(Debug)]
pub enum CredentialValue {
    AddrKeyHash(Vec<u8>),
    ScriptHash(Vec<u8>),
}

/// A delegated representative.
#[derive(Debug)]
pub enum DRepValue {
    AddrKeyHash(Vec<u8>),
    ScriptHash(Vec<u8>),
    Abstain,
    NoConfidence,
    Missing,
}

/// An anchor: a URL and the hash of what it points to.
#[derive(Debug)]
pub struct AnchorValue {
    pub url: String,
    pub content_hash: Vec<u8>,
}

/// A certificate of a transaction. Relays, pool metadata and the source
/// of a reward move are carried as the text that shows them.
#[derive(Debug)]
pub enum CertificateValue {
    StakeRegistration(Option<CredentialValue>),
    StakeDeregistration(Option<CredentialValue>),
    StakeDelegation { credential: Option<CredentialValue>, pool_keyhash: Vec<u8> },
    VoteDeleg { credential: Option<CredentialValue>, drep: DRepValue },
    PoolRegistration {
        operator: Vec<u8>,
        vrf_keyhash: Vec<u8>,
        pledge: u64,
        cost: u64,
        reward_account: Vec<u8>,
        margin: Option<(u64, u64)>,
        pool_owners: Vec<Vec<u8>>,
        relays: Vec<String>,
        pool_metadata: Option<String>,
    },
    PoolRetirement { pool_keyhash: Vec<u8>, epoch: u64 },
    GenesisKeyDelegation { genesis_hash: Vec<u8>, genesis_delegate_hash: Vec<u8>, vrf_keyhash: Vec<u8> },
    Mir { from: String, to: Vec<(Option<CredentialValue>, i64)>, other_pot: u64 },
    Reg { credential: Option<CredentialValue>, coin: u64 },
    Unreg { credential: Option<CredentialValue>, coin: u64 },
    StakeVoteDeleg { credential: Option<CredentialValue>, pool_keyhash: Vec<u8>, drep: DRepValue },
    StakeRegDeleg { credential: Option<CredentialValue>, pool_keyhash: Vec<u8>, coin: u64 },
    VoteRegDeleg { credential: Option<CredentialValue>, drep: DRepValue, coin: u64 },
    StakeVoteRegDeleg { credential: Option<CredentialValue>, pool_keyhash: Vec<u8>, drep: DRepValue, coin: u64 },
    AuthCommitteeHot { cold: Option<CredentialValue>, hot: Option<CredentialValue> },
    ResignCommitteeCold { cold: Option<CredentialValue>, anchor: Option<AnchorValue> },
    RegDrep { credential: Option<CredentialValue>, coin: u64, anchor: Option<AnchorValue> },
    UnregDrep { credential: Option<CredentialValue>, coin: u64 },
    UpdateDrep { credential: Option<CredentialValue>, anchor: Option<AnchorValue> },
    Unknown,
}

/// The line of a credential, whose identifier is its text; none without
/// a credential.
pub open spec fn credential_trees(c: Option<CredentialValue>) -> Seq<TreeView> {
    match c {
        Some(CredentialValue::AddrKeyHash(h)) => seq![leaf("Key Hash: "@ + hex_text(h@), "Key Hash: "@ + hex_text(h@))],
        Some(CredentialValue::ScriptHash(h)) => seq![leaf("Script Hash: "@ + hex_text(h@), "Script Hash: "@ + hex_text(h@))],
        None => Seq::empty(),
    }
}

/// The line of a delegated representative of the `i`-th certificate.
pub open spec fn drep_tree(d: DRepValue, i: Seq<char>) -> TreeView {
    leaf("drep_"@ + i, match d {
        DRepValue::AddrKeyHash(h) => "DRep Key Hash: "@ + hex_text(h@),
        DRepValue::ScriptHash(h) => "DRep Script Hash: "@ + hex_text(h@),
        DRepValue::Abstain => "DRep: Abstain"@,
        DRepValue::NoConfidence => "DRep: No Confidence"@,
        DRepValue::Missing => "DRep: None"@,
    })
}

/// The lines of an anchor of the `i`-th certificate.
pub open spec fn anchor_trees(a: Option<AnchorValue>, i: Seq<char>) -> Seq<TreeView> {
    match a {
        Some(a) => seq![
            leaf("anchor_url_"@ + i, "Anchor URL: "@ + a.url@),
            leaf("anchor_hash_"@ + i, "Anchor Content Hash: "@ + hex_text(a.content_hash@)),
        ],
        None => Seq::empty(),
    }
}

/// A leaf `kind_i` with a label and a hash in hex.
pub open spec fn hash_leaf(kind: Seq<char>, i: Seq<char>, label: Seq<char>, h: Seq<u8>) -> TreeView {
    leaf(kind + "_"@ + i, label + hex_text(h))
}

/// A leaf `kind_i` with a label and a number.
pub open spec fn number_leaf(kind: Seq<char>, i: Seq<char>, label: Seq<char>, n: nat) -> TreeView {
    leaf(kind + "_"@ + i, label + decimal(n))
}

/// The lines of a list of hashes, the `j`-th as `kind_i_j`.
pub open spec fn owner_list(hs: Seq<Vec<u8>>, i: Seq<char>) -> Seq<TreeView>
    decreases hs.len(),
{
    if hs.len() == 0 {
        Seq::empty()
    } else {
        owner_list(hs.drop_last(), i).push(
            leaf("owner_"@ + i + "_"@ + decimal((hs.len() - 1) as nat), "Owner: "@ + hex_text(hs.last()@)))
    }
}

/// The lines of relays, the `j`-th as `relay_i_j`.
pub open spec fn relay_list(rs: Seq<String>, i: Seq<char>) -> Seq<TreeView>
    decreases rs.len(),
{
    if rs.len() == 0 {
        Seq::empty()
    } else {
        relay_list(rs.drop_last(), i).push(
            leaf("relay_"@ + i + "_"@ + decimal((rs.len() - 1) as nat), "Relay: "@ + rs.last()@))
    }
}

/// The lines of reward move targets.
pub open spec fn mir_target_list(ts: Seq<(Option<CredentialValue>, i64)>, i: Seq<char>) -> Seq<TreeView>
    decreases ts.len(),
{
    if ts.len() == 0 {
        Seq::empty()
    } else {
        let j = decimal((ts.len() - 1) as nat);
        let t = ts.last();
        mir_target_list(ts.drop_last(), i).push(TreeView {
            id: "mir_target_"@ + i + "_"@ + j,
            text: "Target "@ + j,
            children: credential_trees(t.0).push(leaf("delta_coin_"@ + i + "_"@ + j, "Delta Coin: "@ + signed_decimal(t.1 as int))),
        })
    }
}

/// A certificate line of a kind, at position `i`.
pub open spec fn cert_node(kind: Seq<char>, i: Seq<char>, text: Seq<char>, children: Seq<TreeView>) -> TreeView {
    TreeView { id: kind + "_"@ + i, text, children }
}

/// The lines that show the `i`-th certificate.
pub open spec fn cert_tree(c: CertificateValue, i: Seq<char>) -> TreeView {
    match c {
        CertificateValue::StakeRegistration(cr) => cert_node("stake_registration"@, i, "Stake Registration"@, credential_trees(cr)),
        CertificateValue::StakeDeregistration(cr) => cert_node("stake_deregistration"@, i, "Stake Deregistration"@, credential_trees(cr)),
        CertificateValue::StakeDelegation { credential, pool_keyhash } => cert_node("stake_delegation"@, i, "Stake Delegation"@,
            seq![hash_leaf("pool_keyhash"@, i, "Pool Key Hash: "@, pool_keyhash@)] + credential_trees(credential)),
        CertificateValue::VoteDeleg { credential, drep } => cert_node("vote_delegation"@, i, "Vote Delegation"@,
            credential_trees(credential).push(drep_tree(drep, i))),
        CertificateValue::PoolRegistration { operator, vrf_keyhash, pledge, cost, reward_account, margin, pool_owners, relays, pool_metadata } =>
            cert_node("pool_registration"@, i, "Pool Registration"@, seq![
                hash_leaf("pool_operator"@, i, "Operator Key Hash: "@, operator@),
                hash_leaf("vrf_keyhash"@, i, "VRF Key Hash: "@, vrf_keyhash@),
                number_leaf("pledge"@, i, "Pledge: "@, pledge as nat),
                number_leaf("cost"@, i, "Cost: "@, cost as nat),
                hash_leaf("reward_account"@, i, "Reward Account: "@, reward_account@),
            ] + match margin {
                Some((num, den)) => seq![leaf("margin_"@ + i, "Margin: "@ + decimal(num as nat) + "/"@ + decimal(den as nat))],
                None => Seq::empty(),
            } + (if pool_owners@.len() > 0 {
                seq![TreeView { id: "pool_owners_"@ + i, text: "Pool Owners"@, children: owner_list(pool_owners@, i) }]
            } else {
                Seq::empty()
            }) + (if relays@.len() > 0 {
                seq![TreeView { id: "relays_"@ + i, text: "Relays"@, children: relay_list(relays@, i) }]
            } else {
                Seq::empty()
            }) + match pool_metadata {
                Some(m) => seq![leaf("metadata_"@ + i, "Metadata: "@ + m@)],
                None => Seq::empty(),
            }),
        CertificateValue::PoolRetirement { pool_keyhash, epoch } => cert_node("pool_retirement"@, i, "Pool Retirement"@, seq![
            hash_leaf("pool_keyhash"@, i, "Pool Key Hash: "@, pool_keyhash@),
            number_leaf("retirement_epoch"@, i, "Retirement Epoch: "@, epoch as nat),
        ]),
        CertificateValue::GenesisKeyDelegation { genesis_hash, genesis_delegate_hash, vrf_keyhash } =>
            cert_node("genesis_key_delegation"@, i, "Genesis Key Delegation"@, seq![
                hash_leaf("genesis_hash"@, i, "Genesis Hash: "@, genesis_hash@),
                hash_leaf("genesis_delegate_hash"@, i, "Delegate Hash: "@, genesis_delegate_hash@),
                hash_leaf("vrf_keyhash"@, i, "VRF Key Hash: "@, vrf_keyhash@),
            ]),
        CertificateValue::Mir { from, to, other_pot } => cert_node("mir_cert"@, i, "Move Instantaneous Reward"@,
            seq![leaf("mir_source_"@ + i, "Source: "@ + from@)] + (if to@.len() > 0 {
                seq![TreeView { id: "mir_targets_"@ + i, text: "Targets"@, children: mir_target_list(to@, i) }]
            } else {
                Seq::empty()
            }) + seq![number_leaf("other_pot"@, i, "Other Pot: "@, other_pot as nat)]),
        CertificateValue::Reg { credential, coin } => cert_node("reg_cert"@, i, "Registration"@,
            credential_trees(credential).push(number_leaf("coin"@, i, "Coin: "@, coin as nat))),
        CertificateValue::Unreg { credential, coin } => cert_node("unreg_cert"@, i, "Unregistration"@,
            credential_trees(credential).push(number_leaf("coin"@, i, "Coin: "@, coin as nat))),
        CertificateValue::StakeVoteDeleg { credential, pool_keyhash, drep } => cert_node("stake_vote_deleg_cert"@, i,
            "Stake and Vote Delegation"@,
            credential_trees(credential).push(hash_leaf("pool_keyhash"@, i, "Pool Key Hash: "@, pool_keyhash@)).push(drep_tree(drep, i))),
        CertificateValue::StakeRegDeleg { credential, pool_keyhash, coin } => cert_node("stake_reg_deleg_cert"@, i,
            "Stake Registration and Delegation"@,
            credential_trees(credential).push(hash_leaf("pool_keyhash"@, i, "Pool Key Hash: "@, pool_keyhash@))
                .push(number_leaf("coin"@, i, "Coin: "@, coin as nat))),
        CertificateValue::VoteRegDeleg { credential, drep, coin } => cert_node("vote_reg_deleg_cert"@, i,
            "Vote Registration and Delegation"@,
            credential_trees(credential).push(drep_tree(drep, i)).push(number_leaf("coin"@, i, "Coin: "@, coin as nat))),
        CertificateValue::StakeVoteRegDeleg { credential, pool_keyhash, drep, coin } => cert_node("stake_vote_reg_deleg_cert"@, i,
            "Stake and Vote Registration and Delegation"@,
            credential_trees(credential).push(hash_leaf("pool_keyhash"@, i, "Pool Key Hash: "@, pool_keyhash@))
                .push(drep_tree(drep, i)).push(number_leaf("coin"@, i, "Coin: "@, coin as nat))),
        CertificateValue::AuthCommitteeHot { cold, hot } => cert_node("auth_committee_hot_cert"@, i,
            "Authorize Committee Hot Key"@, credential_trees(cold) + credential_trees(hot)),
        CertificateValue::ResignCommitteeCold { cold, anchor } => cert_node("resign_committee_cold_cert"@, i,
            "Resign Committee Cold Key"@, credential_trees(cold) + anchor_trees(anchor, i)),
        CertificateValue::RegDrep { credential, coin, anchor } => cert_node("reg_drep_cert"@, i, "Register DRep"@,
            credential_trees(credential).push(number_leaf("coin"@, i, "Coin: "@, coin as nat)) + anchor_trees(anchor, i)),
        CertificateValue::UnregDrep { credential, coin } => cert_node("unreg_drep_cert"@, i, "Unregister DRep"@,
            credential_trees(credential).push(number_leaf("coin"@, i, "Coin: "@, coin as nat))),
        CertificateValue::UpdateDrep { credential, anchor } => cert_node("update_drep_cert"@, i, "Update DRep"@,
            credential_trees(credential) + anchor_trees(anchor, i)),
        CertificateValue::Unknown => leaf("unknown_cert_"@ + i, "Unknown Certificate"@),
    }
}

/// The lines of certificates.
pub open spec fn cert_list(cs: Seq<CertificateValue>) -> Seq<TreeView>
    decreases cs.len(),
{
    if cs.len() == 0 {
        Seq::empty()
    } else {
        cert_list(cs.drop_last()).push(cert_tree(cs.last(), decimal((cs.len() - 1) as nat)))
    }
}

/// The line of a credential, when there is one.
pub fn map_cert_stake_credential(c: &Option<CredentialValue>) -> (r: Vec<TreeNode>)
    ensures
        trees_view(r@) == credential_trees(*c),
{
    match c {
        Some(CredentialValue::AddrKeyHash(h)) => {
            let x = hex_encode(h.as_slice());
            let t = join("Key Hash: ", x.as_str());
            let r = one_node(new_leaf(t.clone(), t));
            r
        },
        Some(CredentialValue::ScriptHash(h)) => {
            let x = hex_encode(h.as_slice());
            let t = join("Script Hash: ", x.as_str());
            one_node(new_leaf(t.clone(), t))
        },
        None => no_nodes(),
    }
}

/// The line of the delegated representative of the `i`-th certificate.
pub fn map_drep(drep: &DRepValue, i: &str) -> (r: TreeNode)
    ensures
        tree_view(r) == drep_tree(*drep, i@),
{
    let text = match drep {
        DRepValue::AddrKeyHash(h) => {
            let x = hex_encode(h.as_slice());
            join("DRep Key Hash: ", x.as_str())
        },
        DRepValue::ScriptHash(h) => {
            let x = hex_encode(h.as_slice());
            join("DRep Script Hash: ", x.as_str())
        },
        DRepValue::Abstain => String::from_str("DRep: Abstain"),
        DRepValue::NoConfidence => String::from_str("DRep: No Confidence"),
        DRepValue::Missing => String::from_str("DRep: None"),
    };
    proof {
        reveal_strlit("DRep: Abstain");
        reveal_strlit("DRep: No Confidence");
        reveal_strlit("DRep: None");
    }
    new_leaf(join("drep_", i), text)
}

/// The lines of an anchor of the `i`-th certificate.
fn map_anchor(a: &Option<AnchorValue>, i: &str) -> (r: Vec<TreeNode>)
    ensures
        trees_view(r@) == anchor_trees(*a, i@),
{
    let mut out = no_nodes();
    match a {
        Some(a) => {
            push_node(&mut out, new_leaf(join("anchor_url_", i), join("Anchor URL: ", a.url.as_str())));
            let h = hex_encode(a.content_hash.as_slice());
            push_node(&mut out, new_leaf(join("anchor_hash_", i), join("Anchor Content Hash: ", h.as_str())));
        },
        None => {},
    }
    assert(trees_view(out@) =~= anchor_trees(*a, i@));
    out
}

/// A leaf `kind_i` with a label and a hash in hex.
fn map_hash_leaf(kind: &str, i: &str, label: &str, h: &Vec<u8>) -> (r: TreeNode)
    ensures
        tree_view(r) == hash_leaf(kind@, i@, label@, h@),
{
    let x = hex_encode(h.as_slice());
    proof {
        reveal_strlit("_");
    }
    new_leaf(join3(kind, "_", i), join(label, x.as_str()))
}

/// A leaf `kind_i` with a label and a number.
fn map_number_leaf(kind: &str, i: &str, label: &str, n: u64) -> (r: TreeNode)
    ensures
        tree_view(r) == number_leaf(kind@, i@, label@, n as nat),
{
    let d = u64_to_decimal(n);
    new_leaf(join3(kind, "_", i), join(label, d.as_str()))
}

/// A certificate line of a kind, at position `i`.
fn map_cert_node(kind: &str, i: &str, text: &str, children: Vec<TreeNode>) -> (r: TreeNode)
    ensures
        tree_view(r) == cert_node(kind@, i@, text@, trees_view(children@)),
{
    new_node(join3(kind, "_", i), String::from_str(text), children)
}

/// `index_j` with the position in decimal.
fn index_j(prefix: &str, i: &str, j: usize) -> (r: String)
    ensures
        r@ == prefix@ + i@ + "_"@ + decimal(j as nat),
{
    let d = u64_to_decimal(j as u64);
    let left = join(prefix, i);
    join3(left.as_str(), "_", d.as_str())
}

/// The lines that show the `i`-th certificate.
pub fn map_certificate(c: &CertificateValue, i: &str) -> (r: TreeNode)
    ensures
        tree_view(r) == cert_tree(*c, i@),
{
    match c {
        CertificateValue::StakeRegistration(cr) => {
            let ch = map_cert_stake_credential(cr);
            map_cert_node("stake_registration", i, "Stake Registration", ch)
        },
        CertificateValue::StakeDeregistration(cr) => {
            let ch = map_cert_stake_credential(cr);
            map_cert_node("stake_deregistration", i, "Stake Deregistration", ch)
        },
        CertificateValue::StakeDelegation { credential, pool_keyhash } => {
            let mut ch = no_nodes();
            push_node(&mut ch, map_hash_leaf("pool_keyhash", i, "Pool Key Hash: ", pool_keyhash));
            append_nodes(&mut ch, map_cert_stake_credential(credential));
            map_cert_node("stake_delegation", i, "Stake Delegation", ch)
        },
        CertificateValue::VoteDeleg { credential, drep } => {
            let mut ch = map_cert_stake_credential(credential);
            push_node(&mut ch, map_drep(drep, i));
            map_cert_node("vote_delegation", i, "Vote Delegation", ch)
        },
        CertificateValue::PoolRegistration { operator, vrf_keyhash, pledge, cost, reward_account, margin, pool_owners, relays, pool_metadata } => {
            let mut ch = no_nodes();
            push_node(&mut ch, map_hash_leaf("pool_operator", i, "Operator Key Hash: ", operator));
            push_node(&mut ch, map_hash_leaf("vrf_keyhash", i, "VRF Key Hash: ", vrf_keyhash));
            push_node(&mut ch, map_number_leaf("pledge", i, "Pledge: ", *pledge));
            push_node(&mut ch, map_number_leaf("cost", i, "Cost: ", *cost));
            push_node(&mut ch, map_hash_leaf("reward_account", i, "Reward Account: ", reward_account));
            let ghost s1 = trees_view(ch@);
            match margin {
                Some((num, den)) => {
                    let a = u64_to_decimal(*num);
                    let b = u64_to_decimal(*den);
                    let t = join3("Margin: ", a.as_str(), join("/", b.as_str()).as_str());
                    assert(t@ =~= "Margin: "@ + decimal(*num as nat) + "/"@ + decimal(*den as nat));
                    push_node(&mut ch, new_leaf(join("margin_", i), t));
                },
                None => {
                    assert(s1 + Seq::<TreeView>::empty() =~= s1);
                },
            }
            let ghost s2 = trees_view(ch@);
            if pool_owners.len() > 0 {
                let mut owners = no_nodes();
                let mut j: usize = 0;
                while j < pool_owners.len()
                    invariant
                        j <= pool_owners@.len(),
                        trees_view(owners@) == owner_list(pool_owners@.take(j as int), i@),
                    decreases pool_owners@.len() - j,
                {
                    proof {
                        assert(pool_owners@.take(j + 1).drop_last() =~= pool_owners@.take(j as int));
                    }
                    let h = hex_encode(pool_owners[j].as_slice());
                    push_node(&mut owners, new_leaf(index_j("owner_", i, j), join("Owner: ", h.as_str())));
                    j += 1;
                }
                assert(pool_owners@.take(j as int) =~= pool_owners@);
                proof {
                    reveal_strlit("Pool Owners");
                }
                push_node(&mut ch, new_node(join("pool_owners_", i), String::from_str("Pool Owners"), owners));
            }
            let ghost s3 = trees_view(ch@);
            if relays.len() > 0 {
                let mut rs = no_nodes();
                let mut j: usize = 0;
                while j < relays.len()
                    invariant
                        j <= relays@.len(),
                        trees_view(rs@) == relay_list(relays@.take(j as int), i@),
                    decreases relays@.len() - j,
                {
                    proof {
                        assert(relays@.take(j + 1).drop_last() =~= relays@.take(j as int));
                    }
                    push_node(&mut rs, new_leaf(index_j("relay_", i, j), join("Relay: ", relays[j].as_str())));
                    j += 1;
                }
                assert(relays@.take(j as int) =~= relays@);
                proof {
                    reveal_strlit("Relays");
                }
                push_node(&mut ch, new_node(join("relays_", i), String::from_str("Relays"), rs));
            }
            let ghost s4 = trees_view(ch@);
            match pool_metadata {
                Some(m) => push_node(&mut ch, new_leaf(join("metadata_", i), join("Metadata: ", m.as_str()))),
                None => {},
            }
            proof {
                reveal_strlit("/");
                let part_margin = match *margin {
                    Some((num, den)) => seq![leaf("margin_"@ + i@, "Margin: "@ + decimal(num as nat) + "/"@ + decimal(den as nat))],
                    None => Seq::<TreeView>::empty(),
                };
                let part_owners = if pool_owners@.len() > 0 {
                    seq![TreeView { id: "pool_owners_"@ + i@, text: "Pool Owners"@, children: owner_list(pool_owners@, i@) }]
                } else {
                    Seq::<TreeView>::empty()
                };
                let part_relays = if relays@.len() > 0 {
                    seq![TreeView { id: "relays_"@ + i@, text: "Relays"@, children: relay_list(relays@, i@) }]
                } else {
                    Seq::<TreeView>::empty()
                };
                assert(s2 =~= s1 + part_margin);
                assert(s3 =~= s1 + part_margin + part_owners);
                assert(s4 =~= s1 + part_margin + part_owners + part_relays);
                assert(trees_view(ch@) =~= cert_tree(*c, i@).children);
            }
            map_cert_node("pool_registration", i, "Pool Registration", ch)
        },
        CertificateValue::PoolRetirement { pool_keyhash, epoch } => {
            let mut ch = no_nodes();
            push_node(&mut ch, map_hash_leaf("pool_keyhash", i, "Pool Key Hash: ", pool_keyhash));
            push_node(&mut ch, map_number_leaf("retirement_epoch", i, "Retirement Epoch: ", *epoch));
            assert(trees_view(ch@) =~= cert_tree(*c, i@).children);
            map_cert_node("pool_retirement", i, "Pool Retirement", ch)
        },
        CertificateValue::GenesisKeyDelegation { genesis_hash, genesis_delegate_hash, vrf_keyhash } => {
            let mut ch = no_nodes();
            push_node(&mut ch, map_hash_leaf("genesis_hash", i, "Genesis Hash: ", genesis_hash));
            push_node(&mut ch, map_hash_leaf("genesis_delegate_hash", i, "Delegate Hash: ", genesis_delegate_hash));
            push_node(&mut ch, map_hash_leaf("vrf_keyhash", i, "VRF Key Hash: ", vrf_keyhash));
            assert(trees_view(ch@) =~= cert_tree(*c, i@).children);
            map_cert_node("genesis_key_delegation", i, "Genesis Key Delegation", ch)
        },
        CertificateValue::Mir { from, to, other_pot } => {
            let mut ch = no_nodes();
            push_node(&mut ch, new_leaf(join("mir_source_", i), join("Source: ", from.as_str())));
            let ghost s1 = trees_view(ch@);
            if to.len() > 0 {
                let mut targets = no_nodes();
                let mut j: usize = 0;
                while j < to.len()
                    invariant
                        j <= to@.len(),
                        trees_view(targets@) == mir_target_list(to@.take(j as int), i@),
                    decreases to@.len() - j,
                {
                    proof {
                        assert(to@.take(j + 1).drop_last() =~= to@.take(j as int));
                    }
                    let mut tch = map_cert_stake_credential(&to[j].0);
                    let delta = i64_to_decimal(to[j].1);
                    push_node(&mut tch, new_leaf(index_j("delta_coin_", i, j), join("Delta Coin: ", delta.as_str())));
                    let dj = u64_to_decimal(j as u64);
                    push_node(&mut targets, new_node(index_j("mir_target_", i, j), join("Target ", dj.as_str()), tch));
                    j += 1;
                }
                assert(to@.take(j as int) =~= to@);
                proof {
                    reveal_strlit("Targets");
                }
                push_node(&mut ch, new_node(join("mir_targets_", i), String::from_str("Targets"), targets));
            }
            let ghost s2 = trees_view(ch@);
            push_node(&mut ch, map_number_leaf("other_pot", i, "Other Pot: ", *other_pot));
            proof {
                let part = if to@.len() > 0 {
                    seq![TreeView { id: "mir_targets_"@ + i@, text: "Targets"@, children: mir_target_list(to@, i@) }]
                } else {
                    Seq::<TreeView>::empty()
                };
                assert(s2 =~= s1 + part);
                assert(trees_view(ch@) =~= cert_tree(*c, i@).children);
            }
            map_cert_node("mir_cert", i, "Move Instantaneous Reward", ch)
        },
        CertificateValue::Reg { credential, coin } => {
            let mut ch = map_cert_stake_credential(credential);
            push_node(&mut ch, map_number_leaf("coin", i, "Coin: ", *coin));
            map_cert_node("reg_cert", i, "Registration", ch)
        },
        CertificateValue::Unreg { credential, coin } => {
            let mut ch = map_cert_stake_credential(credential);
            push_node(&mut ch, map_number_leaf("coin", i, "Coin: ", *coin));
            map_cert_node("unreg_cert", i, "Unregistration", ch)
        },
        CertificateValue::StakeVoteDeleg { credential, pool_keyhash, drep } => {
            let mut ch = map_cert_stake_credential(credential);
            push_node(&mut ch, map_hash_leaf("pool_keyhash", i, "Pool Key Hash: ", pool_keyhash));
            push_node(&mut ch, map_drep(drep, i));
            map_cert_node("stake_vote_deleg_cert", i, "Stake and Vote Delegation", ch)
        },
        CertificateValue::StakeRegDeleg { credential, pool_keyhash, coin } => {
            let mut ch = map_cert_stake_credential(credential);
            push_node(&mut ch, map_hash_leaf("pool_keyhash", i, "Pool Key Hash: ", pool_keyhash));
            push_node(&mut ch, map_number_leaf("coin", i, "Coin: ", *coin));
            map_cert_node("stake_reg_deleg_cert", i, "Stake Registration and Delegation", ch)
        },
        CertificateValue::VoteRegDeleg { credential, drep, coin } => {
            let mut ch = map_cert_stake_credential(credential);
            push_node(&mut ch, map_drep(drep, i));
            push_node(&mut ch, map_number_leaf("coin", i, "Coin: ", *coin));
            map_cert_node("vote_reg_deleg_cert", i, "Vote Registration and Delegation", ch)
        },
        CertificateValue::StakeVoteRegDeleg { credential, pool_keyhash, drep, coin } => {
            let mut ch = map_cert_stake_credential(credential);
            push_node(&mut ch, map_hash_leaf("pool_keyhash", i, "Pool Key Hash: ", pool_keyhash));
            push_node(&mut ch, map_drep(drep, i));
            push_node(&mut ch, map_number_leaf("coin", i, "Coin: ", *coin));
            map_cert_node("stake_vote_reg_deleg_cert", i, "Stake and Vote Registration and Delegation", ch)
        },
        CertificateValue::AuthCommitteeHot { cold, hot } => {
            let mut ch = map_cert_stake_credential(cold);
            append_nodes(&mut ch, map_cert_stake_credential(hot));
            map_cert_node("auth_committee_hot_cert", i, "Authorize Committee Hot Key", ch)
        },
        CertificateValue::ResignCommitteeCold { cold, anchor } => {
            let mut ch = map_cert_stake_credential(cold);
            append_nodes(&mut ch, map_anchor(anchor, i));
            map_cert_node("resign_committee_cold_cert", i, "Resign Committee Cold Key", ch)
        },
        CertificateValue::RegDrep { credential, coin, anchor } => {
            let mut ch = map_cert_stake_credential(credential);
            push_node(&mut ch, map_number_leaf("coin", i, "Coin: ", *coin));
            append_nodes(&mut ch, map_anchor(anchor, i));
            map_cert_node("reg_drep_cert", i, "Register DRep", ch)
        },
        CertificateValue::UnregDrep { credential, coin } => {
            let mut ch = map_cert_stake_credential(credential);
            push_node(&mut ch, map_number_leaf("coin", i, "Coin: ", *coin));
            map_cert_node("unreg_drep_cert", i, "Unregister DRep", ch)
        },
        CertificateValue::UpdateDrep { credential, anchor } => {
            let mut ch = map_cert_stake_credential(credential);
            append_nodes(&mut ch, map_anchor(anchor, i));
            map_cert_node("update_drep_cert", i, "Update DRep", ch)
        },
        CertificateValue::Unknown => {
            proof {
                reveal_strlit("Unknown Certificate");
            }
            new_leaf(join("unknown_cert_", i), String::from_str("Unknown Certificate"))
        },
    }
}

/// The line holding a transaction's certificates.
pub fn map_cert(certificates: &Vec<CertificateValue>) -> (r: TreeNode)
    ensures
        tree_view(r) == (TreeView { id: "certificates"@, text: "Certificates"@, children: cert_list(certificates@) }),
{
    let mut out = no_nodes();
    let mut i: usize = 0;
    while i < certificates.len()
        invariant
            i <= certificates@.len(),
            trees_view(out@) == cert_list(certificates@.take(i as int)),
        decreases certificates@.len() - i,
    {
        proof {
            assert(certificates@.take(i + 1).drop_last() =~= certificates@.take(i as int));
        }
        let n = u64_to_decimal(i as u64);
        push_node(&mut out, map_certificate(&certificates[i], n.as_str()));
        i += 1;
    }
    assert(certificates@.take(i as int) =~= certificates@);
    new_node(String::from_str("certificates"), String::from_str("Certificates"), out)
}

/// The collateral of a transaction: the inputs and their total.
#[derive(Debug)]
pub struct CollateralValue {
    pub collateral: Vec<TxInputValue>,
    pub total_collateral: u64,
}

/// A transaction, with all the parts the detail view shows.
#[derive(Debug)]
pub struct TxDetail {
    pub hash: Vec<u8>,
    pub fee: u64,
    pub inputs: Vec<TxInputValue>,
    pub outputs: Vec<TxOutputValue>,
    pub reference_inputs: Vec<TxInputValue>,
    pub mint: Vec<MultiassetValue>,
    pub collateral: Option<CollateralValue>,
    pub withdrawals: Vec<WithdrawalValue>,
    pub witnesses: Option<WitnessSetValue>,
    pub validity: Option<TxValidityValue>,
    pub auxiliary: Option<AuxDataValue>,
    pub certificates: Vec<CertificateValue>,
}

/// The lines of inputs, the `i`-th under path `prefix` + `i`.
pub open spec fn input_list(ins: Seq<TxInputValue>, prefix: Seq<char>, tx_hash: Seq<char>) -> Seq<TreeView>
    decreases ins.len(),
{
    if ins.len() == 0 {
        Seq::empty()
    } else {
        input_list(ins.drop_last(), prefix, tx_hash).push(
            input_tree(ins.last(), prefix + decimal((ins.len() - 1) as nat), tx_hash))
    }
}

/// The lines of outputs.
pub open spec fn output_list(outs: Seq<TxOutputValue>, tx_hash: Seq<char>) -> Seq<TreeView>
    decreases outs.len(),
{
    if outs.len() == 0 {
        Seq::empty()
    } else {
        output_list(outs.drop_last(), tx_hash).push(output_tree(outs.last(), (outs.len() - 1) as nat, tx_hash))
    }
}

/// The lines of the `i`-th minting policy.
pub open spec fn mint_policy_tree(m: MultiassetValue, i: int) -> TreeView {
    let policy = hex_text(m.policy_id@);
    TreeView {
        id: "mint_policy_"@ + policy + "_"@ + decimal(i as nat),
        text: "Policy: "@ + policy,
        children: asset_list(m.assets@, "mint"@, policy, i).push(redeemer_tree(m.redeemer, "mint_"@ + decimal(i as nat))),
    }
}

/// The lines of minting policies.
pub open spec fn mint_list(ms: Seq<MultiassetValue>) -> Seq<TreeView>
    decreases ms.len(),
{
    if ms.len() == 0 {
        Seq::empty()
    } else {
        mint_list(ms.drop_last()).push(mint_policy_tree(ms.last(), ms.len() - 1))
    }
}

/// The lines of withdrawals, each giving three.
pub open spec fn withdrawal_list(ws: Seq<WithdrawalValue>) -> Seq<TreeView>
    decreases ws.len(),
{
    if ws.len() == 0 {
        Seq::empty()
    } else {
        withdrawal_list(ws.drop_last()) + withdrawal_trees(ws.last(), "withdrawal_"@ + decimal((ws.len() - 1) as nat))
    }
}

/// The lines of a transaction's collateral.
pub open spec fn collateral_trees(c: Option<CollateralValue>, tx_hash: Seq<char>) -> Seq<TreeView> {
    match c {
        Some(c) => seq![TreeView {
            id: "collateral"@,
            text: "Collateral"@,
            children: (if c.collateral@.len() > 0 {
                seq![TreeView {
                    id: "collateral_inputs"@,
                    text: "Collateral Inputs"@,
                    children: input_list(c.collateral@, "collateral_"@, tx_hash),
                }]
            } else {
                Seq::empty()
            }).push(leaf("total_collateral"@, "Total Collateral: "@ + decimal(c.total_collateral as nat))),
        }],
        None => Seq::empty(),
    }
}

/// A line with lines under it, only when there are any.
pub open spec fn section(id: Seq<char>, text: Seq<char>, children: Seq<TreeView>) -> Seq<TreeView> {
    if children.len() > 0 {
        seq![TreeView { id, text, children }]
    } else {
        Seq::empty()
    }
}

/// The lines of the detail view of a transaction of the block with the
/// given hash text, slot and height: its hash and fee, the block, its
/// inputs and outputs, and then each other part it has.
pub open spec fn tx_tree_items(tx: TxDetail, block_hash: Seq<char>, slot: u64, height: u64) -> Seq<TreeView> {
    let h = hex_text(tx.hash@);
    seq![
        leaf("tx_hash_info"@, "Hash: "@ + h),
        leaf("tx_fee_info"@, "Fee: "@ + decimal(tx.fee as nat)),
        TreeView {
            id: "block_info"@,
            text: "Block Info"@,
            children: seq![
                leaf("hash"@, "Hash: "@ + hex_text(encode_utf8(block_hash))),
                leaf("slot"@, "Slot: "@ + decimal(slot as nat)),
                leaf("height"@, "Height: "@ + decimal(height as nat)),
            ],
        },
        TreeView { id: "inputs"@, text: "Inputs"@, children: input_list(tx.inputs@, Seq::empty(), h) },
        TreeView { id: "outputs"@, text: "Outputs"@, children: output_list(tx.outputs@, h) },
    ] + (if tx.reference_inputs@.len() > 0 {
        seq![TreeView {
            id: "reference_inputs"@,
            text: "Reference Inputs"@,
            children: input_list(tx.reference_inputs@, "reference_"@, h),
        }]
    } else {
        Seq::empty()
    }) + (if tx.mint@.len() > 0 {
        seq![TreeView { id: "mints"@, text: "Mints"@, children: mint_list(tx.mint@) }]
    } else {
        Seq::empty()
    }) + collateral_trees(tx.collateral, h) + (if tx.withdrawals@.len() > 0 {
        seq![TreeView { id: "withdrawals"@, text: "Withdrawals"@, children: withdrawal_list(tx.withdrawals@) }]
    } else {
        Seq::empty()
    }) + seq![witness_set_tree(tx.witnesses, 0), validity_tree(tx.validity, 0)] + aux_data_trees(tx.auxiliary, 0)
        + (if tx.certificates@.len() > 0 {
        seq![TreeView { id: "certificates"@, text: "Certificates"@, children: cert_list(tx.certificates@) }]
    } else {
        Seq::empty()
    })
}

/// The lines of inputs, the `i`-th under path `prefix` + `i`.
fn map_inputs(ins: &Vec<TxInputValue>, prefix: &str, tx_hash: &str) -> (r: Vec<TreeNode>)
    ensures
        trees_view(r@) == input_list(ins@, prefix@, tx_hash@),
{
    let mut out = no_nodes();
    let mut i: usize = 0;
    while i < ins.len()
        invariant
            i <= ins@.len(),
            trees_view(out@) == input_list(ins@.take(i as int), prefix@, tx_hash@),
        decreases ins@.len() - i,
    {
        proof {
            assert(ins@.take(i + 1).drop_last() =~= ins@.take(i as int));
        }
        let d = u64_to_decimal(i as u64);
        let path = join(prefix, d.as_str());
        push_node(&mut out, map_tx_input(&ins[i], path.as_str(), tx_hash));
        i += 1;
    }
    assert(ins@.take(i as int) =~= ins@);
    out
}

/// The lines of outputs.
fn map_outputs(outs: &Vec<TxOutputValue>, tx_hash: &str) -> (r: Vec<TreeNode>)
    ensures
        trees_view(r@) == output_list(outs@, tx_hash@),
{
    let mut out = no_nodes();
    let mut i: usize = 0;
    while i < outs.len()
        invariant
            i <= outs@.len(),
            trees_view(out@) == output_list(outs@.take(i as int), tx_hash@),
        decreases outs@.len() - i,
    {
        proof {
            assert(outs@.take(i + 1).drop_last() =~= outs@.take(i as int));
        }
        push_node(&mut out, map_tx_output(&outs[i], i, tx_hash));
        i += 1;
    }
    assert(outs@.take(i as int) =~= outs@);
    out
}

/// The lines of minting policies.
fn map_mints(ms: &Vec<MultiassetValue>) -> (r: Vec<TreeNode>)
    ensures
        trees_view(r@) == mint_list(ms@),
{
    let mut out = no_nodes();
    let mut i: usize = 0;
    while i < ms.len()
        invariant
            i <= ms@.len(),
            trees_view(out@) == mint_list(ms@.take(i as int)),
        decreases ms@.len() - i,
    {
        let m = &ms[i];
        let policy = hex_encode(m.policy_id.as_slice());
        let mut children = map_assets(&m.assets, "mint", policy.as_str(), i);
        let di = u64_to_decimal(i as u64);
        let path = join("mint_", di.as_str());
        push_node(&mut children, map_redeemer(&m.redeemer, path.as_str()));
        let node = new_node(join3("mint_policy_", policy.as_str(), join("_", di.as_str()).as_str()), join("Policy: ", policy.as_str()), children);
        proof {
            assert(ms@.take(i + 1).drop_last() =~= ms@.take(i as int));
            assert(tree_view(node).id =~= "mint_policy_"@ + policy@ + "_"@ + decimal(i as nat));
        }
        push_node(&mut out, node);
        i += 1;
    }
    assert(ms@.take(i as int) =~= ms@);
    out
}

/// The lines of withdrawals.
fn map_withdrawals(ws: &Vec<WithdrawalValue>) -> (r: Vec<TreeNode>)
    ensures
        trees_view(r@) == withdrawal_list(ws@),
{
    let mut out = no_nodes();
    let mut i: usize = 0;
    while i < ws.len()
        invariant
            i <= ws@.len(),
            trees_view(out@) == withdrawal_list(ws@.take(i as int)),
        decreases ws@.len() - i,
    {
        proof {
            assert(ws@.take(i + 1).drop_last() =~= ws@.take(i as int));
        }
        let d = u64_to_decimal(i as u64);
        let path = join("withdrawal_", d.as_str());
        append_nodes(&mut out, map_withdrawal(&ws[i], path.as_str()));
        i += 1;
    }
    assert(ws@.take(i as int) =~= ws@);
    out
}

/// The lines of a transaction's collateral.
fn map_collateral(c: &Option<CollateralValue>, tx_hash: &str) -> (r: Vec<TreeNode>)
    ensures
        trees_view(r@) == collateral_trees(*c, tx_hash@),
{
    match c {
        Some(col) => {
            let mut children = no_nodes();
            if col.collateral.len() > 0 {
                let ins = map_inputs(&col.collateral, "collateral_", tx_hash);
                proof {
                    reveal_strlit("collateral_inputs");
                    reveal_strlit("Collateral Inputs");
                }
                push_node(&mut children, new_node(String::from_str("collateral_inputs"), String::from_str("Collateral Inputs"), ins));
            }
            let ghost head = trees_view(children@);
            let total = u64_to_decimal(col.total_collateral);
            push_node(&mut children, new_leaf(String::from_str("total_collateral"), join("Total Collateral: ", total.as_str())));
            proof {
                reveal_strlit("total_collateral");
                reveal_strlit("collateral");
                reveal_strlit("Collateral");
                assert(trees_view(children@) =~= collateral_trees(*c, tx_hash@)[0].children);
            }
            one_node(new_node(String::from_str("collateral"), String::from_str("Collateral"), children))
        },
        None => no_nodes(),
    }
}

/// The lines of the detail view of a transaction of the block with the
/// given hash text, slot and height.
pub fn build_tree_items(tx: &TxDetail, block_hash: &str, block_slot: u64, block_height: u64) -> (r: Vec<TreeNode>)
    ensures
        trees_view(r@) == tx_tree_items(*tx, block_hash@, block_slot, block_height),
{
    let tx_hash = hex_encode(tx.hash.as_slice());
    let mut root = no_nodes();
    push_node(&mut root, new_leaf(String::from_str("tx_hash_info"), join("Hash: ", tx_hash.as_str())));
    let fee = u64_to_decimal(tx.fee);
    push_node(&mut root, new_leaf(String::from_str("tx_fee_info"), join("Fee: ", fee.as_str())));
    let mut block = no_nodes();
    let bh = hex_encode(block_hash.as_bytes());
    push_node(&mut block, new_leaf(String::from_str("hash"), join("Hash: ", bh.as_str())));
    let sl = u64_to_decimal(block_slot);
    push_node(&mut block, new_leaf(String::from_str("slot"), join("Slot: ", sl.as_str())));
    let ht = u64_to_decimal(block_height);
    push_node(&mut block, new_leaf(String::from_str("height"), join("Height: ", ht.as_str())));
    proof {
        reveal_strlit("hash");
        reveal_strlit("slot");
        reveal_strlit("height");
        assert(bh@ == hex_text(encode_utf8(block_hash@)));
        assert(trees_view(block@) =~= seq![
            leaf("hash"@, "Hash: "@ + hex_text(encode_utf8(block_hash@))),
            leaf("slot"@, "Slot: "@ + decimal(block_slot as nat)),
            leaf("height"@, "Height: "@ + decimal(block_height as nat)),
        ]);
    }
    push_node(&mut root, new_node(String::from_str("block_info"), String::from_str("Block Info"), block));
    let ins = map_inputs(&tx.inputs, "", tx_hash.as_str());
    proof {
        reveal_strlit("");
        assert(""@ =~= Seq::<char>::empty());
    }
    push_node(&mut root, new_node(String::from_str("inputs"), String::from_str("Inputs"), ins));
    let outs = map_outputs(&tx.outputs, tx_hash.as_str());
    push_node(&mut root, new_node(String::from_str("outputs"), String::from_str("Outputs"), outs));
    let ghost s1 = trees_view(root@);
    if tx.reference_inputs.len() > 0 {
        let refs = map_inputs(&tx.reference_inputs, "reference_", tx_hash.as_str());
        push_node(&mut root, new_node(String::from_str("reference_inputs"), String::from_str("Reference Inputs"), refs));
    }
    let ghost s2 = trees_view(root@);
    if tx.mint.len() > 0 {
        let mints = map_mints(&tx.mint);
        push_node(&mut root, new_node(String::from_str("mints"), String::from_str("Mints"), mints));
    }
    let ghost s3 = trees_view(root@);
    append_nodes(&mut root, map_collateral(&tx.collateral, tx_hash.as_str()));
    let ghost s4 = trees_view(root@);
    if tx.withdrawals.len() > 0 {
        let ws = map_withdrawals(&tx.withdrawals);
        push_node(&mut root, new_node(String::from_str("withdrawals"), String::from_str("Withdrawals"), ws));
    }
    let ghost s5 = trees_view(root@);
    push_node(&mut root, map_witness_set(&tx.witnesses, 0));
    push_node(&mut root, map_tx_validity(&tx.validity, 0));
    let ghost s6 = trees_view(root@);
    append_nodes(&mut root, map_aux_data(&tx.auxiliary, 0));
    let ghost s7 = trees_view(root@);
    if tx.certificates.len() > 0 {
        push_node(&mut root, map_cert(&tx.certificates));
    }
    proof {
        reveal_strlit("tx_hash_info");
        reveal_strlit("tx_fee_info");
        reveal_strlit("hash");
        reveal_strlit("slot");
        reveal_strlit("height");
        reveal_strlit("block_info");
        reveal_strlit("Block Info");
        reveal_strlit("inputs");
        reveal_strlit("Inputs");
        reveal_strlit("outputs");
        reveal_strlit("Outputs");
        reveal_strlit("reference_inputs");
        reveal_strlit("Reference Inputs");
        reveal_strlit("mints");
        reveal_strlit("Mints");
        reveal_strlit("withdrawals");
        reveal_strlit("Withdrawals");
        reveal_strlit("");
        let t = *tx;
        let h = hex_text(t.hash@);
        let p_ref = if t.reference_inputs@.len() > 0 {
            seq![TreeView { id: "reference_inputs"@, text: "Reference Inputs"@, children: input_list(t.reference_inputs@, "reference_"@, h) }]
        } else {
            Seq::<TreeView>::empty()
        };
        let p_mint = if t.mint@.len() > 0 {
            seq![TreeView { id: "mints"@, text: "Mints"@, children: mint_list(t.mint@) }]
        } else {
            Seq::<TreeView>::empty()
        };
        let p_wd = if t.withdrawals@.len() > 0 {
            seq![TreeView { id: "withdrawals"@, text: "Withdrawals"@, children: withdrawal_list(t.withdrawals@) }]
        } else {
            Seq::<TreeView>::empty()
        };
        let p_cert = if t.certificates@.len() > 0 {
            seq![TreeView { id: "certificates"@, text: "Certificates"@, children: cert_list(t.certificates@) }]
        } else {
            Seq::<TreeView>::empty()
        };
        assert(""@ =~= Seq::<char>::empty());
        assert(s1 =~= seq![
            leaf("tx_hash_info"@, "Hash: "@ + h),
            leaf("tx_fee_info"@, "Fee: "@ + decimal(t.fee as nat)),
            TreeView {
                id: "block_info"@,
                text: "Block Info"@,
                children: seq![
                    leaf("hash"@, "Hash: "@ + hex_text(encode_utf8(block_hash@))),
                    leaf("slot"@, "Slot: "@ + decimal(block_slot as nat)),
                    leaf("height"@, "Height: "@ + decimal(block_height as nat)),
                ],
            },
            TreeView { id: "inputs"@, text: "Inputs"@, children: input_list(t.inputs@, Seq::empty(), h) },
            TreeView { id: "outputs"@, text: "Outputs"@, children: output_list(t.outputs@, h) },
        ]);
        assert(s2 =~= s1 + p_ref);
        assert(s3 =~= s1 + p_ref + p_mint);
        assert(s4 =~= s3 + collateral_trees(t.collateral, h));
        assert(s5 =~= s4 + p_wd);
        assert(s6 =~= s4 + p_wd + seq![witness_set_tree(t.witnesses, 0), validity_tree(t.validity, 0)]);
        assert(trees_view(root@) =~= s7 + p_cert);
        assert(trees_view(root@) =~= tx_tree_items(*tx, block_hash@, block_slot, block_height));
    }
    root
}

/// The detail view of a transaction: its lines.
#[derive(Debug)]
pub struct TransactionsDetail {
    pub items: Vec<TreeNode>,
}

impl TransactionsDetail {
    /// The detail view of a transaction shown in a row of the table.
    pub fn new(tx: &TxDetail, row: &crate::explorer::TxView) -> (r: TransactionsDetail)
        ensures
            trees_view(r.items@) == tx_tree_items(*tx, row.block_hash@, row.block_slot, row.block_height),
    {
        TransactionsDetail { items: build_tree_items(tx, row.block_hash.as_str(), row.block_slot, row.block_height) }
    }
}

/// A validity interval is shown as a "Validity" line whose first line
/// holds the start and whose second holds the TTL, each as a decimal.
pub proof fn law_validity_lines(v: TxValidityValue, index: nat)
    ensures
        validity_tree(Some(v), index).text == "Validity"@,
        validity_tree(Some(v), index).children.len() == 2,
        validity_tree(Some(v), index).children[0].text == "Start: "@ + decimal(v.start as nat),
        validity_tree(Some(v), index).children[1].text == "TTL: "@ + decimal(v.ttl as nat),
{
}

} // verus!
