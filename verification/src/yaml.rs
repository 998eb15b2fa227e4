//! The documents of a descriptor, as trees of plain values.

use vstd::prelude::*;
use vstd::string::*;
use vstd::utf8::encode_utf8;
use yaml_rust::{ScanError, Yaml, YamlLoader};
use crate::error::{Flaw, ReadError};

verus! {

/// A node of a document.
#[derive(Debug)]
pub enum Node {
    /// A real number, held as the text that writes it.
    Real(String),
    /// An integer.
    Integer(i64),
    /// A string.
    Text(String),
    /// `true` or `false`.
    Boolean(bool),
    /// A sequence of nodes.
    Sequence(Vec<Node>),
    /// Pairs of a key and a value, in the order of the document. A loader gives no key
    /// twice; where one stands twice, the first pair counts.
    Mapping(Vec<(Node, Node)>),
    /// A reference to an anchor.
    Alias(usize),
    /// The null value.
    Null,
    /// A scalar whose tag its text does not fit, or an empty document.
    Bad,
}

/// `yaml_rust::Yaml`, a value as the loader builds it. What it holds is named by
/// [`tree_of`].
#[verifier::external_type_specification]
#[verifier::external_body]
pub struct ExYaml(Yaml);

/// `yaml_rust::ScanError`, the error of the loader. Nothing is read from it.
#[verifier::external_type_specification]
#[verifier::external_body]
pub struct ExScanError(ScanError);

/// The greatest number of marks of nesting that a text may hold to be handed to the
/// loader. The loader and everything that walks its values go one call deeper for each
/// sequence or mapping inside another, and this many calls fit a thread's stack with room
/// to spare.
pub const MAX_NESTING: usize = 128;

/// The greatest number of alias marks that a text may hold to be handed to the loader.
/// Each alias copies the node that it stands for, copies of copies grow fast, and this
/// many keep what is loaded within a small multiple of the text.
pub const MAX_ALIASES: usize = 16;

/// True for the bytes that end a word for the loader: a blank, a tab, a line break, or
/// the zero byte that it sees behind the end of the text.
pub open spec fn is_gap(byte: u8) -> bool {
    byte == ' ' as u8 || byte == '\t' as u8 || byte == '\n' as u8 || byte == '\r' as u8 || byte == 0
}

/// The byte at index `i` is a mark of nesting, one of the characters that can open a
/// sequence or a mapping: `[`, `{`, `?`, `:`, or a `-` before a gap or at the end.
pub open spec fn is_nesting_mark(bytes: Seq<u8>, i: int) -> bool {
    ||| bytes[i] == '[' as u8
    ||| bytes[i] == '{' as u8
    ||| bytes[i] == '?' as u8
    ||| bytes[i] == ':' as u8
    ||| bytes[i] == '-' as u8 && (i + 1 == bytes.len() || is_gap(bytes[i + 1]))
}

/// The number of marks of nesting among the first `n` bytes.
pub open spec fn nesting_marks_before(bytes: Seq<u8>, n: int) -> nat
    decreases n,
{
    if n <= 0 {
        0
    } else {
        nesting_marks_before(bytes, n - 1) + if is_nesting_mark(bytes, n - 1) {
            1nat
        } else {
            0nat
        }
    }
}

/// The number of alias marks, `*`, among the first `n` bytes.
pub open spec fn alias_marks_before(bytes: Seq<u8>, n: int) -> nat
    decreases n,
{
    if n <= 0 {
        0
    } else {
        alias_marks_before(bytes, n - 1) + if bytes[n - 1] == '*' as u8 {
            1nat
        } else {
            0nat
        }
    }
}

/// A text of these bytes may be handed to the loader: it holds no more marks of nesting
/// than [`MAX_NESTING`] and no more alias marks than [`MAX_ALIASES`].
pub open spec fn loadable(bytes: Seq<u8>) -> bool {
    &&& nesting_marks_before(bytes, bytes.len() as int) <= MAX_NESTING
    &&& alias_marks_before(bytes, bytes.len() as int) <= MAX_ALIASES
}

/// The tree of nodes that a value of `yaml_rust::Yaml` holds: a node of the same variant
/// with the same fields, the children of a sequence and the pairs of a mapping in their
/// order.
pub uninterp spec fn tree_of(yaml: Yaml) -> Node;

/// How deep sequences and mappings stand inside one another in a value of
/// `yaml_rust::Yaml`; none for a scalar.
pub uninterp spec fn depth_of(yaml: Yaml) -> nat;

/// The documents that `yaml_rust::YamlLoader::load_from_str` reads from `text`, each as
/// the tree of nodes that it holds; `None` where the loader reports a scan error.
pub uninterp spec fn documents(text: Seq<char>) -> Option<Seq<Node>>;

/// The trees that values hold, in their order.
pub open spec fn trees_of(yamls: Seq<Yaml>) -> Seq<Node> {
    yamls.map_values(|yaml: Yaml| tree_of(yaml))
}

/// The documents of `text`, where the text may be handed to the loader and is well-formed.
pub open spec fn loaded(text: Seq<char>) -> Option<Seq<Node>> {
    if loadable(encode_utf8(text)) {
        documents(text)
    } else {
        None
    }
}

/// Copies a value of `yaml_rust::Yaml` into a node, variant for variant and field for
/// field, and its children with it. The contract names what comes back. The copy goes
/// one call deeper for each level of the value, so the value may not nest deeper than
/// [`MAX_NESTING`].
#[verifier::external_body]
fn node_of(yaml: &Yaml) -> (node: Node)
    requires
        depth_of(*yaml) <= MAX_NESTING,
    ensures
        node == tree_of(*yaml),
{
    match yaml {
        Yaml::Real(s) => Node::Real(s.clone()),
        Yaml::Integer(i) => Node::Integer(*i),
        Yaml::String(s) => Node::Text(s.clone()),
        Yaml::Boolean(b) => Node::Boolean(*b),
        Yaml::Array(v) => Node::Sequence(v.iter().map(node_of).collect()),
        Yaml::Hash(h) => Node::Mapping(h.iter().map(|(k, v)| (node_of(k), node_of(v))).collect()),
        Yaml::Alias(n) => Node::Alias(*n),
        Yaml::Null => Node::Null,
        Yaml::BadValue => Node::Bad,
    }
}

/// Calls `yaml_rust::YamlLoader::load_from_str` on `text`. The contract names what comes
/// back: values that hold the documents of [`documents`], or the loader's error where
/// there are none. The loader calls itself once for each sequence or mapping inside
/// another and copies a node for each alias, without a limit of its own; so the text has
/// to be [`loadable`]. Each sequence or mapping takes a mark of nesting of its own to
/// open, so no value nests deeper than the text has such marks.
#[verifier::external_body]
fn load_documents(text: &str) -> (r: Result<Vec<Yaml>, ScanError>)
    requires
        loadable(text.spec_bytes()),
    ensures
        r is Ok <==> documents(text@) is Some,
        r is Ok ==> trees_of(r->Ok_0@) == documents(text@)->Some_0,
        r is Ok ==> forall|i: int|
            0 <= i < r->Ok_0@.len() ==> depth_of(#[trigger] r->Ok_0@[i]) <= nesting_marks_before(
                text.spec_bytes(),
                text.spec_bytes().len() as int,
            ),
{
    YamlLoader::load_from_str(text)
}

/// The value that the first of `pairs` with the key `key` holds.
pub open spec fn value_in(pairs: Seq<(Node, Node)>, key: Seq<char>) -> Option<Node>
    decreases pairs.len(),
{
    if pairs.len() == 0 {
        None
    } else if pairs[0].0.is_text(key) {
        Some(pairs[0].1)
    } else {
        value_in(pairs.drop_first(), key)
    }
}

impl Node {
    /// Whether the node is the string `text`.
    pub open spec fn is_text(self, text: Seq<char>) -> bool {
        self matches Node::Text(s) && s@ == text
    }

    /// The value under the key `key`, where the node is a mapping that has it.
    pub open spec fn entry(self, key: Seq<char>) -> Option<Node> {
        match self {
            Node::Mapping(pairs) => value_in(pairs@, key),
            _ => None,
        }
    }

    /// Looks up the value under the key `key`.
    pub fn get(&self, key: &str) -> (r: Option<&Node>)
        ensures
            match r {
                Some(node) => self.entry(key@) == Some(*node),
                None => self.entry(key@) is None,
            },
    {
        match self {
            Node::Mapping(pairs) => {
                let wanted = key.to_owned();
                let mut i: usize = 0;
                assert(pairs@.skip(0) =~= pairs@);
                while i < pairs.len()
                    invariant
                        0 <= i <= pairs@.len(),
                        wanted@ == key@,
                        self.entry(key@) == value_in(pairs@, key@),
                        value_in(pairs@, key@) == value_in(pairs@.skip(i as int), key@),
                    decreases pairs@.len() - i,
                {
                    let ghost rest = pairs@.skip(i as int);
                    assert(rest[0] == pairs@[i as int]);
                    assert(rest.drop_first() =~= pairs@.skip(i + 1));
                    let found = match &pairs[i].0 {
                        Node::Text(s) => *s == wanted,
                        _ => false,
                    };
                    assert(found == rest[0].0.is_text(key@));
                    if found {
                        assert(value_in(rest, key@) == Some(pairs@[i as int].1));
                        return Some(&pairs[i].1);
                    }
                    i = i + 1;
                }
                None
            },
            _ => None,
        }
    }
}

/// Whether a text of these bytes may be handed to the loader.
pub fn is_loadable(bytes: &[u8]) -> (r: bool)
    ensures
        r == loadable(bytes@),
{
    let mut nesting: usize = 0;
    let mut aliases: usize = 0;
    let mut i: usize = 0;
    while i < bytes.len()
        invariant
            0 <= i <= bytes@.len(),
            nesting == nesting_marks_before(bytes@, i as int),
            aliases == alias_marks_before(bytes@, i as int),
            nesting <= i,
            aliases <= i,
        decreases bytes@.len() - i,
    {
        let b: u8 = bytes[i];
        let dash: bool = b == '-' as u8 && (i + 1 == bytes.len() || bytes[i + 1] == ' ' as u8
            || bytes[i + 1] == '\t' as u8 || bytes[i + 1] == '\n' as u8 || bytes[i + 1] == '\r' as u8
            || bytes[i + 1] == 0);
        if b == '[' as u8 || b == '{' as u8 || b == '?' as u8 || b == ':' as u8 || dash {
            nesting = nesting + 1;
        }
        if b == '*' as u8 {
            aliases = aliases + 1;
        }
        i = i + 1;
    }
    nesting <= MAX_NESTING && aliases <= MAX_ALIASES
}

/// Reads the documents of a descriptor from its text. A text that may not be handed to
/// the loader, or that the loader finds not well-formed, is malformed.
pub fn parse_documents(text: &str) -> (r: Result<Vec<Node>, ReadError>)
    ensures
        match r {
            Ok(docs) => loaded(text@) == Some(docs@),
            Err(e) => loaded(text@) is None && e == ReadError::Malformed(Flaw::Document),
        },
{
    if !is_loadable(text.as_bytes()) {
        return Err(ReadError::Malformed(Flaw::Document));
    }
    let yamls = match load_documents(text) {
        Ok(yamls) => yamls,
        Err(_) => {
            return Err(ReadError::Malformed(Flaw::Document));
        },
    };
    let mut docs: Vec<Node> = Vec::new();
    let mut i: usize = 0;
    while i < yamls.len()
        invariant
            0 <= i <= yamls@.len(),
            docs@ =~= trees_of(yamls@.subrange(0, i as int)),
            forall|k: int| 0 <= k < yamls@.len() ==> depth_of(#[trigger] yamls@[k]) <= MAX_NESTING,
        decreases yamls@.len() - i,
    {
        docs.push(node_of(&yamls[i]));
        assert(yamls@.subrange(0, i + 1) =~= yamls@.subrange(0, i as int).push(yamls@[i as int]));
        i = i + 1;
    }
    assert(yamls@.subrange(0, i as int) =~= yamls@);
    Ok(docs)
}

} // verus!
