//! The generic parsed-document tree that the loader and resolver read.
//!
//! The surrounding program parses the document with whatever parser it
//! likes and converts the result into this shape; the core never parses
//! raw text itself. Scalars without a string form (numbers, booleans,
//! null) all behave the same here — no key lookup and no string value —
//! so one variant stands for all of them.

use vstd::prelude::*;

verus! {

/// One node of the parsed document tree.
#[derive(Debug, PartialEq, Eq)]
pub enum Node {
    /// A string scalar.
    Str(String),
    /// A sequence of nodes.
    List(Vec<Node>),
    /// A mapping, in document order. Keys are arbitrary nodes; only
    /// string keys can ever be matched by a lookup.
    Mapping(Vec<(Node, Node)>),
    /// Any other scalar (number, boolean, null, ...).
    Other,
}

/// First value in `pairs` whose key is the string `key`, if any.
pub open spec fn pairs_get(pairs: Seq<(Node, Node)>, key: Seq<char>) -> Option<Node>
    decreases pairs.len(),
{
    if pairs.len() == 0 {
        None
    } else if pairs[0].0 matches Node::Str(k) && k@ == key {
        Some(pairs[0].1)
    } else {
        pairs_get(pairs.drop_first(), key)
    }
}

/// Mapping lookup: `Some` only for a `Mapping` node holding the string key.
pub open spec fn spec_get(node: Node, key: Seq<char>) -> Option<Node> {
    match node {
        Node::Mapping(pairs) => pairs_get(pairs@, key),
        _ => None,
    }
}

impl Node {
    /// Looks the string `key` up in a mapping node; `None` on any other
    /// node kind or when the key is absent.
    pub fn get<'a>(&'a self, key: &str) -> (r: Option<&'a Node>)
        ensures
            match r {
                Some(v) => spec_get(*self, key@) == Some(*v),
                None => spec_get(*self, key@) is None,
            },
    {
        match self {
            Node::Mapping(pairs) => {
                let n = pairs.len();
                proof {
                    assert(pairs@.skip(0) =~= pairs@);
                }
                for i in 0..n
                    invariant
                        n == pairs@.len(),
                        spec_get(*self, key@) == pairs_get(pairs@, key@),
                        pairs_get(pairs@, key@) == pairs_get(pairs@.skip(i as int), key@),
                {
                    proof {
                        assert(pairs@.skip(i as int)[0] == pairs@[i as int]);
                        assert(pairs@.skip(i as int).drop_first() =~= pairs@.skip(i + 1));
                    }
                    if let Node::Str(k) = &pairs[i].0 {
                        if str_equal(k.as_str(), key) {
                            proof {
                                assert(pairs_get(pairs@.skip(i as int), key@)
                                    == Some(pairs@[i as int].1));
                            }
                            return Some(&pairs[i].1);
                        }
                    }
                }
                None
            },
            _ => None,
        }
    }

    /// The string value of a string node; `None` on any other node kind.
    pub fn as_str<'a>(&'a self) -> (r: Option<&'a String>)
        ensures
            match r {
                Some(s) => self matches Node::Str(v) && v == s,
                None => !(self is Str),
            },
    {
        match self {
            Node::Str(s) => Some(s),
            _ => None,
        }
    }
}

/// Character-by-character string equality, decided without assumptions
/// beyond the vstd character accessors.
pub fn str_equal(a: &str, b: &str) -> (r: bool)
    ensures
        r == (a@ == b@),
{
    let a_len = a.unicode_len();
    let b_len = b.unicode_len();
    if a_len != b_len {
        return false;
    }
    for i in 0..a_len
        invariant
            a_len == a@.len(),
            a_len == b@.len(),
            forall|j: int| 0 <= j < i ==> a@[j] == b@[j],
    {
        if a.get_char(i) != b.get_char(i) {
            return false;
        }
    }
    proof {
        assert(a@ =~= b@);
    }
    true
}

} // verus!
