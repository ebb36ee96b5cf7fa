use vstd::prelude::*;

use crate::text::str_eq;

verus! {

/// A node of the intermediate markup tree: an element or a run of text.
pub enum Node {
    Element { tag: String, attrs: Vec<(String, String)>, children: Vec<Node> },
    Text { text: String },
}

/// The value of the first attribute named `name`, if any.
pub open spec fn attr_of(attrs: Seq<(String, String)>, name: Seq<char>) -> Option<Seq<char>>
    decreases attrs.len(),
{
    if attrs.len() == 0 {
        None
    } else if attrs[0].0@ == name {
        Some(attrs[0].1@)
    } else {
        attr_of(attrs.drop_first(), name)
    }
}

/// Whether `n` is an element whose tag is `tag`.
pub open spec fn has_tag(n: Node, tag: Seq<char>) -> bool {
    n is Element && n->tag@ == tag
}

/// All the text below `n`, concatenated in document order.
pub open spec fn flatten(n: Node) -> Seq<char>
    decreases n,
{
    match n {
        Node::Text { text } => text@,
        Node::Element { children, .. } => flatten_list(children@),
    }
}

/// The flattened text of each node of `s`, concatenated.
pub open spec fn flatten_list(s: Seq<Node>) -> Seq<char>
    decreases s,
{
    if s.len() == 0 {
        Seq::empty()
    } else {
        flatten_list(s.drop_last()) + flatten(s.last())
    }
}

/// The first element tagged `tag` in a pre-order walk from `n`, `n` itself first.
pub open spec fn find_first(n: Node, tag: Seq<char>) -> Option<Node>
    decreases n,
{
    if has_tag(n, tag) {
        Some(n)
    } else {
        match n {
            Node::Text { .. } => None,
            Node::Element { children, .. } => find_in(children@, tag),
        }
    }
}

/// The first element tagged `tag` in pre-order walks of the nodes of `s`, in order.
pub open spec fn find_in(s: Seq<Node>, tag: Seq<char>) -> Option<Node>
    decreases s,
{
    if s.len() == 0 {
        None
    } else {
        match find_in(s.drop_last(), tag) {
            Some(m) => Some(m),
            None => find_first(s.last(), tag),
        }
    }
}

/// The flattened text of the first element tagged `tag` below and including `n`.
pub open spec fn text_by_tag(n: Node, tag: Seq<char>) -> Option<Seq<char>> {
    match find_first(n, tag) {
        Some(m) => Some(flatten(m)),
        None => None,
    }
}

/// A child of an element lies strictly below it.
pub proof fn lemma_child_decreases(n: Node, i: int)
    requires
        n is Element,
        0 <= i < n->children@.len(),
    ensures
        decreases_to!(n => n->children@[i]),
{
    let ch = n->children;
    assert(decreases_to!(n => ch));
    assert(decreases_to!(ch => ch@));
    assert(decreases_to!(ch@ => ch@[i]));
}

/// The children of an element of `v` lie strictly below `v`.
pub proof fn lemma_grandchildren_decrease(v: Vec<Node>, i: int)
    requires
        0 <= i < v@.len(),
        v@[i] is Element,
    ensures
        decreases_to!(v => v@[i]->children),
{
    let c = v@[i];
    assert(decreases_to!(v => v@));
    assert(decreases_to!(v@ => c));
    assert(decreases_to!(c => c->children));
}

/// A match among the first `k` nodes is the first match among all of them.
proof fn lemma_find_in_prefix(s: Seq<Node>, k: int, tag: Seq<char>)
    requires
        0 <= k <= s.len(),
        find_in(s.subrange(0, k), tag) is Some,
    ensures
        find_in(s, tag) == find_in(s.subrange(0, k), tag),
    decreases s.len(),
{
    if k == s.len() {
        assert(s.subrange(0, k) == s);
    } else {
        assert(s.drop_last().subrange(0, k) == s.subrange(0, k));
        lemma_find_in_prefix(s.drop_last(), k, tag);
    }
}

/// The value of the first attribute named `name`.
pub fn get_attr<'a>(attrs: &'a Vec<(String, String)>, name: &str) -> (r: Option<&'a String>)
    ensures
        r is Some == attr_of(attrs@, name@) is Some,
        r matches Some(v) ==> attr_of(attrs@, name@) == Some(v@),
{
    let mut i: usize = 0;
    assert(attrs@.subrange(0, attrs@.len() as int) == attrs@);
    while i < attrs.len()
        invariant
            0 <= i <= attrs@.len(),
            attr_of(attrs@, name@) == attr_of(attrs@.subrange(i as int, attrs@.len() as int), name@),
        decreases attrs@.len() - i,
    {
        let pair = &attrs[i];
        assert(attrs@.subrange(i as int, attrs@.len() as int).drop_first() == attrs@.subrange(
            i + 1,
            attrs@.len() as int,
        ));
        if str_eq(pair.0.as_str(), name) {
            return Some(&pair.1);
        }
        i = i + 1;
    }
    None
}

impl Node {
    /// Whether this node is an element tagged `tag`.
    pub fn has_tag_name(&self, tag: &str) -> (r: bool)
        ensures
            r == has_tag(*self, tag@),
    {
        match self {
            Node::Element { tag: t, .. } => str_eq(t.as_str(), tag),
            Node::Text { .. } => false,
        }
    }
}

/// All the text below `node`, concatenated in document order, without separators.
pub fn get_all_text(node: &Node) -> (r: String)
    ensures
        r@ == flatten(*node),
    decreases node,
{
    match node {
        Node::Text { text } => text.clone(),
        Node::Element { children, .. } => {
            let mut r = String::new();
            let mut i: usize = 0;
            while i < children.len()
                invariant
                    0 <= i <= children@.len(),
                    *node is Element,
                    node->children == *children,
                    r@ == flatten_list(children@.subrange(0, i as int)),
                decreases children@.len() - i,
            {
                proof {
                    lemma_child_decreases(*node, i as int);
                }
                let part = get_all_text(&children[i]);
                r.append(part.as_str());
                assert(children@.subrange(0, i + 1).drop_last() == children@.subrange(0, i as int));
                i = i + 1;
            }
            assert(children@.subrange(0, i as int) == children@);
            r
        }
    }
}

/// The first element tagged `tag` in a pre-order walk from `node`, `node` itself first.
pub fn find_element<'a>(node: &'a Node, tag: &str) -> (r: Option<&'a Node>)
    ensures
        r is Some == find_first(*node, tag@) is Some,
        r matches Some(m) ==> find_first(*node, tag@) == Some(*m),
    decreases node,
{
    if node.has_tag_name(tag) {
        return Some(node);
    }
    match node {
        Node::Text { .. } => None,
        Node::Element { children, .. } => {
            let mut i: usize = 0;
            while i < children.len()
                invariant
                    0 <= i <= children@.len(),
                    *node is Element,
                    node->children == *children,
                    !has_tag(*node, tag@),
                    find_in(children@.subrange(0, i as int), tag@) is None,
                decreases children@.len() - i,
            {
                proof {
                    lemma_child_decreases(*node, i as int);
                }
                let found = find_element(&children[i], tag);
                assert(children@.subrange(0, i + 1).drop_last() == children@.subrange(0, i as int));
                if found.is_some() {
                    proof {
                        lemma_find_in_prefix(children@, i + 1, tag@);
                    }
                    return found;
                }
                i = i + 1;
            }
            assert(children@.subrange(0, i as int) == children@);
            None
        }
    }
}

/// The flattened text of the first element tagged `tag`, or `None` where there is none.
pub fn extract_text_by_tag(node: &Node, tag: &str) -> (r: Option<String>)
    ensures
        r is Some == text_by_tag(*node, tag@) is Some,
        r matches Some(t) ==> text_by_tag(*node, tag@) == Some(t@),
{
    match find_element(node, tag) {
        Some(m) => Some(get_all_text(m)),
        None => None,
    }
}

} // verus!
