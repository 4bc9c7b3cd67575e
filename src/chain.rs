//! A singly linked chain of text elements that tracks its own length.

use vstd::prelude::*;

verus! {

/// One element of a chain, owning the rest of the chain after it.
struct Node {
    data: String,
    next: Option<Box<Node>>,
}

/// The elements reached by walking a link to its end, in order.
spec fn link_view(link: Option<Box<Node>>) -> Seq<String>
    decreases link,
{
    match link {
        None => Seq::empty(),
        Some(node) => seq![node.data].add(link_view(node.next)),
    }
}

/// The link with `value` spliced in at `pos`.
fn link_insert(link: Option<Box<Node>>, pos: usize, value: String) -> (r: Option<Box<Node>>)
    requires
        pos <= link_view(link).len(),
    ensures
        link_view(r) == link_view(link).insert(pos as int, value),
    decreases pos,
{
    if pos == 0 {
        let ghost rest = link_view(link);
        let r = Some(Box::new(Node { data: value, next: link }));
        assert(link_view(r) =~= rest.insert(0, value));
        r
    } else {
        match link {
            None => None,
            Some(node) => {
                let Node { data, next } = *node;
                let ghost rest = link_view(next);
                let next = link_insert(next, pos - 1, value);
                let r = Some(Box::new(Node { data, next }));
                assert(link_view(r) =~= seq![data].add(rest).insert(pos as int, value));
                r
            },
        }
    }
}

/// The link with the element at `pos` taken out.
fn link_remove(link: Option<Box<Node>>, pos: usize) -> (r: Option<Box<Node>>)
    requires
        pos < link_view(link).len(),
    ensures
        link_view(r) == link_view(link).remove(pos as int),
    decreases pos,
{
    match link {
        None => None,
        Some(node) => {
            let Node { data, next } = *node;
            let ghost rest = link_view(next);
            if pos == 0 {
                assert(seq![data].add(rest).remove(0) =~= rest);
                next
            } else {
                let next = link_remove(next, pos - 1);
                let r = Some(Box::new(Node { data, next }));
                assert(link_view(r) =~= seq![data].add(rest).remove(pos as int));
                r
            }
        },
    }
}

/// A fresh chain holding copies of the elements of `link`, sharing no node with it.
fn link_copy(link: &Option<Box<Node>>) -> (r: Option<Box<Node>>)
    ensures
        link_view(r) == link_view(*link),
    decreases *link,
{
    match link {
        None => None,
        Some(node) => {
            let next = link_copy(&node.next);
            Some(Box::new(Node { data: node.data.clone(), next }))
        },
    }
}

/// An ordered sequence of text elements, held as a chain of owned nodes, with
/// its length kept beside it.
pub struct Chain {
    head: Option<Box<Node>>,
    len: usize,
}

impl View for Chain {
    type V = Seq<String>;

    /// The elements reached by walking the chain from its first node.
    closed spec fn view(&self) -> Seq<String> {
        link_view(self.head)
    }
}

impl Chain {
    /// The tracked length always counts exactly the nodes reachable from the head.
    #[verifier::type_invariant]
    closed spec fn len_matches_nodes(self) -> bool {
        self.len == link_view(self.head).len()
    }

    /// An empty chain.
    pub fn new() -> (r: Chain)
        ensures
            r@ == Seq::<String>::empty(),
    {
        Chain { head: None, len: 0 }
    }

    /// The tracked length, which always equals the number of elements that a
    /// walk from the first node reaches.
    pub fn len(&self) -> (r: usize)
        ensures
            r == self@.len(),
    {
        proof {
            use_type_invariant(self);
        }
        self.len
    }

    /// Whether the chain has no element.
    pub fn is_empty(&self) -> (r: bool)
        ensures
            r == (self@.len() == 0),
    {
        proof {
            use_type_invariant(self);
        }
        self.len == 0
    }

    /// Splices `value` in at `pos`, shifting the later elements back by one.
    pub fn insert(&mut self, pos: usize, value: String)
        requires
            pos <= old(self)@.len(),
            old(self)@.len() < usize::MAX,
        ensures
            final(self)@ == old(self)@.insert(pos as int, value),
    {
        proof {
            use_type_invariant(&*self);
        }
        let mut taken = Chain::new();
        std::mem::swap(self, &mut taken);
        proof {
            use_type_invariant(&taken);
        }
        let Chain { head, len } = taken;
        *self = Chain { head: link_insert(head, pos, value), len: len + 1 };
    }

    /// Unlinks the element at `pos`, shifting the later elements forward by one.
    pub fn remove(&mut self, pos: usize)
        requires
            pos < old(self)@.len(),
        ensures
            final(self)@ == old(self)@.remove(pos as int),
    {
        proof {
            use_type_invariant(&*self);
        }
        let mut taken = Chain::new();
        std::mem::swap(self, &mut taken);
        proof {
            use_type_invariant(&taken);
        }
        let Chain { head, len } = taken;
        *self = Chain { head: link_remove(head, pos), len: len - 1 };
    }

    /// A deep copy: equal elements in fresh nodes.
    pub fn deep_copy(&self) -> (r: Chain)
        ensures
            r@ == self@,
    {
        proof {
            use_type_invariant(self);
        }
        Chain { head: link_copy(&self.head), len: self.len }
    }

    /// The elements in order, walking the chain from its first node.
    pub fn to_vec(&self) -> (r: Vec<String>)
        ensures
            r@ == self@,
    {
        let mut out: Vec<String> = Vec::new();
        let mut cur: &Option<Box<Node>> = &self.head;
        while cur.is_some()
            invariant
                out@ + link_view(*cur) == self@,
            decreases link_view(*cur).len(),
        {
            let node = cur.as_ref().unwrap();
            proof {
                assert(link_view(*cur) == seq![node.data].add(link_view(node.next)));
            }
            out.push(node.data.clone());
            cur = &node.next;
            proof {
                assert(out@ + link_view(*cur) =~= self@);
            }
        }
        out
    }
}

} // verus!
