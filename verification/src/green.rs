//! The immutable tree: nodes that own a row of slots, and handles that
//! point at one node of a tree and can walk down and up from it.

use std::rc::Rc;
use vstd::prelude::*;

use crate::kind::JsSyntaxKind;
use crate::token::JsSyntaxToken;

verus! {

/// A node of the tree: a kind and a row of slots.
#[derive(Debug)]
pub struct GreenNode {
    pub kind: JsSyntaxKind,
    pub slots: Vec<GreenSlot>,
}

/// One slot of a node.
#[derive(Debug)]
pub enum GreenSlot {
    /// The child that belongs here is absent.
    Empty,
    /// A child node, shared by every tree that holds it.
    Node(Rc<GreenNode>),
    /// A token.
    Token(JsSyntaxToken),
}

/// The node in slot `index` of `parent`, if that slot holds a node.
pub open spec fn child_node(parent: GreenNode, index: int) -> Option<GreenNode> {
    if 0 <= index < parent.slots@.len() {
        match parent.slots@[index] {
            GreenSlot::Node(child) => Some(*child),
            _ => None,
        }
    } else {
        None
    }
}

/// The token in slot `index` of `parent`, if that slot holds a token.
pub open spec fn child_token(parent: GreenNode, index: int) -> Option<JsSyntaxToken> {
    if 0 <= index < parent.slots@.len() {
        match parent.slots@[index] {
            GreenSlot::Token(token) => Some(token),
            _ => None,
        }
    } else {
        None
    }
}

/// The node that `path` leads to from `root`: each step of the path is the
/// index of a slot, and that slot has to hold a node.
pub open spec fn resolve(root: GreenNode, path: Seq<usize>) -> Option<GreenNode>
    decreases path.len(),
{
    if path.len() == 0 {
        Some(root)
    } else {
        match resolve(root, path.drop_last()) {
            Some(parent) => child_node(parent, path.last() as int),
            None => None,
        }
    }
}

/// Every prefix of a path that leads to a node leads to a node.
pub proof fn lemma_resolve_prefix(root: GreenNode, path: Seq<usize>, n: int)
    requires
        0 <= n <= path.len(),
        resolve(root, path) is Some,
    ensures
        resolve(root, path.take(n)) is Some,
    decreases path.len(),
{
    if n == path.len() {
        assert(path.take(n) =~= path);
    } else {
        assert(path.drop_last().take(n) =~= path.take(n));
        lemma_resolve_prefix(root, path.drop_last(), n);
    }
}

/// A place in a tree: the root of the tree and the path from the root.
pub ghost struct Cursor {
    pub root: GreenNode,
    pub path: Seq<usize>,
}

impl Cursor {
    /// The path leads to a node.
    pub open spec fn wf(self) -> bool {
        resolve(self.root, self.path) is Some
    }

    /// The node at this place.
    pub open spec fn green(self) -> GreenNode {
        resolve(self.root, self.path).unwrap()
    }

    /// The kind of the node at this place.
    pub open spec fn kind(self) -> JsSyntaxKind {
        self.green().kind
    }

    /// The number of slots of the node at this place.
    pub open spec fn slot_count(self) -> nat {
        self.green().slots@.len()
    }

    /// The place of the child node in slot `index`, if that slot holds a
    /// node.
    pub open spec fn node_in_slot(self, index: usize) -> Option<Cursor> {
        if child_node(self.green(), index as int) is Some {
            Some(Cursor { root: self.root, path: self.path.push(index) })
        } else {
            None
        }
    }

    /// The token in slot `index`, if that slot holds a token.
    pub open spec fn token_in_slot(self, index: usize) -> Option<JsSyntaxToken> {
        child_token(self.green(), index as int)
    }

    /// The place `n` steps up: this place for `n == 0`, the parent for
    /// `n == 1`. There is none above the root.
    pub open spec fn ancestor(self, n: nat) -> Option<Cursor> {
        if n <= self.path.len() {
            Some(Cursor { root: self.root, path: self.path.take(self.path.len() - n) })
        } else {
            None
        }
    }

    /// The place of the node that holds this one.
    pub open spec fn parent(self) -> Option<Cursor> {
        self.ancestor(1)
    }

    /// Whether `self` is the root of a tree of its own, a copy of the node
    /// at `old` in which slot `index` holds `slot`.
    pub open spec fn is_splice_of(self, old: Cursor, index: int, slot: GreenSlot) -> bool {
        &&& self.path.len() == 0
        &&& self.root.kind == old.green().kind
        &&& self.root.slots@ == old.green().slots@.update(index, slot)
    }
}

/// The child in a slot that holds a node is a place in the same tree, and
/// the node there is the one in the slot.
pub proof fn lemma_node_in_slot(c: Cursor, index: usize)
    requires
        c.wf(),
        c.node_in_slot(index) is Some,
    ensures
        c.node_in_slot(index).unwrap().wf(),
        Some(c.node_in_slot(index).unwrap().green()) == child_node(c.green(), index as int),
        c.node_in_slot(index).unwrap().parent() == Some(c),
{
    let child = c.node_in_slot(index).unwrap();
    assert(child.path.drop_last() =~= c.path);
    assert(child.path.take(child.path.len() - 1) =~= c.path);
}

/// Every place above a place of a tree is a place of that tree.
pub proof fn lemma_ancestor_wf(c: Cursor, n: nat)
    requires
        c.wf(),
        c.ancestor(n) is Some,
    ensures
        c.ancestor(n).unwrap().wf(),
{
    lemma_resolve_prefix(c.root, c.path, c.path.len() - n);
}

/// `Rc::clone`: another pointer to the same node.
#[verifier::external_body]
fn share(node: &Rc<GreenNode>) -> (r: Rc<GreenNode>)
    ensures
        r == *node,
{
    Rc::clone(node)
}

impl GreenNode {
    /// A node of the given kind with the given slots.
    pub fn new(kind: JsSyntaxKind, slots: Vec<GreenSlot>) -> (r: GreenNode)
        ensures
            r.kind == kind,
            r.slots == slots,
    {
        GreenNode { kind, slots }
    }
}

impl GreenSlot {
    /// A slot that holds `node`.
    pub fn node(node: GreenNode) -> (r: GreenSlot)
        ensures
            r == GreenSlot::Node(Rc::new(node)),
    {
        GreenSlot::Node(Rc::new(node))
    }

    /// A slot that holds `token`.
    pub fn token(token: JsSyntaxToken) -> (r: GreenSlot)
        ensures
            r == GreenSlot::Token(token),
    {
        GreenSlot::Token(token)
    }

    /// A slot that holds `token`, or an empty slot where there is none.
    pub fn optional_token(token: Option<JsSyntaxToken>) -> (r: GreenSlot)
        ensures
            r == spec_optional_token(token),
    {
        match token {
            Some(token) => GreenSlot::Token(token),
            None => GreenSlot::Empty,
        }
    }

    fn duplicate(&self) -> (r: GreenSlot)
        ensures
            r == *self,
    {
        match self {
            GreenSlot::Empty => GreenSlot::Empty,
            GreenSlot::Node(node) => GreenSlot::Node(share(node)),
            GreenSlot::Token(token) => GreenSlot::Token(token.clone()),
        }
    }
}

/// The slot that holds `token`, the empty slot where there is none.
pub open spec fn spec_optional_token(token: Option<JsSyntaxToken>) -> GreenSlot {
    match token {
        Some(token) => GreenSlot::Token(token),
        None => GreenSlot::Empty,
    }
}

/// A handle on one node of a tree. It keeps the tree alive, and copies of it
/// share the tree.
#[derive(Debug)]
pub struct JsSyntaxNode {
    root: Rc<GreenNode>,
    path: Vec<usize>,
}

impl View for JsSyntaxNode {
    type V = Cursor;

    closed spec fn view(&self) -> Cursor {
        Cursor { root: *self.root, path: self.path@ }
    }
}

impl Clone for JsSyntaxNode {
    fn clone(&self) -> (r: Self)
        ensures
            r@ == self@,
    {
        proof {
            use_type_invariant(self);
        }
        let path = copy_prefix(&self.path, self.path.len());
        proof {
            assert(self.path@.take(self.path@.len() as int) =~= self.path@);
        }
        JsSyntaxNode { root: share(&self.root), path }
    }
}

fn copy_prefix(path: &Vec<usize>, n: usize) -> (r: Vec<usize>)
    requires
        n <= path@.len(),
    ensures
        r@ == path@.take(n as int),
{
    let mut r: Vec<usize> = Vec::new();
    let mut i: usize = 0;
    while i < n
        invariant
            i <= n <= path@.len(),
            r@ == path@.take(i as int),
        decreases n - i,
    {
        r.push(path[i]);
        proof {
            assert(path@.take(i as int).push(path@[i as int]) =~= path@.take(i as int + 1));
        }
        i = i + 1;
    }
    r
}

impl JsSyntaxNode {
    #[verifier::type_invariant]
    spec fn inv(self) -> bool {
        self@.wf()
    }

    /// The handle on the root of a new tree.
    pub fn new_root(green: GreenNode) -> (r: JsSyntaxNode)
        ensures
            r@ == (Cursor { root: green, path: Seq::empty() }),
            r@.wf(),
    {
        JsSyntaxNode { root: Rc::new(green), path: Vec::new() }
    }

    fn green_ref(&self) -> (r: &GreenNode)
        ensures
            self@.wf(),
            *r == self@.green(),
    {
        proof {
            use_type_invariant(self);
        }
        let mut cur: &GreenNode = &self.root;
        let mut i: usize = 0;
        while i < self.path.len()
            invariant
                0 <= i <= self.path@.len(),
                self@.wf(),
                resolve(self@.root, self@.path.take(i as int)) == Some(*cur),
            decreases self.path@.len() - i,
        {
            let index: usize = self.path[i];
            proof {
                let next = self.path@.take(i as int + 1);
                assert(next.drop_last() =~= self.path@.take(i as int));
                lemma_resolve_prefix(self@.root, self@.path, i as int + 1);
            }
            match &cur.slots[index] {
                GreenSlot::Node(child) => {
                    cur = child;
                },
                _ => {
                    proof {
                        assert(false);
                    }
                },
            }
            i = i + 1;
        }
        proof {
            assert(self.path@.take(i as int) =~= self.path@);
        }
        cur
    }

    /// The kind of the node.
    pub fn kind(&self) -> (r: JsSyntaxKind)
        ensures
            self@.wf(),
            r == self@.kind(),
    {
        self.green_ref().kind
    }

    /// The number of slots of the node.
    pub fn slot_count(&self) -> (r: usize)
        ensures
            self@.wf(),
            r == self@.slot_count(),
    {
        self.green_ref().slots.len()
    }

    /// The child node in slot `index`; `None` where the slot does not exist,
    /// is empty or holds a token.
    pub fn node_in_slot(&self, index: usize) -> (r: Option<JsSyntaxNode>)
        ensures
            self@.wf(),
            r is Some == self@.node_in_slot(index) is Some,
            r matches Some(child) ==> Some(child@) == self@.node_in_slot(index)
                && child@.wf(),
    {
        let green = self.green_ref();
        if index < green.slots.len() {
            match &green.slots[index] {
                GreenSlot::Node(_) => {
                    let mut path = copy_prefix(&self.path, self.path.len());
                    path.push(index);
                    proof {
                        assert(self.path@.take(self.path@.len() as int) =~= self.path@);
                        lemma_node_in_slot(self@, index);
                    }
                    Some(JsSyntaxNode { root: share(&self.root), path })
                },
                _ => None,
            }
        } else {
            None
        }
    }

    /// The token in slot `index`; `None` where the slot does not exist, is
    /// empty or holds a node.
    pub fn token_in_slot(&self, index: usize) -> (r: Option<JsSyntaxToken>)
        ensures
            self@.wf(),
            r == self@.token_in_slot(index),
    {
        let green = self.green_ref();
        if index < green.slots.len() {
            match &green.slots[index] {
                GreenSlot::Token(token) => Some(token.clone()),
                _ => None,
            }
        } else {
            None
        }
    }

    /// The node `n` steps up: this node for `n == 0`, its parent for
    /// `n == 1`; `None` above the root.
    pub fn ancestor(&self, n: usize) -> (r: Option<JsSyntaxNode>)
        ensures
            self@.wf(),
            r is Some == self@.ancestor(n as nat) is Some,
            r matches Some(a) ==> Some(a@) == self@.ancestor(n as nat) && a@.wf(),
    {
        proof {
            use_type_invariant(self);
        }
        if n <= self.path.len() {
            let path = copy_prefix(&self.path, self.path.len() - n);
            proof {
                lemma_ancestor_wf(self@, n as nat);
            }
            Some(JsSyntaxNode { root: share(&self.root), path })
        } else {
            None
        }
    }

    /// The node that holds this one; `None` for the root of a tree.
    pub fn parent(&self) -> (r: Option<JsSyntaxNode>)
        ensures
            self@.wf(),
            r is Some == self@.parent() is Some,
            r matches Some(p) ==> Some(p@) == self@.parent() && p@.wf(),
    {
        self.ancestor(1)
    }

    /// A copy of this node in which slot `index` holds `slot`, as the root
    /// of a tree of its own; `None` where the node has no such slot. The
    /// other slots are shared with this node, and the tree of this node
    /// stays as it is.
    pub fn with_slot(&self, index: usize, slot: GreenSlot) -> (r: Option<JsSyntaxNode>)
        ensures
            self@.wf(),
            r is Some == (index < self@.slot_count()),
            r matches Some(node) ==> node@.wf() && node@.is_splice_of(self@, index as int, slot),
    {
        let green = self.green_ref();
        let len: usize = green.slots.len();
        if index >= len {
            return None;
        }
        let mut slots: Vec<GreenSlot> = Vec::new();
        let mut i: usize = 0;
        while i < index
            invariant
                i <= index < len,
                len == green.slots@.len(),
                slots@ == green.slots@.take(i as int),
            decreases index - i,
        {
            slots.push(green.slots[i].duplicate());
            proof {
                assert(green.slots@.take(i as int).push(green.slots@[i as int])
                    =~= green.slots@.take(i as int + 1));
            }
            i = i + 1;
        }
        slots.push(slot);
        i = i + 1;
        while i < len
            invariant
                index < i <= len,
                len == green.slots@.len(),
                slots@ == green.slots@.update(index as int, slot).take(i as int),
            decreases len - i,
        {
            slots.push(green.slots[i].duplicate());
            proof {
                let updated = green.slots@.update(index as int, slot);
                assert(updated.take(i as int).push(updated[i as int]) =~= updated.take(
                    i as int + 1,
                ));
            }
            i = i + 1;
        }
        proof {
            let updated = green.slots@.update(index as int, slot);
            assert(updated.take(updated.len() as int) =~= updated);
        }
        Some(JsSyntaxNode { root: Rc::new(GreenNode { kind: green.kind, slots }), path: Vec::new() })
    }
}

} // verus!
