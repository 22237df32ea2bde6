//! Orders in which the nodes of a binary tree can be visited.
use vstd::prelude::*;
use crate::data_struct::BinaryTreeNode;

verus! {

/// A binary tree: empty, or a node that owns its subtrees.
pub type Tree = Option<Box<BinaryTreeNode>>;

/// The number of nodes of `t`.
pub open spec fn size(t: Tree) -> nat
    decreases t,
{
    match t {
        None => 0,
        Some(n) => 1 + size(n.left) + size(n.right),
    }
}

/// The values of `t`, each node before its left and then its right subtree.
pub open spec fn preorder(t: Tree) -> Seq<i32>
    decreases t,
{
    match t {
        None => Seq::empty(),
        Some(n) => seq![n.val] + preorder(n.left) + preorder(n.right),
    }
}

/// The values of the trees of `s`, the last tree first.
pub open spec fn preorder_all(s: Seq<Tree>) -> Seq<i32>
    decreases s.len(),
{
    if s.len() == 0 {
        Seq::empty()
    } else {
        preorder(s.last()) + preorder_all(s.drop_last())
    }
}

/// The number of nodes in all the trees of `s`.
pub open spec fn size_all(s: Seq<Tree>) -> nat
    decreases s.len(),
{
    if s.len() == 0 {
        0
    } else {
        size(s.last()) + size_all(s.drop_last())
    }
}

/// The trees that the references of `s` point to.
pub open spec fn trees<'a>(s: Seq<Option<&'a Box<BinaryTreeNode>>>) -> Seq<Tree> {
    s.map_values(|o: Option<&'a Box<BinaryTreeNode>>| match o {
        Some(b) => Some(*b),
        None => None,
    })
}

/// The values of `root` in preorder, visited with an explicit stack.
pub fn preorder_traversal(root: &Tree) -> (r: Vec<i32>)
    ensures
        r@ == preorder(*root),
{
    let mut out: Vec<i32> = Vec::new();
    let mut s: Vec<Option<&Box<BinaryTreeNode>>> = Vec::new();
    s.push(root.as_ref());
    assert(trees(s@).drop_last() =~= Seq::<Tree>::empty());
    assert(trees(s@).last() == *root);
    assert(preorder_all(trees(s@)) =~= preorder(*root) + preorder_all(Seq::<Tree>::empty()));
    while s.len() > 0
        invariant
            out@ + preorder_all(trees(s@)) == preorder(*root),
        decreases 2 * size_all(trees(s@)) + s@.len(),
    {
        let ghost s0 = trees(s@);
        let top = s.pop().unwrap();
        let ghost s1 = trees(s@);
        assert(s1 =~= s0.drop_last());
        match top {
            Some(node) => {
                out.push(node.val);
                s.push(node.right.as_ref());
                s.push(node.left.as_ref());
                let ghost s2 = trees(s@);
                assert(s2.drop_last().drop_last() =~= s1);
                assert(s2.drop_last().last() == node.right);
                assert(s2.last() == node.left);
                assert(preorder_all(s2) == preorder(node.left) + preorder_all(s2.drop_last()));
                assert(preorder_all(s2.drop_last()) == preorder(node.right) + preorder_all(s1));
                assert(size_all(s2) == size(node.left) + size_all(s2.drop_last()));
                assert(size_all(s2.drop_last()) == size(node.right) + size_all(s1));
                assert(size_all(s0) == size(Some(*node)) + size_all(s1));
                assert(out@ + preorder_all(s2) == preorder(*root)) by {
                    assert(preorder(Some(*node)) == seq![node.val] + preorder(node.left)
                        + preorder(node.right));
                    assert(out@ + preorder_all(s2) =~= out@.drop_last() + (preorder(Some(*node))
                        + preorder_all(s1)));
                }
            },
            None => {
                assert(out@ + preorder_all(s1) =~= out@ + preorder_all(s0));
            },
        }
    }
    out
}

/// The values of `t`, each node after its left and before its right subtree.
pub open spec fn inorder(t: Tree) -> Seq<i32>
    decreases t,
{
    match t {
        None => Seq::empty(),
        Some(n) => inorder(n.left) + seq![n.val] + inorder(n.right),
    }
}

/// What is left to visit in order of the nodes on a stack whose left
/// subtrees have been visited: the top node first, then its right subtree,
/// then the rest of the stack.
pub open spec fn inorder_pending(s: Seq<Box<BinaryTreeNode>>) -> Seq<i32>
    decreases s.len(),
{
    if s.len() == 0 {
        Seq::empty()
    } else {
        seq![s.last().val] + inorder(s.last().right) + inorder_pending(s.drop_last())
    }
}

/// How much work the nodes of such a stack still hold.
pub open spec fn pending_work(s: Seq<Box<BinaryTreeNode>>) -> nat
    decreases s.len(),
{
    if s.len() == 0 {
        0
    } else {
        2 * size(s.last().right) + 1 + pending_work(s.drop_last())
    }
}

/// The nodes that the references of `s` point to.
pub open spec fn nodes<'a>(s: Seq<&'a Box<BinaryTreeNode>>) -> Seq<Box<BinaryTreeNode>> {
    s.map_values(|b: &'a Box<BinaryTreeNode>| *b)
}

/// The values of `root` in order (left subtree, node, right subtree),
/// visited depth first with an explicit stack.
pub fn dfs_tree(root: &Tree) -> (r: Vec<i32>)
    ensures
        r@ == inorder(*root),
{
    let mut out: Vec<i32> = Vec::new();
    let mut s: Vec<&Box<BinaryTreeNode>> = Vec::new();
    let mut p: Option<&Box<BinaryTreeNode>> = root.as_ref();
    assert(nodes(s@) =~= Seq::<Box<BinaryTreeNode>>::empty());
    while s.len() > 0 || p.is_some()
        invariant
            out@ + inorder(match p {
                Some(b) => Some(*b),
                None => None,
            }) + inorder_pending(nodes(s@)) == inorder(*root),
        decreases 2 * size(
            match p {
                Some(b) => Some(*b),
                None => None,
            },
        ) + pending_work(nodes(s@)),
    {
        let ghost s0 = nodes(s@);
        match p {
            Some(t) => {
                s.push(t);
                p = t.left.as_ref();
                let ghost s1 = nodes(s@);
                assert(s1.drop_last() =~= s0);
                assert(s1.last() == *t);
                assert(inorder(Some(*t)) == inorder(t.left) + seq![t.val] + inorder(t.right));
                assert(out@ + inorder(t.left) + inorder_pending(s1) =~= out@ + inorder(Some(*t))
                    + inorder_pending(s0));
            },
            None => {
                let node = s.pop().unwrap();
                out.push(node.val);
                p = node.right.as_ref();
                let ghost s1 = nodes(s@);
                assert(s1 =~= s0.drop_last());
                assert(s0.last() == *node);
                assert(out@ + inorder(node.right) + inorder_pending(s1) =~= out@.drop_last()
                    + inorder(None) + inorder_pending(s0));
            },
        }
    }
    out
}

/// The subtrees of `n` that are there, the left one first.
pub open spec fn children(n: Box<BinaryTreeNode>) -> Seq<Box<BinaryTreeNode>> {
    let l = match n.left {
        Some(c) => seq![c],
        None => Seq::empty(),
    };
    let r = match n.right {
        Some(c) => seq![c],
        None => Seq::empty(),
    };
    l + r
}

/// The number of nodes in all the trees of `q`.
pub open spec fn sizes(q: Seq<Box<BinaryTreeNode>>) -> nat
    decreases q.len(),
{
    if q.len() == 0 {
        0
    } else {
        size(Some(q[0])) + sizes(q.drop_first())
    }
}

proof fn lemma_sizes_concat(a: Seq<Box<BinaryTreeNode>>, b: Seq<Box<BinaryTreeNode>>)
    ensures
        sizes(a + b) == sizes(a) + sizes(b),
    decreases a.len(),
{
    if a.len() == 0 {
        assert(a + b =~= b);
    } else {
        lemma_sizes_concat(a.drop_first(), b);
        assert((a + b).drop_first() =~= a.drop_first() + b);
    }
}

proof fn lemma_sizes_children(n: Box<BinaryTreeNode>)
    ensures
        sizes(children(n)) == size(n.left) + size(n.right),
{
    let l: Seq<Box<BinaryTreeNode>> = match n.left {
        Some(c) => seq![c],
        None => Seq::empty(),
    };
    let r: Seq<Box<BinaryTreeNode>> = match n.right {
        Some(c) => seq![c],
        None => Seq::empty(),
    };
    lemma_sizes_concat(l, r);
    if let Some(c) = n.left {
        assert(l.drop_first() =~= Seq::<Box<BinaryTreeNode>>::empty());
        assert(sizes(l) == size(Some(l[0])) + sizes(l.drop_first()));
    }
    if let Some(c) = n.right {
        assert(r.drop_first() =~= Seq::<Box<BinaryTreeNode>>::empty());
        assert(sizes(r) == size(Some(r[0])) + sizes(r.drop_first()));
    }
    assert(sizes(l) == size(n.left));
    assert(sizes(r) == size(n.right));
}

/// The values of the trees of the queue `q`, level by level: the front node,
/// then the rest of the queue with the front node's subtrees put at its back.
pub open spec fn level_order_from(q: Seq<Box<BinaryTreeNode>>) -> Seq<i32>
    decreases sizes(q),
    via level_order_from_decreases
{
    if q.len() == 0 {
        Seq::empty()
    } else {
        seq![q[0].val] + level_order_from(q.drop_first() + children(q[0]))
    }
}

#[via_fn]
proof fn level_order_from_decreases(q: Seq<Box<BinaryTreeNode>>) {
    if q.len() > 0 {
        lemma_sizes_concat(q.drop_first(), children(q[0]));
        lemma_sizes_children(q[0]);
    }
}

/// The values of `t` level by level, each level from left to right.
pub open spec fn level_order(t: Tree) -> Seq<i32> {
    match t {
        None => Seq::empty(),
        Some(n) => level_order_from(seq![n]),
    }
}

/// The values of `root` level by level, visited breadth first with a queue.
pub fn bfs_tree(root: &Tree) -> (r: Vec<i32>)
    ensures
        r@ == level_order(*root),
{
    let mut out: Vec<i32> = Vec::new();
    let mut q: Vec<&Box<BinaryTreeNode>> = Vec::new();
    match root.as_ref() {
        Some(n) => q.push(n),
        None => {
            return out;
        },
    }
    assert(nodes(q@) =~= seq![root.unwrap()]);
    while q.len() > 0
        invariant
            out@ + level_order_from(nodes(q@)) == level_order(*root),
        decreases sizes(nodes(q@)),
    {
        let ghost q0 = nodes(q@);
        let t = q.remove(0);
        out.push(t.val);
        if let Some(l) = t.left.as_ref() {
            q.push(l);
        }
        if let Some(r) = t.right.as_ref() {
            q.push(r);
        }
        proof {
            assert(q0[0] == *t);
            assert(nodes(q@) =~= q0.drop_first() + children(*t));
            lemma_sizes_concat(q0.drop_first(), children(*t));
            lemma_sizes_children(*t);
            assert(out@ + level_order_from(nodes(q@)) =~= out@.drop_last() + level_order_from(
                q0,
            ));
        }
    }
    out
}

/// A leaf holding `val`.
pub open spec fn leaf(val: i32) -> Box<BinaryTreeNode> {
    Box::new(BinaryTreeNode { left: None, right: None, val })
}

/// The sample tree: 1 over 2 and 3, 2 over 4 and 5, 3 over 6 on its left.
pub open spec fn sample() -> Tree {
    Some(
        Box::new(
            BinaryTreeNode {
                left: Some(
                    Box::new(BinaryTreeNode { left: Some(leaf(4)), right: Some(leaf(5)), val: 2 }),
                ),
                right: Some(Box::new(BinaryTreeNode { left: Some(leaf(6)), right: None, val: 3 })),
                val: 1,
            },
        ),
    )
}

/// Builds the sample tree.
pub fn sample_tree() -> (r: Tree)
    ensures
        r == sample(),
{
    let n2 = BinaryTreeNode::from(
        Some(Box::new(BinaryTreeNode::new(4))),
        Some(Box::new(BinaryTreeNode::new(5))),
        2,
    );
    let n3 = BinaryTreeNode::from(Some(Box::new(BinaryTreeNode::new(6))), None, 3);
    Some(Box::new(BinaryTreeNode::from(Some(Box::new(n2)), Some(Box::new(n3)), 1)))
}

/// Walks the sample tree level by level, in order and in preorder.
pub fn study_rc() -> (r: (Vec<i32>, Vec<i32>, Vec<i32>))
    ensures
        r.0@ == seq![1i32, 2, 3, 4, 5, 6],
        r.1@ == seq![4i32, 2, 5, 1, 6, 3],
        r.2@ == seq![1i32, 2, 4, 5, 3, 6],
{
    let root = sample_tree();
    let levels = bfs_tree(&root);
    let ordered = dfs_tree(&root);
    let pre = preorder_traversal(&root);
    proof {
        reveal_with_fuel(level_order_from, 8);
        reveal_with_fuel(inorder, 4);
        reveal_with_fuel(preorder, 4);
        assert(levels@ =~= seq![1i32, 2, 3, 4, 5, 6]);
        assert(ordered@ =~= seq![4i32, 2, 5, 1, 6, 3]);
        assert(pre@ =~= seq![1i32, 2, 4, 5, 3, 6]);
    }
    (levels, ordered, pre)
}

} // verus!
