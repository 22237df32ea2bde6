//! A binary tree node and a stack.
use vstd::prelude::*;

verus! {

/// A node of a binary tree of `i32` values that owns its subtrees.
#[derive(Debug)]
pub struct BinaryTreeNode {
    pub left: Option<Box<BinaryTreeNode>>,
    pub right: Option<Box<BinaryTreeNode>>,
    pub val: i32,
}

impl BinaryTreeNode {
    /// A leaf holding `val`.
    pub fn new(val: i32) -> (r: BinaryTreeNode)
        ensures
            r.left is None,
            r.right is None,
            r.val == val,
    {
        BinaryTreeNode { left: None, right: None, val }
    }

    /// A node holding `val` over the given subtrees.
    pub fn from(
        left: Option<Box<BinaryTreeNode>>,
        right: Option<Box<BinaryTreeNode>>,
        val: i32,
    ) -> (r: BinaryTreeNode)
        ensures
            r.left == left,
            r.right == right,
            r.val == val,
    {
        BinaryTreeNode { left, right, val }
    }

    /// Makes `l` the left subtree.
    pub fn set_left(&mut self, l: BinaryTreeNode)
        ensures
            final(self).left == Some(Box::new(l)),
            final(self).right == old(self).right,
            final(self).val == old(self).val,
    {
        self.left = Some(Box::new(l));
    }

    /// Removes the left subtree.
    pub fn set_left_none(&mut self)
        ensures
            final(self).left is None,
            final(self).right == old(self).right,
            final(self).val == old(self).val,
    {
        self.left = None;
    }

    /// Makes `r` the right subtree.
    pub fn set_right(&mut self, r: BinaryTreeNode)
        ensures
            final(self).right == Some(Box::new(r)),
            final(self).left == old(self).left,
            final(self).val == old(self).val,
    {
        self.right = Some(Box::new(r));
    }

    /// Removes the right subtree.
    pub fn set_right_none(&mut self)
        ensures
            final(self).right is None,
            final(self).left == old(self).left,
            final(self).val == old(self).val,
    {
        self.right = None;
    }
}

/// A last-in, first-out stack.
pub struct Stack<T> {
    elements: Vec<T>,
}

impl<T> View for Stack<T> {
    type V = Seq<T>;

    /// The elements, the bottom first and the top last.
    closed spec fn view(&self) -> Seq<T> {
        self.elements@
    }
}

impl<T> Stack<T> {
    /// An empty stack.
    pub fn new() -> (r: Stack<T>)
        ensures
            r@ == Seq::<T>::empty(),
    {
        Stack { elements: Vec::new() }
    }

    /// Puts `item` on top.
    pub fn push(&mut self, item: T)
        ensures
            final(self)@ == old(self)@.push(item),
    {
        self.elements.push(item);
    }

    /// Takes the top element off, if there is one.
    pub fn pop(&mut self) -> (r: Option<T>)
        ensures
            old(self)@.len() > 0 ==> r == Some(old(self)@.last()) && final(self)@
                == old(self)@.drop_last(),
            old(self)@.len() == 0 ==> r is None && final(self)@ == old(self)@,
    {
        let r = self.elements.pop();
        proof {
            if old(self)@.len() > 0 {
                assert(old(self)@.drop_last() == old(self)@.subrange(0, old(self)@.len() - 1));
            }
        }
        r
    }

    /// The top element, if there is one.
    pub fn peek(&self) -> (r: Option<&T>)
        ensures
            self@.len() > 0 ==> r == Some(&self@.last()),
            self@.len() == 0 ==> r is None,
    {
        if self.elements.len() == 0 {
            return None;
        }
        Some(&self.elements[self.elements.len() - 1])
    }

    /// Whether the stack holds no element.
    pub fn is_empty(&self) -> (r: bool)
        ensures
            r == (self@.len() == 0),
    {
        self.elements.len() == 0
    }
}

} // verus!
