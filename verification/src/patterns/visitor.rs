use std::io::Write;
use vstd::prelude::*;

verus! {

/// A visitor over the nodes of a [`TreeNode`] tree.
pub trait Visitor<T> {
    fn visit(&mut self, v: &TreeNode<T>);
}

/// A tree node: a value and its children, visited in pre-order.
#[derive(Debug)]
pub struct TreeNode<T> {
    pub value: T,
    pub children: Vec<TreeNode<T>>,
}

impl<T> TreeNode<T> {
    /// A leaf holding `value`.
    pub fn new(value: T) -> (n: TreeNode<T>)
        ensures
            n.value == value,
            n.children@ =~= Seq::<TreeNode<T>>::empty(),
    {
        TreeNode { value, children: Vec::new() }
    }

    /// Appends one child.
    pub fn add_child(&mut self, node: TreeNode<T>)
        ensures
            final(self).value == old(self).value,
            final(self).children@ == old(self).children@.push(node),
    {
        self.children.push(node);
    }

    /// Walks the tree in pre-order, handing every node to the visitor.
    /// What the visitor does with a node is its own affair, so nothing
    /// more is promised here.
    pub fn accept<V: Visitor<T>>(&self, visitor: &mut V)
        decreases *self,
    {
        visitor.visit(self);
        let n = self.children.len();
        let mut i: usize = 0;
        while i < n
            invariant
                0 <= i <= n,
                n == self.children@.len(),
            decreases n - i,
        {
            proof {
                assert(decreases_to!(*self => self.children@[i as int]));
            }
            self.children[i].accept(visitor);
            i = i + 1;
        }
    }
}

/// Relies on `writeln` to the standard output stream to print one value.
#[verifier::external_body]
fn print_value(v: i32) {
    writeln!(std::io::stdout(), "{}", v).ok();
}

/// A visitor that prints each visited value on a line of its own.
#[derive(Debug)]
pub struct PrintVisitor;

impl Visitor<i32> for PrintVisitor {
    fn visit(&mut self, node: &TreeNode<i32>) {
        print_value(node.value);
    }
}

} // verus!
