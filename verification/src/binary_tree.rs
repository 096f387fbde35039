//! A simple binary tree, and the small sample tree of planet names.

use vstd::prelude::*;

verus! {

/// A binary tree: empty, or a node with two subtrees.
#[derive(Debug)]
pub enum BinaryTree<T> {
    Empty,
    NonEmpty(Box<TreeNode<T>>),
}

/// One node of a [`BinaryTree`].
#[derive(Debug)]
pub struct TreeNode<T> {
    pub element: T,
    pub left: BinaryTree<T>,
    pub right: BinaryTree<T>,
}

/// Builds the sample tree: Saturn at the root, mars as its left child, and
/// Jupiter as mars's left child; every other subtree is empty.
pub fn binary_tree() -> (t: BinaryTree<&'static str>)
    ensures
        ({
            &&& t matches BinaryTree::NonEmpty(saturn)
            &&& saturn.element@ == "Saturn"@
            &&& saturn.right matches BinaryTree::Empty
            &&& saturn.left matches BinaryTree::NonEmpty(mars)
            &&& mars.element@ == "mars"@
            &&& mars.right matches BinaryTree::Empty
            &&& mars.left matches BinaryTree::NonEmpty(jupiter)
            &&& jupiter.element@ == "Jupiter"@
            &&& jupiter.left matches BinaryTree::Empty
            &&& jupiter.right matches BinaryTree::Empty
        }),
{
    let jupiter_tree = BinaryTree::NonEmpty(
        Box::new(TreeNode { element: "Jupiter", left: BinaryTree::Empty, right: BinaryTree::Empty }),
    );
    let mars_tree = BinaryTree::NonEmpty(
        Box::new(TreeNode { element: "mars", left: jupiter_tree, right: BinaryTree::Empty }),
    );
    BinaryTree::NonEmpty(
        Box::new(TreeNode { element: "Saturn", left: mars_tree, right: BinaryTree::Empty }),
    )
}

} // verus!
