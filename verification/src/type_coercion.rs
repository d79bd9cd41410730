//! Implicit conversions of typed trees. None is performed yet: a tree is
//! handed back as it came, so no value changes and nothing is lost.

use vstd::prelude::*;
use crate::typed_tree::TypedTree;
use crate::types::SqlType;

verus! {

pub struct TypeCoercion;

impl TypeCoercion {
    /// Leaves the tree as inference computed it.
    pub fn coerce_dynamic(&self, tree: TypedTree) -> (coerced: TypedTree)
        ensures
            coerced == tree,
    {
        tree
    }

    /// Hands the tree back unchanged, whatever the type of the column that
    /// it is meant for.
    pub fn coerce_static(&self, tree: TypedTree, _column_type: SqlType) -> (coerced: TypedTree)
        ensures
            coerced == tree,
    {
        tree
    }
}

} // verus!
