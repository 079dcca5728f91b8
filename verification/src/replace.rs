//! The default-as-absence convention: a field of a fragment counts as unset
//! exactly when it holds its type's default value.

use vstd::prelude::*;

verus! {

/// A value that a later fragment may replace, unless that fragment left it
/// at the type's default.
pub trait Replaceable: Sized {
    /// The value that stands for "not set".
    spec fn unset() -> Self;

    /// Whether this value is the one that stands for "not set".
    fn is_unset(&self) -> (b: bool)
        ensures
            b == (*self == Self::unset()),
    ;

    /// Keeps `self` when `other` is unset, and takes `other` otherwise.
    fn unless_non_default(self, other: Self) -> (r: Self)
        ensures
            r == (if other == Self::unset() { self } else { other }),
    {
        if other.is_unset() {
            self
        } else {
            other
        }
    }
}

/// The merge of one field: the patch value wins unless it is unset.
pub open spec fn pick<T: Replaceable>(base: T, patch: T) -> T {
    if patch == T::unset() {
        base
    } else {
        patch
    }
}

/// The merge of one list-valued field: a list is never merged item by item;
/// a patch list that is not empty replaces the base list whole.
pub open spec fn pick_seq<T>(base: Seq<T>, patch: Seq<T>) -> Seq<T> {
    if patch.len() == 0 {
        base
    } else {
        patch
    }
}

/// A fresh list with the items of `list`, in their order.
pub fn copy_list<T: Copy>(list: &Vec<T>) -> (r: Vec<T>)
    ensures
        r@ == list@,
{
    let mut r: Vec<T> = Vec::new();
    let mut i: usize = 0;
    while i < list.len()
        invariant
            i <= list.len(),
            r@ == list@.subrange(0, i as int),
        decreases list.len() - i,
    {
        r.push(list[i]);
        i += 1;
        proof {
            assert(r@ =~= list@.subrange(0, i as int));
        }
    }
    proof {
        assert(r@ =~= list@);
    }
    r
}

/// The merge of one list-valued field, on lists of the machine.
pub fn overlay_list<T: Copy>(patch: &Vec<T>, onto: &Vec<T>) -> (r: Vec<T>)
    ensures
        r@ == pick_seq(onto@, patch@),
{
    if patch.len() == 0 {
        copy_list(onto)
    } else {
        copy_list(patch)
    }
}

} // verus!
