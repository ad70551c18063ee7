//! Deep views of sequences, and copies that keep them.

use vstd::prelude::*;

verus! {

/// The deep views of the elements of a sequence.
pub open spec fn deep<T: DeepView>(s: Seq<T>) -> Seq<T::V> {
    s.map_values(|x: T| x.deep_view())
}

/// A value that can be copied, its deep view kept.
pub trait DeepClone: DeepView + Sized {
    fn deep_clone(&self) -> (copy: Self)
        ensures
            copy.deep_view() == self.deep_view(),
    ;
}

impl DeepClone for String {
    fn deep_clone(&self) -> (copy: Self) {
        self.clone()
    }
}

impl<T: DeepClone> DeepClone for Option<T> {
    fn deep_clone(&self) -> (copy: Self) {
        match self {
            Some(x) => Some(x.deep_clone()),
            None => None,
        }
    }
}

/// Copies a vector element by element.
pub fn clone_vec<T: DeepClone>(v: &Vec<T>) -> (copy: Vec<T>)
    ensures
        deep(copy@) == deep(v@),
{
    let mut copy: Vec<T> = Vec::new();
    let mut i: usize = 0;
    while i < v.len()
        invariant
            i <= v.len(),
            copy.len() == i,
            forall|j: int| 0 <= j < i ==> copy@[j].deep_view() == v@[j].deep_view(),
        decreases v.len() - i,
    {
        copy.push(v[i].deep_clone());
        i = i + 1;
    }
    proof {
        assert(deep(copy@) =~= deep(v@));
    }
    copy
}

/// A sequence that grows by one element grows by that element's deep view.
pub proof fn lemma_deep_push<T: DeepView>(s: Seq<T>, x: T)
    ensures
        deep(s.push(x)) == deep(s).push(x.deep_view()),
{
    assert(deep(s.push(x)) =~= deep(s).push(x.deep_view()));
}

/// A sequence built up to `i` elements of a target reaches `i + 1` of them
/// with an element whose deep view is the target's element at `i`.
pub proof fn lemma_deep_extend<T: DeepView>(built: Seq<T>, x: T, target: Seq<T::V>, i: int)
    requires
        0 <= i < target.len(),
        deep(built) == target.take(i),
        x.deep_view() == target[i],
    ensures
        deep(built.push(x)) == target.take(i + 1),
{
    lemma_deep_push(built, x);
    assert(target.take(i).push(target[i]) =~= target.take(i + 1));
}

/// The deep views of two sequences, one after the other.
pub proof fn lemma_deep_add<T: DeepView>(a: Seq<T>, b: Seq<T>)
    ensures
        deep(a + b) == deep(a) + deep(b),
{
    assert(deep(a + b) =~= deep(a) + deep(b));
}

} // verus!
