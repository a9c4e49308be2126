//! Selection bookkeeping: the set of currently selected items (tracked by
//! index into the caller's item list) together with the page the operator is
//! currently viewing.  This is the only mutable state of a selector session.

use vstd::prelude::*;

verus! {

/// The set of selected indices described by a selection vector.
pub open spec fn sel_set(s: Seq<bool>) -> Set<int> {
    Set::new(|i: int| 0 <= i < s.len() && s[i])
}

/// Membership flip of `x` in `s`.
pub open spec fn toggle_set(s: Set<int>, x: int) -> Set<int> {
    if s.contains(x) {
        s.remove(x)
    } else {
        s.insert(x)
    }
}

/// How many items a selection vector marks selected.
pub open spec fn count_true(s: Seq<bool>) -> nat
    decreases s.len(),
{
    if s.len() == 0 {
        0
    } else {
        count_true(s.drop_last()) + (if s.last() {
            1nat
        } else {
            0nat
        })
    }
}

/// Law: toggling the same item twice restores the original selection,
/// whatever the selection and the item.
pub proof fn lemma_toggle_involutive(s: Set<int>, x: int)
    ensures
        toggle_set(toggle_set(s, x), x) == s,
{
    if s.contains(x) {
        assert(s.remove(x).insert(x) =~= s);
    } else {
        assert(s.insert(x).remove(x) =~= s);
    }
}

/// Which items are currently selected, plus the current page index.
/// Owned exclusively by one in-flight selector session.
#[derive(Debug)]
pub struct SelectionState {
    /// `selected[i]` is true iff the item at index `i` is selected.
    pub selected: Vec<bool>,
    /// The 0-based index of the page currently rendered.
    pub page: usize,
}

impl SelectionState {
    /// The selection as a set of item indices.
    pub open spec fn spec_selected(self) -> Set<int> {
        sel_set(self.selected@)
    }

    /// A fresh state over `n` items: nothing selected, first page current.
    pub fn new(n: usize) -> (r: Self)
        ensures
            r.selected@.len() == n,
            forall|i: int| 0 <= i < n ==> !r.selected@[i],
            r.page == 0,
    {
        let mut selected: Vec<bool> = Vec::new();
        let mut i: usize = 0;
        while i < n
            invariant
                i <= n,
                selected@.len() == i,
                forall|j: int| 0 <= j < i ==> !selected@[j],
            decreases n - i,
        {
            selected.push(false);
            i = i + 1;
        }
        SelectionState { selected, page: 0 }
    }

    /// Flip whether item `i` is selected; the page does not change.
    pub fn toggle(&mut self, i: usize)
        requires
            i < old(self).selected@.len(),
        ensures
            final(self).selected@ == old(self).selected@.update(
                i as int,
                !old(self).selected@[i as int],
            ),
            final(self).page == old(self).page,
            final(self).spec_selected() == toggle_set(old(self).spec_selected(), i as int),
    {
        let cur = self.selected[i];
        self.selected.set(i, !cur);
        proof {
            if old(self).selected@[i as int] {
                assert(self.spec_selected() =~= old(self).spec_selected().remove(i as int));
            } else {
                assert(self.spec_selected() =~= old(self).spec_selected().insert(i as int));
            }
        }
    }

    /// How many items are selected.
    pub fn count_selected(&self) -> (r: usize)
        ensures
            r as nat == count_true(self.selected@),
    {
        let mut count: usize = 0;
        let mut i: usize = 0;
        while i < self.selected.len()
            invariant
                i <= self.selected@.len(),
                count <= i,
                count as nat == count_true(self.selected@.take(i as int)),
            decreases self.selected@.len() - i,
        {
            proof {
                assert(self.selected@.take(i + 1).drop_last() =~= self.selected@.take(i as int));
                assert(self.selected@.take(i + 1).last() == self.selected@[i as int]);
            }
            if self.selected[i] {
                count = count + 1;
            }
            i = i + 1;
        }
        proof {
            assert(self.selected@.take(self.selected@.len() as int) =~= self.selected@);
        }
        count
    }

    /// The selected indices in increasing order.
    pub fn selected_indices(&self) -> (r: Vec<usize>)
        ensures
            forall|k: int|
                0 <= k < r@.len() ==> r@[k] < self.selected@.len() && self.selected@[r@[k] as int],
            forall|k1: int, k2: int| 0 <= k1 < k2 < r@.len() ==> r@[k1] < r@[k2],
            forall|i: int|
                0 <= i < self.selected@.len() && self.selected@[i] ==> exists|k: int|
                    0 <= k < r@.len() && r@[k] == i,
    {
        let mut r: Vec<usize> = Vec::new();
        let mut i: usize = 0;
        while i < self.selected.len()
            invariant
                i <= self.selected@.len(),
                forall|k: int| 0 <= k < r@.len() ==> r@[k] < i && self.selected@[r@[k] as int],
                forall|k1: int, k2: int| 0 <= k1 < k2 < r@.len() ==> r@[k1] < r@[k2],
                forall|j: int|
                    0 <= j < i && self.selected@[j] ==> exists|k: int|
                        0 <= k < r@.len() && r@[k] == j,
            decreases self.selected@.len() - i,
        {
            let ghost old_r = r@;
            if self.selected[i] {
                r.push(i);
            }
            proof {
                assert forall|j: int| 0 <= j < i + 1 && self.selected@[j] implies exists|k: int|
                    0 <= k < r@.len() && r@[k] == j by {
                    if j < i {
                        let k = choose|k: int| 0 <= k < old_r.len() && old_r[k] == j;
                        assert(0 <= k < r@.len() && r@[k] == j);
                    } else {
                        assert(r@[r@.len() - 1] == j);
                    }
                }
            }
            i = i + 1;
        }
        r
    }
}

} // verus!
