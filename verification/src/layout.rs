//! The page layout builder: partitions the item list into consecutive rows of
//! at most `items-per-row` buttons and the rows into consecutive pages of at
//! most `rows-per-page` rows, preserving the original order, and derives the
//! interaction identifier of every item from its display label.

use vstd::arithmetic::div_mod::lemma_fundamental_div_mod_converse;
use vstd::prelude::*;
use vstd::string::StringExecFns;

use crate::button::Button;

verus! {

/// Ceiling division, for a positive divisor.
pub open spec fn ceil_div(n: int, k: int) -> int
    recommends
        k >= 1,
{
    (n + k - 1) / k
}

/// The indices `lo, lo+1, ..., hi-1`, in order.
pub open spec fn index_range(lo: int, hi: int) -> Seq<usize>
    recommends
        0 <= lo <= hi <= usize::MAX,
{
    Seq::new((hi - lo) as nat, |t: int| (lo + t) as usize)
}

/// All item indices of a row sequence, in reading order.
pub open spec fn rows_flat(rows: Seq<Vec<usize>>) -> Seq<usize>
    decreases rows.len(),
{
    if rows.len() == 0 {
        Seq::empty()
    } else {
        rows_flat(rows.drop_last()) + rows.last()@
    }
}

/// All item indices of a page grid, in reading order: page by page, row by
/// row.
pub open spec fn pages_flat(pages: Seq<Vec<Vec<usize>>>) -> Seq<usize>
    decreases pages.len(),
{
    if pages.len() == 0 {
        Seq::empty()
    } else {
        pages_flat(pages.drop_last()) + rows_flat(pages.last()@)
    }
}

/// The page grid a selector session shows for `n` items: there are exactly
/// `ceil(n / (ipr * rpp))` pages, every page holds between 1 and `rpp` rows
/// of between 1 and `ipr` buttons, every shown index is an index of the item
/// list, and reading the grid page by page, row by row gives exactly the
/// indices `0..n` in their original order — so every item appears on exactly
/// one page, with no duplication and no reordering.
pub open spec fn pages_well_formed(
    pages: Seq<Vec<Vec<usize>>>,
    n: int,
    ipr: int,
    rpp: int,
) -> bool {
    &&& pages.len() == ceil_div(n, ipr * rpp)
    &&& forall|p: int| 0 <= p < pages.len() ==> 1 <= #[trigger] pages[p]@.len() <= rpp
    &&& forall|p: int, q: int|
        0 <= p < pages.len() && 0 <= q < pages[p]@.len() ==> 1 <= #[trigger] pages[p]@[q]@.len()
            <= ipr
    &&& forall|p: int, q: int, k: int|
        0 <= p < pages.len() && 0 <= q < pages[p]@.len() && 0 <= k < pages[p]@[q]@.len()
            ==> #[trigger] pages[p]@[q]@[k] < n
    &&& pages_flat(pages) == index_range(0, n)
}

/// Partition the item indices `0..n` into the page grid.
pub fn build_pages(n: usize, items_rows: usize, rows_pages: usize) -> (r: Vec<Vec<Vec<usize>>>)
    requires
        1 <= items_rows <= crate::config::MAX_ITEMS_PER_ROW,
        1 <= rows_pages <= crate::config::MAX_ROWS_PER_PAGE,
    ensures
        pages_well_formed(r@, n as int, items_rows as int, rows_pages as int),
{
    let ipr = items_rows;
    let rpp = rows_pages;
    proof {
        assert(1 <= ipr as int * rpp as int <= 20) by (nonlinear_arith)
            requires
                1 <= ipr as int <= 5,
                1 <= rpp as int <= 4,
        ;
    }
    let cap: usize = ipr * rpp;
    let ghost icap = cap as int;
    let mut pages: Vec<Vec<Vec<usize>>> = Vec::new();
    let mut start: usize = 0;
    proof {
        assert(pages@.len() * icap == 0) by (nonlinear_arith)
            requires
                pages@.len() == 0,
        ;
    }
    while start < n
        invariant
            1 <= ipr <= 5,
            1 <= rpp <= 4,
            icap == ipr as int * rpp as int,
            1 <= icap <= 20,
            cap == icap,
            start as int == vstd::math::min(pages@.len() * icap, n as int),
            pages@.len() == 0 || (pages@.len() - 1) * icap < n as int,
            forall|p: int| 0 <= p < pages@.len() ==> 1 <= #[trigger] pages@[p]@.len() <= rpp,
            forall|p: int, q: int|
                0 <= p < pages@.len() && 0 <= q < pages@[p]@.len() ==> 1
                    <= #[trigger] pages@[p]@[q]@.len() <= ipr,
            forall|p: int, q: int, k: int|
                0 <= p < pages@.len() && 0 <= q < pages@[p]@.len() && 0 <= k
                    < pages@[p]@[q]@.len() ==> #[trigger] pages@[p]@[q]@[k] < n,
            pages_flat(pages@) == index_range(0, start as int),
        decreases n - start,
    {
        let ghost p = pages@.len();
        proof {
            assert(start as int == p * icap);
        }
        let page_end: usize = if n - start > cap {
            start + cap
        } else {
            n
        };
        let mut rows: Vec<Vec<usize>> = Vec::new();
        let mut rstart: usize = start;
        proof {
            assert(rows@.len() * ipr == 0) by (nonlinear_arith)
                requires
                    rows@.len() == 0,
            ;
        }
        while rstart < page_end
            invariant
                1 <= ipr <= 5,
                1 <= icap <= 20,
                start < page_end <= n,
                page_end - start <= icap,
                rstart as int == vstd::math::min(start + rows@.len() * ipr, page_end as int),
                rows@.len() == 0 || start + (rows@.len() - 1) * ipr < page_end as int,
                forall|q: int| 0 <= q < rows@.len() ==> 1 <= #[trigger] rows@[q]@.len() <= ipr,
                forall|q: int, k: int|
                    0 <= q < rows@.len() && 0 <= k < rows@[q]@.len() ==> #[trigger] rows@[q]@[k]
                        < page_end,
                rows_flat(rows@) == index_range(start as int, rstart as int),
            decreases page_end - rstart,
        {
            let ghost q = rows@.len();
            proof {
                assert(rstart as int == start + q * ipr);
            }
            let row_end: usize = if page_end - rstart > ipr {
                rstart + ipr
            } else {
                page_end
            };
            let mut row: Vec<usize> = Vec::new();
            let mut j: usize = rstart;
            while j < row_end
                invariant
                    rstart <= j <= row_end,
                    row@.len() == j - rstart,
                    forall|t: int| 0 <= t < row@.len() ==> #[trigger] row@[t] == rstart + t,
                decreases row_end - j,
            {
                row.push(j);
                j = j + 1;
            }
            let ghost old_rows = rows@;
            rows.push(row);
            proof {
                assert(rows@.drop_last() =~= old_rows);
                assert(rows_flat(rows@) =~= index_range(start as int, row_end as int));
                assert((q + 1) * ipr == q * ipr + ipr) by (nonlinear_arith);
                assert(row_end as int == vstd::math::min(
                    start + rows@.len() * ipr,
                    page_end as int,
                ));
            }
            rstart = row_end;
        }
        proof {
            // The page cannot have more than `rpp` rows: its last row started
            // before `page_end`, and the page holds at most `icap` indices.
            let q = rows@.len() as int;
            assert(q >= 1);
            assert(start + (q - 1) * ipr < page_end as int);
            assert(q <= rpp) by (nonlinear_arith)
                requires
                    (q - 1) * (ipr as int) < icap,
                    icap == ipr as int * rpp as int,
                    1 <= ipr,
                    1 <= rpp,
                    1 <= q,
            ;
        }
        let ghost old_pages = pages@;
        pages.push(rows);
        proof {
            assert(pages@.drop_last() =~= old_pages);
            assert(pages_flat(pages@) =~= index_range(0, page_end as int));
            assert((p + 1) * icap == p * icap + icap) by (nonlinear_arith);
            assert(page_end as int == vstd::math::min(pages@.len() * icap, n as int));
        }
        start = page_end;
    }
    proof {
        let p = pages@.len() as int;
        assert(start == n);
        if n == 0 {
            assert(p == 0);
            lemma_fundamental_div_mod_converse(icap - 1, icap, 0, icap - 1);
            assert(ceil_div(0, icap) == 0);
        } else {
            assert(p >= 1);
            assert((p - 1) * icap < n as int);
            assert(p * icap >= n as int);
            let r = n as int + icap - 1 - p * icap;
            assert(0 <= r < icap) by (nonlinear_arith)
                requires
                    r == n as int + icap - 1 - p * icap,
                    (p - 1) * icap < n as int,
                    p * icap >= n as int,
                    icap >= 1,
            ;
            lemma_fundamental_div_mod_converse(n as int + icap - 1, icap, p, r);
            assert(pages@.len() == ceil_div(n as int, icap));
        }
    }
    pages
}

/// Every index listed by a row sequence comes from one of its rows.
pub proof fn lemma_rows_flat_elems(rows: Seq<Vec<usize>>, bound: int)
    requires
        forall|q: int, k: int|
            0 <= q < rows.len() && 0 <= k < rows[q]@.len() ==> #[trigger] rows[q]@[k] < bound,
    ensures
        forall|u: int| 0 <= u < rows_flat(rows).len() ==> #[trigger] rows_flat(rows)[u] < bound,
    decreases rows.len(),
{
    if rows.len() > 0 {
        let front = rows.drop_last();
        assert(forall|q: int, k: int|
            0 <= q < front.len() && 0 <= k < front[q]@.len() ==> #[trigger] front[q]@[k] < bound);
        lemma_rows_flat_elems(front, bound);
        assert(forall|k: int|
            0 <= k < rows.last()@.len() ==> #[trigger] rows.last()@[k] < bound);
        let fl = rows_flat(front);
        assert(rows_flat(rows) == fl + rows.last()@);
        assert forall|u: int| 0 <= u < rows_flat(rows).len() implies #[trigger] rows_flat(rows)[u]
            < bound by {
            if u < fl.len() {
                assert(rows_flat(rows)[u] == fl[u]);
            } else {
                assert(rows_flat(rows)[u] == rows.last()@[u - fl.len()]);
            }
        }
    }
}

/// The namespace prefix of item-derived interaction identifiers, disjoint
/// from the namespace of the control buttons.
pub open spec fn item_id_prefix() -> Seq<char> {
    "_tools_selector_"@
}

/// The interaction identifier derived from an item's display label.
pub open spec fn spec_item_id(label: Seq<char>) -> Seq<char> {
    item_id_prefix() + label
}

/// An item-derived identifier never equals a control identifier: the two
/// namespaces differ already in their prefix.
pub proof fn lemma_control_item_ids_disjoint(b: Button, label: Seq<char>)
    ensures
        b.spec_id() != spec_item_id(label),
{
    reveal_strlit("_tools_selector_");
    reveal_strlit("_tools_button_confirm");
    reveal_strlit("_tools_button_abort");
    reveal_strlit("_tools_button_next");
    reveal_strlit("_tools_button_previous");
    assert(spec_item_id(label)[7] == 's');
    assert(b.spec_id()[7] == 'b');
    if b.spec_id() == spec_item_id(label) {
        assert(b.spec_id()[7] == spec_item_id(label)[7]);
    }
}

/// Derive the interaction identifier of every item from its label.
pub fn build_ids(labels: &Vec<String>) -> (r: Vec<String>)
    ensures
        r@.len() == labels@.len(),
        forall|i: int| 0 <= i < r@.len() ==> #[trigger] r@[i]@ == spec_item_id(labels@[i]@),
{
    let mut r: Vec<String> = Vec::new();
    let mut i: usize = 0;
    while i < labels.len()
        invariant
            i <= labels@.len(),
            r@.len() == i,
            forall|j: int| 0 <= j < i ==> #[trigger] r@[j]@ == spec_item_id(labels@[j]@),
        decreases labels@.len() - i,
    {
        let id = String::from_str("_tools_selector_").concat(labels[i].as_str());
        r.push(id);
        i = i + 1;
    }
    r
}

/// No two identifiers are the same.
pub open spec fn ids_distinct(ids: Seq<Seq<char>>) -> bool {
    forall|i: int, j: int| 0 <= i < j < ids.len() ==> ids[i] != ids[j]
}

/// Look an identifier up in the session's identifier list.
pub fn find_identifier(ids: &Vec<String>, id: &str) -> (r: Option<usize>)
    ensures
        match r {
            Some(i) => i < ids@.len() && ids@[i as int]@ == id@,
            None => forall|j: int| 0 <= j < ids@.len() ==> ids@[j]@ != id@,
        },
{
    let mut i: usize = 0;
    while i < ids.len()
        invariant
            i <= ids@.len(),
            forall|j: int| 0 <= j < i ==> ids@[j]@ != id@,
        decreases ids@.len() - i,
    {
        if crate::text::str_eq(ids[i].as_str(), id) {
            return Some(i);
        }
        i = i + 1;
    }
    None
}

/// Decide whether any two identifiers collide.
pub fn has_duplicate_ids(ids: &Vec<String>) -> (r: bool)
    ensures
        r == !ids_distinct(crate::text::str_views(ids@)),
{
    let ghost views = crate::text::str_views(ids@);
    let mut i: usize = 0;
    while i < ids.len()
        invariant
            i <= ids@.len(),
            views == crate::text::str_views(ids@),
            forall|a: int, b: int| 0 <= a < b < ids@.len() && a < i ==> views[a] != views[b],
        decreases ids@.len() - i,
    {
        let mut j: usize = i + 1;
        while j < ids.len()
            invariant
                i < j <= ids@.len() || (i >= ids@.len() - 1 && j == i + 1),
                i < ids@.len(),
                views == crate::text::str_views(ids@),
                forall|b: int| i < b < j ==> views[i as int] != views[b],
            decreases ids@.len() - j,
        {
            if crate::text::str_eq(ids[i].as_str(), ids[j].as_str()) {
                assert(views[i as int] == views[j as int]);
                return true;
            }
            j = j + 1;
        }
        i = i + 1;
    }
    false
}

} // verus!
