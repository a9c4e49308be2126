//! The render function: a pure map from configuration, item list, selection
//! state and current page to the status display and the interactive control
//! layout of the current page.  All formatting of the selector lives here.

use vstd::prelude::*;
use vstd::string::StringExecFns;

use crate::button::Button;
use crate::config::PagedSelectorConfig;
use crate::layout::rows_flat;
use crate::layout::spec_item_id;
use crate::selection::SelectionState;
use crate::selection::count_true;
use crate::text::join_lines;
use crate::text::spec_decimal;
use crate::text::str_views;

verus! {

/// A toggle button backed by one item of the input list.
#[derive(Debug)]
pub struct ItemButton {
    /// Index of the item in the caller's list.
    pub item: usize,
    /// The interaction identifier, derived from the item's label.
    pub id: String,
    /// The item's display label.
    pub label: String,
}

/// One of the fixed control buttons of the trailing control row.
#[derive(Clone, Copy, Debug, PartialEq, Eq, Structural)]
pub struct ControlButton {
    pub intent: Button,
    /// A disabled button is shown but cannot be clicked.
    pub disabled: bool,
}

/// One block of the status display, describing one page.
#[derive(Debug)]
pub struct StatusSection {
    /// `Page <k>`, with ` (current)` appended on the page being shown.
    pub heading: String,
    /// One line per item of the page, in original order, each prefixed with
    /// the selected or unselected marker glyph.
    pub body: String,
}

/// Everything one publish of the selector message shows: the status display
/// (all pages) and the interactive controls of the current page.
#[derive(Debug)]
pub struct Render {
    pub sections: Vec<StatusSection>,
    pub item_rows: Vec<Vec<ItemButton>>,
    pub controls: Vec<ControlButton>,
}

/// The status line of one item: its marker glyph, a separator, its label.
pub open spec fn spec_status_line(
    selected: bool,
    selected_glyph: Seq<char>,
    unselected_glyph: Seq<char>,
    label: Seq<char>,
) -> Seq<char> {
    (if selected {
        selected_glyph
    } else {
        unselected_glyph
    }) + " | "@ + label
}

/// The status line of item `i` under the given configuration and selection.
pub open spec fn spec_line_for(
    config: PagedSelectorConfig,
    labels: Seq<String>,
    selected: Seq<bool>,
    i: int,
) -> Seq<char> {
    spec_status_line(selected[i], config.selected_emoji@, config.unselected_emoji@, labels[i]@)
}

/// The status lines of the items with the given indices, in order.
pub open spec fn spec_lines_for(
    config: PagedSelectorConfig,
    labels: Seq<String>,
    selected: Seq<bool>,
    idxs: Seq<usize>,
) -> Seq<Seq<char>> {
    idxs.map_values(|i: usize| spec_line_for(config, labels, selected, i as int))
}

/// The body of one page's status section: the page's item lines joined by
/// newlines.
pub open spec fn spec_page_body(
    config: PagedSelectorConfig,
    labels: Seq<String>,
    selected: Seq<bool>,
    page_rows: Seq<Vec<usize>>,
) -> Seq<char> {
    join_lines(spec_lines_for(config, labels, selected, rows_flat(page_rows)))
}

/// The heading of page `p` (0-based) when page `curr` is shown: pages are
/// numbered from 1 for display, and the current page is marked.
pub open spec fn spec_heading(p: int, curr: int) -> Seq<char> {
    if p == curr {
        "Page "@ + spec_decimal((p + 1) as nat) + " (current)"@
    } else {
        "Page "@ + spec_decimal((p + 1) as nat)
    }
}

/// The trailing control row: Confirm (disabled while fewer than the required
/// minimum of items is selected), Abort, then Previous exactly when a page
/// precedes the current one, then Next exactly when one follows it.
pub open spec fn spec_control_row(page: int, last: int, count: nat, min: int) -> Seq<
    (Button, bool),
> {
    seq![(Button::Confirm, (count as int) < min), (Button::Abort, false)] + (if page > 0 {
        seq![(Button::Previous, false)]
    } else {
        Seq::empty()
    }) + (if page < last {
        seq![(Button::Next, false)]
    } else {
        Seq::empty()
    })
}

/// The status display sections describe every page of the grid.
pub open spec fn sections_match(
    sections: Seq<StatusSection>,
    config: PagedSelectorConfig,
    labels: Seq<String>,
    selected: Seq<bool>,
    pages: Seq<Vec<Vec<usize>>>,
    curr: int,
) -> bool {
    &&& sections.len() == pages.len()
    &&& forall|p: int|
        0 <= p < pages.len() ==> (#[trigger] sections[p]).heading@ == spec_heading(p, curr)
    &&& forall|p: int|
        0 <= p < pages.len() ==> (#[trigger] sections[p]).body@ == spec_page_body(
            config,
            labels,
            selected,
            pages[p]@,
        )
}

/// The toggle-button rows mirror the current page of the grid.
pub open spec fn item_rows_match(
    item_rows: Seq<Vec<ItemButton>>,
    labels: Seq<String>,
    page_rows: Seq<Vec<usize>>,
) -> bool {
    &&& item_rows.len() == page_rows.len()
    &&& forall|q: int|
        0 <= q < page_rows.len() ==> #[trigger] item_rows[q]@.len() == page_rows[q]@.len()
    &&& forall|q: int, k: int|
        0 <= q < page_rows.len() && 0 <= k < page_rows[q]@.len() ==> {
            let b = #[trigger] item_rows[q]@[k];
            let i = page_rows[q]@[k];
            &&& b.item == i
            &&& b.label@ == labels[i as int]@
            &&& b.id@ == spec_item_id(labels[i as int]@)
        }
}

/// The control buttons are exactly the specified control row.
pub open spec fn controls_match(
    controls: Seq<ControlButton>,
    page: int,
    last: int,
    count: nat,
    min: int,
) -> bool {
    controls.map_values(|c: ControlButton| (c.intent, c.disabled)) == spec_control_row(
        page,
        last,
        count,
        min,
    )
}

/// A full render of a running session: status display for all pages, toggle
/// buttons and control row for the current page.
pub open spec fn render_matches(
    r: Render,
    config: PagedSelectorConfig,
    labels: Seq<String>,
    pages: Seq<Vec<Vec<usize>>>,
    state: SelectionState,
) -> bool {
    &&& sections_match(r.sections@, config, labels, state.selected@, pages, state.page as int)
    &&& item_rows_match(r.item_rows@, labels, pages[state.page as int]@)
    &&& controls_match(
        r.controls@,
        state.page as int,
        pages.len() - 1,
        count_true(state.selected@),
        config.min as int,
    )
}

/// The final render of a resolved session: the status display stays intact,
/// every interactive control is stripped.
pub open spec fn render_stripped_matches(
    r: Render,
    config: PagedSelectorConfig,
    labels: Seq<String>,
    pages: Seq<Vec<Vec<usize>>>,
    state: SelectionState,
) -> bool {
    &&& sections_match(r.sections@, config, labels, state.selected@, pages, state.page as int)
    &&& r.item_rows@.len() == 0
    &&& r.controls@.len() == 0
}

/// All indices a page shows, row by row.
fn page_indices(page: &Vec<Vec<usize>>) -> (r: Vec<usize>)
    ensures
        r@ == rows_flat(page@),
{
    let mut r: Vec<usize> = Vec::new();
    let mut q: usize = 0;
    while q < page.len()
        invariant
            q <= page@.len(),
            r@ == rows_flat(page@.take(q as int)),
        decreases page@.len() - q,
    {
        let row = &page[q];
        let mut k: usize = 0;
        while k < row.len()
            invariant
                k <= row@.len(),
                row == page@[q as int],
                q < page@.len(),
                r@ == rows_flat(page@.take(q as int)) + row@.take(k as int),
            decreases row@.len() - k,
        {
            r.push(row[k]);
            proof {
                assert(row@.take(k + 1) =~= row@.take(k as int).push(row@[k as int]));
            }
            k = k + 1;
        }
        proof {
            assert(page@.take(q + 1).drop_last() =~= page@.take(q as int));
            assert(page@.take(q + 1).last() == page@[q as int]);
            assert(row@.take(row@.len() as int) =~= row@);
            assert(r@ == rows_flat(page@.take(q + 1)));
        }
        q = q + 1;
    }
    proof {
        assert(page@.take(page@.len() as int) =~= page@);
    }
    r
}

/// The status line of item `i`.
fn status_line(config: &PagedSelectorConfig, labels: &Vec<String>, selected: bool, i: usize) -> (r:
    String)
    requires
        i < labels@.len(),
    ensures
        r@ == spec_status_line(
            selected,
            config.selected_emoji@,
            config.unselected_emoji@,
            labels@[i as int]@,
        ),
{
    let glyph: &str = if selected {
        config.selected_emoji.as_str()
    } else {
        config.unselected_emoji.as_str()
    };
    glyph.to_owned().concat(" | ").concat(labels[i].as_str())
}

/// The status display: one section per page, every page always shown.
fn build_sections(
    config: &PagedSelectorConfig,
    labels: &Vec<String>,
    pages: &Vec<Vec<Vec<usize>>>,
    state: &SelectionState,
) -> (r: Vec<StatusSection>)
    requires
        state.selected@.len() == labels@.len(),
        forall|p: int, q: int, k: int|
            0 <= p < pages@.len() && 0 <= q < pages@[p]@.len() && 0 <= k < pages@[p]@[q]@.len()
                ==> #[trigger] pages@[p]@[q]@[k] < labels@.len(),
    ensures
        sections_match(r@, *config, labels@, state.selected@, pages@, state.page as int),
{
    let mut sections: Vec<StatusSection> = Vec::new();
    let mut p: usize = 0;
    while p < pages.len()
        invariant
            p <= pages@.len(),
            state.selected@.len() == labels@.len(),
            forall|pp: int, q: int, k: int|
                0 <= pp < pages@.len() && 0 <= q < pages@[pp]@.len() && 0 <= k
                    < pages@[pp]@[q]@.len() ==> #[trigger] pages@[pp]@[q]@[k] < labels@.len(),
            sections@.len() == p,
            forall|pp: int|
                0 <= pp < p ==> (#[trigger] sections@[pp]).heading@ == spec_heading(
                    pp,
                    state.page as int,
                ),
            forall|pp: int|
                0 <= pp < p ==> (#[trigger] sections@[pp]).body@ == spec_page_body(
                    *config,
                    labels@,
                    state.selected@,
                    pages@[pp]@,
                ),
        decreases pages@.len() - p,
    {
        let mut heading = String::from_str("Page ").concat(
            crate::text::usize_to_string(p + 1).as_str(),
        );
        if p == state.page {
            heading.append(" (current)");
        }
        let idxs = page_indices(&pages[p]);
        proof {
            crate::layout::lemma_rows_flat_elems(pages@[p as int]@, labels@.len() as int);
        }
        let mut lines: Vec<String> = Vec::new();
        let mut t: usize = 0;
        while t < idxs.len()
            invariant
                t <= idxs@.len(),
                state.selected@.len() == labels@.len(),
                forall|u: int| 0 <= u < idxs@.len() ==> #[trigger] idxs@[u] < labels@.len(),
                lines@.len() == t,
                forall|u: int|
                    0 <= u < t ==> (#[trigger] lines@[u])@ == spec_line_for(
                        *config,
                        labels@,
                        state.selected@,
                        idxs@[u] as int,
                    ),
            decreases idxs@.len() - t,
        {
            let i = idxs[t];
            let line = status_line(config, labels, state.selected[i], i);
            lines.push(line);
            t = t + 1;
        }
        proof {
            assert(str_views(lines@) =~= spec_lines_for(
                *config,
                labels@,
                state.selected@,
                idxs@,
            ));
        }
        let body = crate::text::join_with_newlines(&lines);
        sections.push(StatusSection { heading, body });
        p = p + 1;
    }
    sections
}

/// The toggle-button grid of the current page.
fn build_item_rows(labels: &Vec<String>, ids: &Vec<String>, page: &Vec<Vec<usize>>) -> (r: Vec<
    Vec<ItemButton>,
>)
    requires
        ids@.len() == labels@.len(),
        forall|i: int| 0 <= i < ids@.len() ==> #[trigger] ids@[i]@ == spec_item_id(labels@[i]@),
        forall|q: int, k: int|
            0 <= q < page@.len() && 0 <= k < page@[q]@.len() ==> #[trigger] page@[q]@[k]
                < labels@.len(),
    ensures
        item_rows_match(r@, labels@, page@),
{
    let mut rows: Vec<Vec<ItemButton>> = Vec::new();
    let mut q: usize = 0;
    while q < page.len()
        invariant
            q <= page@.len(),
            ids@.len() == labels@.len(),
            forall|i: int| 0 <= i < ids@.len() ==> #[trigger] ids@[i]@ == spec_item_id(labels@[i]@),
            forall|qq: int, k: int|
                0 <= qq < page@.len() && 0 <= k < page@[qq]@.len() ==> #[trigger] page@[qq]@[k]
                    < labels@.len(),
            rows@.len() == q,
            forall|qq: int| 0 <= qq < q ==> #[trigger] rows@[qq]@.len() == page@[qq]@.len(),
            forall|qq: int, k: int|
                0 <= qq < q && 0 <= k < page@[qq]@.len() ==> {
                    let b = #[trigger] rows@[qq]@[k];
                    let i = page@[qq]@[k];
                    &&& b.item == i
                    &&& b.label@ == labels@[i as int]@
                    &&& b.id@ == spec_item_id(labels@[i as int]@)
                },
        decreases page@.len() - q,
    {
        let prow = &page[q];
        let mut row: Vec<ItemButton> = Vec::new();
        let mut k: usize = 0;
        while k < prow.len()
            invariant
                k <= prow@.len(),
                prow == page@[q as int],
                q < page@.len(),
                ids@.len() == labels@.len(),
                forall|i: int|
                    0 <= i < ids@.len() ==> #[trigger] ids@[i]@ == spec_item_id(labels@[i]@),
                forall|kk: int|
                    0 <= kk < prow@.len() ==> #[trigger] prow@[kk] < labels@.len(),
                row@.len() == k,
                forall|kk: int|
                    0 <= kk < k ==> {
                        let b = #[trigger] row@[kk];
                        let i = prow@[kk];
                        &&& b.item == i
                        &&& b.label@ == labels@[i as int]@
                        &&& b.id@ == spec_item_id(labels@[i as int]@)
                    },
            decreases prow@.len() - k,
        {
            let i = prow[k];
            row.push(ItemButton { item: i, id: ids[i].clone(), label: labels[i].clone() });
            k = k + 1;
        }
        rows.push(row);
        q = q + 1;
    }
    rows
}

/// A full render of a running session.
///
/// Confirm is rendered non-interactive exactly when fewer items are selected
/// than the configured minimum, for every reachable selection state; the
/// Previous and Next controls are present if and only if a strictly valid
/// adjacent page exists.
pub fn render_page(
    config: &PagedSelectorConfig,
    labels: &Vec<String>,
    ids: &Vec<String>,
    pages: &Vec<Vec<Vec<usize>>>,
    state: &SelectionState,
) -> (r: Render)
    requires
        state.selected@.len() == labels@.len(),
        ids@.len() == labels@.len(),
        forall|i: int| 0 <= i < ids@.len() ==> #[trigger] ids@[i]@ == spec_item_id(labels@[i]@),
        forall|p: int, q: int, k: int|
            0 <= p < pages@.len() && 0 <= q < pages@[p]@.len() && 0 <= k < pages@[p]@[q]@.len()
                ==> #[trigger] pages@[p]@[q]@[k] < labels@.len(),
        (state.page as int) < pages@.len(),
    ensures
        render_matches(r, *config, labels@, pages@, *state),
        r.controls@[0].intent == Button::Confirm,
        r.controls@[0].disabled <==> count_true(state.selected@) < config.min,
        (exists|k: int|
            0 <= k < r.controls@.len() && (#[trigger] r.controls@[k]).intent == Button::Previous)
            <==> state.page > 0,
        (exists|k: int|
            0 <= k < r.controls@.len() && (#[trigger] r.controls@[k]).intent == Button::Next)
            <==> (state.page as int) < pages@.len() - 1,
{
    let sections = build_sections(config, labels, pages, state);
    let item_rows = build_item_rows(labels, ids, &pages[state.page]);
    let count = state.count_selected();
    let mut controls: Vec<ControlButton> = Vec::new();
    controls.push(ControlButton { intent: Button::Confirm, disabled: count < config.min });
    controls.push(ControlButton { intent: Button::Abort, disabled: false });
    if state.page > 0 {
        controls.push(ControlButton { intent: Button::Previous, disabled: false });
    }
    if state.page < pages.len() - 1 {
        controls.push(ControlButton { intent: Button::Next, disabled: false });
    }
    let r = Render { sections, item_rows, controls };
    proof {
        let page = state.page as int;
        let last = pages@.len() - 1;
        let cnt = count_true(state.selected@);
        let min = config.min as int;
        assert(r.controls@.map_values(|c: ControlButton| (c.intent, c.disabled))
            =~= spec_control_row(page, last, cnt, min));
        let row = spec_control_row(page, last, cnt, min);
        if page > 0 {
            assert(r.controls@[2].intent == Button::Previous);
        } else {
            assert(forall|k: int|
                0 <= k < r.controls@.len() ==> (#[trigger] r.controls@[k]).intent
                    != Button::Previous);
        }
        if page < last {
            let at: int = if page > 0 {
                3
            } else {
                2
            };
            assert(r.controls@[at].intent == Button::Next);
        } else {
            assert(forall|k: int|
                0 <= k < r.controls@.len() ==> (#[trigger] r.controls@[k]).intent != Button::Next);
        }
    }
    r
}

/// The final render of a resolved session: status display intact, every
/// interactive control stripped.
pub fn render_final(
    config: &PagedSelectorConfig,
    labels: &Vec<String>,
    pages: &Vec<Vec<Vec<usize>>>,
    state: &SelectionState,
) -> (r: Render)
    requires
        state.selected@.len() == labels@.len(),
        forall|p: int, q: int, k: int|
            0 <= p < pages@.len() && 0 <= q < pages@[p]@.len() && 0 <= k < pages@[p]@[q]@.len()
                ==> #[trigger] pages@[p]@[q]@[k] < labels@.len(),
    ensures
        render_stripped_matches(r, *config, labels@, pages@, *state),
{
    let sections = build_sections(config, labels, pages, state);
    Render { sections, item_rows: Vec::new(), controls: Vec::new() }
}

} // verus!
