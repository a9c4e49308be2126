//! Per-session configuration of the paged selector, and the errors a session
//! can fail with before any interaction takes place.

use vstd::prelude::*;
use vstd::string::StringExecFns;

verus! {

/// The platform's hard limit on buttons in one row.
pub const MAX_ITEMS_PER_ROW: usize = 5;

/// The platform's hard limit on selectable rows in one page (the fifth row is
/// reserved for the control buttons).
pub const MAX_ROWS_PER_PAGE: usize = 4;

/// A selector session could not even be constructed.
#[derive(Clone, Copy, Debug, PartialEq, Eq, Structural)]
pub enum ConfigurationError {
    /// Items-per-row or rows-per-page lies outside the platform's limits.
    InvalidCapacity,
    /// Two items produced the same display text, so their interaction
    /// identifiers would collide.
    IdentifierCollision,
    /// A pre-selected index points past the end of the item list.
    PreSelectionOutOfRange,
}

/// Immutable per-session configuration.
#[derive(Clone, Debug)]
pub struct PagedSelectorConfig {
    /// Marker glyph put before an unselected item in the status display.
    pub unselected_emoji: String,
    /// Marker glyph put before a selected item in the status display.
    pub selected_emoji: String,
    /// How many toggle buttons go in each row; must be between 1 and 5.
    pub items_rows: usize,
    /// How many rows of toggle buttons go on each page; must be between 1
    /// and 4.
    pub rows_pages: usize,
    /// Inactivity timeout in milliseconds; it restarts after every event.
    pub timeout_millis: u64,
    /// The minimum number of selected items required to confirm.
    pub min: usize,
    /// Indices of items that start out selected.
    pub pre_selected: Vec<usize>,
}

impl PagedSelectorConfig {
    /// Both capacities lie within the platform's limits.
    pub open spec fn capacities_valid(self) -> bool {
        1 <= self.items_rows <= MAX_ITEMS_PER_ROW && 1 <= self.rows_pages <= MAX_ROWS_PER_PAGE
    }

    /// How many items fit on one page.
    pub open spec fn spec_page_capacity(self) -> int {
        self.items_rows * self.rows_pages
    }

    pub fn check_capacities(&self) -> (r: bool)
        ensures
            r == self.capacities_valid(),
    {
        1 <= self.items_rows && self.items_rows <= MAX_ITEMS_PER_ROW && 1 <= self.rows_pages
            && self.rows_pages <= MAX_ROWS_PER_PAGE
    }

    pub fn set_unselected_emoji(self, emoji: String) -> (r: Self)
        ensures
            r == (Self { unselected_emoji: emoji, ..self }),
    {
        Self { unselected_emoji: emoji, ..self }
    }

    pub fn set_selected_emoji(self, emoji: String) -> (r: Self)
        ensures
            r == (Self { selected_emoji: emoji, ..self }),
    {
        Self { selected_emoji: emoji, ..self }
    }

    pub fn set_items_per_row(self, count: usize) -> (r: Self)
        ensures
            r == (Self { items_rows: count, ..self }),
    {
        Self { items_rows: count, ..self }
    }

    pub fn set_rows_per_page(self, count: usize) -> (r: Self)
        ensures
            r == (Self { rows_pages: count, ..self }),
    {
        Self { rows_pages: count, ..self }
    }

    pub fn set_timeout(self, timeout_millis: u64) -> (r: Self)
        ensures
            r == (Self { timeout_millis, ..self }),
    {
        Self { timeout_millis, ..self }
    }

    pub fn min_select(self, min: usize) -> (r: Self)
        ensures
            r == (Self { min, ..self }),
    {
        Self { min, ..self }
    }

    pub fn set_pre_selected(self, pre_selected: Vec<usize>) -> (r: Self)
        ensures
            r == (Self { pre_selected, ..self }),
    {
        Self { pre_selected, ..self }
    }
}

impl Default for PagedSelectorConfig {
    /// Full pages of five-button rows, a one-minute inactivity timeout, no
    /// minimum selection, nothing pre-selected.
    fn default() -> (r: Self)
        ensures
            r.unselected_emoji@ == "\u{2b1b}"@,
            r.selected_emoji@ == "\u{2705}"@,
            r.items_rows == MAX_ITEMS_PER_ROW,
            r.rows_pages == MAX_ROWS_PER_PAGE,
            r.timeout_millis == 60000,
            r.min == 0,
            r.pre_selected@ == Seq::<usize>::empty(),
    {
        PagedSelectorConfig {
            unselected_emoji: String::from_str("\u{2b1b}"),
            selected_emoji: String::from_str("\u{2705}"),
            items_rows: MAX_ITEMS_PER_ROW,
            rows_pages: MAX_ROWS_PER_PAGE,
            timeout_millis: 60000,
            min: 0,
            pre_selected: Vec::new(),
        }
    }
}

} // verus!
