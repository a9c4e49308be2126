use paged_selector::button::Button;
use paged_selector::button::ButtonStyle;
use paged_selector::layout::build_ids;
use paged_selector::layout::build_pages;
use paged_selector::layout::find_identifier;
use paged_selector::layout::has_duplicate_ids;
use paged_selector::selection::SelectionState;
use paged_selector::text::chunk_join;
use paged_selector::text::join_with_newlines;
use paged_selector::text::str_eq;
use paged_selector::text::usize_to_string;

fn strings_of(names: &[&str]) -> Vec<String> {
    let mut v = Vec::new();
    for n in names {
        v.push(n.to_string());
    }
    v
}

fn flatten(pages: &Vec<Vec<Vec<usize>>>) -> Vec<usize> {
    let mut out = Vec::new();
    for page in pages {
        for row in page {
            for i in row {
                out.push(*i);
            }
        }
    }
    out
}

#[test]
fn button_ids_round_trip_through_parse() {
    for b in [Button::Confirm, Button::Abort, Button::Next, Button::Previous] {
        match Button::parse(b.id()) {
            Ok(parsed) => assert_eq!(parsed, b),
            Err(_) => panic!("a control id must parse back to its control"),
        }
    }
}

#[test]
fn button_registry_describes_the_four_controls() {
    assert_eq!(Button::Confirm.id(), "_tools_button_confirm");
    assert_eq!(Button::Abort.id(), "_tools_button_abort");
    assert_eq!(Button::Next.id(), "_tools_button_next");
    assert_eq!(Button::Previous.id(), "_tools_button_previous");
    assert_eq!(Button::Confirm.label(), "confirm");
    assert_eq!(Button::Previous.label(), "previous");
    assert_eq!(Button::Confirm.emoji(), "\u{2705}");
    assert_eq!(Button::Abort.emoji(), "\u{274c}");
    assert_eq!(Button::Confirm.style(), ButtonStyle::Success);
    assert_eq!(Button::Abort.style(), ButtonStyle::Danger);
    assert_eq!(Button::Next.style(), ButtonStyle::Primary);
    assert_eq!(Button::Previous.style(), ButtonStyle::Primary);
}

#[test]
fn parse_keeps_the_raw_identifier_on_failure() {
    match Button::parse("_tools_selector_pancake") {
        Ok(_) => panic!("an item identifier must not parse as a control"),
        Err(e) => assert_eq!(e.0, "_tools_selector_pancake"),
    }
}

#[test]
fn page_count_is_the_ceiling_of_items_over_capacity() {
    // Capacity 20: 0 items make 0 pages, 20 make 1, 21 make 2.
    assert_eq!(build_pages(0, 5, 4).len(), 0);
    assert_eq!(build_pages(1, 5, 4).len(), 1);
    assert_eq!(build_pages(20, 5, 4).len(), 1);
    assert_eq!(build_pages(21, 5, 4).len(), 2);
    // Capacity 5: seven items make two pages.
    assert_eq!(build_pages(7, 5, 1).len(), 2);
    // Capacity 1: one page per item.
    assert_eq!(build_pages(4, 1, 1).len(), 4);
}

#[test]
fn pages_partition_the_items_in_order() {
    for (n, ipr, rpp) in [(7usize, 5usize, 1usize), (13, 3, 2), (20, 5, 4), (1, 1, 1), (9, 4, 2)] {
        let pages = build_pages(n, ipr, rpp);
        let flat = flatten(&pages);
        let expected: Vec<usize> = (0..n).collect();
        assert_eq!(flat, expected);
        for page in &pages {
            assert!(1 <= page.len() && page.len() <= rpp);
            for row in page {
                assert!(1 <= row.len() && row.len() <= ipr);
            }
        }
    }
}

#[test]
fn rows_fill_before_pages_break() {
    let pages = build_pages(13, 3, 2);
    assert_eq!(pages[0], vec![vec![0, 1, 2], vec![3, 4, 5]]);
    assert_eq!(pages[1], vec![vec![6, 7, 8], vec![9, 10, 11]]);
    assert_eq!(pages[2], vec![vec![12]]);
}

#[test]
fn item_identifiers_carry_the_namespace_prefix() {
    let ids = build_ids(&strings_of(&["alpha", "beta"]));
    assert_eq!(ids[0], "_tools_selector_alpha");
    assert_eq!(ids[1], "_tools_selector_beta");
}

#[test]
fn identifier_lookup_finds_exactly_the_stored_ids() {
    let ids = build_ids(&strings_of(&["alpha", "beta"]));
    assert_eq!(find_identifier(&ids, "_tools_selector_beta"), Some(1));
    assert_eq!(find_identifier(&ids, "_tools_selector_alpha"), Some(0));
    assert_eq!(find_identifier(&ids, "_tools_selector_gamma"), None);
    assert_eq!(find_identifier(&ids, "_tools_button_confirm"), None);
}

#[test]
fn duplicate_detection_matches_equal_labels() {
    assert!(!has_duplicate_ids(&build_ids(&strings_of(&["a", "b", "c"]))));
    assert!(has_duplicate_ids(&build_ids(&strings_of(&["a", "b", "a"]))));
    assert!(!has_duplicate_ids(&build_ids(&Vec::new())));
}

#[test]
fn toggle_is_its_own_inverse_on_concrete_state() {
    let mut state = SelectionState::new(3);
    let before = state.selected.clone();
    state.toggle(1);
    assert_eq!(state.selected, vec![false, true, false]);
    state.toggle(1);
    assert_eq!(state.selected, before);
}

#[test]
fn count_and_indices_follow_the_selection() {
    let mut state = SelectionState::new(4);
    assert_eq!(state.count_selected(), 0);
    assert_eq!(state.selected_indices(), Vec::<usize>::new());
    state.toggle(2);
    state.toggle(0);
    assert_eq!(state.count_selected(), 2);
    assert_eq!(state.selected_indices(), vec![0, 2]);
}

#[test]
fn string_equality_compares_contents() {
    assert!(str_eq("abc", "abc"));
    assert!(!str_eq("abc", "abd"));
    assert!(str_eq("", ""));
    assert!(!str_eq("a", ""));
}

#[test]
fn numbers_render_in_decimal() {
    assert_eq!(usize_to_string(0), "0");
    assert_eq!(usize_to_string(7), "7");
    assert_eq!(usize_to_string(10), "10");
    assert_eq!(usize_to_string(123), "123");
    assert_eq!(usize_to_string(60000), "60000");
}

#[test]
fn joining_lines_puts_single_newlines_between() {
    assert_eq!(join_with_newlines(&Vec::new()), "");
    assert_eq!(join_with_newlines(&strings_of(&["only"])), "only");
    assert_eq!(join_with_newlines(&strings_of(&["a", "b", "c"])), "a\nb\nc");
}

#[test]
fn chunked_fields_join_in_groups() {
    let lines = strings_of(&["a", "b", "c", "d", "e"]);
    assert_eq!(chunk_join(&lines, 2), strings_of(&["a\nb", "c\nd", "e"]));
    assert_eq!(chunk_join(&lines, 5), strings_of(&["a\nb\nc\nd\ne"]));
    assert_eq!(chunk_join(&lines, 1), lines);
    assert_eq!(chunk_join(&Vec::new(), 3), Vec::<String>::new());
}
