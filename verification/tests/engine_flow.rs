use paged_selector::button::Button;
use paged_selector::config::ConfigurationError;
use paged_selector::config::PagedSelectorConfig;
use paged_selector::engine::SelectorEvent;
use paged_selector::engine::SelectorOutcome;
use paged_selector::engine::SelectorSession;
use paged_selector::engine::SessionStart;
use paged_selector::engine::start;
use paged_selector::render::Render;

fn labels_of(names: &[&str]) -> Vec<String> {
    let mut v = Vec::new();
    for n in names {
        v.push(n.to_string());
    }
    v
}

fn running(config: PagedSelectorConfig, names: &[&str]) -> (SelectorSession, Render) {
    match start(config, labels_of(names)) {
        Ok(SessionStart::Running(session, render)) => (session, render),
        _ => panic!("expected a running session"),
    }
}

fn has_intent(render: &Render, intent: Button) -> bool {
    render.controls.iter().any(|c| c.intent == intent)
}

#[test]
fn empty_input_resolves_immediately() {
    let r = start(PagedSelectorConfig::default(), Vec::new());
    assert!(matches!(r, Ok(SessionStart::Empty)));
}

#[test]
fn invalid_capacity_zero_items_per_row() {
    let config = PagedSelectorConfig::default().set_items_per_row(0);
    let r = start(config, labels_of(&["a"]));
    assert!(matches!(r, Err(ConfigurationError::InvalidCapacity)));
}

#[test]
fn invalid_capacity_too_many_items_per_row() {
    let config = PagedSelectorConfig::default().set_items_per_row(6);
    let r = start(config, labels_of(&["a"]));
    assert!(matches!(r, Err(ConfigurationError::InvalidCapacity)));
}

#[test]
fn invalid_capacity_too_many_rows_per_page() {
    let config = PagedSelectorConfig::default().set_rows_per_page(5);
    let r = start(config, labels_of(&["a"]));
    assert!(matches!(r, Err(ConfigurationError::InvalidCapacity)));
}

#[test]
fn colliding_labels_are_a_configuration_error() {
    let r = start(PagedSelectorConfig::default(), labels_of(&["same", "same"]));
    assert!(matches!(r, Err(ConfigurationError::IdentifierCollision)));
}

#[test]
fn pre_selection_past_the_end_is_a_configuration_error() {
    let config = PagedSelectorConfig::default().set_pre_selected(vec![5]);
    let r = start(config, labels_of(&["a", "b"]));
    assert!(matches!(r, Err(ConfigurationError::PreSelectionOutOfRange)));
}

#[test]
fn pre_selection_with_no_items_is_a_configuration_error() {
    let config = PagedSelectorConfig::default().set_pre_selected(vec![0]);
    let r = start(config, Vec::new());
    assert!(matches!(r, Err(ConfigurationError::PreSelectionOutOfRange)));
}

#[test]
fn seeded_selection_confirms_to_the_seed() {
    let config = PagedSelectorConfig::default().set_pre_selected(vec![1]);
    let (mut session, _render) = running(config, &["a", "b", "c"]);
    let out = session.step(SelectorEvent::Interaction(
        Button::Confirm.id().to_string(),
    ));
    match out.outcome {
        Some(SelectorOutcome::Confirmed(sel)) => assert_eq!(sel, vec![1]),
        _ => panic!("expected a confirmed outcome"),
    }
}

#[test]
fn end_to_end_two_page_selection() {
    // Seven items at five per row, one row per page: two pages.
    let config = PagedSelectorConfig::default()
        .set_items_per_row(5)
        .set_rows_per_page(1);
    let (mut session, render) = running(config, &["A", "B", "C", "D", "E", "F", "G"]);
    assert_eq!(session.pages.len(), 2);
    assert_eq!(session.pages[0], vec![vec![0, 1, 2, 3, 4]]);
    assert_eq!(session.pages[1], vec![vec![5, 6]]);
    assert_eq!(render.item_rows.len(), 1);
    assert_eq!(render.item_rows[0].len(), 5);
    assert_eq!(render.item_rows[0][0].label, "A");
    assert_eq!(render.item_rows[0][0].id, "_tools_selector_A");

    // Select A.
    let out = session.step(SelectorEvent::Interaction("_tools_selector_A".to_string()));
    assert!(out.acknowledge);
    assert!(out.outcome.is_none());
    // Navigate to page 1.
    let out = session.step(SelectorEvent::Interaction(Button::Next.id().to_string()));
    assert!(out.outcome.is_none());
    assert_eq!(out.publish.item_rows.len(), 1);
    assert_eq!(out.publish.item_rows[0].len(), 2);
    assert_eq!(out.publish.item_rows[0][0].label, "F");
    // Select F.
    let out = session.step(SelectorEvent::Interaction("_tools_selector_F".to_string()));
    assert!(out.outcome.is_none());
    // Confirm.
    let out = session.step(SelectorEvent::Interaction(
        Button::Confirm.id().to_string(),
    ));
    match out.outcome {
        Some(SelectorOutcome::Confirmed(sel)) => assert_eq!(sel, vec![0, 5]),
        _ => panic!("expected a confirmed outcome"),
    }
    // The terminal publish strips the controls and keeps the status display.
    assert!(out.publish.controls.is_empty());
    assert!(out.publish.item_rows.is_empty());
    assert_eq!(out.publish.sections.len(), 2);
}

#[test]
fn confirm_disabled_below_minimum_then_times_out() {
    // One item must be selected; none ever is, so Confirm stays disabled and
    // the click can never be delivered.  The session waits until the
    // inactivity timeout fires.
    let config = PagedSelectorConfig::default().min_select(1);
    let (mut session, render) = running(config, &["a", "b"]);
    assert_eq!(render.controls[0].intent, Button::Confirm);
    assert!(render.controls[0].disabled);
    let out = session.step(SelectorEvent::TimedOut);
    assert!(!out.acknowledge);
    assert!(matches!(out.outcome, Some(SelectorOutcome::TimedOut)));
}

#[test]
fn confirm_enabled_exactly_at_minimum() {
    let config = PagedSelectorConfig::default().min_select(1);
    let (mut session, render) = running(config, &["a", "b"]);
    assert!(render.controls[0].disabled);
    let out = session.step(SelectorEvent::Interaction("_tools_selector_a".to_string()));
    assert!(!out.publish.controls[0].disabled);
    // Toggling it off disables Confirm again.
    let out = session.step(SelectorEvent::Interaction("_tools_selector_a".to_string()));
    assert!(out.publish.controls[0].disabled);
}

#[test]
fn timeout_before_any_event_strips_controls() {
    let (mut session, render) = running(PagedSelectorConfig::default(), &["a", "b"]);
    assert!(!render.controls.is_empty());
    let out = session.step(SelectorEvent::TimedOut);
    assert!(matches!(out.outcome, Some(SelectorOutcome::TimedOut)));
    assert!(out.publish.controls.is_empty());
    assert!(out.publish.item_rows.is_empty());
    assert_eq!(out.publish.sections.len(), 1);
}

#[test]
fn abort_resolves_without_a_selection() {
    let (mut session, _render) = running(PagedSelectorConfig::default(), &["a"]);
    let out = session.step(SelectorEvent::Interaction(Button::Abort.id().to_string()));
    assert!(out.acknowledge);
    assert!(matches!(out.outcome, Some(SelectorOutcome::Aborted)));
    assert!(out.publish.controls.is_empty());
}

#[test]
fn stream_closure_is_terminal() {
    let (mut session, _render) = running(PagedSelectorConfig::default(), &["a"]);
    let out = session.step(SelectorEvent::Closed);
    assert!(!out.acknowledge);
    assert!(matches!(out.outcome, Some(SelectorOutcome::StreamClosed)));
}

#[test]
fn navigation_presence_follows_adjacent_pages() {
    let config = PagedSelectorConfig::default()
        .set_items_per_row(5)
        .set_rows_per_page(1);
    let (mut session, render) = running(config, &["A", "B", "C", "D", "E", "F", "G"]);
    // Page 0: Next only.
    assert!(!has_intent(&render, Button::Previous));
    assert!(has_intent(&render, Button::Next));
    let out = session.step(SelectorEvent::Interaction(Button::Next.id().to_string()));
    // Page 1 (the last): Previous only.
    assert!(has_intent(&out.publish, Button::Previous));
    assert!(!has_intent(&out.publish, Button::Next));
}

#[test]
fn single_page_has_no_navigation() {
    let (_session, render) = running(PagedSelectorConfig::default(), &["a", "b"]);
    assert!(!has_intent(&render, Button::Previous));
    assert!(!has_intent(&render, Button::Next));
    assert_eq!(render.controls.len(), 2);
    assert_eq!(render.controls[1].intent, Button::Abort);
    assert!(!render.controls[1].disabled);
}

#[test]
fn page_turns_saturate_at_the_edges() {
    let config = PagedSelectorConfig::default()
        .set_items_per_row(5)
        .set_rows_per_page(1);
    let (mut session, _render) = running(config, &["A", "B", "C", "D", "E", "F", "G"]);
    // A stale Previous on the first page stays on the first page.
    let out = session.step(SelectorEvent::Interaction(
        Button::Previous.id().to_string(),
    ));
    assert_eq!(session.state.page, 0);
    assert!(out.outcome.is_none());
    session.step(SelectorEvent::Interaction(Button::Next.id().to_string()));
    assert_eq!(session.state.page, 1);
    // A stale Next on the last page stays on the last page.
    session.step(SelectorEvent::Interaction(Button::Next.id().to_string()));
    assert_eq!(session.state.page, 1);
}

#[test]
fn every_interaction_is_acknowledged_once() {
    let (mut session, _render) = running(PagedSelectorConfig::default(), &["a", "b"]);
    let out = session.step(SelectorEvent::Interaction("_tools_selector_a".to_string()));
    assert!(out.acknowledge);
    let out = session.step(SelectorEvent::TimedOut);
    assert!(!out.acknowledge);
}

#[test]
fn knows_identifier_classifies_controls_items_and_strangers() {
    let (session, _render) = running(PagedSelectorConfig::default(), &["a", "b"]);
    assert!(session.knows_identifier("_tools_button_confirm"));
    assert!(session.knows_identifier("_tools_button_previous"));
    assert!(session.knows_identifier("_tools_selector_a"));
    assert!(session.knows_identifier("_tools_selector_b"));
    assert!(!session.knows_identifier("_tools_selector_c"));
    assert!(!session.knows_identifier("something else"));
}

#[test]
fn status_display_shows_every_page_with_markers() {
    let config = PagedSelectorConfig::default()
        .set_items_per_row(5)
        .set_rows_per_page(1);
    let (mut session, render) = running(config, &["A", "B", "C", "D", "E", "F", "G"]);
    assert_eq!(render.sections.len(), 2);
    assert_eq!(render.sections[0].heading, "Page 1 (current)");
    assert_eq!(render.sections[1].heading, "Page 2");
    assert_eq!(
        render.sections[0].body,
        "\u{2b1b} | A\n\u{2b1b} | B\n\u{2b1b} | C\n\u{2b1b} | D\n\u{2b1b} | E"
    );
    assert_eq!(render.sections[1].body, "\u{2b1b} | F\n\u{2b1b} | G");
    let out = session.step(SelectorEvent::Interaction("_tools_selector_B".to_string()));
    assert_eq!(
        out.publish.sections[0].body,
        "\u{2b1b} | A\n\u{2705} | B\n\u{2b1b} | C\n\u{2b1b} | D\n\u{2b1b} | E"
    );
    let out = session.step(SelectorEvent::Interaction(Button::Next.id().to_string()));
    assert_eq!(out.publish.sections[0].heading, "Page 1");
    assert_eq!(out.publish.sections[1].heading, "Page 2 (current)");
}

#[test]
fn custom_glyphs_are_used_in_the_status_display() {
    let config = PagedSelectorConfig::default()
        .set_unselected_emoji("-".to_string())
        .set_selected_emoji("+".to_string())
        .set_pre_selected(vec![0]);
    let (_session, render) = running(config, &["x", "y"]);
    assert_eq!(render.sections[0].body, "+ | x\n- | y");
}
