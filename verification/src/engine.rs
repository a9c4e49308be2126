//! The selector engine: a state machine that starts from the item list and
//! the configuration, and consumes one external event at a time — a button
//! interaction, the inactivity timeout, or the closing of the event stream —
//! until it resolves.  The platform binding drives it: it publishes what a
//! step hands back, acknowledges the event when the step says so, and stops
//! on a terminal outcome.

use vstd::prelude::*;

use crate::button::Button;
use crate::config::ConfigurationError;
use crate::config::PagedSelectorConfig;
use crate::layout::build_ids;
use crate::layout::build_pages;
use crate::layout::ids_distinct;
use crate::layout::index_range;
use crate::layout::pages_flat;
use crate::layout::pages_well_formed;
use crate::layout::spec_item_id;
use crate::render::Render;
use crate::render::render_final;
use crate::render::render_matches;
use crate::render::render_page;
use crate::render::render_stripped_matches;
use crate::selection::SelectionState;
use crate::selection::toggle_set;
use crate::text::str_views;

verus! {

/// The interaction identifiers the item labels give rise to.
pub open spec fn spec_item_ids(labels: Seq<String>) -> Seq<Seq<char>> {
    labels.map_values(|l: String| spec_item_id(l@))
}

/// The identifier names one of the four control buttons.
pub open spec fn spec_is_control(id: Seq<char>) -> bool {
    ||| id == Button::Confirm.spec_id()
    ||| id == Button::Abort.spec_id()
    ||| id == Button::Next.spec_id()
    ||| id == Button::Previous.spec_id()
}

/// One external occurrence the engine reacts to.
#[derive(Debug)]
pub enum SelectorEvent {
    /// A button of the published message was clicked; carries the raw
    /// interaction identifier.
    Interaction(String),
    /// The inactivity timeout elapsed with no interaction.
    TimedOut,
    /// The event stream closed: no further events will ever arrive.
    Closed,
}

/// How a session ended.  Only a confirmed session yields a selection; the
/// other outcomes are distinguishable but carry none.
#[derive(Debug)]
pub enum SelectorOutcome {
    /// The operator confirmed; the selected item indices, in increasing
    /// order.
    Confirmed(Vec<usize>),
    /// The operator pressed the abort button.
    Aborted,
    /// The inactivity timeout fired.
    TimedOut,
    /// The event stream closed before the operator resolved the session.
    StreamClosed,
}

/// What the platform binding must do after one step: acknowledge the event
/// if one was delivered, publish the new render, and stop if an outcome is
/// set.  A terminal publish has every interactive control stripped while the
/// status display stays intact.
#[derive(Debug)]
pub struct StepOutput {
    /// Acknowledge the delivered event, exactly once.
    pub acknowledge: bool,
    /// The content to publish to the target message.
    pub publish: Render,
    /// Set exactly on terminal steps.
    pub outcome: Option<SelectorOutcome>,
}

/// A running selector session: the immutable layout derived at start, and
/// the one mutable selection state.
#[derive(Debug)]
pub struct SelectorSession {
    pub config: PagedSelectorConfig,
    /// The display label of every item, in the caller's order.
    pub labels: Vec<String>,
    /// The interaction identifier of every item, derived from its label.
    pub ids: Vec<String>,
    /// The page grid, computed once at session start.
    pub pages: Vec<Vec<Vec<usize>>>,
    /// The only mutable state: the selection and the current page.
    pub state: SelectionState,
}

impl SelectorSession {
    /// The session invariant: valid capacities, identifiers derived from the
    /// labels and collision-free, a well-formed page grid over a non-empty
    /// item list, and a selection vector and page index that fit it.
    pub open spec fn well_formed(self) -> bool {
        &&& self.config.capacities_valid()
        &&& self.labels@.len() >= 1
        &&& self.ids@.len() == self.labels@.len()
        &&& forall|i: int|
            0 <= i < self.ids@.len() ==> (#[trigger] self.ids@[i])@ == spec_item_id(
                self.labels@[i]@,
            )
        &&& ids_distinct(str_views(self.ids@))
        &&& pages_well_formed(
            self.pages@,
            self.labels@.len() as int,
            self.config.items_rows as int,
            self.config.rows_pages as int,
        )
        &&& self.pages@.len() >= 1
        &&& self.state.selected@.len() == self.labels@.len()
        &&& (self.state.page as int) < self.pages@.len()
    }

    /// The identifier is one the session's message can produce: a control
    /// button's, or one of the session's item identifiers.
    pub open spec fn spec_knows(self, id: Seq<char>) -> bool {
        spec_is_control(id) || exists|i: int|
            0 <= i < self.ids@.len() && (#[trigger] self.ids@[i])@ == id
    }

    /// Decide whether an identifier belongs to this session's message.
    pub fn knows_identifier(&self, id: &str) -> (r: bool)
        ensures
            r == self.spec_knows(id@),
    {
        match Button::parse(id) {
            Ok(_) => true,
            Err(_) => crate::layout::find_identifier(&self.ids, id).is_some(),
        }
    }

    /// Apply one external event.
    ///
    /// Exactly the delivered interaction events are acknowledged, each once,
    /// whichever branch handles them.  A control identifier resolves or turns
    /// the page; any other identifier names an item, whose selection is
    /// toggled.  Page turns saturate at the first and last page.  Every
    /// terminal step hands back a publish with the controls stripped and the
    /// status display intact.
    pub fn step(&mut self, event: SelectorEvent) -> (out: StepOutput)
        requires
            old(self).well_formed(),
            match event {
                SelectorEvent::Interaction(id) => old(self).spec_knows(id@),
                _ => true,
            },
        ensures
            final(self).well_formed(),
            final(self).config == old(self).config,
            final(self).labels == old(self).labels,
            final(self).ids == old(self).ids,
            final(self).pages == old(self).pages,
            out.acknowledge == (event is Interaction),
            match event {
                SelectorEvent::TimedOut => {
                    &&& out.outcome == Some(SelectorOutcome::TimedOut)
                    &&& final(self).state == old(self).state
                    &&& render_stripped_matches(
                        out.publish,
                        old(self).config,
                        old(self).labels@,
                        old(self).pages@,
                        old(self).state,
                    )
                },
                SelectorEvent::Closed => {
                    &&& out.outcome == Some(SelectorOutcome::StreamClosed)
                    &&& final(self).state == old(self).state
                    &&& render_stripped_matches(
                        out.publish,
                        old(self).config,
                        old(self).labels@,
                        old(self).pages@,
                        old(self).state,
                    )
                },
                SelectorEvent::Interaction(id) => {
                    let idv = id@;
                    &&& (idv == Button::Confirm.spec_id() ==> {
                        &&& final(self).state == old(self).state
                        &&& match out.outcome {
                            Some(SelectorOutcome::Confirmed(sel)) => {
                                &&& forall|k: int|
                                    0 <= k < sel@.len() ==> (#[trigger] sel@[k]) < old(
                                        self,
                                    ).labels@.len() && old(self).state.selected@[sel@[k] as int]
                                &&& forall|k1: int, k2: int|
                                    0 <= k1 < k2 < sel@.len() ==> sel@[k1] < sel@[k2]
                                &&& forall|i: int|
                                    0 <= i < old(self).state.selected@.len() && old(
                                        self,
                                    ).state.selected@[i] ==> exists|k: int|
                                        0 <= k < sel@.len() && sel@[k] == i
                            },
                            _ => false,
                        }
                        &&& render_stripped_matches(
                            out.publish,
                            old(self).config,
                            old(self).labels@,
                            old(self).pages@,
                            old(self).state,
                        )
                    })
                    &&& (idv == Button::Abort.spec_id() ==> {
                        &&& final(self).state == old(self).state
                        &&& out.outcome == Some(SelectorOutcome::Aborted)
                        &&& render_stripped_matches(
                            out.publish,
                            old(self).config,
                            old(self).labels@,
                            old(self).pages@,
                            old(self).state,
                        )
                    })
                    &&& (idv == Button::Next.spec_id() ==> {
                        &&& out.outcome is None
                        &&& final(self).state.selected == old(self).state.selected
                        &&& final(self).state.page as int == vstd::math::min(
                            old(self).state.page as int + 1,
                            old(self).pages@.len() - 1,
                        )
                        &&& render_matches(
                            out.publish,
                            old(self).config,
                            old(self).labels@,
                            old(self).pages@,
                            final(self).state,
                        )
                    })
                    &&& (idv == Button::Previous.spec_id() ==> {
                        &&& out.outcome is None
                        &&& final(self).state.selected == old(self).state.selected
                        &&& final(self).state.page as int == vstd::math::max(
                            old(self).state.page as int - 1,
                            0,
                        )
                        &&& render_matches(
                            out.publish,
                            old(self).config,
                            old(self).labels@,
                            old(self).pages@,
                            final(self).state,
                        )
                    })
                    &&& (!spec_is_control(idv) ==> {
                        &&& out.outcome is None
                        &&& final(self).state.page == old(self).state.page
                        &&& forall|i: int|
                            0 <= i < old(self).ids@.len() && (#[trigger] old(self).ids@[i])@ == idv
                                ==> final(self).state.selected@ == old(self).state.selected@.update(
                                i,
                                !old(self).state.selected@[i],
                            ) && final(self).state.spec_selected() == toggle_set(
                                old(self).state.spec_selected(),
                                i,
                            )
                        &&& render_matches(
                            out.publish,
                            old(self).config,
                            old(self).labels@,
                            old(self).pages@,
                            final(self).state,
                        )
                    })
                },
            },
    {
        proof {
            Button::lemma_control_ids_distinct();
        }
        match event {
            SelectorEvent::TimedOut => {
                let publish = render_final(&self.config, &self.labels, &self.pages, &self.state);
                StepOutput { acknowledge: false, publish, outcome: Some(SelectorOutcome::TimedOut) }
            },
            SelectorEvent::Closed => {
                let publish = render_final(&self.config, &self.labels, &self.pages, &self.state);
                StepOutput {
                    acknowledge: false,
                    publish,
                    outcome: Some(SelectorOutcome::StreamClosed),
                }
            },
            SelectorEvent::Interaction(id) => {
                match Button::parse(id.as_str()) {
                    Ok(Button::Confirm) => {
                        let sel = self.state.selected_indices();
                        let publish = render_final(
                            &self.config,
                            &self.labels,
                            &self.pages,
                            &self.state,
                        );
                        StepOutput {
                            acknowledge: true,
                            publish,
                            outcome: Some(SelectorOutcome::Confirmed(sel)),
                        }
                    },
                    Ok(Button::Abort) => {
                        let publish = render_final(
                            &self.config,
                            &self.labels,
                            &self.pages,
                            &self.state,
                        );
                        StepOutput {
                            acknowledge: true,
                            publish,
                            outcome: Some(SelectorOutcome::Aborted),
                        }
                    },
                    Ok(Button::Next) => {
                        if self.state.page < self.pages.len() - 1 {
                            self.state.page = self.state.page + 1;
                        }
                        let publish = render_page(
                            &self.config,
                            &self.labels,
                            &self.ids,
                            &self.pages,
                            &self.state,
                        );
                        StepOutput { acknowledge: true, publish, outcome: None }
                    },
                    Ok(Button::Previous) => {
                        if self.state.page > 0 {
                            self.state.page = self.state.page - 1;
                        }
                        let publish = render_page(
                            &self.config,
                            &self.labels,
                            &self.ids,
                            &self.pages,
                            &self.state,
                        );
                        StepOutput { acknowledge: true, publish, outcome: None }
                    },
                    Err(_) => {
                        match crate::layout::find_identifier(&self.ids, id.as_str()) {
                            Some(i) => {
                                proof {
                                    assert forall|j: int|
                                        0 <= j < self.ids@.len() && (self.ids@[j])@
                                            == id@ implies j == i as int by {
                                        if j != i as int {
                                            assert(str_views(self.ids@)[j] == str_views(
                                                self.ids@,
                                            )[i as int]);
                                        }
                                    }
                                }
                                self.state.toggle(i);
                                let publish = render_page(
                                    &self.config,
                                    &self.labels,
                                    &self.ids,
                                    &self.pages,
                                    &self.state,
                                );
                                StepOutput { acknowledge: true, publish, outcome: None }
                            },
                            None => {
                                proof {
                                    let i = choose|i: int|
                                        0 <= i < self.ids@.len() && (#[trigger] self.ids@[i])@
                                            == id@;
                                    assert((self.ids@[i])@ == id@);
                                    assert(false);
                                }
                                unreached()
                            },
                        }
                    },
                }
            },
        }
    }
}

/// How a session begins: with no items it is already resolved — a successful
/// empty selection, with nothing rendered and no subscription to create —
/// otherwise it runs, and the first render is published as given.
#[derive(Debug)]
pub enum SessionStart {
    /// The empty item list resolves immediately: an empty selection, zero
    /// renders, zero event subscriptions.
    Empty,
    /// The session to drive and the first content to publish.
    Running(SelectorSession, Render),
}

/// Build a session: validate the configuration, derive the identifiers,
/// partition the items into pages, and seed the selection.
#[verifier::loop_isolation(false)]
pub fn start(config: PagedSelectorConfig, labels: Vec<String>) -> (r: Result<
    SessionStart,
    ConfigurationError,
>)
    ensures
        match r {
            Ok(s) => match s {
                SessionStart::Empty => {
                    &&& labels@.len() == 0
                    &&& config.capacities_valid()
                    &&& config.pre_selected@.len() == 0
                },
                SessionStart::Running(session, render) => {
                    &&& labels@.len() > 0
                    &&& config.capacities_valid()
                    &&& ids_distinct(spec_item_ids(labels@))
                    &&& session.well_formed()
                    &&& session.config == config
                    &&& session.labels == labels
                    &&& session.state.page == 0
                    &&& forall|i: usize|
                        i < labels@.len() ==> ((#[trigger] session.state.selected@[i as int])
                            <==> config.pre_selected@.contains(i))
                    &&& render_matches(render, config, labels@, session.pages@, session.state)
                },
            },
            Err(e) => match e {
                ConfigurationError::InvalidCapacity => !config.capacities_valid(),
                ConfigurationError::IdentifierCollision => {
                    &&& config.capacities_valid()
                    &&& !ids_distinct(spec_item_ids(labels@))
                },
                ConfigurationError::PreSelectionOutOfRange => {
                    &&& config.capacities_valid()
                    &&& ids_distinct(spec_item_ids(labels@))
                    &&& exists|k: int|
                        0 <= k < config.pre_selected@.len() && (
                        #[trigger] config.pre_selected@[k]) as int >= labels@.len()
                },
            },
        },
{
    if !config.check_capacities() {
        return Err(ConfigurationError::InvalidCapacity);
    }
    let ids = build_ids(&labels);
    proof {
        assert(str_views(ids@) =~= spec_item_ids(labels@));
    }
    if crate::layout::has_duplicate_ids(&ids) {
        return Err(ConfigurationError::IdentifierCollision);
    }
    let mut k: usize = 0;
    while k < config.pre_selected.len()
        invariant
            k <= config.pre_selected@.len(),
            forall|t: int| 0 <= t < k ==> (#[trigger] config.pre_selected@[t]) < labels@.len(),
        decreases config.pre_selected@.len() - k,
    {
        if config.pre_selected[k] >= labels.len() {
            proof {
                assert(0 <= k < config.pre_selected@.len() && (
                #[trigger] config.pre_selected@[k as int]) as int >= labels@.len());
            }
            return Err(ConfigurationError::PreSelectionOutOfRange);
        }
        k = k + 1;
    }
    if labels.len() == 0 {
        proof {
            // With no items, the range check above admits no pre-selected
            // index, so the pre-selection must be empty.
            if config.pre_selected@.len() > 0 {
                assert((config.pre_selected@[0]) < 0);
            }
        }
        return Ok(SessionStart::Empty);
    }
    let pages = build_pages(labels.len(), config.items_rows, config.rows_pages);
    proof {
        if pages@.len() == 0 {
            assert(pages_flat(pages@) == Seq::<usize>::empty());
            assert(index_range(0, labels@.len() as int).len() == labels@.len());
        }
    }
    let mut state = SelectionState::new(labels.len());
    let mut t: usize = 0;
    while t < config.pre_selected.len()
        invariant
            t <= config.pre_selected@.len(),
            forall|u: int|
                0 <= u < config.pre_selected@.len() ==> (#[trigger] config.pre_selected@[u])
                    < labels@.len(),
            state.page == 0,
            state.selected@.len() == labels@.len(),
            forall|i: usize|
                i < labels@.len() ==> ((#[trigger] state.selected@[i as int])
                    <==> config.pre_selected@.take(t as int).contains(i)),
        decreases config.pre_selected@.len() - t,
    {
        let idx = config.pre_selected[t];
        let ghost pre = state.selected@;
        state.selected.set(idx, true);
        proof {
            let ps = config.pre_selected@;
            assert forall|i: usize| i < labels@.len() implies ((
            #[trigger] state.selected@[i as int]) <==> ps.take(t + 1).contains(i)) by {
                assert(ps.take(t + 1)[t as int] == idx);
                if i == idx {
                    assert(ps.take(t + 1).contains(idx));
                } else {
                    assert(state.selected@[i as int] == pre[i as int]);
                    if ps.take(t + 1).contains(i) {
                        let j = choose|j: int|
                            0 <= j < ps.take(t + 1).len() && #[trigger] ps.take(t + 1)[j] == i;
                        assert(j != t as int);
                        assert(ps.take(t as int)[j] == i);
                        assert(ps.take(t as int).contains(i));
                    }
                    if ps.take(t as int).contains(i) {
                        let j = choose|j: int|
                            0 <= j < ps.take(t as int).len() && #[trigger] ps.take(t as int)[j]
                                == i;
                        assert(ps.take(t + 1)[j] == i);
                        assert(ps.take(t + 1).contains(i));
                    }
                }
            }
        }
        t = t + 1;
    }
    proof {
        assert(config.pre_selected@.take(config.pre_selected@.len() as int)
            =~= config.pre_selected@);
    }
    let session = SelectorSession { config, labels, ids, pages, state };
    let render = render_page(
        &session.config,
        &session.labels,
        &session.ids,
        &session.pages,
        &session.state,
    );
    Ok(SessionStart::Running(session, render))
}

} // verus!
