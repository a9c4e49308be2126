//! The button registry: the four fixed control intents of a selector session,
//! their stable interaction identifiers, display text and visual style, and
//! the parser that maps an identifier back to an intent.
//!
//! Control identifiers live in their own namespace (`_tools_button_`), kept
//! disjoint from the namespace of item-derived identifiers
//! (`_tools_selector_`), so a raw identifier can always be classified.

use vstd::prelude::*;

verus! {

/// One of the four fixed control intents attached to every rendered page.
#[derive(Clone, Copy, Debug, PartialEq, Eq, Structural)]
pub enum Button {
    Confirm,
    Abort,
    Next,
    Previous,
}

/// The identifier did not name any control button; carries the raw id so the
/// caller can fall through to the item-identifier lookup.
#[derive(Debug)]
pub struct ButtonParseError(pub String);

/// The visual style a control or item button is rendered with.
#[derive(Clone, Copy, Debug, PartialEq, Eq, Structural)]
pub enum ButtonStyle {
    Primary,
    Success,
    Danger,
}

impl Button {
    /// The stable, namespaced interaction identifier of this control.
    pub open spec fn spec_id(self) -> Seq<char> {
        match self {
            Button::Confirm => "_tools_button_confirm"@,
            Button::Abort => "_tools_button_abort"@,
            Button::Next => "_tools_button_next"@,
            Button::Previous => "_tools_button_previous"@,
        }
    }

    /// The display text of this control.
    pub open spec fn spec_label(self) -> Seq<char> {
        match self {
            Button::Confirm => "confirm"@,
            Button::Abort => "abort"@,
            Button::Next => "next"@,
            Button::Previous => "previous"@,
        }
    }

    /// The icon glyph of this control.
    pub open spec fn spec_emoji(self) -> Seq<char> {
        match self {
            Button::Confirm => "\u{2705}"@,
            Button::Abort => "\u{274c}"@,
            Button::Next => "\u{23e9}"@,
            Button::Previous => "\u{23ea}"@,
        }
    }

    /// The visual style of this control: affirmative for Confirm, destructive
    /// for Abort, neutral for the page-navigation pair.
    pub open spec fn spec_style(self) -> ButtonStyle {
        match self {
            Button::Confirm => ButtonStyle::Success,
            Button::Abort => ButtonStyle::Danger,
            Button::Next => ButtonStyle::Primary,
            Button::Previous => ButtonStyle::Primary,
        }
    }

    pub fn id(&self) -> (r: &'static str)
        ensures
            r@ == self.spec_id(),
    {
        match self {
            Button::Confirm => "_tools_button_confirm",
            Button::Abort => "_tools_button_abort",
            Button::Next => "_tools_button_next",
            Button::Previous => "_tools_button_previous",
        }
    }

    pub fn label(&self) -> (r: &'static str)
        ensures
            r@ == self.spec_label(),
    {
        match self {
            Button::Confirm => "confirm",
            Button::Abort => "abort",
            Button::Next => "next",
            Button::Previous => "previous",
        }
    }

    pub fn emoji(&self) -> (r: &'static str)
        ensures
            r@ == self.spec_emoji(),
    {
        match self {
            Button::Confirm => "\u{2705}",
            Button::Abort => "\u{274c}",
            Button::Next => "\u{23e9}",
            Button::Previous => "\u{23ea}",
        }
    }

    /// No two controls share an identifier: the four identifiers differ
    /// already in their lengths.
    pub proof fn lemma_control_ids_distinct()
        ensures
            forall|a: Button, b: Button| a != b ==> a.spec_id() != b.spec_id(),
    {
        reveal_strlit("_tools_button_confirm");
        reveal_strlit("_tools_button_abort");
        reveal_strlit("_tools_button_next");
        reveal_strlit("_tools_button_previous");
        assert(Button::Confirm.spec_id().len() == 21);
        assert(Button::Abort.spec_id().len() == 19);
        assert(Button::Next.spec_id().len() == 18);
        assert(Button::Previous.spec_id().len() == 22);
    }

    /// Parse a raw interaction identifier back into a control intent.  An
    /// identifier that names no control is handed back in the error, so the
    /// caller can fall through to the item-identifier lookup.
    pub fn parse(s: &str) -> (r: Result<Button, ButtonParseError>)
        ensures
            match r {
                Ok(b) => s@ == b.spec_id(),
                Err(e) => e.0@ == s@ && forall|b: Button| s@ != b.spec_id(),
            },
    {
        if crate::text::str_eq(s, Button::Confirm.id()) {
            Ok(Button::Confirm)
        } else if crate::text::str_eq(s, Button::Abort.id()) {
            Ok(Button::Abort)
        } else if crate::text::str_eq(s, Button::Next.id()) {
            Ok(Button::Next)
        } else if crate::text::str_eq(s, Button::Previous.id()) {
            Ok(Button::Previous)
        } else {
            Err(ButtonParseError(s.to_owned()))
        }
    }

    pub fn style(&self) -> (r: ButtonStyle)
        ensures
            r == self.spec_style(),
    {
        match self {
            Button::Confirm => ButtonStyle::Success,
            Button::Abort => ButtonStyle::Danger,
            Button::Next => ButtonStyle::Primary,
            Button::Previous => ButtonStyle::Primary,
        }
    }
}

} // verus!
