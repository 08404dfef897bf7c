//! Per-widget interaction tracking: each interactive widget is Idle, Hovered
//! or Active, and edge crossings into Active are observable events that fire
//! exactly once per activation, not once per tick while the signal is held.

use vstd::prelude::*;

verus! {

/// The interaction state of one widget.
#[derive(Clone, Copy, PartialEq, Eq, Structural, Debug)]
pub enum InteractionState {
    Idle,
    Hovered,
    Active,
}

/// The visual treatment a widget gets; each interaction state maps to a
/// distinct one.
#[derive(Clone, Copy, PartialEq, Eq, Structural, Debug)]
pub enum Visual {
    Plain,
    Highlighted,
    Pressed,
}

/// The raw per-tick signals for one widget: is the pointer inside its
/// bounds, and is the activation signal (a press) on.
#[derive(Clone, Copy, PartialEq, Eq, Structural, Debug)]
pub struct WidgetInput {
    pub pointer_over: bool,
    pub pressed: bool,
}

/// One tracked widget: its interaction state and whether this very tick is
/// the one on which it entered Active.
#[derive(Clone, Copy, PartialEq, Eq, Structural, Debug)]
pub struct Widget {
    pub state: InteractionState,
    pub just_activated: bool,
}

/// The single-widget transition function. A widget the pointer left is
/// Idle; one under the pointer is Active while the activation signal is on,
/// else Hovered — so on release an Active widget falls back to Hovered or
/// Idle depending on pointer position.
pub open spec fn next_state(s: InteractionState, input: WidgetInput) -> InteractionState {
    if !input.pointer_over {
        InteractionState::Idle
    } else if input.pressed {
        InteractionState::Active
    } else {
        InteractionState::Hovered
    }
}

/// The edge: true exactly when the step lands in Active from a non-Active
/// state.
pub open spec fn spec_just_activated(before: InteractionState, after: InteractionState) -> bool {
    after is Active && !(before is Active)
}

/// The widget after one tick of raw signals.
pub open spec fn spec_step(w: Widget, input: WidgetInput) -> Widget {
    Widget {
        state: next_state(w.state, input),
        just_activated: spec_just_activated(w.state, next_state(w.state, input)),
    }
}

/// The pure mapping from interaction state to visual treatment.
pub open spec fn spec_visual(s: InteractionState) -> Visual {
    match s {
        InteractionState::Idle => Visual::Plain,
        InteractionState::Hovered => Visual::Highlighted,
        InteractionState::Active => Visual::Pressed,
    }
}

impl Widget {
    /// A fresh widget starts Idle with no pending edge.
    pub fn new() -> (w: Self)
        ensures
            w.state is Idle,
            !w.just_activated,
    {
        Widget { state: InteractionState::Idle, just_activated: false }
    }

    /// Advances the widget by one tick of raw signals, recomputing the
    /// activation edge.
    pub fn step(&mut self, input: WidgetInput)
        ensures
            *final(self) == spec_step(*old(self), input),
    {
        let before = self.state;
        let after: InteractionState = if !input.pointer_over {
            InteractionState::Idle
        } else if input.pressed {
            InteractionState::Active
        } else {
            InteractionState::Hovered
        };
        self.state = after;
        self.just_activated = matches!(after, InteractionState::Active) && !matches!(
            before,
            InteractionState::Active,
        );
    }

    /// The edge-triggered query: true only on the tick the widget entered
    /// Active.
    pub fn just_activated(&self) -> (r: bool)
        ensures
            r == self.just_activated,
    {
        self.just_activated
    }
}

/// The visual treatment for an interaction state; a pure function with no
/// hidden state.
pub fn visual_state(s: InteractionState) -> (v: Visual)
    ensures
        v == spec_visual(s),
{
    match s {
        InteractionState::Idle => Visual::Plain,
        InteractionState::Hovered => Visual::Highlighted,
        InteractionState::Active => Visual::Pressed,
    }
}

/// Law: `just_activated` is true on exactly one tick per activation event.
/// Once a widget is Active, any further tick that keeps it Active (the
/// activation signal merely held) reports no new activation; a fresh edge
/// needs the widget to leave Active first.
pub proof fn lemma_just_activated_once(w: Widget, input: WidgetInput)
    requires
        w.state is Active,
    ensures
        !spec_step(w, input).just_activated,
{
}

/// Law: distinct interaction states get distinct visual treatments.
pub proof fn lemma_visuals_distinct(a: InteractionState, b: InteractionState)
    requires
        a != b,
    ensures
        spec_visual(a) != spec_visual(b),
{
}

} // verus!
