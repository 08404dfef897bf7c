//! The frame scheduler. Each tick it applies a pending mode transition
//! (exit hooks of the old mode, commit, enter hooks of the new mode, in that
//! order and before anything else), drains the fixed-rate accumulator and
//! runs the fixed-rate set once per drained chunk, then runs the current
//! mode's per-frame behaviors and finally the global ones — each set in
//! registration order, each behavior only when its gate (if any) holds.
//!
//! The tick reports everything that ran as an ordered event list, so the
//! host engine can perform the engine-side work of each run in exactly the
//! order the scheduler decided. On the core's own model every hook is a
//! total function; when the host-side half of a hook fails, the host is
//! expected to log and skip that one hook and let the transition proceed —
//! a half-initialized mode is worse than one missing optional cleanup.

use vstd::prelude::*;
use crate::registry::{Behavior, Condition, Entry, HookAction, Registry};
use crate::state::{GameState, StateStore};
use crate::timestep::{spec_carry, spec_runs, FixedTimer};
use crate::widget::{spec_step, spec_visual, Visual, Widget, WidgetInput};
use crate::world::{after_cleanup, child_obj, despawn_with, root_obj, setup_game_camera,
    setup_menu, setup_ui_camera, spawn_sprite, EngineObject, Tag, World};

verus! {

/// The per-tick immutable input snapshot the condition evaluator reads.
#[derive(Clone, Copy, PartialEq, Eq, Structural, Debug)]
pub struct InputSnapshot {
    /// The escape key was pressed this very tick.
    pub esc_just_pressed: bool,
    /// The space key is currently held.
    pub space_held: bool,
}

/// One tracked interactive widget with the tag the condition evaluator
/// selects it by.
#[derive(Clone, Copy, PartialEq, Eq, Structural, Debug)]
pub struct WidgetEntry {
    pub tag: Tag,
    pub w: Widget,
}

/// Everything the scheduler reports having run, in order.
#[derive(Clone, Copy, PartialEq, Eq, Structural, Debug)]
pub enum Event {
    /// An exit hook of the old mode ran.
    ExitHook(HookAction),
    /// The new mode was committed; observers never see it without its enter
    /// hooks having started next.
    Committed(GameState),
    /// An enter hook of the new mode ran.
    EnterHook(HookAction),
    /// A fixed-rate behavior ran in one drained chunk.
    FixedRan(Behavior),
    /// A per-frame behavior of the current mode ran.
    Ran(Behavior),
    /// A global behavior ran.
    GlobalRan(Behavior),
}

/// Which step of a tick a behavior ran in.
#[derive(Clone, Copy, PartialEq, Eq, Structural, Debug)]
pub enum Phase {
    Fixed,
    Frame,
    Global,
}

/// The event a behavior run is reported as, per phase.
pub open spec fn event_of(ph: Phase, b: Behavior) -> Event {
    match ph {
        Phase::Fixed => Event::FixedRan(b),
        Phase::Frame => Event::Ran(b),
        Phase::Global => Event::GlobalRan(b),
    }
}

/// Did some widget carrying `t` enter Active this very tick?
pub open spec fn spec_any_just_activated(ws: Seq<WidgetEntry>, t: Tag) -> bool {
    exists|i: int| 0 <= i < ws.len() && (#[trigger] ws[i]).tag == t && ws[i].w.just_activated
}

/// What a condition answers on this tick's snapshot. Conditions are total:
/// every one has a definite answer, and evaluating mutates nothing.
pub open spec fn spec_eval(c: Condition, input: InputSnapshot, ws: Seq<WidgetEntry>) -> bool {
    match c {
        Condition::SpacebarPressed => input.space_held,
        Condition::JustActivated(t) => spec_any_just_activated(ws, t),
    }
}

/// An entry may run when it has no gate or its gate holds.
pub open spec fn spec_gated(e: Entry, input: InputSnapshot, ws: Seq<WidgetEntry>) -> bool {
    match e.condition {
        None => true,
        Some(c) => spec_eval(c, input, ws),
    }
}

/// The behaviors of an entry list that run this tick, in registration
/// order: exactly those whose gate holds.
pub open spec fn run_list(entries: Seq<Entry>, input: InputSnapshot, ws: Seq<WidgetEntry>) -> Seq<
    Behavior,
>
    decreases entries.len(),
{
    if entries.len() == 0 {
        Seq::empty()
    } else {
        let rest = run_list(entries.drop_last(), input, ws);
        if spec_gated(entries.last(), input, ws) {
            rest.push(entries.last().behavior)
        } else {
            rest
        }
    }
}

/// The mode a behavior requests when it runs, if any.
pub open spec fn request_of(b: Behavior, input: InputSnapshot) -> Option<GameState> {
    match b {
        Behavior::ButtGame => Some(GameState::InGame),
        Behavior::BackToMenuOnEsc => if input.esc_just_pressed {
            Some(GameState::MainMenu)
        } else {
            None
        },
        _ => None,
    }
}

/// Whether a behavior asks the host to quit when it runs.
pub open spec fn exits_of(b: Behavior, input: InputSnapshot) -> bool {
    match b {
        Behavior::ButtExit => true,
        Behavior::ExitOnEsc => input.esc_just_pressed,
        _ => false,
    }
}

/// The engine objects a behavior spawns when it runs.
pub open spec fn spawn_of(b: Behavior) -> Seq<EngineObject> {
    if b is SpawnSprite {
        seq![root_obj(Tag::MySprite)]
    } else {
        Seq::empty()
    }
}

/// The pending slot after the behaviors of `bs` ran in order from `p0`:
/// each request overwrites, so the last request of the tick wins.
pub open spec fn pending_after(
    p0: Option<GameState>,
    bs: Seq<Behavior>,
    input: InputSnapshot,
) -> Option<GameState>
    decreases bs.len(),
{
    if bs.len() == 0 {
        p0
    } else {
        match request_of(bs.last(), input) {
            Some(m) => Some(m),
            None => pending_after(p0, bs.drop_last(), input),
        }
    }
}

/// The quit flag after the behaviors of `bs` ran in order from `e0`.
pub open spec fn exit_after(e0: bool, bs: Seq<Behavior>, input: InputSnapshot) -> bool
    decreases bs.len(),
{
    if bs.len() == 0 {
        e0
    } else {
        exit_after(e0, bs.drop_last(), input) || exits_of(bs.last(), input)
    }
}

/// The engine objects spawned by the behaviors of `bs`, in run order.
pub open spec fn spawned_objects(bs: Seq<Behavior>) -> Seq<EngineObject>
    decreases bs.len(),
{
    if bs.len() == 0 {
        Seq::empty()
    } else {
        spawned_objects(bs.drop_last()) + spawn_of(bs.last())
    }
}

/// The events reporting the behaviors of `bs`, in run order, under one
/// phase.
pub open spec fn phase_events(bs: Seq<Behavior>, ph: Phase) -> Seq<Event>
    decreases bs.len(),
{
    if bs.len() == 0 {
        Seq::empty()
    } else {
        phase_events(bs.drop_last(), ph).push(event_of(ph, bs.last()))
    }
}

/// The events reporting a hook list, in registration order, on one edge.
pub open spec fn hook_events(hs: Seq<HookAction>, exit_edge: bool) -> Seq<Event>
    decreases hs.len(),
{
    if hs.len() == 0 {
        Seq::empty()
    } else {
        hook_events(hs.drop_last(), exit_edge).push(
            if exit_edge {
                Event::ExitHook(hs.last())
            } else {
                Event::EnterHook(hs.last())
            },
        )
    }
}

/// What one hook does to the arena of tagged engine objects. Menu setup
/// builds the two buttons as children of the menu root; tag cleanup sweeps
/// the tagged objects and everything they own.
pub open spec fn spec_apply_hook(objs: Seq<EngineObject>, h: HookAction) -> Seq<EngineObject> {
    match h {
        HookAction::SetupMenu => objs.push(root_obj(Tag::MainMenu)).push(
            child_obj(Tag::EnterButt, Tag::MainMenu),
        ).push(child_obj(Tag::ExitButt, Tag::MainMenu)),
        HookAction::SetupGameCamera => objs.push(root_obj(Tag::GameCamera)).push(
            root_obj(Tag::Ground),
        ),
        HookAction::DespawnWith(t) => after_cleanup(objs, t),
    }
}

/// The arena after a whole hook list ran in registration order.
pub open spec fn spec_apply_hooks(objs: Seq<EngineObject>, hs: Seq<HookAction>) -> Seq<
    EngineObject,
>
    decreases hs.len(),
{
    if hs.len() == 0 {
        objs
    } else {
        spec_apply_hook(spec_apply_hooks(objs, hs.drop_last()), hs.last())
    }
}

/// `bs` repeated `k` times, in order: the behavior runs of `k` drained
/// fixed-rate chunks.
pub open spec fn repeat_bs(bs: Seq<Behavior>, k: int) -> Seq<Behavior>
    decreases k,
{
    if k <= 0 {
        Seq::empty()
    } else {
        repeat_bs(bs, k - 1) + bs
    }
}

/// Folding the pending slot over a concatenation is folding it twice.
pub proof fn lemma_pending_concat(
    p0: Option<GameState>,
    a: Seq<Behavior>,
    b: Seq<Behavior>,
    input: InputSnapshot,
)
    ensures
        pending_after(p0, a + b, input) == pending_after(pending_after(p0, a, input), b, input),
    decreases b.len(),
{
    if b.len() == 0 {
        assert(a + b =~= a);
    } else {
        lemma_pending_concat(p0, a, b.drop_last(), input);
        assert((a + b).drop_last() =~= a + b.drop_last());
        assert((a + b).last() == b.last());
    }
}

/// Folding the quit flag over a concatenation is folding it twice.
pub proof fn lemma_exit_concat(e0: bool, a: Seq<Behavior>, b: Seq<Behavior>, input: InputSnapshot)
    ensures
        exit_after(e0, a + b, input) == exit_after(exit_after(e0, a, input), b, input),
    decreases b.len(),
{
    if b.len() == 0 {
        assert(a + b =~= a);
    } else {
        lemma_exit_concat(e0, a, b.drop_last(), input);
        assert((a + b).drop_last() =~= a + b.drop_last());
        assert((a + b).last() == b.last());
    }
}

/// The spawns of a concatenation are the spawns of its parts, in order.
pub proof fn lemma_spawned_concat(a: Seq<Behavior>, b: Seq<Behavior>)
    ensures
        spawned_objects(a + b) == spawned_objects(a) + spawned_objects(b),
    decreases b.len(),
{
    if b.len() == 0 {
        assert(a + b =~= a);
        assert(spawned_objects(a) + spawned_objects(b) =~= spawned_objects(a));
    } else {
        lemma_spawned_concat(a, b.drop_last());
        assert((a + b).drop_last() =~= a + b.drop_last());
        assert((a + b).last() == b.last());
        assert(spawned_objects(a) + spawned_objects(b) =~= (spawned_objects(a) + spawned_objects(
            b.drop_last(),
        )) + spawn_of(b.last()));
    }
}

/// The events of a concatenation are the events of its parts, in order.
pub proof fn lemma_phase_events_concat(a: Seq<Behavior>, b: Seq<Behavior>, ph: Phase)
    ensures
        phase_events(a + b, ph) == phase_events(a, ph) + phase_events(b, ph),
    decreases b.len(),
{
    if b.len() == 0 {
        assert(a + b =~= a);
        assert(phase_events(a, ph) + phase_events(b, ph) =~= phase_events(a, ph));
    } else {
        lemma_phase_events_concat(a, b.drop_last(), ph);
        assert((a + b).drop_last() =~= a + b.drop_last());
        assert((a + b).last() == b.last());
        assert(phase_events(a, ph) + phase_events(b, ph) =~= (phase_events(a, ph) + phase_events(
            b.drop_last(),
            ph,
        )).push(event_of(ph, b.last())));
    }
}

/// Reporting keeps order and multiplicity: event `i` is behavior `i`'s.
pub proof fn lemma_phase_events_index(bs: Seq<Behavior>, ph: Phase)
    ensures
        phase_events(bs, ph).len() == bs.len(),
        forall|i: int|
            0 <= i < bs.len() ==> #[trigger] phase_events(bs, ph)[i] == event_of(ph, bs[i]),
    decreases bs.len(),
{
    if bs.len() > 0 {
        lemma_phase_events_index(bs.drop_last(), ph);
    }
}

/// Hook reporting keeps order and multiplicity: event `i` is hook `i`'s.
pub proof fn lemma_hook_events_index(hs: Seq<HookAction>, exit_edge: bool)
    ensures
        hook_events(hs, exit_edge).len() == hs.len(),
        forall|i: int|
            0 <= i < hs.len() ==> #[trigger] hook_events(hs, exit_edge)[i] == (if exit_edge {
                Event::ExitHook(hs[i])
            } else {
                Event::EnterHook(hs[i])
            }),
    decreases hs.len(),
{
    if hs.len() > 0 {
        lemma_hook_events_index(hs.drop_last(), exit_edge);
    }
}

/// Law: a behavior gated by a false condition never executes — when every
/// entry carrying the behavior has a failing gate on this tick's snapshot,
/// the behavior is not among the tick's runs.
pub proof fn lemma_false_gate_never_runs(
    entries: Seq<Entry>,
    input: InputSnapshot,
    ws: Seq<WidgetEntry>,
    b: Behavior,
)
    requires
        forall|i: int|
            0 <= i < entries.len() && (#[trigger] entries[i]).behavior == b ==> !spec_gated(
                entries[i],
                input,
                ws,
            ),
    ensures
        !run_list(entries, input, ws).contains(b),
    decreases entries.len(),
{
    if entries.len() > 0 {
        lemma_false_gate_never_runs(entries.drop_last(), input, ws, b);
        let rl = run_list(entries, input, ws);
        let rest = run_list(entries.drop_last(), input, ws);
        if rl.contains(b) {
            let j = choose|j: int| 0 <= j < rl.len() && rl[j] == b;
            if spec_gated(entries.last(), input, ws) {
                if j < rest.len() {
                    assert(rest.contains(b));
                } else {
                    assert(rl[j] == entries.last().behavior);
                    assert(entries[entries.len() - 1].behavior == b);
                }
            } else {
                assert(rest.contains(b));
            }
        }
    }
}

/// Law: a behavior whose gate holds on this tick's snapshot does execute —
/// toggling a gate from false to true takes effect on the very tick the
/// snapshot satisfies it.
pub proof fn lemma_true_gate_runs(
    entries: Seq<Entry>,
    input: InputSnapshot,
    ws: Seq<WidgetEntry>,
    i: int,
)
    requires
        0 <= i < entries.len(),
        spec_gated(entries[i], input, ws),
    ensures
        run_list(entries, input, ws).contains(entries[i].behavior),
    decreases entries.len(),
{
    let rl = run_list(entries, input, ws);
    let rest = run_list(entries.drop_last(), input, ws);
    if i == entries.len() - 1 {
        assert(rl[rl.len() - 1] == entries[i].behavior);
    } else {
        lemma_true_gate_runs(entries.drop_last(), input, ws, i);
        let j = choose|j: int|
            0 <= j < rest.len() && rest[j] == entries.drop_last()[i].behavior;
        assert(rl[j] == entries[i].behavior);
    }
}

/// Law: a tick none of whose runs requests a mode leaves no pending
/// request dangling.
pub proof fn lemma_no_request_leaves_none(bs: Seq<Behavior>, input: InputSnapshot)
    requires
        forall|i: int| 0 <= i < bs.len() ==> request_of(#[trigger] bs[i], input) is None,
    ensures
        pending_after(None, bs, input) is None,
    decreases bs.len(),
{
    if bs.len() > 0 {
        lemma_no_request_leaves_none(bs.drop_last(), input);
    }
}

/// Condition: the space key is currently held.
pub fn spacebar_pressed(input: InputSnapshot) -> (r: bool)
    ensures
        r == input.space_held,
{
    input.space_held
}

/// Condition: was a button carrying `tag` just activated? Edge-triggered:
/// true only on the tick some such widget entered Active. Reading it
/// consumes nothing, so every gate of the same tick sees the same answer.
pub fn on_butt_interact(widgets: &Vec<WidgetEntry>, tag: Tag) -> (r: bool)
    ensures
        r == spec_any_just_activated(widgets@, tag),
{
    let mut i: usize = 0;
    while i < widgets.len()
        invariant
            i <= widgets@.len(),
            forall|j: int|
                0 <= j < i ==> !((#[trigger] widgets@[j]).tag == tag
                    && widgets@[j].w.just_activated),
        decreases widgets@.len() - i,
    {
        if widgets[i].tag == tag && widgets[i].w.just_activated {
            return true;
        }
        i = i + 1;
    }
    false
}

/// Evaluates one condition on this tick's snapshot. Pure: no side effects,
/// no persisted state, always a definite answer.
pub fn eval_condition(c: Condition, input: InputSnapshot, widgets: &Vec<WidgetEntry>) -> (r: bool)
    ensures
        r == spec_eval(c, input, widgets@),
{
    match c {
        Condition::SpacebarPressed => spacebar_pressed(input),
        Condition::JustActivated(t) => on_butt_interact(widgets, t),
    }
}

/// Requests the menu mode when the escape key was just pressed; otherwise
/// leaves the store alone.
pub fn back_to_menu_on_esc(store: &mut StateStore, input: InputSnapshot)
    ensures
        final(store).pending == (if input.esc_just_pressed {
            Some(GameState::MainMenu)
        } else {
            old(store).pending
        }),
        final(store).current == old(store).current,
        final(store).dirty == old(store).dirty,
{
    if input.esc_just_pressed {
        store.request(GameState::MainMenu);
    }
}

/// The "enter game" button handler: requests the in-game mode.
pub fn butt_game(store: &mut StateStore)
    ensures
        final(store).pending == Some(GameState::InGame),
        final(store).current == old(store).current,
        final(store).dirty == old(store).dirty,
{
    store.request(GameState::InGame);
}

/// The "exit application" button handler: raises the quit request the host
/// acts on after the tick.
pub fn butt_exit(exit_requested: &mut bool)
    ensures
        *final(exit_requested),
{
    *exit_requested = true;
}

/// The observer behavior's computing half: reports the current mode when it
/// changed since the last observation, and clears the change flag. The host
/// logs whatever is reported.
pub fn debug_current_state(store: &mut StateStore) -> (r: Option<GameState>)
    ensures
        r == (if old(store).dirty {
            Some(old(store).current)
        } else {
            None::<GameState>
        }),
        !final(store).dirty,
        final(store).current == old(store).current,
        final(store).pending == old(store).pending,
{
    if store.changed_since_last_observed() {
        Some(store.read_current())
    } else {
        None
    }
}

/// The visual treatment of every tracked widget, in tracking order: the
/// pure state-to-visual mapping applied widget by widget. The host repaints
/// from this.
pub fn butt_interact_visual(widgets: &Vec<WidgetEntry>) -> (vs: Vec<Visual>)
    ensures
        vs@.len() == widgets@.len(),
        forall|i: int| 0 <= i < widgets@.len() ==> vs@[i] == spec_visual(widgets@[i].w.state),
{
    let mut vs: Vec<Visual> = Vec::new();
    let mut i: usize = 0;
    while i < widgets.len()
        invariant
            i <= widgets@.len(),
            vs@.len() == i,
            forall|j: int| 0 <= j < i ==> vs@[j] == spec_visual(widgets@[j].w.state),
        decreases widgets@.len() - i,
    {
        vs.push(crate::widget::visual_state(widgets[i].w.state));
        i = i + 1;
    }
    vs
}

/// Advances every tracked widget by one tick of raw signals, widget `i`
/// from signal `i`. Widgets are independent: no widget's new state depends
/// on another's.
pub fn update_widgets(widgets: &mut Vec<WidgetEntry>, inputs: &Vec<WidgetInput>)
    requires
        old(widgets)@.len() == inputs@.len(),
    ensures
        final(widgets)@.len() == old(widgets)@.len(),
        forall|i: int|
            0 <= i < old(widgets)@.len() ==> #[trigger] final(widgets)@[i] == (WidgetEntry {
                tag: old(widgets)@[i].tag,
                w: spec_step(old(widgets)@[i].w, inputs@[i]),
            }),
{
    let mut i: usize = 0;
    while i < widgets.len()
        invariant
            i <= widgets@.len(),
            widgets@.len() == old(widgets)@.len(),
            inputs@.len() == old(widgets)@.len(),
            forall|j: int|
                i <= j < old(widgets)@.len() ==> #[trigger] widgets@[j] == old(widgets)@[j],
            forall|j: int|
                0 <= j < i ==> #[trigger] widgets@[j] == (WidgetEntry {
                    tag: old(widgets)@[j].tag,
                    w: spec_step(old(widgets)@[j].w, inputs@[j]),
                }),
        decreases widgets@.len() - i,
    {
        let mut entry = widgets[i];
        entry.w.step(inputs[i]);
        widgets.set(i, entry);
        i = i + 1;
    }
}

/// Runs one behavior's core-side effect. What each behavior touches is
/// exactly what its effect functions say: at most a mode request, a quit
/// request, or a spawn.
fn run_behavior(
    b: Behavior,
    input: InputSnapshot,
    store: &mut StateStore,
    world: &mut World,
    exit_requested: &mut bool,
)
    ensures
        final(store).pending == (match request_of(b, input) {
            Some(m) => Some(m),
            None => old(store).pending,
        }),
        final(store).current == old(store).current,
        final(store).dirty == old(store).dirty,
        final(world).objects@ == old(world).objects@ + spawn_of(b),
        *final(exit_requested) == (*old(exit_requested) || exits_of(b, input)),
{
    match b {
        Behavior::BackToMenuOnEsc => {
            back_to_menu_on_esc(store, input);
            assert(world.objects@ =~= world.objects@ + spawn_of(b));
        },
        Behavior::ButtGame => {
            butt_game(store);
            assert(world.objects@ =~= world.objects@ + spawn_of(b));
        },
        Behavior::ButtExit => {
            butt_exit(exit_requested);
            assert(world.objects@ =~= world.objects@ + spawn_of(b));
        },
        Behavior::ExitOnEsc => {
            if input.esc_just_pressed {
                butt_exit(exit_requested);
            }
            assert(world.objects@ =~= world.objects@ + spawn_of(b));
        },
        Behavior::SpawnSprite => {
            spawn_sprite(world);
            assert(old(world).objects@.push(root_obj(Tag::MySprite)) =~= old(world).objects@
                + spawn_of(b));
        },
        Behavior::ButtInteractVisual => {
            // The repaint is derived state; the host reads it off the
            // widgets through `butt_interact_visual`.
            assert(world.objects@ =~= world.objects@ + spawn_of(b));
        },
        Behavior::DebugCurrentState => {
            // The observation itself is the host's read; the scheduler only
            // reports that the observer's turn came.
            assert(world.objects@ =~= world.objects@ + spawn_of(b));
        },
    }
}

/// Runs one entry list in registration order, gating each entry on this
/// tick's snapshot, reporting each run under the given phase.
fn run_entries(
    entries: &Vec<Entry>,
    ph: Phase,
    input: InputSnapshot,
    widgets: &Vec<WidgetEntry>,
    store: &mut StateStore,
    world: &mut World,
    exit_requested: &mut bool,
    events: &mut Vec<Event>,
)
    ensures
        final(events)@ == old(events)@ + phase_events(
            run_list(entries@, input, widgets@),
            ph,
        ),
        final(store).pending == pending_after(
            old(store).pending,
            run_list(entries@, input, widgets@),
            input,
        ),
        final(store).current == old(store).current,
        final(store).dirty == old(store).dirty,
        final(world).objects@ == old(world).objects@ + spawned_objects(
            run_list(entries@, input, widgets@),
        ),
        *final(exit_requested) == exit_after(
            *old(exit_requested),
            run_list(entries@, input, widgets@),
            input,
        ),
{
    let mut i: usize = 0;
    while i < entries.len()
        invariant
            i <= entries@.len(),
            events@ == old(events)@ + phase_events(
                run_list(entries@.subrange(0, i as int), input, widgets@),
                ph,
            ),
            store.pending == pending_after(
                old(store).pending,
                run_list(entries@.subrange(0, i as int), input, widgets@),
                input,
            ),
            store.current == old(store).current,
            store.dirty == old(store).dirty,
            world.objects@ == old(world).objects@ + spawned_objects(
                run_list(entries@.subrange(0, i as int), input, widgets@),
            ),
            *exit_requested == exit_after(
                *old(exit_requested),
                run_list(entries@.subrange(0, i as int), input, widgets@),
                input,
            ),
        decreases entries@.len() - i,
    {
        let ghost prefix = entries@.subrange(0, i as int);
        let ghost rl_prefix = run_list(prefix, input, widgets@);
        let e = entries[i];
        let gate_open = match e.condition {
            None => true,
            Some(c) => eval_condition(c, input, widgets),
        };
        if gate_open {
            events.push(match ph {
                Phase::Fixed => Event::FixedRan(e.behavior),
                Phase::Frame => Event::Ran(e.behavior),
                Phase::Global => Event::GlobalRan(e.behavior),
            });
            run_behavior(e.behavior, input, store, world, exit_requested);
        }
        i = i + 1;
        proof {
            let now = entries@.subrange(0, i as int);
            assert(now.drop_last() =~= prefix);
            assert(now.last() == entries@[i - 1]);
            let rl_now = run_list(now, input, widgets@);
            if spec_gated(e, input, widgets@) {
                assert(rl_now == rl_prefix.push(e.behavior));
                assert(rl_now.drop_last() =~= rl_prefix);
                assert(rl_now.last() == e.behavior);
                assert(old(world).objects@ + spawned_objects(rl_now) =~= (old(world).objects@
                    + spawned_objects(rl_prefix)) + spawn_of(e.behavior));
                assert(old(events)@ + phase_events(rl_now, ph) =~= (old(events)@ + phase_events(
                    rl_prefix,
                    ph,
                )).push(event_of(ph, e.behavior)));
            }
        }
    }
    proof {
        assert(entries@.subrange(0, entries@.len() as int) =~= entries@);
    }
}

/// Runs one mode edge's hook list in registration order on the arena,
/// reporting each hook on its edge.
fn run_hooks(hooks: &Vec<HookAction>, exit_edge: bool, world: &mut World, events: &mut Vec<Event>)
    ensures
        final(world).objects@ == spec_apply_hooks(old(world).objects@, hooks@),
        final(events)@ == old(events)@ + hook_events(hooks@, exit_edge),
{
    let mut i: usize = 0;
    while i < hooks.len()
        invariant
            i <= hooks@.len(),
            world.objects@ == spec_apply_hooks(old(world).objects@, hooks@.subrange(0, i as int)),
            events@ == old(events)@ + hook_events(hooks@.subrange(0, i as int), exit_edge),
        decreases hooks@.len() - i,
    {
        let ghost prefix = hooks@.subrange(0, i as int);
        let h = hooks[i];
        events.push(
            if exit_edge {
                Event::ExitHook(h)
            } else {
                Event::EnterHook(h)
            },
        );
        match h {
            HookAction::SetupMenu => setup_menu(world),
            HookAction::SetupGameCamera => setup_game_camera(world),
            HookAction::DespawnWith(t) => despawn_with(world, t),
        }
        i = i + 1;
        proof {
            let now = hooks@.subrange(0, i as int);
            assert(now.drop_last() =~= prefix);
            assert(now.last() == hooks@[i - 1]);
            assert(old(events)@ + hook_events(now, exit_edge) =~= (old(events)@ + hook_events(
                prefix,
                exit_edge,
            )).push(
                if exit_edge {
                    Event::ExitHook(h)
                } else {
                    Event::EnterHook(h)
                },
            ));
        }
    }
    proof {
        assert(hooks@.subrange(0, hooks@.len() as int) =~= hooks@);
    }
}

/// The whole scheduling core: the state store, the fixed-rate timer, the
/// startup wiring, the arena of tagged engine objects, the tracked widgets
/// and the quit flag. One tick advances all of it in the fixed step order.
pub struct Core {
    pub store: StateStore,
    pub timer: FixedTimer,
    pub registry: Registry,
    pub world: World,
    pub widgets: Vec<WidgetEntry>,
    pub exit_requested: bool,
}

impl Core {
    pub open spec fn wf(self) -> bool {
        self.timer.wf()
    }

    /// The mode the tick settles on before running any behavior: the
    /// pending one if a transition was requested, else the current one.
    pub open spec fn mode_after_transition(self) -> GameState {
        match self.store.pending {
            Some(m) => m,
            None => self.store.current,
        }
    }

    /// The transition step's events: all exit hooks of the old mode, the
    /// commit, all enter hooks of the new mode — or nothing when no
    /// transition is pending.
    pub open spec fn transition_events(self) -> Seq<Event> {
        match self.store.pending {
            Some(m) => hook_events(self.registry.exit_hooks(self.store.current), true) + seq![
                Event::Committed(m),
            ] + hook_events(self.registry.enter_hooks(m), false),
            None => Seq::empty(),
        }
    }

    /// The arena after the transition step: old-mode cleanup strictly
    /// before new-mode setup, so no stale object leaks into the new mode.
    pub open spec fn world_after_transition(self) -> Seq<EngineObject> {
        match self.store.pending {
            Some(m) => spec_apply_hooks(
                spec_apply_hooks(self.world.objects@, self.registry.exit_hooks(self.store.current)),
                self.registry.enter_hooks(m),
            ),
            None => self.world.objects@,
        }
    }

    /// How many fixed-rate chunks this tick drains.
    pub open spec fn tick_runs(self, dt: u64) -> int {
        spec_runs(self.timer.acc, self.timer.threshold, dt)
    }

    /// The behaviors one fixed-rate chunk runs, in registration order.
    pub open spec fn fixed_run_once(self, input: InputSnapshot) -> Seq<Behavior> {
        run_list(self.registry.fixed_of(self.mode_after_transition()), input, self.widgets@)
    }

    /// The per-frame behaviors of the settled mode that run this tick.
    pub open spec fn frame_run(self, input: InputSnapshot) -> Seq<Behavior> {
        run_list(self.registry.behaviors_of(self.mode_after_transition()), input, self.widgets@)
    }

    /// The global behaviors that run this tick.
    pub open spec fn global_run(self, input: InputSnapshot) -> Seq<Behavior> {
        run_list(self.registry.global_behaviors@, input, self.widgets@)
    }

    /// Every behavior the tick runs, in run order: the fixed-rate set once
    /// per drained chunk, then the per-frame set, then the global set.
    pub open spec fn all_runs(self, input: InputSnapshot, dt: u64) -> Seq<Behavior> {
        repeat_bs(self.fixed_run_once(input), self.tick_runs(dt)) + self.frame_run(input)
            + self.global_run(input)
    }

    /// The tick's whole event report, in order.
    pub open spec fn tick_events(self, input: InputSnapshot, dt: u64) -> Seq<Event> {
        self.transition_events() + phase_events(
            repeat_bs(self.fixed_run_once(input), self.tick_runs(dt)),
            Phase::Fixed,
        ) + phase_events(self.frame_run(input), Phase::Frame) + phase_events(
            self.global_run(input),
            Phase::Global,
        )
    }

    /// The state store the tick leaves behind: the settled mode committed,
    /// the pending slot holding the tick's last request (and nothing when
    /// none was made — an applied transition never leaves its request
    /// dangling), the change flag raised by a commit.
    pub open spec fn store_after(self, input: InputSnapshot, dt: u64) -> StateStore {
        StateStore {
            current: self.mode_after_transition(),
            pending: pending_after(None, self.all_runs(input, dt), input),
            dirty: self.store.dirty || self.store.pending is Some,
        }
    }

    /// The arena the tick leaves behind: the transition's cleanup and setup
    /// first, then the spawns of the behaviors that ran, in run order.
    pub open spec fn world_after(self, input: InputSnapshot, dt: u64) -> Seq<EngineObject> {
        self.world_after_transition() + spawned_objects(self.all_runs(input, dt))
    }

    /// The quit flag the tick leaves behind.
    pub open spec fn exit_after_tick(self, input: InputSnapshot, dt: u64) -> bool {
        exit_after(self.exit_requested, self.all_runs(input, dt), input)
    }

    /// A fresh core in the initial mode. The one startup-time engine
    /// object, the interface camera, is spawned here: it is global and
    /// stays alive across every mode.
    pub fn new(initial: GameState, threshold: u64, registry: Registry, widgets: Vec<WidgetEntry>)
        -> (c: Core)
        requires
            threshold > 0,
        ensures
            c.wf(),
            c.store.current == initial,
            c.store.pending is None,
            c.store.dirty,
            c.timer.acc == 0,
            c.timer.threshold == threshold,
            c.registry == registry,
            c.widgets@ == widgets@,
            c.world.objects@ == seq![root_obj(Tag::UiCamera)],
            !c.exit_requested,
    {
        let mut world = World::new();
        setup_ui_camera(&mut world);
        proof {
            assert(world.objects@ =~= seq![root_obj(Tag::UiCamera)]);
        }
        Core {
            store: StateStore::new(initial),
            timer: FixedTimer::new(threshold),
            registry,
            world,
            widgets,
            exit_requested: false,
        }
    }

    /// Advances the tracked widgets by one tick of raw signals before the
    /// scheduling pass samples any gate.
    pub fn sample_widgets(&mut self, inputs: &Vec<WidgetInput>)
        requires
            old(self).widgets@.len() == inputs@.len(),
        ensures
            final(self).widgets@.len() == old(self).widgets@.len(),
            forall|i: int|
                0 <= i < old(self).widgets@.len() ==> #[trigger] final(self).widgets@[i]
                    == (WidgetEntry {
                    tag: old(self).widgets@[i].tag,
                    w: spec_step(old(self).widgets@[i].w, inputs@[i]),
                }),
            final(self).store == old(self).store,
            final(self).timer == old(self).timer,
            final(self).registry == old(self).registry,
            final(self).world == old(self).world,
            final(self).exit_requested == old(self).exit_requested,
    {
        update_widgets(&mut self.widgets, inputs);
    }

    /// One scheduling pass, given this tick's input snapshot and elapsed
    /// wall time. In fixed order: the pending transition (exit hooks,
    /// commit, enter hooks) before anything else; the fixed-rate set once
    /// per drained chunk; the settled mode's per-frame set; the global set.
    /// Returns everything that ran, in order, for the host to act on.
    pub fn tick(&mut self, input: InputSnapshot, dt: u64) -> (events: Vec<Event>)
        requires
            old(self).wf(),
            old(self).timer.acc + dt <= u64::MAX,
        ensures
            final(self).wf(),
            events@ == old(self).tick_events(input, dt),
            final(self).store == old(self).store_after(input, dt),
            final(self).world.objects@ == old(self).world_after(input, dt),
            final(self).exit_requested == old(self).exit_after_tick(input, dt),
            final(self).registry == old(self).registry,
            final(self).widgets@ == old(self).widgets@,
            final(self).timer.threshold == old(self).timer.threshold,
            final(self).timer.acc == spec_carry(
                old(self).timer.acc,
                old(self).timer.threshold,
                dt,
            ),
    {
        let mut events: Vec<Event> = Vec::new();
        // Transition step: cleanup of the old mode strictly before the
        // commit, setup of the new mode strictly after it.
        let pending = self.store.take_pending();
        match pending {
            Some(m) => {
                let cur = self.store.read_current();
                let exit_hooks = match cur {
                    GameState::MainMenu => &self.registry.exit_menu,
                    GameState::InGame => &self.registry.exit_game,
                };
                run_hooks(exit_hooks, true, &mut self.world, &mut events);
                self.store.commit(m);
                events.push(Event::Committed(m));
                let enter_hooks = match m {
                    GameState::MainMenu => &self.registry.enter_menu,
                    GameState::InGame => &self.registry.enter_game,
                };
                run_hooks(enter_hooks, false, &mut self.world, &mut events);
                proof {
                    assert(events@ =~= old(self).transition_events());
                }
            },
            None => {
                proof {
                    assert(events@ =~= old(self).transition_events());
                }
            },
        }
        proof {
            assert(self.store.current == old(self).mode_after_transition());
            assert(self.store.pending is None);
            assert(self.store.dirty == (old(self).store.dirty || old(self).store.pending is Some));
            assert(self.world.objects@ == old(self).world_after_transition());
        }
        // Fixed-rate step: one run of the fixed set per drained chunk.
        let runs = self.timer.advance(dt);
        let ghost fixed_bs = old(self).fixed_run_once(input);
        let ghost frame_bs = old(self).frame_run(input);
        let ghost global_bs = old(self).global_run(input);
        let ghost timer_now = self.timer;
        let ghost dirty_now = self.store.dirty;
        let mode = self.store.read_current();
        let fixed_entries = match mode {
            GameState::MainMenu => &self.registry.fixed_menu,
            GameState::InGame => &self.registry.fixed_game,
        };
        let mut k: u64 = 0;
        proof {
            assert(run_list(fixed_entries@, input, self.widgets@) == fixed_bs);
        }
        while k < runs
            invariant
                k <= runs,
                self.registry == old(self).registry,
                self.widgets@ == old(self).widgets@,
                self.timer == timer_now,
                fixed_entries@ == old(self).registry.fixed_of(old(self).mode_after_transition()),
                run_list(fixed_entries@, input, self.widgets@) == fixed_bs,
                events@ == old(self).transition_events() + phase_events(
                    repeat_bs(fixed_bs, k as int),
                    Phase::Fixed,
                ),
                self.store.pending == pending_after(None, repeat_bs(fixed_bs, k as int), input),
                self.store.current == old(self).mode_after_transition(),
                self.store.dirty == dirty_now,
                self.world.objects@ == old(self).world_after_transition() + spawned_objects(
                    repeat_bs(fixed_bs, k as int),
                ),
                self.exit_requested == exit_after(
                    old(self).exit_requested,
                    repeat_bs(fixed_bs, k as int),
                    input,
                ),
            decreases runs - k,
        {
            let ghost prev = repeat_bs(fixed_bs, k as int);
            run_entries(
                fixed_entries,
                Phase::Fixed,
                input,
                &self.widgets,
                &mut self.store,
                &mut self.world,
                &mut self.exit_requested,
                &mut events,
            );
            k = k + 1;
            proof {
                assert(repeat_bs(fixed_bs, k as int) == prev + fixed_bs);
                lemma_pending_concat(None, prev, fixed_bs, input);
                lemma_exit_concat(old(self).exit_requested, prev, fixed_bs, input);
                lemma_spawned_concat(prev, fixed_bs);
                lemma_phase_events_concat(prev, fixed_bs, Phase::Fixed);
                assert(old(self).transition_events() + phase_events(
                    repeat_bs(fixed_bs, k as int),
                    Phase::Fixed,
                ) =~= (old(self).transition_events() + phase_events(prev, Phase::Fixed))
                    + phase_events(fixed_bs, Phase::Fixed));
                assert(old(self).world_after_transition() + spawned_objects(
                    repeat_bs(fixed_bs, k as int),
                ) =~= (old(self).world_after_transition() + spawned_objects(prev)) + spawned_objects(
                    fixed_bs,
                ));
            }
        }
        let ghost fixed_all = repeat_bs(fixed_bs, old(self).tick_runs(dt));
        proof {
            assert(fixed_all == repeat_bs(fixed_bs, k as int));
        }
        // Per-frame step: the settled mode's behaviors, in registration
        // order, each gated on this tick's snapshot.
        let frame_entries = match mode {
            GameState::MainMenu => &self.registry.menu_behaviors,
            GameState::InGame => &self.registry.game_behaviors,
        };
        proof {
            assert(run_list(frame_entries@, input, self.widgets@) == frame_bs);
        }
        run_entries(
            frame_entries,
            Phase::Frame,
            input,
            &self.widgets,
            &mut self.store,
            &mut self.world,
            &mut self.exit_requested,
            &mut events,
        );
        proof {
            lemma_pending_concat(None, fixed_all, frame_bs, input);
            lemma_exit_concat(old(self).exit_requested, fixed_all, frame_bs, input);
            lemma_spawned_concat(fixed_all, frame_bs);
            assert(self.world.objects@ =~= old(self).world_after_transition() + spawned_objects(
                fixed_all + frame_bs,
            ));
        }
        // Global step: behaviors that run whatever the mode.
        proof {
            assert(run_list(self.registry.global_behaviors@, input, self.widgets@) == global_bs);
        }
        run_entries(
            &self.registry.global_behaviors,
            Phase::Global,
            input,
            &self.widgets,
            &mut self.store,
            &mut self.world,
            &mut self.exit_requested,
            &mut events,
        );
        proof {
            let all = old(self).all_runs(input, dt);
            assert(all == (fixed_all + frame_bs) + global_bs);
            lemma_pending_concat(None, fixed_all + frame_bs, global_bs, input);
            lemma_exit_concat(old(self).exit_requested, fixed_all + frame_bs, global_bs, input);
            lemma_spawned_concat(fixed_all + frame_bs, global_bs);
            assert(self.world.objects@ =~= old(self).world_after_transition() + spawned_objects(all));
            assert(events@ =~= old(self).tick_events(input, dt));
        }
        events
    }
}

/// Law: a transition from mode A to pending mode B is reported in exactly
/// this shape — every exit hook of A first, each exactly once in
/// registration order; then the commit of B, so no observer sees B without
/// its enter hooks starting next; then every enter hook of B exactly once
/// in registration order; and only then the tick's behaviors, among which
/// no hook and no commit ever appears. The settled mode is B.
pub proof fn lemma_transition_protocol(c: Core, b: GameState, input: InputSnapshot, dt: u64)
    requires
        c.store.pending == Some(b),
    ensures
        c.tick_events(input, dt).len() >= c.registry.exit_hooks(c.store.current).len() + 1
            + c.registry.enter_hooks(b).len(),
        forall|i: int|
            0 <= i < c.registry.exit_hooks(c.store.current).len() ==> c.tick_events(input, dt)[i]
                == Event::ExitHook(c.registry.exit_hooks(c.store.current)[i]),
        c.tick_events(input, dt)[c.registry.exit_hooks(c.store.current).len() as int]
            == Event::Committed(b),
        forall|i: int|
            0 <= i < c.registry.enter_hooks(b).len() ==> c.tick_events(input, dt)[c.registry
                .exit_hooks(c.store.current).len() + 1 + i] == Event::EnterHook(
                c.registry.enter_hooks(b)[i],
            ),
        forall|i: int|
            c.registry.exit_hooks(c.store.current).len() + 1 + c.registry.enter_hooks(b).len()
                <= i < c.tick_events(input, dt).len() ==> !((#[trigger] c.tick_events(input, dt)[i])
                is ExitHook || c.tick_events(input, dt)[i] is EnterHook || c.tick_events(
                input,
                dt,
            )[i] is Committed),
        c.store_after(input, dt).current == b,
{
    let ex = c.registry.exit_hooks(c.store.current);
    let en = c.registry.enter_hooks(b);
    let trans = c.transition_events();
    let ev = c.tick_events(input, dt);
    lemma_hook_events_index(ex, true);
    lemma_hook_events_index(en, false);
    assert(trans.len() == ex.len() + 1 + en.len());
    let fixed_ev = phase_events(repeat_bs(c.fixed_run_once(input), c.tick_runs(dt)), Phase::Fixed);
    let frame_ev = phase_events(c.frame_run(input), Phase::Frame);
    let global_ev = phase_events(c.global_run(input), Phase::Global);
    lemma_phase_events_index(repeat_bs(c.fixed_run_once(input), c.tick_runs(dt)), Phase::Fixed);
    lemma_phase_events_index(c.frame_run(input), Phase::Frame);
    lemma_phase_events_index(c.global_run(input), Phase::Global);
    assert(forall|i: int|
        0 <= i < ex.len() ==> ev[i] == hook_events(ex, true)[i]);
    assert(forall|i: int|
        0 <= i < en.len() ==> ev[ex.len() + 1 + i] == hook_events(en, false)[i]);
    assert forall|i: int|
        trans.len() <= i < ev.len() implies !((#[trigger] ev[i]) is ExitHook || ev[i] is EnterHook
        || ev[i] is Committed) by {
        let j = i - trans.len();
        if j < fixed_ev.len() {
            assert(ev[i] == fixed_ev[j]);
        } else if j < fixed_ev.len() + frame_ev.len() {
            assert(ev[i] == frame_ev[j - fixed_ev.len()]);
        } else {
            assert(ev[i] == global_ev[j - fixed_ev.len() - frame_ev.len()]);
        }
    }
}

} // verus!
