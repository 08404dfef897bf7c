use modesched::registry::{default_registry, Behavior, Condition, Entry, HookAction};
use modesched::scheduler::{
    back_to_menu_on_esc, butt_interact_visual, debug_current_state, on_butt_interact, Core, Event,
    InputSnapshot, WidgetEntry,
};
use modesched::state::{GameState, StateStore};
use modesched::widget::{Visual, Widget, WidgetInput};
use modesched::world::{EngineObject, Tag};

fn idle_input() -> InputSnapshot {
    InputSnapshot { esc_just_pressed: false, space_held: false }
}

fn root(tag: Tag) -> EngineObject {
    EngineObject { tag, owner: None }
}

fn child(tag: Tag, owner: Tag) -> EngineObject {
    EngineObject { tag, owner: Some(owner) }
}

fn menu_buttons() -> Vec<WidgetEntry> {
    vec![
        WidgetEntry { tag: Tag::EnterButt, w: Widget::new() },
        WidgetEntry { tag: Tag::ExitButt, w: Widget::new() },
    ]
}

fn press(widgets: usize, which: usize) -> Vec<WidgetInput> {
    (0..widgets)
        .map(|i| WidgetInput { pointer_over: i == which, pressed: i == which })
        .collect()
}

fn release_all(widgets: usize) -> Vec<WidgetInput> {
    (0..widgets).map(|_| WidgetInput { pointer_over: false, pressed: false }).collect()
}

#[test]
fn default_wiring_matches_the_startup_configuration() {
    let r = default_registry();
    assert_eq!(
        r.fixed_game,
        vec![Entry { behavior: Behavior::SpawnSprite, condition: Some(Condition::SpacebarPressed) }]
    );
    assert!(r.fixed_menu.is_empty());
    assert_eq!(r.enter_menu, vec![HookAction::SetupMenu]);
    assert_eq!(r.exit_menu, vec![HookAction::DespawnWith(Tag::MainMenu)]);
    assert_eq!(r.enter_game, vec![HookAction::SetupGameCamera]);
    assert_eq!(
        r.exit_game,
        vec![HookAction::DespawnWith(Tag::MySprite), HookAction::DespawnWith(Tag::GameCamera)]
    );
    assert_eq!(r.menu_behaviors.len(), 4);
    assert_eq!(r.game_behaviors.len(), 1);
    assert_eq!(
        r.global_behaviors,
        vec![Entry { behavior: Behavior::DebugCurrentState, condition: None }]
    );
}

#[test]
fn enter_button_drives_menu_to_game() {
    // Mode is the menu; the enter gate becomes true; the next scheduling
    // pass runs the menu's exit hooks, commits the in-game mode, runs its
    // enter hooks, and later ticks evaluate the in-game set, never the
    // menu's.
    let mut core = Core::new(GameState::MainMenu, 125, default_registry(), menu_buttons());
    assert_eq!(core.world.objects, vec![root(Tag::UiCamera)]);

    // A quiet tick in the menu: no transition, no fixed-rate chunk due.
    let events = core.tick(idle_input(), 0);
    assert_eq!(
        events,
        vec![
            Event::Ran(Behavior::ExitOnEsc),
            Event::Ran(Behavior::ButtInteractVisual),
            Event::GlobalRan(Behavior::DebugCurrentState),
        ]
    );
    assert_eq!(core.store.read_current(), GameState::MainMenu);

    // The enter button is pressed: its gate holds on this tick, so the
    // enter handler runs and requests the in-game mode.
    core.sample_widgets(&press(2, 0));
    assert!(on_butt_interact(&core.widgets, Tag::EnterButt));
    assert!(!on_butt_interact(&core.widgets, Tag::ExitButt));
    let events = core.tick(idle_input(), 0);
    assert_eq!(
        events,
        vec![
            Event::Ran(Behavior::ExitOnEsc),
            Event::Ran(Behavior::ButtInteractVisual),
            Event::Ran(Behavior::ButtGame),
            Event::GlobalRan(Behavior::DebugCurrentState),
        ]
    );
    assert_eq!(core.store.pending, Some(GameState::InGame));
    assert_eq!(core.store.read_current(), GameState::MainMenu);

    // The next pass applies the transition before anything else: menu
    // cleanup, commit, game setup, then only the in-game set.
    core.sample_widgets(&release_all(2));
    let events = core.tick(idle_input(), 0);
    assert_eq!(
        events,
        vec![
            Event::ExitHook(HookAction::DespawnWith(Tag::MainMenu)),
            Event::Committed(GameState::InGame),
            Event::EnterHook(HookAction::SetupGameCamera),
            Event::Ran(Behavior::ButtInteractVisual),
            Event::GlobalRan(Behavior::DebugCurrentState),
        ]
    );
    assert_eq!(core.store.read_current(), GameState::InGame);
    assert_eq!(core.store.pending, None);
    assert_eq!(
        core.world.objects,
        vec![root(Tag::UiCamera), root(Tag::GameCamera), root(Tag::Ground)]
    );

    // Later ticks keep evaluating the in-game set, never the menu's.
    let events = core.tick(idle_input(), 10);
    assert_eq!(
        events,
        vec![
            Event::Ran(Behavior::ButtInteractVisual),
            Event::GlobalRan(Behavior::DebugCurrentState),
        ]
    );
}

#[test]
fn mode_cycle_leaves_no_stale_menu_objects() {
    // Entering the menu builds the root and its two buttons; leaving it
    // again runs the registered exit hook, cleanup of the menu tag, which
    // takes the owned buttons with the root — nothing of the menu leaks
    // into the in-game view.
    let mut core = Core::new(GameState::InGame, 125, default_registry(), menu_buttons());
    core.store.request(GameState::MainMenu);
    let events = core.tick(idle_input(), 0);
    assert_eq!(events[0], Event::ExitHook(HookAction::DespawnWith(Tag::MySprite)));
    assert_eq!(events[1], Event::ExitHook(HookAction::DespawnWith(Tag::GameCamera)));
    assert_eq!(events[2], Event::Committed(GameState::MainMenu));
    assert_eq!(events[3], Event::EnterHook(HookAction::SetupMenu));
    assert_eq!(
        core.world.objects,
        vec![
            root(Tag::UiCamera),
            root(Tag::MainMenu),
            child(Tag::EnterButt, Tag::MainMenu),
            child(Tag::ExitButt, Tag::MainMenu),
        ]
    );
    core.store.request(GameState::InGame);
    let events = core.tick(idle_input(), 0);
    assert_eq!(events[0], Event::ExitHook(HookAction::DespawnWith(Tag::MainMenu)));
    assert_eq!(
        core.world.objects,
        vec![root(Tag::UiCamera), root(Tag::GameCamera), root(Tag::Ground)]
    );
}

#[test]
fn fixed_rate_spawning_catches_up() {
    let mut core = Core::new(GameState::InGame, 125, default_registry(), Vec::new());
    let held = InputSnapshot { esc_just_pressed: false, space_held: true };
    // 300 ms with a 125 ms threshold: the fixed-rate stage runs twice and
    // 50 ms carries forward.
    let events = core.tick(held, 300);
    assert_eq!(
        events,
        vec![
            Event::FixedRan(Behavior::SpawnSprite),
            Event::FixedRan(Behavior::SpawnSprite),
            Event::Ran(Behavior::ButtInteractVisual),
            Event::GlobalRan(Behavior::DebugCurrentState),
        ]
    );
    assert_eq!(core.world.count_tagged(Tag::MySprite), 2);
    assert_eq!(core.timer.acc, 50);
    // 50 ms and 25 ms reach the 125 ms mark once more.
    core.tick(held, 50);
    assert_eq!(core.world.count_tagged(Tag::MySprite), 2);
    core.tick(held, 25);
    assert_eq!(core.world.count_tagged(Tag::MySprite), 3);
    assert_eq!(core.timer.acc, 0);
}

#[test]
fn false_gate_skips_and_toggling_is_not_retroactive() {
    let mut core = Core::new(GameState::InGame, 125, default_registry(), Vec::new());
    // Space not held: the fixed-rate chunks pass, the gated behavior never
    // executes.
    let events = core.tick(idle_input(), 300);
    assert_eq!(
        events,
        vec![
            Event::Ran(Behavior::ButtInteractVisual),
            Event::GlobalRan(Behavior::DebugCurrentState),
        ]
    );
    assert_eq!(core.world.count_tagged(Tag::MySprite), 0);
    // Once the condition holds, the behavior executes on the next tick,
    // once per chunk due then; the two chunks that elapsed while the
    // condition was false stay skipped.
    let held = InputSnapshot { esc_just_pressed: false, space_held: true };
    let events = core.tick(held, 75);
    assert_eq!(
        events,
        vec![
            Event::FixedRan(Behavior::SpawnSprite),
            Event::Ran(Behavior::ButtInteractVisual),
            Event::GlobalRan(Behavior::DebugCurrentState),
        ]
    );
    assert_eq!(core.world.count_tagged(Tag::MySprite), 1);
}

#[test]
fn exit_button_and_escape_raise_the_quit_request() {
    let mut core = Core::new(GameState::MainMenu, 125, default_registry(), menu_buttons());
    assert!(!core.exit_requested);
    core.sample_widgets(&press(2, 1));
    let events = core.tick(idle_input(), 0);
    assert!(events.contains(&Event::Ran(Behavior::ButtExit)));
    assert!(core.exit_requested);

    let mut core = Core::new(GameState::MainMenu, 125, default_registry(), menu_buttons());
    let esc = InputSnapshot { esc_just_pressed: true, space_held: false };
    core.tick(esc, 0);
    assert!(core.exit_requested);
}

#[test]
fn latest_request_of_a_tick_is_the_one_applied() {
    // Two requesting behaviors run in one tick: the enter button asks for
    // the game, the later escape handler asks for the menu; the menu
    // request survives.
    let mut registry = default_registry();
    registry.add_behavior(Some(GameState::MainMenu), Behavior::BackToMenuOnEsc, None);
    let mut core = Core::new(GameState::MainMenu, 125, registry, menu_buttons());
    core.sample_widgets(&press(2, 0));
    let esc = InputSnapshot { esc_just_pressed: true, space_held: false };
    let events = core.tick(esc, 0);
    assert!(events.contains(&Event::Ran(Behavior::ButtGame)));
    assert!(events.contains(&Event::Ran(Behavior::BackToMenuOnEsc)));
    assert_eq!(core.store.pending, Some(GameState::MainMenu));
}

#[test]
fn observer_reports_each_mode_change_once() {
    let mut core = Core::new(GameState::MainMenu, 125, default_registry(), menu_buttons());
    assert_eq!(debug_current_state(&mut core.store), Some(GameState::MainMenu));
    assert_eq!(debug_current_state(&mut core.store), None);
    core.store.request(GameState::InGame);
    core.tick(idle_input(), 0);
    assert_eq!(debug_current_state(&mut core.store), Some(GameState::InGame));
    assert_eq!(debug_current_state(&mut core.store), None);
}

#[test]
fn back_to_menu_requests_only_on_escape() {
    let mut store = StateStore::new(GameState::InGame);
    back_to_menu_on_esc(&mut store, idle_input());
    assert_eq!(store.pending, None);
    let esc = InputSnapshot { esc_just_pressed: true, space_held: false };
    back_to_menu_on_esc(&mut store, esc);
    assert_eq!(store.pending, Some(GameState::MainMenu));
}

#[test]
fn button_visuals_follow_interaction_states() {
    let mut core = Core::new(GameState::MainMenu, 125, default_registry(), menu_buttons());
    core.sample_widgets(&vec![
        WidgetInput { pointer_over: true, pressed: true },
        WidgetInput { pointer_over: true, pressed: false },
    ]);
    assert_eq!(butt_interact_visual(&core.widgets), vec![Visual::Pressed, Visual::Highlighted]);
    core.sample_widgets(&release_all(2));
    assert_eq!(butt_interact_visual(&core.widgets), vec![Visual::Plain, Visual::Plain]);
}
