use modesched::state::{GameState, StateStore};
use modesched::timestep::FixedTimer;
use modesched::widget::{visual_state, InteractionState, Visual, Widget, WidgetInput};
use modesched::world::{
    despawn_with, setup_game_camera, setup_menu, spawn_sprite, EngineObject, Tag, World,
};

fn signals(pointer_over: bool, pressed: bool) -> WidgetInput {
    WidgetInput { pointer_over, pressed }
}

fn root(tag: Tag) -> EngineObject {
    EngineObject { tag, owner: None }
}

fn child(tag: Tag, owner: Tag) -> EngineObject {
    EngineObject { tag, owner: Some(owner) }
}

#[test]
fn latest_request_wins_within_one_tick() {
    let mut store = StateStore::new(GameState::MainMenu);
    store.request(GameState::InGame);
    store.request(GameState::MainMenu);
    store.request(GameState::InGame);
    assert_eq!(store.take_pending(), Some(GameState::InGame));
    assert_eq!(store.take_pending(), None);
    assert_eq!(store.read_current(), GameState::MainMenu);
}

#[test]
fn change_detection_clears_on_observation() {
    let mut store = StateStore::new(GameState::MainMenu);
    assert!(store.changed_since_last_observed());
    assert!(!store.changed_since_last_observed());
    store.commit(GameState::InGame);
    assert!(store.changed_since_last_observed());
    assert!(!store.changed_since_last_observed());
    assert_eq!(store.read_current(), GameState::InGame);
}

#[test]
fn fixed_timer_carries_the_remainder() {
    // One 300 ms tick against a 125 ms threshold runs twice and carries
    // 50 ms; 50 ms and 25 ms ticks then trigger one more run at the 125 ms
    // mark.
    let mut timer = FixedTimer::new(125);
    assert_eq!(timer.advance(300), 2);
    assert_eq!(timer.acc, 50);
    assert_eq!(timer.advance(50), 0);
    assert_eq!(timer.acc, 100);
    assert_eq!(timer.advance(25), 1);
    assert_eq!(timer.acc, 0);
}

#[test]
fn fixed_timer_total_is_floor_of_elapsed() {
    let mut split = FixedTimer::new(40);
    let mut lump = FixedTimer::new(40);
    let mut split_runs: u64 = 0;
    for dt in [7, 93, 40, 0, 179, 1] {
        split_runs += split.advance(dt);
    }
    let lump_runs = lump.advance(7 + 93 + 40 + 0 + 179 + 1);
    assert_eq!(split_runs, lump_runs);
    assert_eq!(lump_runs, 320 / 40);
    assert_eq!(split.acc, lump.acc);
}

#[test]
fn widget_idle_hovered_active_scenario() {
    // Idle -> Hovered -> Active over three consecutive ticks:
    // just_activated reads {false, false, true}, the visuals
    // {Plain, Highlighted, Pressed}.
    let mut w = Widget::new();
    w.step(signals(false, false));
    assert!(!w.just_activated());
    assert_eq!(w.state, InteractionState::Idle);
    assert_eq!(visual_state(w.state), Visual::Plain);
    w.step(signals(true, false));
    assert!(!w.just_activated());
    assert_eq!(w.state, InteractionState::Hovered);
    assert_eq!(visual_state(w.state), Visual::Highlighted);
    w.step(signals(true, true));
    assert!(w.just_activated());
    assert_eq!(w.state, InteractionState::Active);
    assert_eq!(visual_state(w.state), Visual::Pressed);
}

#[test]
fn widget_held_press_activates_once() {
    let mut w = Widget::new();
    w.step(signals(true, true));
    assert!(w.just_activated());
    w.step(signals(true, true));
    assert!(!w.just_activated());
    assert_eq!(w.state, InteractionState::Active);
    w.step(signals(true, true));
    assert!(!w.just_activated());
    // Release over the widget: back to Hovered; a fresh press is a fresh
    // activation.
    w.step(signals(true, false));
    assert_eq!(w.state, InteractionState::Hovered);
    assert!(!w.just_activated());
    w.step(signals(true, true));
    assert!(w.just_activated());
}

#[test]
fn widget_release_outside_falls_back_to_idle() {
    let mut w = Widget::new();
    w.step(signals(true, true));
    assert_eq!(w.state, InteractionState::Active);
    w.step(signals(false, false));
    assert_eq!(w.state, InteractionState::Idle);
    assert!(!w.just_activated());
}

#[test]
fn despawn_with_destroys_exactly_the_tagged_group() {
    let mut world = World::new();
    setup_menu(&mut world);
    spawn_sprite(&mut world);
    setup_game_camera(&mut world);
    spawn_sprite(&mut world);
    assert_eq!(world.count_tagged(Tag::MySprite), 2);
    despawn_with(&mut world, Tag::MySprite);
    assert_eq!(world.count_tagged(Tag::MySprite), 0);
    assert_eq!(
        world.objects,
        vec![
            root(Tag::MainMenu),
            child(Tag::EnterButt, Tag::MainMenu),
            child(Tag::ExitButt, Tag::MainMenu),
            root(Tag::GameCamera),
            root(Tag::Ground),
        ]
    );
    // Cleaning up the menu tag takes the root and both buttons it owns.
    despawn_with(&mut world, Tag::MainMenu);
    assert_eq!(world.objects, vec![root(Tag::GameCamera), root(Tag::Ground)]);
}

#[test]
fn menu_exit_cleanup_removes_the_whole_menu() {
    // Everything menu setup creates is the menu root or owned by its tag,
    // so the registered exit hook — cleanup of the menu tag alone —
    // removes the entire menu, buttons included.
    let mut world = World::new();
    setup_menu(&mut world);
    assert_eq!(
        world.objects,
        vec![
            root(Tag::MainMenu),
            child(Tag::EnterButt, Tag::MainMenu),
            child(Tag::ExitButt, Tag::MainMenu),
        ]
    );
    assert_eq!(world.count_tagged(Tag::EnterButt), 1);
    despawn_with(&mut world, Tag::MainMenu);
    assert_eq!(world.objects, Vec::new());
}

#[test]
fn visual_treatments_are_distinct() {
    let all = [InteractionState::Idle, InteractionState::Hovered, InteractionState::Active];
    for a in all {
        for b in all {
            if a != b {
                assert_ne!(visual_state(a), visual_state(b));
            }
        }
    }
}
