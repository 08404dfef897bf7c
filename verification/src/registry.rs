//! The registration surface: which behaviors run in which mode, under which
//! condition, and which hooks run on each mode's enter and exit edges. It is
//! wired once at startup and read, never mutated, by the running scheduler.

use vstd::prelude::*;
use crate::state::GameState;
use crate::world::Tag;

verus! {

/// The closed set of behaviors the scheduler can run. Each names one action;
/// what the action touches (the state store, the object arena, the host) is
/// fixed per variant, so a tick's whole effect is a function of which
/// behaviors ran in which order.
#[derive(Clone, Copy, PartialEq, Eq, Structural, Debug)]
pub enum Behavior {
    /// Requests the menu mode when the escape key was just pressed.
    BackToMenuOnEsc,
    /// Observes mode change detection; the host logs what it reports.
    DebugCurrentState,
    /// Spawns one in-game sprite (the fixed-rate behavior).
    SpawnSprite,
    /// Recomputes every button's visual treatment; no core-side state.
    ButtInteractVisual,
    /// Asks the host to quit the application.
    ButtExit,
    /// Requests the in-game mode.
    ButtGame,
    /// Asks the host to quit when the escape key was just pressed.
    ExitOnEsc,
}

/// The pure boolean gates a behavior can be registered under.
#[derive(Clone, Copy, PartialEq, Eq, Structural, Debug)]
pub enum Condition {
    /// The space key is currently held.
    SpacebarPressed,
    /// Some widget carrying the tag entered Active this very tick.
    JustActivated(Tag),
}

/// One registered behavior with its optional gate. A missing gate means
/// "always run while the owning mode is current".
#[derive(Clone, Copy, PartialEq, Eq, Structural, Debug)]
pub struct Entry {
    pub behavior: Behavior,
    pub condition: Option<Condition>,
}

/// The one-shot actions bound to a mode's enter or exit edge. Hooks have no
/// condition: they always run on their edge, in registration order.
#[derive(Clone, Copy, PartialEq, Eq, Structural, Debug)]
pub enum HookAction {
    /// Builds the menu interface (menu root plus its two buttons).
    SetupMenu,
    /// Builds the in-game camera and ground.
    SetupGameCamera,
    /// Destroys every engine object carrying the tag, and with each such
    /// root everything it owns.
    DespawnWith(Tag),
}

/// Everything wired at startup, keyed by mode. Registration against a mode
/// outside the closed `GameState` enumeration is unrepresentable, so the
/// configuration-error case of a hook against an undefined mode cannot
/// arise.
pub struct Registry {
    pub enter_menu: Vec<HookAction>,
    pub exit_menu: Vec<HookAction>,
    pub enter_game: Vec<HookAction>,
    pub exit_game: Vec<HookAction>,
    pub menu_behaviors: Vec<Entry>,
    pub game_behaviors: Vec<Entry>,
    pub global_behaviors: Vec<Entry>,
    pub fixed_menu: Vec<Entry>,
    pub fixed_game: Vec<Entry>,
}

impl Registry {
    /// The enter hooks of a mode, in registration order.
    pub open spec fn enter_hooks(self, m: GameState) -> Seq<HookAction> {
        match m {
            GameState::MainMenu => self.enter_menu@,
            GameState::InGame => self.enter_game@,
        }
    }

    /// The exit hooks of a mode, in registration order.
    pub open spec fn exit_hooks(self, m: GameState) -> Seq<HookAction> {
        match m {
            GameState::MainMenu => self.exit_menu@,
            GameState::InGame => self.exit_game@,
        }
    }

    /// The per-frame behaviors of a mode, in registration order.
    pub open spec fn behaviors_of(self, m: GameState) -> Seq<Entry> {
        match m {
            GameState::MainMenu => self.menu_behaviors@,
            GameState::InGame => self.game_behaviors@,
        }
    }

    /// The fixed-rate behaviors of a mode, in registration order.
    pub open spec fn fixed_of(self, m: GameState) -> Seq<Entry> {
        match m {
            GameState::MainMenu => self.fixed_menu@,
            GameState::InGame => self.fixed_game@,
        }
    }

    /// An empty registry: nothing wired anywhere.
    pub fn new() -> (r: Self)
        ensures
            forall|m: GameState| #[trigger] r.enter_hooks(m) =~= Seq::<HookAction>::empty(),
            forall|m: GameState| #[trigger] r.exit_hooks(m) =~= Seq::<HookAction>::empty(),
            forall|m: GameState| #[trigger] r.behaviors_of(m) =~= Seq::<Entry>::empty(),
            forall|m: GameState| #[trigger] r.fixed_of(m) =~= Seq::<Entry>::empty(),
            r.global_behaviors@ =~= Seq::<Entry>::empty(),
    {
        Registry {
            enter_menu: Vec::new(),
            exit_menu: Vec::new(),
            enter_game: Vec::new(),
            exit_game: Vec::new(),
            menu_behaviors: Vec::new(),
            game_behaviors: Vec::new(),
            global_behaviors: Vec::new(),
            fixed_menu: Vec::new(),
            fixed_game: Vec::new(),
        }
    }

    /// Registers a hook on a mode's enter edge.
    pub fn on_enter(&mut self, m: GameState, h: HookAction)
        ensures
            final(self).enter_hooks(m) == old(self).enter_hooks(m).push(h),
            forall|m2: GameState|
                m2 != m ==> #[trigger] final(self).enter_hooks(m2) == old(self).enter_hooks(m2),
            forall|m2: GameState| #[trigger] final(self).exit_hooks(m2) == old(self).exit_hooks(m2),
            forall|m2: GameState|
                #[trigger] final(self).behaviors_of(m2) == old(self).behaviors_of(m2),
            forall|m2: GameState| #[trigger] final(self).fixed_of(m2) == old(self).fixed_of(m2),
            final(self).global_behaviors@ == old(self).global_behaviors@,
    {
        match m {
            GameState::MainMenu => self.enter_menu.push(h),
            GameState::InGame => self.enter_game.push(h),
        }
    }

    /// Registers a hook on a mode's exit edge.
    pub fn on_exit(&mut self, m: GameState, h: HookAction)
        ensures
            final(self).exit_hooks(m) == old(self).exit_hooks(m).push(h),
            forall|m2: GameState|
                m2 != m ==> #[trigger] final(self).exit_hooks(m2) == old(self).exit_hooks(m2),
            forall|m2: GameState|
                #[trigger] final(self).enter_hooks(m2) == old(self).enter_hooks(m2),
            forall|m2: GameState|
                #[trigger] final(self).behaviors_of(m2) == old(self).behaviors_of(m2),
            forall|m2: GameState| #[trigger] final(self).fixed_of(m2) == old(self).fixed_of(m2),
            final(self).global_behaviors@ == old(self).global_behaviors@,
    {
        match m {
            GameState::MainMenu => self.exit_menu.push(h),
            GameState::InGame => self.exit_game.push(h),
        }
    }

    /// Registers a per-frame behavior: for one mode when `mode` is given, or
    /// globally (run every tick whatever the mode) when it is `None`.
    pub fn add_behavior(&mut self, mode: Option<GameState>, b: Behavior, c: Option<Condition>)
        ensures
            mode matches Some(m) ==> final(self).behaviors_of(m) == old(self).behaviors_of(m).push(
                Entry { behavior: b, condition: c },
            ) && final(self).global_behaviors@ == old(self).global_behaviors@,
            mode is None ==> final(self).global_behaviors@ == old(self).global_behaviors@.push(
                Entry { behavior: b, condition: c },
            ) && forall|m2: GameState|
                #[trigger] final(self).behaviors_of(m2) == old(self).behaviors_of(m2),
            forall|m2: GameState|
                mode != Some(m2) ==> #[trigger] final(self).behaviors_of(m2) == old(
                    self,
                ).behaviors_of(m2),
            forall|m2: GameState|
                #[trigger] final(self).enter_hooks(m2) == old(self).enter_hooks(m2),
            forall|m2: GameState| #[trigger] final(self).exit_hooks(m2) == old(self).exit_hooks(m2),
            forall|m2: GameState| #[trigger] final(self).fixed_of(m2) == old(self).fixed_of(m2),
    {
        let e = Entry { behavior: b, condition: c };
        match mode {
            Some(GameState::MainMenu) => self.menu_behaviors.push(e),
            Some(GameState::InGame) => self.game_behaviors.push(e),
            None => self.global_behaviors.push(e),
        }
    }

    /// Registers a fixed-rate behavior for one mode.
    pub fn add_fixed_behavior(&mut self, m: GameState, b: Behavior, c: Option<Condition>)
        ensures
            final(self).fixed_of(m) == old(self).fixed_of(m).push(
                Entry { behavior: b, condition: c },
            ),
            forall|m2: GameState|
                m2 != m ==> #[trigger] final(self).fixed_of(m2) == old(self).fixed_of(m2),
            forall|m2: GameState|
                #[trigger] final(self).enter_hooks(m2) == old(self).enter_hooks(m2),
            forall|m2: GameState| #[trigger] final(self).exit_hooks(m2) == old(self).exit_hooks(m2),
            forall|m2: GameState|
                #[trigger] final(self).behaviors_of(m2) == old(self).behaviors_of(m2),
            final(self).global_behaviors@ == old(self).global_behaviors@,
    {
        let e = Entry { behavior: b, condition: c };
        match m {
            GameState::MainMenu => self.fixed_menu.push(e),
            GameState::InGame => self.fixed_game.push(e),
        }
    }
}

/// The application's startup wiring: sprite spawning at the fixed rate while
/// in game with space held; menu and game setup and teardown on the mode
/// edges; the menu's two button handlers gated on their buttons' activation
/// edges; visual feedback in both modes; quit-on-escape in the menu; and a
/// global mode-change logger.
pub fn default_registry() -> (r: Registry)
    ensures
        r.fixed_of(GameState::InGame) =~= seq![
            Entry {
                behavior: Behavior::SpawnSprite,
                condition: Some(Condition::SpacebarPressed),
            },
        ],
        r.fixed_of(GameState::MainMenu) =~= Seq::<Entry>::empty(),
        r.enter_hooks(GameState::MainMenu) =~= seq![HookAction::SetupMenu],
        r.exit_hooks(GameState::MainMenu) =~= seq![HookAction::DespawnWith(Tag::MainMenu)],
        r.enter_hooks(GameState::InGame) =~= seq![HookAction::SetupGameCamera],
        r.exit_hooks(GameState::InGame) =~= seq![
            HookAction::DespawnWith(Tag::MySprite),
            HookAction::DespawnWith(Tag::GameCamera),
        ],
        r.behaviors_of(GameState::MainMenu) =~= seq![
            Entry { behavior: Behavior::ExitOnEsc, condition: None },
            Entry { behavior: Behavior::ButtInteractVisual, condition: None },
            Entry {
                behavior: Behavior::ButtExit,
                condition: Some(Condition::JustActivated(Tag::ExitButt)),
            },
            Entry {
                behavior: Behavior::ButtGame,
                condition: Some(Condition::JustActivated(Tag::EnterButt)),
            },
        ],
        r.behaviors_of(GameState::InGame) =~= seq![
            Entry { behavior: Behavior::ButtInteractVisual, condition: None },
        ],
        r.global_behaviors@ =~= seq![
            Entry { behavior: Behavior::DebugCurrentState, condition: None },
        ],
{
    let mut r = Registry::new();
    r.add_fixed_behavior(
        GameState::InGame,
        Behavior::SpawnSprite,
        Some(Condition::SpacebarPressed),
    );
    r.on_enter(GameState::MainMenu, HookAction::SetupMenu);
    r.on_exit(GameState::MainMenu, HookAction::DespawnWith(Tag::MainMenu));
    r.on_enter(GameState::InGame, HookAction::SetupGameCamera);
    r.on_exit(GameState::InGame, HookAction::DespawnWith(Tag::MySprite));
    r.on_exit(GameState::InGame, HookAction::DespawnWith(Tag::GameCamera));
    r.add_behavior(Some(GameState::MainMenu), Behavior::ExitOnEsc, None);
    r.add_behavior(Some(GameState::MainMenu), Behavior::ButtInteractVisual, None);
    r.add_behavior(
        Some(GameState::MainMenu),
        Behavior::ButtExit,
        Some(Condition::JustActivated(Tag::ExitButt)),
    );
    r.add_behavior(
        Some(GameState::MainMenu),
        Behavior::ButtGame,
        Some(Condition::JustActivated(Tag::EnterButt)),
    );
    r.add_behavior(Some(GameState::InGame), Behavior::ButtInteractVisual, None);
    r.add_behavior(None, Behavior::DebugCurrentState, None);
    r
}

} // verus!
