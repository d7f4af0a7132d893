//! The game's modes and the machine that moves between them.
//!
//! A change of mode is asked for during a step and takes effect when the
//! next step begins. Combat and the world map each own a nested mode that
//! exists only while its parent is active.

use vstd::prelude::*;

verus! {

/// Main game states that control which systems are active.
#[derive(Debug, Clone, Copy, PartialEq, Eq, Structural, Hash)]
pub enum GameState {
    /// Initial loading screen.
    Loading,
    MainMenu,
    CharacterCreation,
    /// Strategic map view.
    WorldMap,
    /// Inside a settlement.
    Settlement,
    /// During battles.
    Combat,
    Inventory,
    /// Conversation with other characters.
    Dialogue,
    Pause,
}

/// The phases of one battle. Only meaningful while the game is in combat.
#[derive(Debug, Clone, Copy, PartialEq, Eq, Structural, Hash)]
pub enum CombatState {
    /// Deployment phase.
    Preparation,
    Active,
    Victory,
    Defeat,
}

/// What the party is doing on the world map.
#[derive(Debug, Clone, Copy, PartialEq, Eq, Structural, Hash)]
pub enum WorldMapState {
    /// Free movement.
    Free,
    /// Random encounter.
    Encounter,
    /// Siege preparation.
    Siege,
}

impl Default for GameState {
    fn default() -> (r: Self)
        ensures
            r == GameState::Loading,
    {
        GameState::Loading
    }
}

impl Default for CombatState {
    fn default() -> (r: Self)
        ensures
            r == CombatState::Preparation,
    {
        CombatState::Preparation
    }
}

impl Default for WorldMapState {
    fn default() -> (r: Self)
        ensures
            r == WorldMapState::Free,
    {
        WorldMapState::Free
    }
}

/// A mode together with the nested mode it owns, if it owns one. Holding the
/// nested mode inside its parent makes "no combat phase outside combat" a
/// matter of shape rather than of discipline.
#[derive(Debug, Clone, Copy, PartialEq, Eq, Structural, Hash)]
pub enum Mode {
    Loading,
    MainMenu,
    CharacterCreation,
    WorldMap(WorldMapState),
    Settlement,
    Combat(CombatState),
    Inventory,
    Dialogue,
    Pause,
}

impl Mode {
    /// The mode as it stands just after being entered: nested modes start at
    /// their first phase.
    pub open spec fn entered(state: GameState) -> Mode {
        match state {
            GameState::Loading => Mode::Loading,
            GameState::MainMenu => Mode::MainMenu,
            GameState::CharacterCreation => Mode::CharacterCreation,
            GameState::WorldMap => Mode::WorldMap(WorldMapState::Free),
            GameState::Settlement => Mode::Settlement,
            GameState::Combat => Mode::Combat(CombatState::Preparation),
            GameState::Inventory => Mode::Inventory,
            GameState::Dialogue => Mode::Dialogue,
            GameState::Pause => Mode::Pause,
        }
    }

    /// The top-level state, with any nested mode forgotten.
    pub open spec fn state(self) -> GameState {
        match self {
            Mode::Loading => GameState::Loading,
            Mode::MainMenu => GameState::MainMenu,
            Mode::CharacterCreation => GameState::CharacterCreation,
            Mode::WorldMap(_) => GameState::WorldMap,
            Mode::Settlement => GameState::Settlement,
            Mode::Combat(_) => GameState::Combat,
            Mode::Inventory => GameState::Inventory,
            Mode::Dialogue => GameState::Dialogue,
            Mode::Pause => GameState::Pause,
        }
    }

    /// The combat phase, present exactly in combat.
    pub open spec fn combat(self) -> Option<CombatState> {
        match self {
            Mode::Combat(phase) => Some(phase),
            _ => None,
        }
    }

    /// The world-map activity, present exactly on the world map.
    pub open spec fn world_map(self) -> Option<WorldMapState> {
        match self {
            Mode::WorldMap(activity) => Some(activity),
            _ => None,
        }
    }

    /// Enters `state` afresh.
    pub fn enter(state: GameState) -> (r: Mode)
        ensures
            r == Mode::entered(state),
    {
        match state {
            GameState::Loading => Mode::Loading,
            GameState::MainMenu => Mode::MainMenu,
            GameState::CharacterCreation => Mode::CharacterCreation,
            GameState::WorldMap => Mode::WorldMap(WorldMapState::Free),
            GameState::Settlement => Mode::Settlement,
            GameState::Combat => Mode::Combat(CombatState::Preparation),
            GameState::Inventory => Mode::Inventory,
            GameState::Dialogue => Mode::Dialogue,
            GameState::Pause => Mode::Pause,
        }
    }

    /// The top-level state of this mode.
    pub fn game_state(self) -> (r: GameState)
        ensures
            r == self.state(),
    {
        match self {
            Mode::Loading => GameState::Loading,
            Mode::MainMenu => GameState::MainMenu,
            Mode::CharacterCreation => GameState::CharacterCreation,
            Mode::WorldMap(_) => GameState::WorldMap,
            Mode::Settlement => GameState::Settlement,
            Mode::Combat(_) => GameState::Combat,
            Mode::Inventory => GameState::Inventory,
            Mode::Dialogue => GameState::Dialogue,
            Mode::Pause => GameState::Pause,
        }
    }
}

/// A change of top-level state that has just taken effect. The caller runs
/// the teardown of `exited` and then the setup of `entered`, once each.
#[derive(Debug, Clone, Copy, PartialEq, Eq, Structural)]
pub struct Transition {
    pub exited: GameState,
    pub entered: GameState,
}

/// The machine as contracts see it: the mode in force and what has been
/// asked for since the current step began.
pub struct MachineView {
    pub mode: Mode,
    pub next: Option<GameState>,
    pub next_combat: Option<CombatState>,
    pub next_world_map: Option<WorldMapState>,
}

impl MachineView {
    /// A machine at rest in the loading screen.
    pub open spec fn initial() -> MachineView {
        MachineView { mode: Mode::Loading, next: None, next_combat: None, next_world_map: None }
    }

    /// Records a wish to change state. A later wish replaces an earlier one.
    pub open spec fn requested(self, target: GameState) -> MachineView {
        MachineView { next: Some(target), ..self }
    }

    /// Records a wish to change the combat phase.
    pub open spec fn requested_combat(self, phase: CombatState) -> MachineView {
        MachineView { next_combat: Some(phase), ..self }
    }

    /// Records a wish to change the world-map activity.
    pub open spec fn requested_world_map(self, activity: WorldMapState) -> MachineView {
        MachineView { next_world_map: Some(activity), ..self }
    }

    /// Whether the recorded wish names a state other than the current one.
    pub open spec fn changes_state(self) -> bool {
        self.next is Some && self.next->0 != self.mode.state()
    }

    /// The change of state that beginning the next step brings, if any.
    pub open spec fn transition(self) -> Option<Transition> {
        if self.changes_state() {
            Some(Transition { exited: self.mode.state(), entered: self.next->0 })
        } else {
            None
        }
    }

    /// The mode in force once the next step has begun. A change of state
    /// enters the new state afresh and drops wishes for nested modes; without
    /// one, a nested wish applies if its parent is the current state.
    pub open spec fn next_mode(self) -> Mode {
        if self.changes_state() {
            Mode::entered(self.next->0)
        } else {
            match self.mode {
                Mode::Combat(phase) => Mode::Combat(
                    if self.next_combat is Some {
                        self.next_combat->0
                    } else {
                        phase
                    },
                ),
                Mode::WorldMap(activity) => Mode::WorldMap(
                    if self.next_world_map is Some {
                        self.next_world_map->0
                    } else {
                        activity
                    },
                ),
                other => other,
            }
        }
    }

    /// The machine once the next step has begun: every wish is consumed.
    pub open spec fn advanced(self) -> MachineView {
        MachineView { mode: self.next_mode(), next: None, next_combat: None, next_world_map: None }
    }

    /// The machine after a run of wishes made within one step, in order.
    pub open spec fn after_requests(self, targets: Seq<GameState>) -> MachineView
        decreases targets.len(),
    {
        if targets.len() == 0 {
            self
        } else {
            self.after_requests(targets.drop_last()).requested(targets.last())
        }
    }
}

/// Tracks the mode the game is in and the changes asked for during the
/// current step.
pub struct ModeMachine {
    mode: Mode,
    next: Option<GameState>,
    next_combat: Option<CombatState>,
    next_world_map: Option<WorldMapState>,
}

impl View for ModeMachine {
    type V = MachineView;

    closed spec fn view(&self) -> MachineView {
        MachineView {
            mode: self.mode,
            next: self.next,
            next_combat: self.next_combat,
            next_world_map: self.next_world_map,
        }
    }
}

impl ModeMachine {
    /// A machine in the loading screen with nothing asked for.
    pub fn new() -> (r: ModeMachine)
        ensures
            r@ == MachineView::initial(),
    {
        ModeMachine { mode: Mode::Loading, next: None, next_combat: None, next_world_map: None }
    }

    /// The mode in force, nested mode included.
    pub fn current(&self) -> (r: Mode)
        ensures
            r == self@.mode,
    {
        self.mode
    }

    /// The top-level state in force.
    pub fn current_mode(&self) -> (r: GameState)
        ensures
            r == self@.mode.state(),
    {
        self.mode.game_state()
    }

    /// The combat phase, while in combat.
    pub fn combat_state(&self) -> (r: Option<CombatState>)
        ensures
            r == self@.mode.combat(),
    {
        match self.mode {
            Mode::Combat(phase) => Some(phase),
            _ => None,
        }
    }

    /// The world-map activity, while on the world map.
    pub fn world_map_state(&self) -> (r: Option<WorldMapState>)
        ensures
            r == self@.mode.world_map(),
    {
        match self.mode {
            Mode::WorldMap(activity) => Some(activity),
            _ => None,
        }
    }

    /// The state asked for during this step, if any.
    pub fn pending(&self) -> (r: Option<GameState>)
        ensures
            r == self@.next,
    {
        self.next
    }

    /// Asks for a change of state. Nothing changes until the next step
    /// begins; asking again before then replaces this wish.
    pub fn request_transition(&mut self, target: GameState)
        ensures
            final(self)@ == old(self)@.requested(target),
    {
        self.next = Some(target);
    }

    /// Asks for a change of combat phase, honoured at the next step if the
    /// game is then still in the same battle.
    pub fn request_combat_state(&mut self, phase: CombatState)
        ensures
            final(self)@ == old(self)@.requested_combat(phase),
    {
        self.next_combat = Some(phase);
    }

    /// Asks for a change of world-map activity, honoured at the next step if
    /// the game is then still on the map.
    pub fn request_world_map_state(&mut self, activity: WorldMapState)
        ensures
            final(self)@ == old(self)@.requested_world_map(activity),
    {
        self.next_world_map = Some(activity);
    }

    /// Begins the next step: applies what was asked for and reports the
    /// change of state, if there was one, so that the caller can run the
    /// teardown and setup that belong to it.
    pub fn advance(&mut self) -> (r: Option<Transition>)
        ensures
            final(self)@ == old(self)@.advanced(),
            r == old(self)@.transition(),
    {
        let from = self.mode.game_state();
        let report = match self.next {
            Some(target) => {
                if target != from {
                    self.mode = Mode::enter(target);
                    Some(Transition { exited: from, entered: target })
                } else {
                    None
                }
            },
            None => None,
        };
        if report.is_none() {
            match self.mode {
                Mode::Combat(_) => {
                    if let Some(phase) = self.next_combat {
                        self.mode = Mode::Combat(phase);
                    }
                },
                Mode::WorldMap(_) => {
                    if let Some(activity) = self.next_world_map {
                        self.mode = Mode::WorldMap(activity);
                    }
                },
                _ => {},
            }
        }
        self.next = None;
        self.next_combat = None;
        self.next_world_map = None;
        report
    }

    /// Whether the game is in `state`: the condition under which systems
    /// bound to that state run during this step.
    pub fn in_state(&self, state: GameState) -> (r: bool)
        ensures
            r == (self@.mode.state() == state),
    {
        self.mode.game_state() == state
    }

    /// Whether the game is in combat and the battle is in `phase`.
    pub fn in_combat_state(&self, phase: CombatState) -> (r: bool)
        ensures
            r == (self@.mode == Mode::Combat(phase)),
    {
        match self.mode {
            Mode::Combat(current) => current == phase,
            _ => false,
        }
    }

    /// Whether the game is on the world map and the party is engaged in
    /// `activity`.
    pub fn in_world_map_state(&self, activity: WorldMapState) -> (r: bool)
        ensures
            r == (self@.mode == Mode::WorldMap(activity)),
    {
        match self.mode {
            Mode::WorldMap(current) => current == activity,
            _ => false,
        }
    }
}

/// Leaves the loading screen once everything needed has been loaded: while
/// the game is loading and `assets_loaded` holds, asks for the main menu.
/// Otherwise nothing is asked for.
pub fn check_loading_complete(machine: &mut ModeMachine, assets_loaded: bool)
    ensures
        final(machine)@ == if old(machine)@.mode == Mode::Loading && assets_loaded {
            old(machine)@.requested(GameState::MainMenu)
        } else {
            old(machine)@
        },
{
    if assets_loaded && machine.in_state(GameState::Loading) {
        machine.request_transition(GameState::MainMenu);
    }
}

/// Within one step the mode never moves, however many changes are asked
/// for; once the next step begins, the state is the one asked for last.
/// A step in which nothing is asked for leaves the machine as it was.
pub proof fn lemma_last_request_wins(machine: MachineView, targets: Seq<GameState>)
    ensures
        machine.after_requests(targets).mode == machine.mode,
        targets.len() > 0 ==> machine.after_requests(targets).advanced().mode.state()
            == targets.last(),
        targets.len() > 0 ==> machine.after_requests(targets).next == Some(targets.last()),
        targets.len() == 0 ==> machine.after_requests(targets) == machine,
    decreases targets.len(),
{
    if targets.len() > 0 {
        lemma_last_request_wins(machine, targets.drop_last());
    }
}

/// Once a step has begun nothing is pending, and a step in which nothing
/// is asked for is followed by one in the same mode.
pub proof fn lemma_idle_step_keeps_mode(machine: MachineView)
    ensures
        machine.advanced().next is None,
        machine.advanced().next_combat is None,
        machine.advanced().next_world_map is None,
        machine.advanced().advanced() == machine.advanced(),
{
}

/// Entering combat always starts the battle in preparation, whatever phase
/// an earlier battle ended in; outside combat there is no combat phase.
pub proof fn lemma_combat_begins_in_preparation(machine: MachineView)
    ensures
        machine.mode.state() != GameState::Combat ==> machine.mode.combat() is None,
        machine.mode.state() != GameState::Combat ==> machine.requested(
            GameState::Combat,
        ).advanced().mode == Mode::Combat(CombatState::Preparation),
{
}

/// Leaving combat discards the phase, and coming back starts afresh: from
/// any battle, a step that leaves for `elsewhere` followed by a step that
/// returns lands in preparation.
pub proof fn lemma_combat_phase_is_discarded(machine: MachineView, elsewhere: GameState)
    requires
        machine.mode.state() == GameState::Combat,
        elsewhere != GameState::Combat,
    ensures
        machine.requested(elsewhere).advanced().mode.combat() is None,
        machine.requested(elsewhere).advanced().requested(GameState::Combat).advanced().mode
            == Mode::Combat(CombatState::Preparation),
{
}

} // verus!
