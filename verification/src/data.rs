//! Plain value types shared by the actor network: participant setup, game
//! settings, port allocations, and the small pieces of game-domain data that
//! the orchestration logic reads.

use vstd::prelude::*;

verus! {

/// Generic structure to represent a 2D rectangle.
#[derive(Debug, Copy, Clone)]
pub struct Rect<T> {
    /// X position of lefthand corner.
    pub x: T,
    /// Y position of lefthand corner.
    pub y: T,
    /// Width of the rectangle.
    pub w: T,
    /// Height of the rectangle.
    pub h: T,
}

/// Color type for debug commands.
pub type Color = (u8, u8, u8);

/// Visibility of a point on the terrain.
#[derive(Debug, Copy, Clone, Eq, PartialEq, Structural)]
pub enum Visibility {
    Hidden,
    Fogged,
    Visible,
    FullHidden,
}

/// Race of a participant.
#[derive(Debug, Copy, Clone, Eq, PartialEq, Structural)]
pub enum Race {
    Terran,
    Zerg,
    Protoss,
    Random,
}

/// Difficulty setting for the built-in AI.
#[derive(Debug, Copy, Clone, Eq, PartialEq, Structural)]
pub enum Difficulty {
    VeryEasy,
    Easy,
    Medium,
    MediumHard,
    Hard,
    Harder,
    VeryHard,
    CheatVision,
    CheatMoney,
    CheatInsane,
}

/// Outcome of a finished game, from one player's point of view.
#[derive(Debug, Copy, Clone, Eq, PartialEq, Structural)]
pub enum GameResult {
    Win,
    Loss,
    Tie,
    Undecided,
}

/// Source of a score.
#[derive(Debug, Copy, Clone, Eq, PartialEq, Structural)]
pub enum ScoreType {
    /// Map generated score (from curriculum maps with special scoring).
    Curriculum,
    /// Melee score.
    Melee,
}

/// Information about a player in a replay.
#[derive(Debug, Copy, Clone, Eq, PartialEq, Structural)]
pub struct ReplayPlayerInfo {
    /// Id of the player.
    pub player_id: u32,
    /// Player ranking.
    pub mmr: i32,
    /// Player actions per minute.
    pub apm: i32,
    /// Actual player race.
    pub race: Race,
    /// Selected player race (if Random or None, race will be different).
    pub race_selected: Option<Race>,
    /// If the player won or lost.
    pub game_result: Option<GameResult>,
}

/// Role a participant plays in a match.
#[derive(Debug, Copy, Clone, Eq, PartialEq, Structural)]
pub enum PlayerSetup {
    /// A bot program drives this participant.
    Player {
        /// Race the bot plays.
        race: Race,
    },
    /// The built-in AI drives this participant.
    Computer {
        /// Race the built-in AI plays.
        race: Race,
        /// Difficulty of the built-in AI.
        difficulty: Difficulty,
    },
    /// A passive observer.
    Observer,
}

impl PlayerSetup {
    /// Whether this participant is driven by a bot program.
    pub fn is_player(&self) -> (r: bool)
        ensures
            r == (*self is Player),
    {
        match self {
            PlayerSetup::Player { .. } => true,
            _ => false,
        }
    }

    /// Whether this participant is driven by the built-in AI.
    pub fn is_computer(&self) -> (r: bool)
        ensures
            r == (*self is Computer),
    {
        match self {
            PlayerSetup::Computer { .. } => true,
            _ => false,
        }
    }
}

/// Settings of one game: the map both participants play on.
#[derive(Debug)]
pub struct GameSettings {
    /// Path to the map.
    pub map: String,
}

impl Clone for GameSettings {
    fn clone(&self) -> (res: Self)
        ensures
            res == *self,
    {
        GameSettings { map: self.map.clone() }
    }
}

/// The pair of ports one client binds for a multiplayer game.
#[derive(Debug, Copy, Clone, Eq, PartialEq, Structural)]
pub struct PortSet {
    pub game_port: u16,
    pub base_port: u16,
}

/// The full port assignment of a multiplayer game.
#[derive(Debug)]
pub struct GamePorts {
    /// Port shared by every participant.
    pub shared_port: u16,
    /// Ports bound by the host.
    pub server_ports: PortSet,
    /// Ports bound by each joining client, in join order.
    pub client_ports: Vec<PortSet>,
}

impl Clone for GamePorts {
    fn clone(&self) -> (res: Self)
        ensures
            res.shared_port == self.shared_port,
            res.server_ports == self.server_ports,
            res.client_ports@ == self.client_ports@,
    {
        GamePorts {
            shared_port: self.shared_port,
            server_ports: self.server_ports,
            client_ports: copy_port_sets(&self.client_ports),
        }
    }
}

/// Copies a port-set list element by element.
fn copy_port_sets(v: &Vec<PortSet>) -> (r: Vec<PortSet>)
    ensures
        r@ == v@,
{
    let mut r: Vec<PortSet> = Vec::new();
    let mut i: usize = 0;
    while i < v.len()
        invariant
            i <= v.len(),
            r@ == v@.take(i as int),
        decreases v.len() - i,
    {
        r.push(v[i]);
        proof {
            assert(v@.take(i + 1 as int).drop_last() =~= v@.take(i as int));
            assert(r@ =~= v@.take(i + 1 as int));
        }
        i = i + 1;
    }
    proof {
        assert(v@.take(v@.len() as int) =~= v@);
    }
    r
}

/// Whether two port assignments carry the same ports.
pub open spec fn game_ports_equiv(a: GamePorts, b: GamePorts) -> bool {
    a.shared_port == b.shared_port && a.server_ports == b.server_ports && a.client_ports@
        == b.client_ports@
}

/// Whether two pools of port assignments carry the same ports, pairwise.
pub open spec fn ports_pool_equiv(a: Seq<GamePorts>, b: Seq<GamePorts>) -> bool {
    a.len() == b.len() && forall|i: int| 0 <= i < a.len() ==> game_ports_equiv(#[trigger] a[i], b[i])
}

/// Copies a pool of port assignments, keeping every port.
pub fn copy_ports_pool(v: &Vec<GamePorts>) -> (r: Vec<GamePorts>)
    ensures
        ports_pool_equiv(r@, v@),
{
    let mut r: Vec<GamePorts> = Vec::new();
    let mut i: usize = 0;
    while i < v.len()
        invariant
            i <= v.len(),
            r@.len() == i,
            forall|j: int| 0 <= j < i ==> game_ports_equiv(#[trigger] r@[j], v@[j]),
        decreases v.len() - i,
    {
        r.push(v[i].clone());
        i = i + 1;
    }
    r
}

/// One command a bot issues to units of the game.
#[derive(Debug, Copy, Clone, Eq, PartialEq, Structural)]
pub struct Action {
    /// Ability that is triggered.
    pub ability: u32,
    /// Unit the ability is issued to.
    pub unit_tag: u64,
    /// Whether the command queues behind other commands.
    pub queued: bool,
}

/// One debugging command for the game instance.
#[derive(Debug, Copy, Clone, Eq, PartialEq, Structural)]
pub enum DebugCommand {
    /// Remove a unit from the game.
    KillUnit {
        /// Unit to remove.
        tag: u64,
    },
    /// End the game at once.
    EndGame {
        /// Whether the player is declared the victor.
        victory: bool,
    },
}

/// Unique tag of a unit.
#[derive(Debug, Copy, Clone, Eq, PartialEq, Structural)]
pub struct Tag {}

/// How a unit is currently shown to the player.
#[derive(Debug, Copy, Clone, Eq, PartialEq, Structural)]
pub enum DisplayType {
    Visible,
    Snapshot,
    Hidden,
}

/// Relationship of a unit to the player.
#[derive(Debug, Copy, Clone, Eq, PartialEq, Structural)]
pub enum Alliance {
    Domestic,
    Ally,
    Neutral,
    Enemy,
}

/// Cloak state of a unit.
#[derive(Debug, Copy, Clone, Eq, PartialEq, Structural)]
pub enum CloakState {
    Cloaked,
    CloakedDetected,
    NotCloaked,
    Unknown,
}

} // verus!
