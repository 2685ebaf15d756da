use vstd::prelude::*;

use crate::graph::BubbleGraph;

verus! {

/// The IEEE-754 bit pattern of an `f32` (`f32::to_bits`).
pub type F32Bits = u32;

/// Bit pattern of `1.0f32`.
pub const ONE_F32_BITS: F32Bits = 0x3f80_0000u32;

/// The four basic arithmetic operations, each linked to a distinct
/// visual/topological mechanic.
#[derive(Clone, Copy, Debug, PartialEq, Eq, Structural, Hash)]
pub enum MathOp {
    /// Awakens seeds, grows new bubbles.
    Addition,
    /// Dissolves wall membranes to merge bubbles into tubes.
    Subtraction,
    /// Fills bubbles with vibrant light.
    Multiplication,
    /// Inserts dividing wall membranes to split bubble structures.
    Division,
}

/// The default light color of each operation, as RGB bit patterns:
/// Addition a soft warm white (0.95, 0.90, 0.80), Subtraction a deep blue
/// (0.05, 0.10, 1.0), Multiplication green (0.0, 1.0, 0.0) and Division red
/// (1.0, 0.01, 0.05).
pub open spec fn default_color_of(op: MathOp) -> Seq<F32Bits> {
    match op {
        MathOp::Addition => seq![0x3f73_3333u32, 0x3f66_6666u32, 0x3f4c_cccdu32],
        MathOp::Subtraction => seq![0x3d4c_cccdu32, 0x3dcc_cccdu32, ONE_F32_BITS],
        MathOp::Multiplication => seq![0u32, ONE_F32_BITS, 0u32],
        MathOp::Division => seq![ONE_F32_BITS, 0x3c23_d70au32, 0x3d4c_cccdu32],
    }
}

impl MathOp {
    /// The operation's light color, RGB normalized to `[0.0, 1.0]`.
    ///
    /// Each component is the bit pattern of a float in `[0.0, 1.0]`: a
    /// pattern with the sign bit clear that is at most `ONE_F32_BITS`.
    pub fn default_color(&self) -> (c: [F32Bits; 3])
        ensures
            c@ == default_color_of(*self),
            forall|i: int| 0 <= i < 3 ==> #[trigger] c@[i] <= ONE_F32_BITS,
    {
        match self {
            MathOp::Addition => [0x3f73_3333u32, 0x3f66_6666u32, 0x3f4c_cccdu32],
            MathOp::Subtraction => [0x3d4c_cccdu32, 0x3dcc_cccdu32, ONE_F32_BITS],
            MathOp::Multiplication => [0u32, ONE_F32_BITS, 0u32],
            MathOp::Division => [ONE_F32_BITS, 0x3c23_d70au32, 0x3d4c_cccdu32],
        }
    }
}

/// A math problem sent from server to client.
#[derive(Clone, Debug)]
pub struct MathTask {
    pub id: u64,
    pub op: MathOp,
    pub question: String,
    pub options: Vec<i32>,
    pub correct_answer: i32,
}

/// The physical/visual interface between two connected bubbles.
#[derive(Clone, Copy, Debug, PartialEq, Eq, Structural)]
pub enum MembraneType {
    /// Held together by surface tension.
    Normal,
    /// Membrane wall dissolved via Subtraction (amorphous tube).
    Open,
    /// Internal dividing wall inserted via Division.
    Divided,
}

/// Something the world keeps in a map keyed by its id.
pub trait HasId {
    spec fn spec_entity_id(&self) -> u64;

    fn entity_id(&self) -> (id: u64)
        ensures
            id == self.spec_entity_id(),
    ;
}

/// A single bubble node in the world.
#[derive(Clone, Copy, Debug)]
pub struct BubbleData {
    pub id: u64,
    pub x: F32Bits,
    pub y: F32Bits,
    pub radius: F32Bits,
    /// Internal expansion pressure driving spring physics.
    pub pressure: F32Bits,
    /// Light intensity inside the bubble.
    pub light: F32Bits,
    /// RGB color, normalized to `[0.0, 1.0]`.
    pub color: [F32Bits; 3],
}

impl BubbleData {
    /// A bubble with the given fields and a pressure of `1.0`.
    pub fn new(id: u64, x: F32Bits, y: F32Bits, radius: F32Bits, light: F32Bits, color: [F32Bits; 3]) -> (b: Self)
        ensures
            b == (BubbleData { id, x, y, radius, pressure: ONE_F32_BITS, light, color }),
    {
        BubbleData { id, x, y, radius, pressure: ONE_F32_BITS, light, color }
    }

    /// The bubble's position as `[x, y]`.
    pub fn position(&self) -> (p: [F32Bits; 2])
        ensures
            p@ == seq![self.x, self.y],
    {
        [self.x, self.y]
    }
}

impl HasId for BubbleData {
    open spec fn spec_entity_id(&self) -> u64 {
        self.id
    }

    fn entity_id(&self) -> (id: u64) {
        self.id
    }
}

/// An edge connecting two bubble nodes in the graph.
#[derive(Clone, Copy, Debug)]
pub struct BubbleEdge {
    pub id: u64,
    pub node_a: u64,
    pub node_b: u64,
    pub membrane: MembraneType,
    /// Rest length used by the spring simulation.
    pub rest_length: F32Bits,
}

impl BubbleEdge {
    /// Whether the edge has `node` as one of its two ends.
    pub open spec fn touches(self, node: u64) -> bool {
        self.node_a == node || self.node_b == node
    }
}

impl HasId for BubbleEdge {
    open spec fn spec_entity_id(&self) -> u64 {
        self.id
    }

    fn entity_id(&self) -> (id: u64) {
        self.id
    }
}

/// Where a seed is in its life cycle.
#[derive(Clone, Copy, Debug, PartialEq, Eq, Structural)]
pub enum SeedState {
    Dormant,
    /// Carried by the player with this id.
    CarriedByPlayer(u64),
    Planted,
    Awakening,
}

#[derive(Clone, Debug)]
pub struct SeedData {
    pub id: u64,
    pub x: F32Bits,
    pub y: F32Bits,
    pub state: SeedState,
    pub required_op: Option<MathOp>,
}

impl HasId for SeedData {
    open spec fn spec_entity_id(&self) -> u64 {
        self.id
    }

    fn entity_id(&self) -> (id: u64) {
        self.id
    }
}

#[derive(Clone, Debug)]
pub struct CreatureData {
    pub id: u64,
    pub x: F32Bits,
    pub y: F32Bits,
    pub vx: F32Bits,
    pub vy: F32Bits,
    pub segments: usize,
    /// Color blend derived from the light colors it was fed.
    pub color_bias: [F32Bits; 3],
    pub attached_to_player: Option<u64>,
    pub stamina: F32Bits,
}

impl HasId for CreatureData {
    open spec fn spec_entity_id(&self) -> u64 {
        self.id
    }

    fn entity_id(&self) -> (id: u64) {
        self.id
    }
}

#[derive(Clone, Debug)]
pub struct PlayerData {
    pub id: u64,
    pub name: String,
    pub x: F32Bits,
    pub y: F32Bits,
    pub vx: F32Bits,
    pub vy: F32Bits,
    pub rotation: F32Bits,
    /// Light energy acting as health when venturing into dark space.
    pub current_light: F32Bits,
    pub max_light: F32Bits,
    pub carried_seed_id: Option<u64>,
    pub attached_creatures: Vec<u64>,
}

impl HasId for PlayerData {
    open spec fn spec_entity_id(&self) -> u64 {
        self.id
    }

    fn entity_id(&self) -> (id: u64) {
        self.id
    }
}

/// Messages from client to server.
#[derive(Clone, Debug)]
pub enum ClientMessage {
    Join { name: String },
    InputMove { x: F32Bits, y: F32Bits, vx: F32Bits, vy: F32Bits, rotation: F32Bits },
    RequestMathTask { op: MathOp },
    SubmitMathAnswer { task_id: u64, answer: i32 },
    PickUpSeed { seed_id: u64 },
    DropSeed { x: F32Bits, y: F32Bits },
    AttachCreature { creature_id: u64 },
    DetachCreature { creature_id: u64 },
}

/// Messages from server to client.
#[derive(Clone, Debug)]
pub enum ServerMessage {
    /// Full initial state download on joining.
    Welcome {
        player_id: u64,
        graph: BubbleGraph,
        players: Vec<PlayerData>,
        seeds: Vec<SeedData>,
        creatures: Vec<CreatureData>,
    },
    /// High-frequency position and velocity update.
    WorldSnapshot { nodes: Vec<BubbleData>, players: Vec<PlayerData>, creatures: Vec<CreatureData> },
    BubbleAdded(BubbleData),
    BubbleUpdated(BubbleData),
    EdgeAdded(BubbleEdge),
    EdgeUpdated(BubbleEdge),
    EdgeRemoved(u64),
    SeedStateChanged(SeedData),
    MathTaskAssigned(MathTask),
    LightPulse {
        origin_x: F32Bits,
        origin_y: F32Bits,
        color: [F32Bits; 3],
        intensity: F32Bits,
        op_type: MathOp,
    },
    PlayerJoined(PlayerData),
    PlayerLeft(u64),
}

} // verus!
