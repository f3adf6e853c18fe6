use vstd::prelude::*;

use crate::geometry::Point;
use crate::states::GhostType;

verus! {

/// The spirit vigil: anchors to keep in view.
#[derive(Clone, Debug)]
pub struct SpiritConfig {
    pub anchors: Vec<Point>,
    /// Cosine of the watch cone's half-angle, thousandths.
    pub watch_cos: i16,
    /// Farthest an anchor can be and still be watched, mm.
    pub watch_distance: u32,
    /// How long an anchor may go unwatched before the vigil breaks, ms.
    pub grace_seconds: u32,
    /// Millionths of progress per ms while watched.
    pub rate_up: u32,
    /// Millionths of progress lost per ms while not.
    pub rate_down: u32,
}

/// The banshee lament: anchors to touch in order.
#[derive(Clone, Debug)]
pub struct BansheeConfig {
    pub anchors: Vec<Point>,
    /// Reach of a touch, mm.
    pub interact_distance: u32,
    /// Shortest gap between two touches, ms.
    pub timing_min: u32,
    /// Longest gap between two touches, ms.
    pub timing_max: u32,
    /// How long a failure shows before the sequence restarts, ms.
    pub fail_reset_seconds: u32,
}

/// The onryo containment: cursed objects to carry to ritual spots in order.
#[derive(Clone, Debug)]
pub struct OnryoConfig {
    pub cursed_positions: Vec<Point>,
    pub ritual_positions: Vec<Point>,
    /// Reach of a pick-up or placement, mm.
    pub interact_distance: u32,
    /// Height a carried object is held above the player, mm.
    pub carry_height: u32,
    /// Millionths of a stack gained per ms of carrying.
    pub stack_rate: u32,
    /// Stacks at which the containment fails, millionths.
    pub max_stacks: u64,
    /// Stacks added by a pick-up or a wrong placement, millionths.
    pub stack_penalty_wrong: u64,
    /// Stacks removed by a right placement, millionths.
    pub stack_reward_correct: u64,
}

#[derive(Clone, Debug)]
pub struct ExorcismTables {
    pub spirit: SpiritConfig,
    pub banshee: BansheeConfig,
    pub onryo: OnryoConfig,
}

impl BansheeConfig {
    pub open spec fn len_spec(&self) -> u8 {
        if self.anchors@.len() > 255 {
            255
        } else {
            self.anchors@.len() as u8
        }
    }

    /// Number of steps in the sequence (at most 255).
    pub fn sequence_len(&self) -> (r: u8)
        ensures
            r == self.len_spec(),
    {
        if self.anchors.len() > 255 {
            255
        } else {
            self.anchors.len() as u8
        }
    }
}

impl ExorcismTables {
    /// Every list of places can be numbered by a `u8`.
    pub open spec fn wf(&self) -> bool {
        &&& self.spirit.anchors@.len() <= 255
        &&& self.banshee.anchors@.len() <= 255
        &&& self.onryo.cursed_positions@.len() <= 255
        &&& self.onryo.ritual_positions@.len() <= 255
    }
}

impl Default for ExorcismTables {
    fn default() -> (r: Self)
        ensures
            r.wf(),
            r.spirit.anchors@ == seq![
                Point { x: -6000i32, y: 700, z: -6000i32 },
                Point { x: 6000, y: 700, z: -5500i32 },
                Point { x: -5500i32, y: 700, z: 6000 },
            ],
            r.banshee.anchors@ == seq![
                Point { x: -4000i32, y: 500, z: -2000i32 },
                Point { x: 4500, y: 500, z: -1500i32 },
                Point { x: 0, y: 500, z: 5000 },
            ],
            r.onryo.cursed_positions@ == seq![
                Point { x: -6500i32, y: 400, z: 0 },
                Point { x: 6500, y: 400, z: 0 },
                Point { x: 0, y: 400, z: -6500i32 },
            ],
            r.onryo.ritual_positions@ == seq![
                Point { x: -2500i32, y: 100, z: 2500 },
                Point { x: 2500, y: 100, z: 2500 },
                Point { x: 0, y: 100, z: 6500 },
            ],
            r.spirit.watch_cos == 850,
            r.spirit.watch_distance == 7000,
            r.spirit.grace_seconds == 2000,
            r.spirit.rate_up == 160,
            r.spirit.rate_down == 100,
            r.banshee.interact_distance == 1600,
            r.banshee.timing_min == 600,
            r.banshee.timing_max == 3500,
            r.banshee.fail_reset_seconds == 2500,
            r.onryo.interact_distance == 1800,
            r.onryo.carry_height == 1100,
            r.onryo.stack_rate == 600,
            r.onryo.max_stacks == 5_000_000,
            r.onryo.stack_penalty_wrong == 1_000_000,
            r.onryo.stack_reward_correct == 2_000_000,
    {
        ExorcismTables {
            spirit: SpiritConfig {
                anchors: vec![Point::new(-6000, 700, -6000), Point::new(6000, 700, -5500), Point::new(-5500, 700, 6000)],
                watch_cos: 850,
                watch_distance: 7000,
                grace_seconds: 2000,
                rate_up: 160,
                rate_down: 100,
            },
            banshee: BansheeConfig {
                anchors: vec![Point::new(-4000, 500, -2000), Point::new(4500, 500, -1500), Point::new(0, 500, 5000)],
                interact_distance: 1600,
                timing_min: 600,
                timing_max: 3500,
                fail_reset_seconds: 2500,
            },
            onryo: OnryoConfig {
                cursed_positions: vec![Point::new(-6500, 400, 0), Point::new(6500, 400, 0), Point::new(0, 400, -6500)],
                ritual_positions: vec![Point::new(-2500, 100, 2500), Point::new(2500, 100, 2500), Point::new(0, 100, 6500)],
                interact_distance: 1800,
                carry_height: 1100,
                stack_rate: 600,
                max_stacks: 5_000_000,
                stack_penalty_wrong: 1_000_000,
                stack_reward_correct: 2_000_000,
            },
        }
    }
}

pub open spec fn puzzle_title_of(g: GhostType) -> Seq<char> {
    match g {
        GhostType::Spirit => "Spirit: The Vigil"@,
        GhostType::Banshee => "Banshee: The Lament"@,
        GhostType::Onryo => "Onryo: The Containment"@,
    }
}

/// The title of the puzzle that exorcises a ghost of type `ghost_type`.
pub fn puzzle_name(ghost_type: GhostType) -> (r: &'static str)
    ensures
        r@ == puzzle_title_of(ghost_type),
{
    match ghost_type {
        GhostType::Spirit => "Spirit: The Vigil",
        GhostType::Banshee => "Banshee: The Lament",
        GhostType::Onryo => "Onryo: The Containment",
    }
}

} // verus!
