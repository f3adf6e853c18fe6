use vstd::prelude::*;

use crate::states::GhostType;

verus! {

/// What the spiritbox says when asked.
#[derive(Clone, Copy, Debug, PartialEq, Eq, Structural)]
pub enum SpiritboxReply {
    Static,
    Here,
}

/// Tuning of the evidence model; fixed for a session.
#[derive(Clone, Copy, Debug, PartialEq, Eq, Structural)]
pub struct EvidenceTuning {
    /// Radius of the investigator's tool bubble, mm.
    pub tool_bubble_radius: u32,
    /// Radius of the ghost's influence bubble, mm.
    pub ghost_influence_radius: u32,
    /// Outer edge of EMF band 4, mm.
    pub emf_range_4: u32,
    /// Outer edge of EMF band 3, mm.
    pub emf_range_3: u32,
    /// Outer edge of EMF band 2, mm.
    pub emf_range_2: u32,
    /// Dwell needed to lock an EMF 5 reading, ms.
    pub emf_dwell_lock: u32,
    /// How many times faster the dwell decays than it builds.
    pub emf_dwell_decay_mul: u32,
    /// Cosine of the facing half-angle, thousandths.
    pub emf_facing_dot: i16,
    /// Rate of the display smoothing filter, per second.
    pub emf_smooth_rate: u32,
    /// Jitter amplitude in bands 2 and 3, thousandths of a level.
    pub emf_jitter_amp_23: u32,
    /// Jitter amplitude in band 4, thousandths of a level.
    pub emf_jitter_amp_4: u32,
    /// Angular frequency of the first jitter wave, thousandths of a radian per second.
    pub emf_jitter_f1: u32,
    /// Angular frequency of the second jitter wave, thousandths of a radian per second.
    pub emf_jitter_f2: u32,
    /// How long a locked EMF 5 stays latched after the lock is lost, ms.
    pub emf_evidence_latch: u32,
    /// Time offset of the jitter waves, ms.
    pub emf_jitter_phase: u32,
    /// Spiritbox cooldown after an evidential reply, ms.
    pub spiritbox_cooldown_hit: u32,
    /// Spiritbox cooldown after any other reply, ms.
    pub spiritbox_cooldown_miss: u32,
}

impl EvidenceTuning {
    /// The EMF bands are nested: band 4 inside band 3 inside band 2.
    pub open spec fn wf(&self) -> bool {
        self.emf_range_4 <= self.emf_range_3 <= self.emf_range_2
    }

    /// The reference tuning.
    pub open spec fn is_default(&self) -> bool {
        &&& self.tool_bubble_radius == 1000
        &&& self.ghost_influence_radius == 1000
        &&& self.emf_range_4 == 2500
        &&& self.emf_range_3 == 4500
        &&& self.emf_range_2 == 6500
        &&& self.emf_dwell_lock == 800
        &&& self.emf_dwell_decay_mul == 2
        &&& self.emf_facing_dot == 600
        &&& self.emf_smooth_rate == 10
        &&& self.emf_jitter_amp_23 == 180
        &&& self.emf_jitter_amp_4 == 350
        &&& self.emf_jitter_f1 == 4700
        &&& self.emf_jitter_f2 == 9100
        &&& self.emf_evidence_latch == 1200
        &&& self.emf_jitter_phase == 0
        &&& self.spiritbox_cooldown_hit == 1600
        &&& self.spiritbox_cooldown_miss == 1200
    }

    pub open spec fn overlap(&self) -> int {
        self.tool_bubble_radius + self.ghost_influence_radius
    }
}

impl Default for EvidenceTuning {
    fn default() -> (r: Self)
        ensures
            r.wf(),
            r.is_default(),
    {
        EvidenceTuning {
            tool_bubble_radius: 1000,
            ghost_influence_radius: 1000,
            emf_range_4: 2500,
            emf_range_3: 4500,
            emf_range_2: 6500,
            emf_dwell_lock: 800,
            emf_dwell_decay_mul: 2,
            emf_facing_dot: 600,
            emf_smooth_rate: 10,
            emf_jitter_amp_23: 180,
            emf_jitter_amp_4: 350,
            emf_jitter_f1: 4700,
            emf_jitter_f2: 9100,
            emf_evidence_latch: 1200,
            emf_jitter_phase: 0,
            spiritbox_cooldown_hit: 1600,
            spiritbox_cooldown_miss: 1200,
        }
    }
}

/// The EMF band at distance `d` (mm) from a ghost of type `g`.
pub open spec fn emf_level_of(g: GhostType, d: int, t: EvidenceTuning) -> u8 {
    match g {
        GhostType::Spirit => if d <= t.emf_range_4 {
            4
        } else if d <= t.emf_range_3 {
            3
        } else if d <= t.emf_range_2 {
            2
        } else {
            1
        },
        _ => 1,
    }
}

pub open spec fn reply_of(g: GhostType, overlap: bool) -> SpiritboxReply {
    if g == GhostType::Banshee && overlap {
        SpiritboxReply::Here
    } else {
        SpiritboxReply::Static
    }
}

/// Distance (mm) at which the tool bubble and the ghost's bubble touch.
pub fn overlap_distance(tuning: &EvidenceTuning) -> (r: u64)
    ensures
        r == tuning.overlap(),
{
    tuning.tool_bubble_radius as u64 + tuning.ghost_influence_radius as u64
}

/// The raw EMF band, 1 to 4, at `distance` mm from a ghost. Only a spirit
/// leaks its position; the room the two stand in does not matter.
pub fn emf_level(ghost_type: GhostType, distance: u64, same_room: bool, tuning: &EvidenceTuning) -> (r: u8)
    ensures
        r == emf_level_of(ghost_type, distance as int, *tuning),
        1 <= r <= 4,
{
    match ghost_type {
        GhostType::Spirit => {
            if distance <= tuning.emf_range_4 as u64 {
                4
            } else if distance <= tuning.emf_range_3 as u64 {
                3
            } else if distance <= tuning.emf_range_2 as u64 {
                2
            } else {
                1
            }
        },
        GhostType::Banshee | GhostType::Onryo => 1,
    }
}

/// Whether a reading at `distance` mm could lock in as EMF 5: only a spirit,
/// and only once the two bubbles touch.
pub fn emf_five_candidate(ghost_type: GhostType, distance: u64, tuning: &EvidenceTuning) -> (r: bool)
    ensures
        r == (ghost_type == GhostType::Spirit && distance <= tuning.overlap()),
{
    ghost_type == GhostType::Spirit && distance <= overlap_distance(tuning)
}

/// The spiritbox's answer: a banshee answers "here" when the bubbles touch;
/// everything else is static.
pub fn spiritbox_reply(ghost_type: GhostType, overlap: bool) -> (r: SpiritboxReply)
    ensures
        r == reply_of(ghost_type, overlap),
{
    match ghost_type {
        GhostType::Banshee => {
            if overlap {
                SpiritboxReply::Here
            } else {
                SpiritboxReply::Static
            }
        },
        GhostType::Spirit | GhostType::Onryo => SpiritboxReply::Static,
    }
}

/// Only "here" counts as evidence.
pub fn spiritbox_is_evidence(reply: SpiritboxReply) -> (r: bool)
    ensures
        r == (reply == SpiritboxReply::Here),
{
    matches!(reply, SpiritboxReply::Here)
}

impl SpiritboxReply {
    pub open spec fn text(self) -> Seq<char> {
        match self {
            SpiritboxReply::Static => "Static..."@,
            SpiritboxReply::Here => "Right... here."@,
        }
    }

    /// The words shown for this reply.
    pub fn as_str(self) -> (r: &'static str)
        ensures
            r@ == self.text(),
    {
        match self {
            SpiritboxReply::Static => "Static...",
            SpiritboxReply::Here => "Right... here.",
        }
    }
}

/// Within nested bands, each band of distances from a spirit reads its own
/// level, and every other ghost type reads 1 at any distance.
pub proof fn lemma_emf_bands(t: EvidenceTuning, d: int)
    requires
        t.wf(),
        d >= 0,
    ensures
        d <= t.emf_range_4 ==> emf_level_of(GhostType::Spirit, d, t) == 4,
        t.emf_range_4 < d <= t.emf_range_3 ==> emf_level_of(GhostType::Spirit, d, t) == 3,
        t.emf_range_3 < d <= t.emf_range_2 ==> emf_level_of(GhostType::Spirit, d, t) == 2,
        t.emf_range_2 < d ==> emf_level_of(GhostType::Spirit, d, t) == 1,
        emf_level_of(GhostType::Banshee, d, t) == 1,
        emf_level_of(GhostType::Onryo, d, t) == 1,
{
}

} // verus!
