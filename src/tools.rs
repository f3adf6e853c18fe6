use vstd::prelude::*;

use crate::evidence::{
    emf_five_candidate,
    emf_level,
    overlap_distance,
    reply_of,
    spiritbox_is_evidence,
    spiritbox_reply,
    EvidenceTuning,
    SpiritboxReply,
};
use crate::exorcism::{investigating, is_investigating, sat_sub};
use crate::geometry::{cone_contains, dist_sq, in_cone, lemma_distance_within, within, Heading, Point};
use crate::ghost::GhostState;
use crate::rules::product;
use crate::states::{Equipment, GhostType, GhostTypeState, JournalState, MenuState, RoleState};

verus! {

/// One whole EMF level, in the thousandths the display filter works in.
pub const LEVEL_ONE: u32 = 1000;

/// Highest level that jitter alone may show, thousandths.
pub const JITTER_CEILING: i64 = 4490;

/// The investigator's kit.
#[derive(Clone, Debug)]
pub struct EquipmentState {
    pub active: Equipment,
    /// Displayed EMF level, 0 to 5.
    pub emf_level: u8,
    /// Time spent on an EMF 5 candidate, ms, at most the lock time.
    pub emf_dwell: u32,
    /// Filtered display level, thousandths.
    pub emf_smoothed: u32,
    /// Time an EMF 5 stays latched, ms.
    pub emf_evidence_latch: u32,
    pub spiritbox_message: String,
    /// Time before the spiritbox can be asked again, ms.
    pub spiritbox_cooldown: u32,
}

/// Evidence gathered this session; once set, a flag stays set.
#[derive(Clone, Copy, Debug, PartialEq, Eq, Structural)]
pub struct EvidenceState {
    pub emf_five: bool,
    pub spiritbox_response: bool,
}

impl EvidenceState {
    pub fn new() -> (r: EvidenceState)
        ensures
            !r.emf_five && !r.spiritbox_response,
    {
        EvidenceState { emf_five: false, spiritbox_response: false }
    }
}

/// The kit at the start of a session: EMF reader out, everything at rest.
pub open spec fn equipment_at_rest(e: EquipmentState) -> bool {
    &&& e.active == Equipment::Emf
    &&& e.emf_level == 0
    &&& e.emf_dwell == 0
    &&& e.emf_smoothed == 0
    &&& e.emf_evidence_latch == 0
    &&& e.spiritbox_message@ == "Silence..."@
    &&& e.spiritbox_cooldown == 0
}

impl EquipmentState {
    /// The kit at the start of a session: EMF reader out, everything at rest.
    pub fn new() -> (r: EquipmentState)
        ensures
            equipment_at_rest(r),
    {
        EquipmentState {
            active: Equipment::Emf,
            emf_level: 0,
            emf_dwell: 0,
            emf_smoothed: 0,
            emf_evidence_latch: 0,
            spiritbox_message: "Silence...".to_owned(),
            spiritbox_cooldown: 0,
        }
    }
}

/// Pressing 1 takes out the EMF reader, 2 the spiritbox, while investigating.
pub fn handle_equipment_input(
    slot_one: bool,
    slot_two: bool,
    menu: &MenuState,
    role: &RoleState,
    journal: &JournalState,
    equipment: &mut EquipmentState,
)
    ensures
        final(equipment).active == if !investigating(*menu, *journal, *role) {
            old(equipment).active
        } else if slot_two {
            Equipment::Spiritbox
        } else if slot_one {
            Equipment::Emf
        } else {
            old(equipment).active
        },
        final(equipment).emf_level == old(equipment).emf_level,
        final(equipment).emf_dwell == old(equipment).emf_dwell,
        final(equipment).emf_smoothed == old(equipment).emf_smoothed,
        final(equipment).emf_evidence_latch == old(equipment).emf_evidence_latch,
        final(equipment).spiritbox_message == old(equipment).spiritbox_message,
        final(equipment).spiritbox_cooldown == old(equipment).spiritbox_cooldown,
{
    if !is_investigating(menu, journal, role) {
        return;
    }
    if slot_one {
        equipment.active = Equipment::Emf;
    }
    if slot_two {
        equipment.active = Equipment::Spiritbox;
    }
}

pub open spec fn flat_point(p: Point) -> Point {
    Point { x: p.x, y: 0, z: p.z }
}

/// Looking along `look` from `player`, the ghost is ahead: seen from above,
/// it lies within the facing cone, or stands right at the player.
pub open spec fn facing_of(player: Point, ghost: Point, look: Heading, facing_dot: i16) -> bool {
    dist_sq(flat_point(player), flat_point(ghost)) == 0 || in_cone(
        Heading { x: look.x, y: 0, z: look.z },
        flat_point(player),
        flat_point(ghost),
        facing_dot as int,
    )
}

/// Whether the investigator at `player`, looking along `look`, faces the
/// ghost; heights are ignored.
pub fn facing_ghost(player: Point, ghost: Point, look: Heading, facing_dot: i16) -> (r: bool)
    ensures
        r == facing_of(player, ghost, look, facing_dot),
{
    let from = Point { x: player.x, y: 0, z: player.z };
    let to = Point { x: ghost.x, y: 0, z: ghost.z };
    if from.dist_sq(&to) == 0 {
        return true;
    }
    cone_contains(look.flat(), from, to, facing_dot)
}

/// The EMF band for a ghost at its true distance from the player.
pub open spec fn emf_band(g: GhostType, player: Point, ghost: Point, t: EvidenceTuning) -> u8 {
    match g {
        GhostType::Spirit => if within(player, ghost, t.emf_range_4 as int) {
            4
        } else if within(player, ghost, t.emf_range_3 as int) {
            3
        } else if within(player, ghost, t.emf_range_2 as int) {
            2
        } else {
            1
        },
        _ => 1,
    }
}

/// `a * b / 1000` rounded toward zero.
pub open spec fn scale_milli(a: int, b: int) -> int {
    if a >= 0 {
        (a * b) / 1000
    } else {
        -(((-a) * b) / 1000)
    }
}

/// The level the display heads for, thousandths: 5 once locked; else the
/// band, kept at most 4 when not facing, plus jitter in bands 2 to 4, kept
/// within `[0, 4.49]`.
pub open spec fn emf_target(base: u8, locked: bool, facing: bool, wave: int, t: EvidenceTuning) -> int {
    let raw: int = if locked {
        5000
    } else {
        base * 1000
    };
    let capped: int = if !facing && raw > 4000 {
        4000
    } else {
        raw
    };
    if locked {
        capped
    } else {
        let amp: int = if base == 2 || base == 3 {
            t.emf_jitter_amp_23 as int
        } else if base == 4 {
            t.emf_jitter_amp_4 as int
        } else {
            0
        };
        let jittered = if amp > 0 {
            capped + scale_milli(wave, amp)
        } else {
            capped
        };
        if jittered < 0 {
            0
        } else if jittered > JITTER_CEILING {
            JITTER_CEILING as int
        } else {
            jittered
        }
    }
}

/// One step of the display filter: move the fraction `alpha` (millionths) of
/// the way to `target`, rounding toward the current value.
pub open spec fn smooth_step(smoothed: int, target: int, alpha: int) -> int {
    if target >= smoothed {
        smoothed + ((target - smoothed) * alpha) / 1_000_000
    } else {
        smoothed - ((smoothed - target) * alpha) / 1_000_000
    }
}

/// The displayed level: the filtered value rounded to a whole level, at most 5.
pub open spec fn displayed_level(smoothed: int) -> u8 {
    if (smoothed + 500) / 1000 > 5 {
        5
    } else {
        ((smoothed + 500) / 1000) as u8
    }
}

/// The reading pipeline after one tick, as `(level, dwell, smoothed, latch)`.
pub open spec fn emf_step(
    level: u8,
    dwell: u32,
    smoothed: u32,
    latch: u32,
    dt: u32,
    alpha: u32,
    wave: i32,
    g: GhostType,
    player: Point,
    ghost: Point,
    look: Heading,
    t: EvidenceTuning,
) -> (u8, u32, u32, u32) {
    let facing = facing_of(player, ghost, look, t.emf_facing_dot);
    let base = emf_band(g, player, ghost, t);
    let candidate = g == GhostType::Spirit && within(player, ghost, t.overlap()) && facing;
    let new_dwell: u32 = if candidate {
        if dwell + dt > t.emf_dwell_lock {
            t.emf_dwell_lock
        } else {
            (dwell + dt) as u32
        }
    } else {
        sat_sub(dwell as int, dt * t.emf_dwell_decay_mul) as u32
    };
    let locked = new_dwell >= t.emf_dwell_lock;
    let new_latch: u32 = if locked {
        t.emf_evidence_latch
    } else {
        sat_sub(latch as int, dt as int) as u32
    };
    let target = emf_target(base, locked, facing, wave as int, t);
    let new_smoothed = smooth_step(smoothed as int, target, alpha as int);
    (displayed_level(new_smoothed), new_dwell, new_smoothed as u32, new_latch)
}

/// Rounds `a * b / 1000` toward zero.
fn scale_milli_exec(a: i32, b: u32) -> (r: i64)
    requires
        -1000 <= a <= 1000,
    ensures
        r == scale_milli(a as int, b as int),
        -0x1_0000_0000 <= r <= 0x1_0000_0000,
{
    proof {
        let m: int = if a >= 0 {
            a as int
        } else {
            -a
        };
        assert(m * b <= 1000 * b) by (nonlinear_arith)
            requires
                0 <= m <= 1000,
                0 <= b,
        ;
    }
    if a >= 0 {
        (product(a as u32, b) / 1000) as i64
    } else {
        let m = (0 - a as i64) as u32;
        -((product(m, b) / 1000) as i64)
    }
}

fn jittered_target(base: u8, locked: bool, facing: bool, wave: i32, t: &EvidenceTuning) -> (r: i64)
    requires
        -1000 <= wave <= 1000,
    ensures
        r == emf_target(base, locked, facing, wave as int, *t),
        0 <= r <= 5000,
{
    let raw: i64 = if locked {
        5000
    } else {
        base as i64 * 1000
    };
    let capped: i64 = if !facing && raw > 4000 {
        4000
    } else {
        raw
    };
    if locked {
        return capped;
    }
    let amp: u32 = if base == 2 || base == 3 {
        t.emf_jitter_amp_23
    } else if base == 4 {
        t.emf_jitter_amp_4
    } else {
        0
    };
    let jittered = if amp > 0 {
        capped + scale_milli_exec(wave, amp)
    } else {
        capped
    };
    if jittered < 0 {
        0
    } else if jittered > JITTER_CEILING {
        JITTER_CEILING
    } else {
        jittered
    }
}

/// One EMF reading tick. Away from play (menu or journal open, not the
/// investigator) or with no player, the level, dwell and latch drop to zero.
/// Otherwise the pipeline of `emf_step` runs: the band from the true
/// distance, the dwell building toward a lock while the ghost is a facing
/// EMF 5 candidate and decaying faster otherwise, the latch armed by a lock and
/// running down after, and the display filtered toward its target by
/// `smooth_alpha` (millionths; `1 - e^(-rate * dt)`). `jitter_wave`
/// (thousandths) is the instrument's noise wave. With the EMF reader out, a
/// live latch sets the EMF 5 evidence for good.
#[verifier::rlimit(40)]
pub fn update_emf_reading(
    dt: u32,
    smooth_alpha: u32,
    jitter_wave: i32,
    role: &RoleState,
    menu: &MenuState,
    journal: &JournalState,
    ghost: &GhostState,
    look: Heading,
    tuning: &EvidenceTuning,
    ghost_type: &GhostTypeState,
    player: Option<Point>,
    equipment: &mut EquipmentState,
    evidence: &mut EvidenceState,
)
    requires
        smooth_alpha <= 1_000_000,
        -1000 <= jitter_wave <= 1000,
    ensures
        final(equipment).active == old(equipment).active,
        final(equipment).spiritbox_message == old(equipment).spiritbox_message,
        final(equipment).spiritbox_cooldown == old(equipment).spiritbox_cooldown,
        old(evidence).emf_five ==> final(evidence).emf_five,
        final(evidence).spiritbox_response == old(evidence).spiritbox_response,
        !investigating(*menu, *journal, *role) || player is None ==> {
            &&& final(equipment).emf_level == 0
            &&& final(equipment).emf_dwell == 0
            &&& final(equipment).emf_evidence_latch == 0
            &&& final(equipment).emf_smoothed == old(equipment).emf_smoothed
            &&& *final(evidence) == *old(evidence)
        },
        investigating(*menu, *journal, *role) && player is Some ==> {
            &&& (
                final(equipment).emf_level,
                final(equipment).emf_dwell,
                final(equipment).emf_smoothed,
                final(equipment).emf_evidence_latch,
            ) == emf_step(
                old(equipment).emf_level,
                old(equipment).emf_dwell,
                old(equipment).emf_smoothed,
                old(equipment).emf_evidence_latch,
                dt,
                smooth_alpha,
                jitter_wave,
                ghost_type.active,
                player.unwrap(),
                ghost.position,
                look,
                *tuning,
            )
            &&& final(evidence).spiritbox_response == old(evidence).spiritbox_response
            &&& final(evidence).emf_five == (old(evidence).emf_five || (old(equipment).active
                == Equipment::Emf && final(equipment).emf_evidence_latch > 0))
        },
{
    if !is_investigating(menu, journal, role) || player.is_none() {
        equipment.emf_level = 0;
        equipment.emf_dwell = 0;
        equipment.emf_evidence_latch = 0;
        return;
    }
    let p = player.unwrap();
    let distance = p.distance_to(&ghost.position);
    proof {
        let d = dist_sq(p, ghost.position);
        lemma_distance_within(d, distance as int, tuning.emf_range_4 as int);
        lemma_distance_within(d, distance as int, tuning.emf_range_3 as int);
        lemma_distance_within(d, distance as int, tuning.emf_range_2 as int);
        lemma_distance_within(d, distance as int, tuning.overlap());
    }
    let facing = facing_ghost(p, ghost.position, look, tuning.emf_facing_dot);
    let base_level = emf_level(ghost_type.active, distance, true, tuning);
    let overlaps = distance <= overlap_distance(tuning);
    let candidate_five = overlaps && emf_five_candidate(ghost_type.active, distance, tuning) && facing;
    let dwell_lock = tuning.emf_dwell_lock;
    if candidate_five {
        let sum = equipment.emf_dwell as u64 + dt as u64;
        equipment.emf_dwell = if sum > dwell_lock as u64 {
            dwell_lock
        } else {
            sum as u32
        };
    } else {
        let decay = product(dt, tuning.emf_dwell_decay_mul);
        equipment.emf_dwell = if decay >= equipment.emf_dwell as u64 {
            0
        } else {
            (equipment.emf_dwell as u64 - decay) as u32
        };
    }
    let locked_five = equipment.emf_dwell >= dwell_lock;
    if locked_five {
        equipment.emf_evidence_latch = tuning.emf_evidence_latch;
    } else {
        equipment.emf_evidence_latch = if dt >= equipment.emf_evidence_latch {
            0
        } else {
            equipment.emf_evidence_latch - dt
        };
    }
    let target = jittered_target(base_level, locked_five, facing, jitter_wave, tuning);
    let current = equipment.emf_smoothed as i64;
    let next: i64 = if target >= current {
        let step = product((target - current) as u32, smooth_alpha) / 1_000_000;
        current + step as i64
    } else {
        let step = product((current - target) as u32, smooth_alpha) / 1_000_000;
        current - step as i64
    };
    proof {
        let diff = if target >= current {
            target - current
        } else {
            current - target
        };
        assert(diff * smooth_alpha / 1_000_000 <= diff) by (nonlinear_arith)
            requires
                0 <= diff,
                0 <= smooth_alpha <= 1_000_000,
        ;
    }
    equipment.emf_smoothed = next as u32;
    let rounded = (next as u64 + 500) / 1000;
    equipment.emf_level = if rounded > 5 {
        5
    } else {
        rounded as u8
    };
    if equipment.active == Equipment::Emf && equipment.emf_evidence_latch > 0 {
        evidence.emf_five = true;
    }
}

/// The words shown when the spiritbox could not be used.
pub open spec fn no_player_text() -> Seq<char> {
    "Only static..."@
}

/// The spiritbox for one tick. The cooldown always runs down. An ask, while
/// investigating with the spiritbox out and no cooldown left, is answered:
/// with no player, "only static" and the miss cooldown; otherwise the reply for
/// the ghost type and whether the bubbles touch, which on "here" sets the
/// spiritbox evidence for good and takes the longer hit cooldown.
pub fn handle_spiritbox(
    dt: u32,
    ask_pressed: bool,
    role: &RoleState,
    menu: &MenuState,
    journal: &JournalState,
    ghost: &GhostState,
    tuning: &EvidenceTuning,
    ghost_type: &GhostTypeState,
    player: Option<Point>,
    equipment: &mut EquipmentState,
    evidence: &mut EvidenceState,
)
    ensures
        final(equipment).active == old(equipment).active,
        final(equipment).emf_level == old(equipment).emf_level,
        final(equipment).emf_dwell == old(equipment).emf_dwell,
        final(equipment).emf_smoothed == old(equipment).emf_smoothed,
        final(equipment).emf_evidence_latch == old(equipment).emf_evidence_latch,
        final(evidence).emf_five == old(evidence).emf_five,
        old(evidence).spiritbox_response ==> final(evidence).spiritbox_response,
        ({
            let cooled = sat_sub(old(equipment).spiritbox_cooldown as int, dt as int);
            let asked = investigating(*menu, *journal, *role) && old(equipment).active == Equipment::Spiritbox
                && ask_pressed && cooled == 0;
            &&& !asked ==> final(equipment).spiritbox_cooldown == cooled && final(equipment).spiritbox_message
                == old(equipment).spiritbox_message && *final(evidence) == *old(evidence)
            &&& asked && player is None ==> final(equipment).spiritbox_cooldown
                == tuning.spiritbox_cooldown_miss && final(equipment).spiritbox_message@ == no_player_text()
                && *final(evidence) == *old(evidence)
            &&& asked && player is Some ==> {
                let reply = reply_of(ghost_type.active, within(player.unwrap(), ghost.position, tuning.overlap()));
                &&& final(equipment).spiritbox_message@ == reply.text()
                &&& final(evidence).spiritbox_response == (old(evidence).spiritbox_response || reply
                    == SpiritboxReply::Here)
                &&& final(equipment).spiritbox_cooldown == if reply == SpiritboxReply::Here {
                    tuning.spiritbox_cooldown_hit
                } else {
                    tuning.spiritbox_cooldown_miss
                }
            }
        }),
{
    if equipment.spiritbox_cooldown > 0 {
        equipment.spiritbox_cooldown = if dt >= equipment.spiritbox_cooldown {
            0
        } else {
            equipment.spiritbox_cooldown - dt
        };
    }
    if !is_investigating(menu, journal, role) || equipment.active != Equipment::Spiritbox {
        return;
    }
    if !ask_pressed {
        return;
    }
    if equipment.spiritbox_cooldown > 0 {
        return;
    }
    let p = match player {
        Some(p) => p,
        None => {
            equipment.spiritbox_message = "Only static...".to_owned();
            equipment.spiritbox_cooldown = tuning.spiritbox_cooldown_miss;
            return;
        },
    };
    let distance = p.distance_to(&ghost.position);
    proof {
        lemma_distance_within(dist_sq(p, ghost.position), distance as int, tuning.overlap());
    }
    let overlaps = distance <= overlap_distance(tuning);
    let reply = spiritbox_reply(ghost_type.active, overlaps);
    equipment.spiritbox_message = reply.as_str().to_owned();
    let is_evidence = spiritbox_is_evidence(reply);
    if is_evidence {
        evidence.spiritbox_response = true;
    }
    equipment.spiritbox_cooldown = if is_evidence {
        tuning.spiritbox_cooldown_hit
    } else {
        tuning.spiritbox_cooldown_miss
    };
}

/// The reading `(level, dwell, smoothed, latch)` after `n` ticks of
/// `emf_step` from `start`, tick `i` with noise `waves[i]` and all else alike.
pub open spec fn emf_run(
    start: (u8, u32, u32, u32),
    n: nat,
    waves: Seq<i32>,
    dt: u32,
    alpha: u32,
    g: GhostType,
    player: Point,
    ghost: Point,
    look: Heading,
    t: EvidenceTuning,
) -> (u8, u32, u32, u32)
    decreases n,
{
    if n == 0 {
        start
    } else {
        let prev = emf_run(start, (n - 1) as nat, waves, dt, alpha, g, player, ghost, look, t);
        emf_step(prev.0, prev.1, prev.2, prev.3, dt, alpha, waves[n - 1], g, player, ghost, look, t)
    }
}

proof fn lemma_smooth_up(s: int, target: int, alpha: int)
    requires
        0 <= s <= target <= 5000,
        800_000 <= alpha <= 1_000_000,
    ensures
        s <= smooth_step(s, target, alpha) <= target,
        10 * smooth_step(s, target, alpha) + 10 > 10 * s + 8 * (target - s),
{
    let d = target - s;
    let q = (d * alpha) / 1_000_000;
    assert(q * 1_000_000 <= d * alpha < (q + 1) * 1_000_000) by (nonlinear_arith)
        requires
            q == (d * alpha) / 1_000_000,
            d * alpha >= 0,
    ;
    assert(0 <= d * alpha <= d * 1_000_000 && d * alpha >= d * 800_000) by (nonlinear_arith)
        requires
            0 <= d,
            800_000 <= alpha <= 1_000_000,
    ;
}

proof fn lemma_smooth_down(s: int, target: int, alpha: int)
    requires
        0 <= target < s <= 5000,
        0 <= alpha <= 1_000_000,
    ensures
        target <= smooth_step(s, target, alpha) <= s,
{
    let d = s - target;
    let q = (d * alpha) / 1_000_000;
    assert(q * 1_000_000 <= d * alpha < (q + 1) * 1_000_000) by (nonlinear_arith)
        requires
            q == (d * alpha) / 1_000_000,
            d * alpha >= 0,
    ;
    assert(0 <= d * alpha <= d * 1_000_000) by (nonlinear_arith)
        requires
            0 <= d,
            0 <= alpha <= 1_000_000,
    ;
}

proof fn lemma_jitter_bound(w: int)
    requires
        -1000 <= w <= 1000,
    ensures
        -350 <= scale_milli(w, 350) <= 350,
{
    if w >= 0 {
        assert(0 <= w * 350 <= 350_000) by (nonlinear_arith)
            requires
                0 <= w <= 1000,
        ;
    } else {
        assert(0 <= (-w) * 350 <= 350_000) by (nonlinear_arith)
            requires
                0 < -w <= 1000,
        ;
    }
}

proof fn lemma_emf_lock_run(
    start: (u8, u32, u32, u32),
    n: nat,
    waves: Seq<i32>,
    alpha: u32,
    player: Point,
    ghost: Point,
    look: Heading,
    t: EvidenceTuning,
)
    requires
        1 <= n <= waves.len(),
        forall|i: int| 0 <= i < waves.len() ==> -1000 <= #[trigger] waves[i] <= 1000,
        800_000 <= alpha <= 1_000_000,
        t.is_default(),
        within(player, ghost, t.overlap()),
        facing_of(player, ghost, look, t.emf_facing_dot),
        start.1 == 0 && start.2 == 0 && start.3 == 0,
    ensures
        ({
            let r = emf_run(start, n, waves, 200, alpha, GhostType::Spirit, player, ghost, look, t);
            &&& r.1 == if 200 * n > 800 {
                800
            } else {
                200 * n
            }
            &&& 2919 <= r.2 <= 5000
            &&& n >= 4 ==> r.2 >= 4500 && r.3 == 1200 && r.0 == 5
        }),
    decreases n,
{
    let prev = emf_run(start, (n - 1) as nat, waves, 200, alpha, GhostType::Spirit, player, ghost, look, t);
    if n > 1 {
        lemma_emf_lock_run(start, (n - 1) as nat, waves, alpha, player, ghost, look, t);
    }
    assert(within(player, ghost, t.emf_range_4 as int));
    assert(emf_band(GhostType::Spirit, player, ghost, t) == 4);
    let w = waves[n - 1] as int;
    lemma_jitter_bound(w);
    let new_dwell: int = if prev.1 + 200 > 800 {
        800
    } else {
        prev.1 + 200
    };
    let locked = new_dwell >= 800;
    let target = emf_target(4, locked, true, w, t);
    if locked {
        assert(target == 5000);
    } else {
        assert(3650 <= target <= 4490);
    }
    let s = prev.2 as int;
    if s <= target {
        lemma_smooth_up(s, target, alpha as int);
    } else {
        lemma_smooth_down(s, target, alpha as int);
    }
}

/// With the reference tuning, a reader at rest held on a spirit within the
/// bubbles' reach that it faces, in 200 ms ticks whose display filter moves at
/// least eight tenths of the way each tick (the reference rate gives
/// `1 - e^(-2)`), is locked from the fourth tick on: the dwell is at the lock,
/// the latch armed and the display reads 5, whatever the noise.
pub proof fn lemma_emf_five_locks(
    start: (u8, u32, u32, u32),
    n: nat,
    waves: Seq<i32>,
    alpha: u32,
    player: Point,
    ghost: Point,
    look: Heading,
    t: EvidenceTuning,
)
    requires
        4 <= n <= waves.len(),
        forall|i: int| 0 <= i < waves.len() ==> -1000 <= #[trigger] waves[i] <= 1000,
        800_000 <= alpha <= 1_000_000,
        t.is_default(),
        within(player, ghost, t.overlap()),
        facing_of(player, ghost, look, t.emf_facing_dot),
        start.1 == 0 && start.2 == 0 && start.3 == 0,
    ensures
        ({
            let r = emf_run(start, n, waves, 200, alpha, GhostType::Spirit, player, ghost, look, t);
            r.1 == t.emf_dwell_lock && r.3 == t.emf_evidence_latch && r.0 == 5
        }),
{
    lemma_emf_lock_run(start, n, waves, alpha, player, ghost, look, t);
}

} // verus!
