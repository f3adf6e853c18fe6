use vstd::prelude::*;

use crate::geometry::{cone_contains, dist_sq, in_cone, room_id, room_of, within, Heading, Point};
use crate::rules::{
    banshee_advance,
    banshee_advance_of,
    carried_stacks,
    onryo_stack_tick,
    spirit_progress,
    spirit_progress_of,
    PROGRESS_ONE,
};
use crate::ghost::GhostState;
use crate::states::{GhostType, GhostTypeState, JournalState, MenuState, Role, RoleState};
use crate::tables::{BansheeConfig, ExorcismTables, OnryoConfig, SpiritConfig};

verus! {

/// What the active puzzle shows.
#[derive(Clone, Copy, Debug, PartialEq, Eq, Structural)]
pub enum ExorcismState {
    Inactive,
    /// Index of the current step.
    Stage(u8),
    /// Vigil progress, millionths.
    Progress(u32),
    Failed,
    Complete,
}

/// The only way a mechanically finished puzzle succeeds: the guess that
/// started it is the ghost's real type.
pub open spec fn finalize_of(guessed: GhostType, actual: GhostType) -> ExorcismState {
    if guessed == actual {
        ExorcismState::Complete
    } else {
        ExorcismState::Failed
    }
}

/// Outcome of a puzzle whose mechanics were carried out in full.
pub fn finalize(guessed: GhostType, actual: GhostType) -> (r: ExorcismState)
    ensures
        r == finalize_of(guessed, actual),
{
    if guessed == actual {
        ExorcismState::Complete
    } else {
        ExorcismState::Failed
    }
}

/// What the HUD reads of the active puzzle.
#[derive(Clone, Copy, Debug, PartialEq, Eq, Structural)]
pub struct ExorcismStatus {
    pub state: ExorcismState,
    /// Millionths; the vigil and the lament fill it.
    pub progress: u32,
    pub stage: u8,
    /// Millionths of a stack; the containment only.
    pub stacks: u64,
    pub max_stacks: u64,
}

/// The investigator's accusation.
#[derive(Clone, Copy, Debug, PartialEq, Eq, Structural)]
pub struct InvestigationState {
    pub guess: Option<GhostType>,
    pub confirmed: bool,
}

/// Whether the puzzle for the current guess has been set out.
#[derive(Clone, Copy, Debug, PartialEq, Eq, Structural)]
pub struct PuzzleSpawned(pub bool);

/// The lights of the four rooms, by room id.
#[derive(Clone, Copy, Debug)]
pub struct RoomLights {
    pub rooms: [bool; 4],
}

/// One anchor of the vigil.
#[derive(Clone, Copy, Debug, PartialEq, Eq, Structural)]
pub struct SpiritAnchor {
    pub position: Point,
    pub room_id: u8,
    /// Time since it was last watched, ms.
    pub last_seen: u32,
}

/// The floor marker under a vigil anchor.
#[derive(Clone, Copy, Debug, PartialEq, Eq, Structural)]
pub struct SpiritMarker {
    pub position: Point,
}

#[derive(Clone, Debug)]
pub struct SpiritPuzzle {
    pub anchors: Vec<SpiritAnchor>,
    pub markers: Vec<SpiritMarker>,
    /// Millionths.
    pub progress: u32,
}

impl InvestigationState {
    pub fn new() -> (r: InvestigationState)
        ensures
            r == (InvestigationState { guess: None, confirmed: false }),
    {
        InvestigationState { guess: None, confirmed: false }
    }
}

impl RoomLights {
    pub open spec fn lit(&self, room: u8) -> bool {
        if room < 4 {
            self.rooms@[room as int]
        } else {
            true
        }
    }

    /// All four rooms lit.
    pub fn all_on() -> (r: RoomLights)
        ensures
            forall|i: u8| r.lit(i),
    {
        RoomLights { rooms: [true, true, true, true] }
    }

    /// Whether `room` is lit; an unknown room counts as lit.
    pub fn is_lit(&self, room: u8) -> (r: bool)
        ensures
            r == self.lit(room),
    {
        if room < 4 {
            self.rooms[room as usize]
        } else {
            true
        }
    }
}

/// The investigator is at play: no menu or journal open.
pub open spec fn investigating(menu: MenuState, journal: JournalState, role: RoleState) -> bool {
    !menu.open && !journal.open && role.current == Role::Investigator
}

/// The puzzle for `g` is the one being played.
pub open spec fn puzzle_running(
    menu: MenuState,
    journal: JournalState,
    role: RoleState,
    investigation: InvestigationState,
    g: GhostType,
) -> bool {
    investigating(menu, journal, role) && investigation.confirmed && investigation.guess == Some(g)
}

pub fn is_investigating(menu: &MenuState, journal: &JournalState, role: &RoleState) -> (r: bool)
    ensures
        r == investigating(*menu, *journal, *role),
{
    !menu.open && !journal.open && role.current == Role::Investigator
}

fn is_running(
    menu: &MenuState,
    journal: &JournalState,
    role: &RoleState,
    investigation: &InvestigationState,
    g: GhostType,
) -> (r: bool)
    ensures
        r == puzzle_running(*menu, *journal, *role, *investigation, g),
{
    if !is_investigating(menu, journal, role) || !investigation.confirmed {
        return false;
    }
    match investigation.guess {
        Some(guess) => guess == g,
        None => false,
    }
}

pub open spec fn sat_add_u32(a: int, b: int) -> int {
    if a + b > u32::MAX {
        u32::MAX as int
    } else {
        a + b
    }
}

pub open spec fn sat_sub(a: int, b: int) -> int {
    if a <= b {
        0
    } else {
        a - b
    }
}

/// The camera at `cam`, looking along `forward`, watches the anchor: near
/// enough, inside the watch cone, and in a lit room.
pub open spec fn anchor_seen(a: SpiritAnchor, cam: Point, forward: Heading, cfg: SpiritConfig, lights: RoomLights) -> bool {
    within(cam, a.position, cfg.watch_distance as int) && in_cone(forward, cam, a.position, cfg.watch_cos as int)
        && lights.lit(a.room_id)
}

pub open spec fn anchor_after(
    a: SpiritAnchor,
    cam: Point,
    forward: Heading,
    cfg: SpiritConfig,
    lights: RoomLights,
    dt: u32,
) -> SpiritAnchor {
    SpiritAnchor {
        last_seen: if anchor_seen(a, cam, forward, cfg, lights) {
            0
        } else {
            sat_add_u32(a.last_seen as int, dt as int) as u32
        },
        ..a
    }
}

/// No anchor has gone unwatched for longer than `grace` ms.
pub open spec fn all_within_grace(anchors: Seq<SpiritAnchor>, grace: u32) -> bool {
    forall|i: int| 0 <= i < anchors.len() ==> anchors[i].last_seen <= grace
}

/// The status the vigil shows at `progress`.
pub open spec fn spirit_status(progress: u32, actual: GhostType) -> ExorcismStatus {
    ExorcismStatus {
        state: if progress >= PROGRESS_ONE {
            finalize_of(GhostType::Spirit, actual)
        } else {
            ExorcismState::Progress(progress)
        },
        progress,
        stage: 0,
        stacks: 0,
        max_stacks: 0,
    }
}

fn saturating_add_u32(a: u32, b: u32) -> (r: u32)
    ensures
        r == sat_add_u32(a as int, b as int),
{
    if a as u64 + b as u64 > u32::MAX as u64 {
        u32::MAX
    } else {
        a + b
    }
}

/// One tick of the vigil. While the vigil is the puzzle being played and a
/// camera exists, every anchor's unwatched time is reset when seen and grows
/// by `dt` otherwise; progress rises while all anchors are within their grace
/// period and falls otherwise; on reaching one the vigil completes if the guess
/// was right and fails if not. Otherwise nothing changes.
pub fn update_spirit_puzzle(
    dt: u32,
    menu: &MenuState,
    role: &RoleState,
    ghost_type: &GhostTypeState,
    investigation: &InvestigationState,
    tables: &ExorcismTables,
    journal: &JournalState,
    lights: &RoomLights,
    camera: Option<(Point, Heading)>,
    spirit: &mut SpiritPuzzle,
    status: &mut ExorcismStatus,
)
    ensures
        !(puzzle_running(*menu, *journal, *role, *investigation, GhostType::Spirit) && camera is Some)
            ==> *final(spirit) == *old(spirit) && *final(status) == *old(status),
        puzzle_running(*menu, *journal, *role, *investigation, GhostType::Spirit) && camera is Some ==> {
            let (cam, forward) = camera.unwrap();
            let all_watched = all_within_grace(final(spirit).anchors@, tables.spirit.grace_seconds);
            &&& final(spirit).anchors@.len() == old(spirit).anchors@.len()
            &&& forall|i: int|
                0 <= i < old(spirit).anchors@.len() ==> final(spirit).anchors@[i] == anchor_after(
                    old(spirit).anchors@[i],
                    cam,
                    forward,
                    tables.spirit,
                    *lights,
                    dt,
                )
            &&& final(spirit).markers == old(spirit).markers
            &&& final(spirit).progress == spirit_progress_of(
                old(spirit).progress as int,
                all_watched,
                dt as int,
                tables.spirit.rate_up as int,
                tables.spirit.rate_down as int,
            )
            &&& *final(status) == spirit_status(final(spirit).progress, ghost_type.active)
        },
{
    if !is_running(menu, journal, role, investigation, GhostType::Spirit) {
        return;
    }
    let (cam, forward) = match camera {
        Some(c) => c,
        None => {
            return;
        },
    };
    let cfg = &tables.spirit;
    let mut all_watched = true;
    let n = spirit.anchors.len();
    let mut i: usize = 0;
    while i < n
        invariant
            n == old(spirit).anchors@.len(),
            *cfg == tables.spirit,
            spirit.anchors@.len() == n,
            spirit.markers == old(spirit).markers,
            spirit.progress == old(spirit).progress,
            0 <= i <= n,
            forall|j: int|
                0 <= j < i ==> spirit.anchors@[j] == anchor_after(
                    old(spirit).anchors@[j],
                    cam,
                    forward,
                    tables.spirit,
                    *lights,
                    dt,
                ),
            forall|j: int| i <= j < n ==> spirit.anchors@[j] == old(spirit).anchors@[j],
            all_watched == forall|j: int| 0 <= j < i ==> spirit.anchors@[j].last_seen <= cfg.grace_seconds,
        decreases n - i,
    {
        let a = spirit.anchors[i];
        let near = a.position.within(&cam, cfg.watch_distance);
        let in_view = cone_contains(forward, cam, a.position, cfg.watch_cos);
        let lit = lights.is_lit(a.room_id);
        let seen = near && in_view && lit;
        proof {
            crate::geometry::lemma_within_symmetric(a.position, cam, cfg.watch_distance as int);
        }
        let last_seen = if seen {
            0
        } else {
            saturating_add_u32(a.last_seen, dt)
        };
        let ghost prev = spirit.anchors@;
        spirit.anchors[i] = SpiritAnchor { last_seen, ..a };
        assert(spirit.anchors@ == prev.update(i as int, SpiritAnchor { last_seen, ..a }));
        assert(seen == anchor_seen(a, cam, forward, tables.spirit, *lights));
        assert(spirit.anchors@[i as int] == anchor_after(old(spirit).anchors@[i as int], cam, forward, tables.spirit, *lights, dt));
        if last_seen > cfg.grace_seconds {
            all_watched = false;
        }
        i += 1;
        assert(all_watched == forall|j: int| 0 <= j < i ==> spirit.anchors@[j].last_seen <= cfg.grace_seconds) by {
            if all_watched {
                assert forall|j: int| 0 <= j < i implies spirit.anchors@[j].last_seen <= cfg.grace_seconds by {
                    if j < i - 1 {
                        assert(prev[j] == spirit.anchors@[j]);
                    }
                }
            } else {
                if last_seen > cfg.grace_seconds {
                    assert(spirit.anchors@[i - 1].last_seen > cfg.grace_seconds);
                } else {
                    let k = choose|k: int| 0 <= k < i - 1 && !(prev[k].last_seen <= cfg.grace_seconds);
                    assert(spirit.anchors@[k] == prev[k]);
                }
            }
        }
    }
    assert(all_watched == all_within_grace(spirit.anchors@, tables.spirit.grace_seconds));
    spirit.progress = spirit_progress(spirit.progress, all_watched, dt, cfg.rate_up, cfg.rate_down);
    let state = if spirit.progress >= PROGRESS_ONE {
        finalize(GhostType::Spirit, ghost_type.active)
    } else {
        ExorcismState::Progress(spirit.progress)
    };
    *status = ExorcismStatus { state, progress: spirit.progress, stage: 0, stacks: 0, max_stacks: 0 };
}

/// One anchor of the lament, with its place in the sequence.
#[derive(Clone, Copy, Debug, PartialEq, Eq, Structural)]
pub struct BansheeAnchor {
    pub index: u8,
    pub position: Point,
}

#[derive(Clone, Debug)]
pub struct BansheePuzzle {
    pub anchors: Vec<BansheeAnchor>,
    /// The anchor to touch next.
    pub stage: u8,
    /// Time since the last step, ms.
    pub time_since_trigger: u32,
    /// Time left before a failure restarts the sequence, ms; zero when not failing.
    pub failed_timer: u32,
}

/// Among the first `n` anchors, the position of the one nearest to `p` within
/// reach `r`; of equally near ones, the first.
pub open spec fn nearest_within(s: Seq<BansheeAnchor>, p: Point, r: int, n: nat) -> Option<int>
    decreases n,
{
    if n == 0 {
        None
    } else {
        let best = nearest_within(s, p, r, (n - 1) as nat);
        let k = n - 1;
        if within(p, s[k].position, r) && (best is None || dist_sq(p, s[k].position) < dist_sq(
            p,
            s[best.unwrap()].position,
        )) {
            Some(k)
        } else {
            best
        }
    }
}

/// `nearest_within` picks an anchor in reach, none farther than any other in
/// reach, and strictly nearer than every earlier one in reach; it finds none
/// only when no anchor is in reach.
pub proof fn lemma_nearest_within(s: Seq<BansheeAnchor>, p: Point, r: int, n: nat)
    requires
        n <= s.len(),
    ensures
        nearest_within(s, p, r, n) is None <==> forall|j: int| 0 <= j < n ==> !within(p, s[j].position, r),
        nearest_within(s, p, r, n) is Some ==> {
            let k = nearest_within(s, p, r, n).unwrap();
            &&& 0 <= k < n
            &&& within(p, s[k].position, r)
            &&& forall|j: int|
                0 <= j < n && within(p, s[j].position, r) ==> dist_sq(p, s[k].position) <= dist_sq(
                    p,
                    s[j].position,
                )
            &&& forall|j: int|
                0 <= j < k && within(p, s[j].position, r) ==> dist_sq(p, s[k].position) < dist_sq(
                    p,
                    s[j].position,
                )
        },
    decreases n,
{
    if n > 0 {
        lemma_nearest_within(s, p, r, (n - 1) as nat);
    }
}

pub open spec fn banshee_progress(stage: u8, len: u8) -> u32 {
    if len == 0 {
        0
    } else {
        (stage as int * PROGRESS_ONE as int / len as int) as u32
    }
}

/// The lament after one tick, as `(stage, time_since_trigger, failed_timer,
/// status)`: a failure countdown runs first; otherwise, once the last stage is
/// reached it holds its outcome, complete if the guess was right and failed if
/// not; before that it plays on.
pub open spec fn banshee_step(
    stage: u8,
    time_since_trigger: u32,
    failed_timer: u32,
    status: ExorcismStatus,
    dt: u32,
    interact: bool,
    player: Option<Point>,
    anchors: Seq<BansheeAnchor>,
    cfg: BansheeConfig,
    actual: GhostType,
) -> (u8, u32, u32, ExorcismStatus) {
    let len = cfg.len_spec();
    if failed_timer == 0 && stage >= len {
        (
            stage,
            time_since_trigger,
            failed_timer,
            ExorcismStatus {
                state: finalize_of(GhostType::Banshee, actual),
                progress: banshee_progress(stage, len),
                stage,
                stacks: 0,
                max_stacks: 0,
            },
        )
    } else {
        banshee_play_step(stage, time_since_trigger, failed_timer, status, dt, interact, player, anchors, cfg, actual)
    }
}

/// The lament after one tick while it is failing or stages remain.
pub open spec fn banshee_play_step(
    stage: u8,
    time_since_trigger: u32,
    failed_timer: u32,
    status: ExorcismStatus,
    dt: u32,
    interact: bool,
    player: Option<Point>,
    anchors: Seq<BansheeAnchor>,
    cfg: BansheeConfig,
    actual: GhostType,
) -> (u8, u32, u32, ExorcismStatus) {
    let time = sat_add_u32(time_since_trigger as int, dt as int) as u32;
    let len = cfg.len_spec();
    if failed_timer > 0 {
        let left = sat_sub(failed_timer as int, dt as int) as u32;
        if left == 0 {
            (0, 0, 0, ExorcismStatus { state: ExorcismState::Failed, ..status })
        } else {
            (stage, time, left, ExorcismStatus { state: ExorcismState::Failed, ..status })
        }
    } else {
        let shown = ExorcismStatus {
            state: ExorcismState::Stage(stage),
            progress: banshee_progress(stage, len),
            stage,
            stacks: 0,
            max_stacks: 0,
        };
        let found = if interact && player is Some {
            nearest_within(anchors, player.unwrap(), cfg.interact_distance as int, anchors.len())
        } else {
            None
        };
        match found {
            None => (stage, time, 0, shown),
            Some(k) => {
                let order_ok = anchors[k].index == stage;
                let timing_ok = stage == 0 || (cfg.timing_min <= time <= cfg.timing_max);
                match banshee_advance_of(stage as int, len as int, timing_ok, order_ok) {
                    ExorcismState::Failed => (
                        0,
                        time,
                        cfg.fail_reset_seconds,
                        ExorcismStatus { state: ExorcismState::Failed, ..shown },
                    ),
                    ExorcismState::Complete => (
                        len,
                        time,
                        0,
                        ExorcismStatus { state: finalize_of(GhostType::Banshee, actual), ..shown },
                    ),
                    ExorcismState::Stage(next) => (
                        next,
                        0,
                        0,
                        ExorcismStatus { state: ExorcismState::Stage(next), ..shown },
                    ),
                    _ => (stage, time, 0, shown),
                }
            },
        }
    }
}

fn saturating_sub_u32(a: u32, b: u32) -> (r: u32)
    ensures
        r == sat_sub(a as int, b as int),
{
    if a <= b {
        0
    } else {
        a - b
    }
}

/// Position of the anchor nearest to `p` within reach `r`, first on ties.
fn find_nearest(anchors: &Vec<BansheeAnchor>, p: Point, r: u32) -> (k: Option<usize>)
    ensures
        k is Some <==> nearest_within(anchors@, p, r as int, anchors@.len()) is Some,
        k is Some ==> k.unwrap() as int == nearest_within(anchors@, p, r as int, anchors@.len()).unwrap(),
        k is Some ==> k.unwrap() < anchors@.len(),
{
    let mut best: Option<usize> = None;
    let mut best_d: u128 = 0;
    let mut i: usize = 0;
    while i < anchors.len()
        invariant
            0 <= i <= anchors@.len(),
            best == match nearest_within(anchors@, p, r as int, i as nat) {
                Some(j) => Some(j as usize),
                None => None::<usize>,
            },
            best is Some ==> best.unwrap() < i && best_d == dist_sq(p, anchors@[best.unwrap() as int].position),
            nearest_within(anchors@, p, r as int, i as nat) is Some ==> 0 <= nearest_within(
                anchors@,
                p,
                r as int,
                i as nat,
            ).unwrap() < i,
        decreases anchors@.len() - i,
    {
        let pos = anchors[i].position;
        let d = p.dist_sq(&pos);
        let near = p.within(&pos, r);
        if near && (best.is_none() || d < best_d) {
            best = Some(i);
            best_d = d;
        }
        i += 1;
    }
    best
}

fn lament_progress(stage: u8, len: u8) -> (r: u32)
    ensures
        r == banshee_progress(stage, len),
{
    if len == 0 {
        0
    } else {
        stage as u32 * PROGRESS_ONE / len as u32
    }
}

/// One tick of the lament. While it is the puzzle being played and not done
/// (once the last stage is done, with no failure pending, it holds its
/// outcome): the time since
/// the last step grows by `dt`; a pending failure counts down and, once over,
/// restarts the sequence; otherwise, on an interact press, the nearest anchor
/// in reach is the touch: the right anchor in the timing window (any timing for
/// the first) advances one stage, and completes the lament after the last one
/// if the guess was right; anything else fails and starts the countdown.
pub fn update_banshee_puzzle(
    dt: u32,
    interact: bool,
    menu: &MenuState,
    role: &RoleState,
    ghost_type: &GhostTypeState,
    investigation: &InvestigationState,
    tables: &ExorcismTables,
    journal: &JournalState,
    player: Option<Point>,
    banshee: &mut BansheePuzzle,
    status: &mut ExorcismStatus,
)
    ensures
        !puzzle_running(*menu, *journal, *role, *investigation, GhostType::Banshee) ==> *final(banshee)
            == *old(banshee) && *final(status) == *old(status),
        puzzle_running(*menu, *journal, *role, *investigation, GhostType::Banshee) ==> {
            &&& final(banshee).anchors == old(banshee).anchors
            &&& (final(banshee).stage, final(banshee).time_since_trigger, final(banshee).failed_timer, *final(status))
                == banshee_step(
                old(banshee).stage,
                old(banshee).time_since_trigger,
                old(banshee).failed_timer,
                *old(status),
                dt,
                interact,
                player,
                old(banshee).anchors@,
                tables.banshee,
                ghost_type.active,
            )
        },
{
    if !is_running(menu, journal, role, investigation, GhostType::Banshee) {
        return;
    }
    let cfg = &tables.banshee;
    let sequence_len = cfg.sequence_len();
    let progress = lament_progress(banshee.stage, sequence_len);
    if banshee.failed_timer == 0 && banshee.stage >= sequence_len {
        *status = ExorcismStatus {
            state: finalize(GhostType::Banshee, ghost_type.active),
            progress,
            stage: banshee.stage,
            stacks: 0,
            max_stacks: 0,
        };
        return;
    }
    banshee.time_since_trigger = saturating_add_u32(banshee.time_since_trigger, dt);
    if banshee.failed_timer > 0 {
        banshee.failed_timer = saturating_sub_u32(banshee.failed_timer, dt);
        if banshee.failed_timer == 0 {
            banshee.stage = 0;
            banshee.time_since_trigger = 0;
        }
        status.state = ExorcismState::Failed;
        return;
    }
    *status = ExorcismStatus {
        state: ExorcismState::Stage(banshee.stage),
        progress,
        stage: banshee.stage,
        stacks: 0,
        max_stacks: 0,
    };
    if !interact {
        return;
    }
    let p = match player {
        Some(p) => p,
        None => {
            return;
        },
    };
    let k = match find_nearest(&banshee.anchors, p, cfg.interact_distance) {
        Some(k) => k,
        None => {
            return;
        },
    };
    let index = banshee.anchors[k].index;
    let expected = banshee.stage;
    let order_ok = index == expected;
    let timing_ok = if expected == 0 {
        true
    } else {
        let t = banshee.time_since_trigger;
        t >= cfg.timing_min && t <= cfg.timing_max
    };
    match banshee_advance(banshee.stage, sequence_len, timing_ok, order_ok) {
        ExorcismState::Failed => {
            banshee.failed_timer = cfg.fail_reset_seconds;
            banshee.stage = 0;
            status.state = ExorcismState::Failed;
        },
        ExorcismState::Complete => {
            status.state = finalize(GhostType::Banshee, ghost_type.active);
            banshee.stage = sequence_len;
        },
        ExorcismState::Stage(next) => {
            banshee.stage = next;
            banshee.time_since_trigger = 0;
            status.state = ExorcismState::Stage(next);
        },
        _ => {},
    }
}

/// A cursed object of the containment.
#[derive(Clone, Copy, Debug, PartialEq, Eq, Structural)]
pub struct OnryoCursed {
    pub position: Point,
    /// Set down on its ritual spot for good.
    pub placed: bool,
}

/// A ritual spot, with its place in the order.
#[derive(Clone, Copy, Debug, PartialEq, Eq, Structural)]
pub struct OnryoRitual {
    pub index: u8,
    pub position: Point,
}

#[derive(Clone, Debug)]
pub struct OnryoPuzzle {
    pub cursed: Vec<OnryoCursed>,
    pub rituals: Vec<OnryoRitual>,
    /// The ritual spot to fill next.
    pub stage: u8,
    /// Millionths of a stack.
    pub stacks: u64,
    pub max_stacks: u64,
    /// Position in `cursed` of the object in hand.
    pub carrying: Option<usize>,
}

/// Among the first `n` cursed objects, the position of the first one not yet
/// placed within reach `r` of `p`.
pub open spec fn first_free_within(s: Seq<OnryoCursed>, p: Point, r: int, n: nat) -> Option<int>
    decreases n,
{
    if n == 0 {
        None
    } else {
        let before = first_free_within(s, p, r, (n - 1) as nat);
        if before is Some {
            before
        } else if !s[n - 1].placed && within(p, s[n - 1].position, r) {
            Some(n - 1)
        } else {
            None
        }
    }
}

/// Among the first `n` ritual spots, the position of the first one within
/// reach `r` of `p`.
pub open spec fn first_ritual_within(s: Seq<OnryoRitual>, p: Point, r: int, n: nat) -> Option<int>
    decreases n,
{
    if n == 0 {
        None
    } else {
        let before = first_ritual_within(s, p, r, (n - 1) as nat);
        if before is Some {
            before
        } else if within(p, s[n - 1].position, r) {
            Some(n - 1)
        } else {
            None
        }
    }
}

pub open spec fn sat_add_u64(a: int, b: int) -> int {
    if a + b > u64::MAX {
        u64::MAX as int
    } else {
        a + b
    }
}

/// Number of ritual steps, at most 255.
pub open spec fn ritual_count(cfg: OnryoConfig) -> int {
    if cfg.ritual_positions@.len() > 255 {
        255
    } else {
        cfg.ritual_positions@.len() as int
    }
}

/// The containment after one tick, as `(stage, stacks, max_stacks, carrying,
/// cursed objects, status)`: once every ritual spot is filled it holds its
/// outcome, complete if the guess was right and failed if not; before that it
/// plays on.
pub open spec fn onryo_step(
    stage: u8,
    stacks: u64,
    carrying: Option<usize>,
    cursed: Seq<OnryoCursed>,
    rituals: Seq<OnryoRitual>,
    status: ExorcismStatus,
    dt: u32,
    interact: bool,
    player: Option<Point>,
    cfg: OnryoConfig,
    actual: GhostType,
) -> (u8, u64, u64, Option<usize>, Seq<OnryoCursed>, ExorcismStatus) {
    if stage >= ritual_count(cfg) {
        (
            stage,
            stacks,
            cfg.max_stacks,
            carrying,
            cursed,
            ExorcismStatus {
                state: finalize_of(GhostType::Onryo, actual),
                stage,
                stacks,
                max_stacks: cfg.max_stacks,
                ..status
            },
        )
    } else {
        onryo_play_step(stage, stacks, carrying, cursed, rituals, status, dt, interact, player, cfg, actual)
    }
}

/// The containment after one tick while spots remain.
pub open spec fn onryo_play_step(
    stage: u8,
    stacks: u64,
    carrying: Option<usize>,
    cursed: Seq<OnryoCursed>,
    rituals: Seq<OnryoRitual>,
    status: ExorcismStatus,
    dt: u32,
    interact: bool,
    player: Option<Point>,
    cfg: OnryoConfig,
    actual: GhostType,
) -> (u8, u64, u64, Option<usize>, Seq<OnryoCursed>, ExorcismStatus) {
    let max = cfg.max_stacks;
    let ticked: u64 = if carrying is Some {
        carried_stacks(stacks as int, dt as int, cfg.stack_rate as int) as u64
    } else {
        stacks
    };
    if carrying is Some && ticked >= max {
        (stage, ticked, max, carrying, cursed, ExorcismStatus { state: ExorcismState::Failed, ..status })
    } else {
        let shown = ExorcismStatus {
            state: ExorcismState::Stage(stage),
            stage,
            stacks: ticked,
            max_stacks: max,
            ..status
        };
        let unchanged = (stage, ticked, max, carrying, cursed, shown);
        let penalised = sat_add_u64(ticked as int, cfg.stack_penalty_wrong as int) as u64;
        if !interact || player is None {
            unchanged
        } else if carrying is None {
            match first_free_within(cursed, player.unwrap(), cfg.interact_distance as int, cursed.len()) {
                Some(i) => (stage, penalised, max, Some(i as usize), cursed, shown),
                None => unchanged,
            }
        } else {
            match first_ritual_within(rituals, player.unwrap(), cfg.interact_distance as int, rituals.len()) {
                None => unchanged,
                Some(j) => if rituals[j].index == stage {
                    let c = carrying.unwrap() as int;
                    let placed = if c < cursed.len() {
                        cursed.update(c, OnryoCursed { placed: true, ..cursed[c] })
                    } else {
                        cursed
                    };
                    let next: u8 = if stage < 255 {
                        (stage + 1) as u8
                    } else {
                        255
                    };
                    let relieved = sat_sub(ticked as int, cfg.stack_reward_correct as int) as u64;
                    let state = if next >= ritual_count(cfg) {
                        finalize_of(GhostType::Onryo, actual)
                    } else {
                        shown.state
                    };
                    (next, relieved, max, None, placed, ExorcismStatus { state, ..shown })
                } else {
                    (stage, penalised, max, carrying, cursed, shown)
                },
            }
        }
    }
}

fn saturating_add_u64(a: u64, b: u64) -> (r: u64)
    ensures
        r == sat_add_u64(a as int, b as int),
{
    if a > u64::MAX - b {
        u64::MAX
    } else {
        a + b
    }
}

fn saturating_sub_u64(a: u64, b: u64) -> (r: u64)
    ensures
        r == sat_sub(a as int, b as int),
{
    if a <= b {
        0
    } else {
        a - b
    }
}

proof fn lemma_first_free_settles(s: Seq<OnryoCursed>, p: Point, r: int, n: nat, m: nat)
    requires
        n <= m,
        first_free_within(s, p, r, n) is Some,
    ensures
        first_free_within(s, p, r, m) == first_free_within(s, p, r, n),
    decreases m - n,
{
    if m > n {
        lemma_first_free_settles(s, p, r, n, (m - 1) as nat);
    }
}

proof fn lemma_first_ritual_settles(s: Seq<OnryoRitual>, p: Point, r: int, n: nat, m: nat)
    requires
        n <= m,
        first_ritual_within(s, p, r, n) is Some,
    ensures
        first_ritual_within(s, p, r, m) == first_ritual_within(s, p, r, n),
    decreases m - n,
{
    if m > n {
        lemma_first_ritual_settles(s, p, r, n, (m - 1) as nat);
    }
}

fn find_free_cursed(cursed: &Vec<OnryoCursed>, p: Point, r: u32) -> (k: Option<usize>)
    ensures
        k is Some <==> first_free_within(cursed@, p, r as int, cursed@.len()) is Some,
        k is Some ==> k.unwrap() as int == first_free_within(cursed@, p, r as int, cursed@.len()).unwrap(),
{
    let mut i: usize = 0;
    while i < cursed.len()
        invariant
            0 <= i <= cursed@.len(),
            first_free_within(cursed@, p, r as int, i as nat) is None,
        decreases cursed@.len() - i,
    {
        let c = cursed[i];
        if !c.placed && p.within(&c.position, r) {
            proof {
                lemma_first_free_settles(cursed@, p, r as int, (i + 1) as nat, cursed@.len());
            }
            return Some(i);
        }
        i += 1;
    }
    None
}

fn find_ritual(rituals: &Vec<OnryoRitual>, p: Point, r: u32) -> (k: Option<usize>)
    ensures
        k is Some <==> first_ritual_within(rituals@, p, r as int, rituals@.len()) is Some,
        k is Some ==> k.unwrap() as int == first_ritual_within(rituals@, p, r as int, rituals@.len()).unwrap(),
        k is Some ==> k.unwrap() < rituals@.len(),
{
    let mut i: usize = 0;
    while i < rituals.len()
        invariant
            0 <= i <= rituals@.len(),
            first_ritual_within(rituals@, p, r as int, i as nat) is None,
        decreases rituals@.len() - i,
    {
        if p.within(&rituals[i].position, r) {
            proof {
                lemma_first_ritual_settles(rituals@, p, r as int, (i + 1) as nat, rituals@.len());
            }
            return Some(i);
        }
        i += 1;
    }
    None
}

/// One tick of the containment. While it is the puzzle being played and spots
/// remain (once all are filled it holds its outcome): stacks
/// grow while an object is carried, and reaching the maximum fails the tick
/// outright. On an interact press with empty hands the first free cursed object
/// in reach is picked up, at a stack penalty. With an object in hand, the first
/// ritual spot in reach takes it if it is the next in order: the object is
/// placed, stacks drop by the reward, the stage advances, and the last spot
/// completes the containment if the guess was right. The wrong spot costs a
/// penalty and the object stays in hand.
pub fn update_onryo_puzzle(
    dt: u32,
    interact: bool,
    menu: &MenuState,
    role: &RoleState,
    ghost_type: &GhostTypeState,
    investigation: &InvestigationState,
    tables: &ExorcismTables,
    journal: &JournalState,
    player: Option<Point>,
    onryo: &mut OnryoPuzzle,
    status: &mut ExorcismStatus,
)
    ensures
        !puzzle_running(*menu, *journal, *role, *investigation, GhostType::Onryo) ==> *final(onryo)
            == *old(onryo) && *final(status) == *old(status),
        puzzle_running(*menu, *journal, *role, *investigation, GhostType::Onryo) ==> {
            &&& final(onryo).rituals == old(onryo).rituals
            &&& (
                final(onryo).stage,
                final(onryo).stacks,
                final(onryo).max_stacks,
                final(onryo).carrying,
                final(onryo).cursed@,
                *final(status),
            ) == onryo_step(
                old(onryo).stage,
                old(onryo).stacks,
                old(onryo).carrying,
                old(onryo).cursed@,
                old(onryo).rituals@,
                *old(status),
                dt,
                interact,
                player,
                tables.onryo,
                ghost_type.active,
            )
        },
{
    if !is_running(menu, journal, role, investigation, GhostType::Onryo) {
        return;
    }
    let cfg = &tables.onryo;
    let max_stacks = cfg.max_stacks;
    let sequence_len: u8 = if cfg.ritual_positions.len() > 255 {
        255
    } else {
        cfg.ritual_positions.len() as u8
    };
    if onryo.stage >= sequence_len {
        onryo.max_stacks = max_stacks;
        *status = ExorcismStatus {
            state: finalize(GhostType::Onryo, ghost_type.active),
            progress: status.progress,
            stage: onryo.stage,
            stacks: onryo.stacks,
            max_stacks,
        };
        return;
    }
    let (new_stacks, failed) = onryo_stack_tick(
        onryo.stacks,
        dt,
        onryo.carrying.is_some(),
        max_stacks,
        cfg.stack_rate,
    );
    onryo.stacks = new_stacks;
    onryo.max_stacks = max_stacks;
    if failed {
        status.state = ExorcismState::Failed;
        return;
    }
    status.state = ExorcismState::Stage(onryo.stage);
    status.stage = onryo.stage;
    status.stacks = onryo.stacks;
    status.max_stacks = onryo.max_stacks;
    if !interact {
        return;
    }
    let p = match player {
        Some(p) => p,
        None => {
            return;
        },
    };
    let carried = match onryo.carrying {
        None => {
            if let Some(i) = find_free_cursed(&onryo.cursed, p, cfg.interact_distance) {
                onryo.carrying = Some(i);
                onryo.stacks = saturating_add_u64(onryo.stacks, cfg.stack_penalty_wrong);
            }
            return;
        },
        Some(c) => c,
    };
    let j = match find_ritual(&onryo.rituals, p, cfg.interact_distance) {
        Some(j) => j,
        None => {
            return;
        },
    };
    if onryo.rituals[j].index == onryo.stage {
        if carried < onryo.cursed.len() {
            let obj = onryo.cursed[carried];
            onryo.cursed[carried] = OnryoCursed { placed: true, ..obj };
        }
        onryo.carrying = None;
        onryo.stage = if onryo.stage < 255 {
            onryo.stage + 1
        } else {
            255
        };
        onryo.stacks = saturating_sub_u64(onryo.stacks, cfg.stack_reward_correct);
        if onryo.stage >= sequence_len {
            status.state = finalize(GhostType::Onryo, ghost_type.active);
        }
    } else {
        onryo.stacks = saturating_add_u64(onryo.stacks, cfg.stack_penalty_wrong);
    }
}

/// Unwatched time a fresh vigil anchor starts with, ms.
pub const ANCHOR_UNSEEN: u32 = 999_000;

/// Height of a vigil floor marker, mm.
pub const MARKER_HEIGHT: i32 = 20;

/// Everything the puzzles hold before one is set out.
pub open spec fn puzzles_cleared(
    tables: ExorcismTables,
    confirmed: bool,
    status: ExorcismStatus,
    spirit: SpiritPuzzle,
    banshee: BansheePuzzle,
    onryo: OnryoPuzzle,
    lights: RoomLights,
) -> bool {
    &&& status == ExorcismStatus {
        state: ExorcismState::Inactive,
        progress: 0,
        stage: 0,
        stacks: 0,
        max_stacks: if confirmed {
            tables.onryo.max_stacks
        } else {
            0
        },
    }
    &&& spirit.anchors@.len() == 0 && spirit.markers@.len() == 0 && spirit.progress == 0
    &&& banshee.anchors@.len() == 0 && banshee.stage == 0 && banshee.time_since_trigger == 0
        && banshee.failed_timer == 0
    &&& onryo.cursed@.len() == 0 && onryo.rituals@.len() == 0 && onryo.stage == 0 && onryo.stacks == 0
        && onryo.max_stacks == tables.onryo.max_stacks && onryo.carrying is None
    &&& forall|i: u8| lights.lit(i)
}

/// While no puzzle is set out and the menu is closed, clears every puzzle and
/// relights every room; the status keeps the containment's maximum only once a
/// guess is confirmed.
pub fn maybe_reset_puzzle(
    spawned: &PuzzleSpawned,
    tables: &ExorcismTables,
    status: &mut ExorcismStatus,
    spirit: &mut SpiritPuzzle,
    banshee: &mut BansheePuzzle,
    onryo: &mut OnryoPuzzle,
    lights: &mut RoomLights,
    menu: &MenuState,
    investigation: &InvestigationState,
)
    ensures
        menu.open || spawned.0 ==> *final(status) == *old(status) && *final(spirit) == *old(spirit)
            && *final(banshee) == *old(banshee) && *final(onryo) == *old(onryo) && final(lights).rooms
            == old(lights).rooms,
        !menu.open && !spawned.0 ==> puzzles_cleared(
            *tables,
            investigation.confirmed,
            *final(status),
            *final(spirit),
            *final(banshee),
            *final(onryo),
            *final(lights),
        ),
{
    if menu.open || spawned.0 {
        return;
    }
    *status = ExorcismStatus {
        state: ExorcismState::Inactive,
        progress: 0,
        stage: 0,
        stacks: 0,
        max_stacks: if investigation.confirmed {
            tables.onryo.max_stacks
        } else {
            0
        },
    };
    *spirit = SpiritPuzzle { anchors: Vec::new(), markers: Vec::new(), progress: 0 };
    *banshee = BansheePuzzle { anchors: Vec::new(), stage: 0, time_since_trigger: 0, failed_timer: 0 };
    *onryo = OnryoPuzzle {
        cursed: Vec::new(),
        rituals: Vec::new(),
        stage: 0,
        stacks: 0,
        max_stacks: tables.onryo.max_stacks,
        carrying: None,
    };
    *lights = RoomLights::all_on();
}

pub open spec fn spirit_anchor_at(p: Point) -> SpiritAnchor {
    SpiritAnchor { position: p, room_id: room_of(p), last_seen: ANCHOR_UNSEEN }
}

pub open spec fn spirit_marker_at(p: Point) -> SpiritMarker {
    SpiritMarker { position: Point { x: p.x, y: MARKER_HEIGHT, z: p.z } }
}

/// The vigil as set out from its table.
pub open spec fn spirit_spawned(cfg: SpiritConfig, spirit: SpiritPuzzle, before: SpiritPuzzle) -> bool {
    &&& spirit.progress == before.progress
    &&& spirit.anchors@ == cfg.anchors@.map_values(|p: Point| spirit_anchor_at(p))
    &&& spirit.markers@ == cfg.anchors@.map_values(|p: Point| spirit_marker_at(p))
}

/// The lament as set out from its table: each anchor numbered by its place.
pub open spec fn banshee_spawned(cfg: BansheeConfig, banshee: BansheePuzzle, before: BansheePuzzle) -> bool {
    &&& banshee.stage == before.stage && banshee.time_since_trigger == before.time_since_trigger
        && banshee.failed_timer == before.failed_timer
    &&& banshee.anchors@ == cfg.anchors@.map(|i: int, p: Point| BansheeAnchor { index: i as u8, position: p })
}

/// The containment as set out from its table.
pub open spec fn onryo_spawned(cfg: OnryoConfig, onryo: OnryoPuzzle, before: OnryoPuzzle) -> bool {
    &&& onryo.stage == before.stage && onryo.stacks == before.stacks && onryo.max_stacks
        == before.max_stacks && onryo.carrying == before.carrying
    &&& onryo.cursed@ == cfg.cursed_positions@.map_values(|p: Point| OnryoCursed { position: p, placed: false })
    &&& onryo.rituals@ == cfg.ritual_positions@.map(|i: int, p: Point| OnryoRitual { index: i as u8, position: p })
}

/// Once a guess is confirmed and the menu is closed, sets out the puzzle of
/// the guessed type, once.
pub fn spawn_puzzle_entities(
    spawned: &mut PuzzleSpawned,
    investigation: &InvestigationState,
    menu: &MenuState,
    tables: &ExorcismTables,
    spirit: &mut SpiritPuzzle,
    banshee: &mut BansheePuzzle,
    onryo: &mut OnryoPuzzle,
)
    requires
        tables.wf(),
    ensures
        old(spawned).0 || menu.open || !investigation.confirmed || investigation.guess is None ==> *final(spawned) == *old(spawned) && *final(spirit) == *old(spirit) && *final(banshee) == *old(banshee)
            && *final(onryo) == *old(onryo),
        !old(spawned).0 && !menu.open && investigation.confirmed && investigation.guess is Some ==> {
            &&& final(spawned).0
            &&& investigation.guess == Some(GhostType::Spirit) ==> spirit_spawned(
                tables.spirit,
                *final(spirit),
                *old(spirit),
            ) && *final(banshee) == *old(banshee) && *final(onryo) == *old(onryo)
            &&& investigation.guess == Some(GhostType::Banshee) ==> banshee_spawned(
                tables.banshee,
                *final(banshee),
                *old(banshee),
            ) && *final(spirit) == *old(spirit) && *final(onryo) == *old(onryo)
            &&& investigation.guess == Some(GhostType::Onryo) ==> onryo_spawned(
                tables.onryo,
                *final(onryo),
                *old(onryo),
            ) && *final(spirit) == *old(spirit) && *final(banshee) == *old(banshee)
        },
{
    if spawned.0 || menu.open || !investigation.confirmed {
        return;
    }
    let puzzle_type = match investigation.guess {
        Some(g) => g,
        None => {
            return;
        },
    };
    match puzzle_type {
        GhostType::Spirit => {
            let src = &tables.spirit.anchors;
            let mut anchors: Vec<SpiritAnchor> = Vec::new();
            let mut markers: Vec<SpiritMarker> = Vec::new();
            let mut i: usize = 0;
            while i < src.len()
                invariant
                    0 <= i <= src@.len(),
                    anchors@ == src@.subrange(0, i as int).map_values(|p: Point| spirit_anchor_at(p)),
                    markers@ == src@.subrange(0, i as int).map_values(|p: Point| spirit_marker_at(p)),
                decreases src@.len() - i,
            {
                let pos = src[i];
                anchors.push(SpiritAnchor { position: pos, room_id: room_id(pos), last_seen: ANCHOR_UNSEEN });
                markers.push(SpiritMarker { position: Point { x: pos.x, y: MARKER_HEIGHT, z: pos.z } });
                i += 1;
                assert(src@.subrange(0, i as int) == src@.subrange(0, i - 1).push(pos));
            }
            assert(src@.subrange(0, src@.len() as int) == src@);
            spirit.anchors = anchors;
            spirit.markers = markers;
        },
        GhostType::Banshee => {
            let src = &tables.banshee.anchors;
            let mut anchors: Vec<BansheeAnchor> = Vec::new();
            let mut i: usize = 0;
            while i < src.len()
                invariant
                    0 <= i <= src@.len(),
                    src@.len() <= 255,
                    anchors@ == src@.subrange(0, i as int).map(
                        |k: int, p: Point| BansheeAnchor { index: k as u8, position: p },
                    ),
                decreases src@.len() - i,
            {
                let pos = src[i];
                anchors.push(BansheeAnchor { index: i as u8, position: pos });
                i += 1;
                assert(src@.subrange(0, i as int) == src@.subrange(0, i - 1).push(pos));
            }
            assert(src@.subrange(0, src@.len() as int) == src@);
            banshee.anchors = anchors;
        },
        GhostType::Onryo => {
            let src = &tables.onryo.cursed_positions;
            let mut cursed: Vec<OnryoCursed> = Vec::new();
            let mut i: usize = 0;
            while i < src.len()
                invariant
                    0 <= i <= src@.len(),
                    cursed@ == src@.subrange(0, i as int).map_values(
                        |p: Point| OnryoCursed { position: p, placed: false },
                    ),
                decreases src@.len() - i,
            {
                let pos = src[i];
                cursed.push(OnryoCursed { position: pos, placed: false });
                i += 1;
                assert(src@.subrange(0, i as int) == src@.subrange(0, i - 1).push(pos));
            }
            assert(src@.subrange(0, src@.len() as int) == src@);
            let spots = &tables.onryo.ritual_positions;
            let mut rituals: Vec<OnryoRitual> = Vec::new();
            let mut j: usize = 0;
            while j < spots.len()
                invariant
                    0 <= j <= spots@.len(),
                    spots@.len() <= 255,
                    rituals@ == spots@.subrange(0, j as int).map(
                        |k: int, p: Point| OnryoRitual { index: k as u8, position: p },
                    ),
                decreases spots@.len() - j,
            {
                let pos = spots[j];
                rituals.push(OnryoRitual { index: j as u8, position: pos });
                j += 1;
                assert(spots@.subrange(0, j as int) == spots@.subrange(0, j - 1).push(pos));
            }
            assert(spots@.subrange(0, spots@.len() as int) == spots@);
            onryo.cursed = cursed;
            onryo.rituals = rituals;
        },
    }
    spawned.0 = true;
}

/// The ghost player flips the lights of the room the ghost is in.
pub fn ghost_toggle_lights(
    toggle_pressed: bool,
    menu: &MenuState,
    role: &RoleState,
    ghost: &GhostState,
    lights: &mut RoomLights,
)
    ensures
        menu.open || role.current != Role::Haunter || !toggle_pressed ==> final(lights).rooms == old(lights).rooms,
        !menu.open && role.current == Role::Haunter && toggle_pressed ==> final(lights).rooms@ == old(lights).rooms@.update(room_of(ghost.position) as int, !old(lights).rooms@[room_of(ghost.position) as int]),
{
    if menu.open || role.current != Role::Haunter || !toggle_pressed {
        return;
    }
    let room = room_id(ghost.position) as usize;
    let lit = lights.rooms[room];
    lights.rooms[room] = !lit;
}

/// Outside a failure, the lament's stage never falls: a tick either keeps it
/// or moves it on.
pub proof fn lemma_banshee_stage_rises(
    stage: u8,
    time_since_trigger: u32,
    status: ExorcismStatus,
    dt: u32,
    interact: bool,
    player: Option<Point>,
    anchors: Seq<BansheeAnchor>,
    cfg: BansheeConfig,
    actual: GhostType,
)
    requires
        stage <= cfg.len_spec(),
    ensures
        ({
            let after = banshee_step(stage, time_since_trigger, 0, status, dt, interact, player, anchors, cfg, actual);
            after.3.state != ExorcismState::Failed ==> after.0 >= stage
        }),
{
}

/// The containment's stage never falls.
pub proof fn lemma_onryo_stage_rises(
    stage: u8,
    stacks: u64,
    carrying: Option<usize>,
    cursed: Seq<OnryoCursed>,
    rituals: Seq<OnryoRitual>,
    status: ExorcismStatus,
    dt: u32,
    interact: bool,
    player: Option<Point>,
    cfg: OnryoConfig,
    actual: GhostType,
)
    ensures
        onryo_step(stage, stacks, carrying, cursed, rituals, status, dt, interact, player, cfg, actual).0 >= stage,
{
}

/// Total of the first `n` tick lengths.
pub open spec fn total_dt(dts: Seq<u32>, n: nat) -> int
    decreases n,
{
    if n == 0 {
        0
    } else {
        total_dt(dts, (n - 1) as nat) + dts[n - 1]
    }
}

/// The containment after `n` ticks without an interact press, tick `i`
/// lasting `dts[i]`.
pub open spec fn onryo_idle_run(
    state: (u8, u64, u64, Option<usize>, Seq<OnryoCursed>, ExorcismStatus),
    n: nat,
    dts: Seq<u32>,
    rituals: Seq<OnryoRitual>,
    player: Option<Point>,
    cfg: OnryoConfig,
    actual: GhostType,
) -> (u8, u64, u64, Option<usize>, Seq<OnryoCursed>, ExorcismStatus)
    decreases n,
{
    if n == 0 {
        state
    } else {
        let p = onryo_idle_run(state, (n - 1) as nat, dts, rituals, player, cfg, actual);
        onryo_step(p.0, p.1, p.3, p.4, rituals, p.5, dts[n - 1], false, player, cfg, actual)
    }
}

proof fn lemma_onryo_idle_run(
    state: (u8, u64, u64, Option<usize>, Seq<OnryoCursed>, ExorcismStatus),
    n: nat,
    dts: Seq<u32>,
    rituals: Seq<OnryoRitual>,
    player: Option<Point>,
    cfg: OnryoConfig,
    actual: GhostType,
)
    requires
        n <= dts.len(),
        state.3 is Some,
        state.0 < ritual_count(cfg),
        state.1 + cfg.stack_rate * total_dt(dts, n) <= u64::MAX,
    ensures
        ({
            let r = onryo_idle_run(state, n, dts, rituals, player, cfg, actual);
            &&& r.0 == state.0 && r.3 == state.3 && r.4 == state.4
            &&& r.1 == state.1 + cfg.stack_rate * total_dt(dts, n)
            &&& n >= 1 ==> (r.5.state == ExorcismState::Failed) == (r.1 >= cfg.max_stacks)
        }),
    decreases n,
{
    if n > 0 {
        let m = (n - 1) as nat;
        let rate = cfg.stack_rate as int;
        let before = total_dt(dts, m);
        let dt = dts[n - 1] as int;
        assert(before >= 0) by {
            lemma_total_dt_nonneg(dts, m);
        }
        assert(rate * (before + dt) == rate * before + rate * dt && rate * before >= 0 && rate * dt >= 0)
            by (nonlinear_arith)
            requires
                rate >= 0,
                before >= 0,
                dt >= 0,
        ;
        assert(dt * rate == rate * dt) by (nonlinear_arith);
        lemma_onryo_idle_run(state, m, dts, rituals, player, cfg, actual);
    }
}

proof fn lemma_total_dt_nonneg(dts: Seq<u32>, n: nat)
    requires
        n <= dts.len(),
    ensures
        total_dt(dts, n) >= 0,
    decreases n,
{
    if n > 0 {
        lemma_total_dt_nonneg(dts, (n - 1) as nat);
    }
}

/// With a containment of 5 stacks at most, 0.6 stacks a second and a one-stack
/// pick-up penalty: picking up a cursed object from rest and then holding it,
/// without placing it, for ticks that last ten seconds in all leaves 7 stacks
/// and the containment failed, however the ten seconds are split.
pub proof fn lemma_onryo_holding_fails(
    stage: u8,
    cursed: Seq<OnryoCursed>,
    rituals: Seq<OnryoRitual>,
    status: ExorcismStatus,
    pickup_dt: u32,
    dts: Seq<u32>,
    n: nat,
    player: Point,
    cfg: OnryoConfig,
    actual: GhostType,
)
    requires
        cfg.max_stacks == 5_000_000,
        cfg.stack_rate == 600,
        cfg.stack_penalty_wrong == 1_000_000,
        stage < ritual_count(cfg),
        first_free_within(cursed, player, cfg.interact_distance as int, cursed.len()) is Some,
        1 <= n <= dts.len(),
        total_dt(dts, n) == 10_000,
    ensures
        ({
            let picked = onryo_step(stage, 0, None, cursed, rituals, status, pickup_dt, true, Some(player), cfg, actual);
            let held = onryo_idle_run(picked, n, dts, rituals, Some(player), cfg, actual);
            &&& picked.3 is Some
            &&& picked.1 == 1_000_000
            &&& held.1 == 7_000_000
            &&& held.1 >= cfg.max_stacks
            &&& held.5.state == ExorcismState::Failed
        }),
{
    let picked = onryo_step(stage, 0, None, cursed, rituals, status, pickup_dt, true, Some(player), cfg, actual);
    lemma_onryo_idle_run(picked, n, dts, rituals, Some(player), cfg, actual);
}

/// While a failure counts down the lament shows Failed and takes no touch;
/// once the countdown runs out the sequence restarts from its first stage.
pub proof fn lemma_banshee_countdown(
    stage: u8,
    time_since_trigger: u32,
    failed_timer: u32,
    status: ExorcismStatus,
    dt: u32,
    interact: bool,
    player: Option<Point>,
    anchors: Seq<BansheeAnchor>,
    cfg: BansheeConfig,
    actual: GhostType,
)
    requires
        failed_timer > 0,
    ensures
        ({
            let after = banshee_step(stage, time_since_trigger, failed_timer, status, dt, interact, player, anchors, cfg, actual);
            &&& after.3 == ExorcismStatus { state: ExorcismState::Failed, ..status }
            &&& failed_timer <= dt ==> after.0 == 0 && after.1 == 0 && after.2 == 0
            &&& failed_timer > dt ==> after.0 == stage && after.2 == failed_timer - dt
        }),
{
}

} // verus!
