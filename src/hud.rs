use vstd::prelude::*;

use crate::exorcism::{ExorcismState, ExorcismStatus, InvestigationState};
use crate::states::{Equipment, GhostType, GhostTypeState, Role, RoleState};
use crate::tables::{puzzle_name, puzzle_title_of, BansheeConfig};
use crate::tools::{EquipmentState, EvidenceState};

verus! {

/// The active-tool line.
pub struct ToolText;

/// The EMF reading line.
pub struct EmfText;

/// The spiritbox line.
pub struct SpiritboxText;

/// The journal's EMF 5 evidence line.
pub struct JournalEmfText;

/// The journal's spiritbox evidence line.
pub struct JournalSpiritText;

/// The journal's suggested guess.
pub struct JournalGuessText;

/// The journal's confirmation line.
pub struct JournalConfirmText;

/// The puzzle panel's title.
pub struct PuzzleTitleText;

/// The puzzle panel's status line.
pub struct PuzzleStatusText;

/// The puzzle panel's detail line.
pub struct PuzzleDetailText;

impl ToolText {
    pub open spec fn line_of(active: Equipment) -> Seq<char> {
        match active {
            Equipment::Emf => "Active: EMF Reader"@,
            Equipment::Spiritbox => "Active: Spiritbox"@,
        }
    }

    pub fn line(equipment: &EquipmentState) -> (r: &'static str)
        ensures
            r@ == Self::line_of(equipment.active),
    {
        match equipment.active {
            Equipment::Emf => "Active: EMF Reader",
            Equipment::Spiritbox => "Active: Spiritbox",
        }
    }
}

impl EmfText {
    /// The level to show, or `None` for "--": only the investigator holding
    /// the reader sees a number.
    pub fn reading(role: &RoleState, equipment: &EquipmentState) -> (r: Option<u8>)
        ensures
            r == if role.current == Role::Investigator && equipment.active == Equipment::Emf {
                Some(equipment.emf_level)
            } else {
                None
            },
    {
        if role.current == Role::Investigator && equipment.active == Equipment::Emf {
            Some(equipment.emf_level)
        } else {
            None
        }
    }
}

impl SpiritboxText {
    /// The spiritbox's last words.
    pub fn message(equipment: &EquipmentState) -> (r: &str)
        ensures
            r@ == equipment.spiritbox_message@,
    {
        equipment.spiritbox_message.as_str()
    }
}

impl JournalEmfText {
    pub fn line(evidence: &EvidenceState) -> (r: &'static str)
        ensures
            r@ == if evidence.emf_five {
                "EMF 5: Yes"@
            } else {
                "EMF 5: No"@
            },
    {
        if evidence.emf_five {
            "EMF 5: Yes"
        } else {
            "EMF 5: No"
        }
    }
}

impl JournalSpiritText {
    pub fn line(evidence: &EvidenceState) -> (r: &'static str)
        ensures
            r@ == if evidence.spiritbox_response {
                "Spiritbox Response: Yes"@
            } else {
                "Spiritbox Response: No"@
            },
    {
        if evidence.spiritbox_response {
            "Spiritbox Response: Yes"
        } else {
            "Spiritbox Response: No"
        }
    }
}

impl JournalGuessText {
    pub open spec fn suggestion(evidence: EvidenceState) -> GhostType {
        if evidence.emf_five {
            GhostType::Spirit
        } else if evidence.spiritbox_response {
            GhostType::Banshee
        } else {
            GhostType::Onryo
        }
    }

    /// The ghost type the evidence points to: EMF 5 means a spirit, a
    /// spiritbox answer a banshee, neither an onryo.
    pub fn suggest(evidence: &EvidenceState) -> (r: GhostType)
        ensures
            r == Self::suggestion(*evidence),
    {
        if evidence.emf_five {
            GhostType::Spirit
        } else if evidence.spiritbox_response {
            GhostType::Banshee
        } else {
            GhostType::Onryo
        }
    }

    pub fn line(evidence: &EvidenceState) -> (r: &'static str)
        ensures
            r@ == match Self::suggestion(*evidence) {
                GhostType::Spirit => "Guess: Spirit"@,
                GhostType::Banshee => "Guess: Banshee"@,
                GhostType::Onryo => "Guess: Onryo"@,
            },
    {
        match Self::suggest(evidence) {
            GhostType::Spirit => "Guess: Spirit",
            GhostType::Banshee => "Guess: Banshee",
            GhostType::Onryo => "Guess: Onryo",
        }
    }
}

impl JournalConfirmText {
    pub fn line(investigation: &InvestigationState) -> (r: &'static str)
        ensures
            r@ == if investigation.confirmed {
                match investigation.guess {
                    Some(GhostType::Spirit) => "Confirmed: Spirit"@,
                    Some(GhostType::Banshee) => "Confirmed: Banshee"@,
                    Some(GhostType::Onryo) => "Confirmed: Onryo"@,
                    None => "Confirmed: -"@,
                }
            } else {
                "Confirmed: -"@
            },
    {
        if investigation.confirmed {
            match investigation.guess {
                Some(GhostType::Spirit) => "Confirmed: Spirit",
                Some(GhostType::Banshee) => "Confirmed: Banshee",
                Some(GhostType::Onryo) => "Confirmed: Onryo",
                None => "Confirmed: -",
            }
        } else {
            "Confirmed: -"
        }
    }
}

/// The puzzle panel waits until a guess is confirmed.
pub open spec fn awaiting(investigation: InvestigationState) -> bool {
    !investigation.confirmed || investigation.guess is None
}

/// The type whose puzzle the panel describes: the guess, else the ghost in play.
pub open spec fn panel_type(investigation: InvestigationState, ghost_type: GhostTypeState) -> GhostType {
    match investigation.guess {
        Some(g) => g,
        None => ghost_type.active,
    }
}

fn shown_type(investigation: &InvestigationState, ghost_type: &GhostTypeState) -> (r: GhostType)
    ensures
        r == panel_type(*investigation, *ghost_type),
{
    match investigation.guess {
        Some(g) => g,
        None => ghost_type.active,
    }
}

impl PuzzleTitleText {
    pub fn line(investigation: &InvestigationState, ghost_type: &GhostTypeState) -> (r: &'static str)
        ensures
            r@ == if awaiting(*investigation) {
                "Puzzle: Awaiting Confirmation"@
            } else {
                puzzle_title_of(panel_type(*investigation, *ghost_type))
            },
    {
        if !investigation.confirmed || investigation.guess.is_none() {
            "Puzzle: Awaiting Confirmation"
        } else {
            puzzle_name(shown_type(investigation, ghost_type))
        }
    }
}

/// A fraction in millionths as a whole percentage, rounded half up.
pub open spec fn percent_of(progress: u32) -> u32 {
    ((progress * 100 + 500_000) / 1_000_000) as u32
}

fn percent(progress: u32) -> (r: u32)
    ensures
        r == percent_of(progress),
{
    ((progress as u64 * 100 + 500_000) / 1_000_000) as u32
}

/// What the puzzle status line says.
#[derive(Clone, Copy, Debug, PartialEq, Eq, Structural)]
pub enum StatusLine {
    /// "Waiting on confirmation".
    Waiting,
    /// "Stage n", counting from one.
    Stage(u16),
    /// "n%".
    Percent(u32),
    Complete,
    Failed,
    Inactive,
}

impl PuzzleStatusText {
    pub fn line(investigation: &InvestigationState, status: &ExorcismStatus) -> (r: StatusLine)
        ensures
            r == if awaiting(*investigation) {
                StatusLine::Waiting
            } else {
                match status.state {
                    ExorcismState::Stage(n) => StatusLine::Stage((n + 1) as u16),
                    ExorcismState::Progress(p) => StatusLine::Percent(percent_of(p)),
                    ExorcismState::Complete => StatusLine::Complete,
                    ExorcismState::Failed => StatusLine::Failed,
                    ExorcismState::Inactive => StatusLine::Inactive,
                }
            },
    {
        if !investigation.confirmed || investigation.guess.is_none() {
            return StatusLine::Waiting;
        }
        match status.state {
            ExorcismState::Stage(n) => StatusLine::Stage(n as u16 + 1),
            ExorcismState::Progress(p) => StatusLine::Percent(percent(p)),
            ExorcismState::Complete => StatusLine::Complete,
            ExorcismState::Failed => StatusLine::Failed,
            ExorcismState::Inactive => StatusLine::Inactive,
        }
    }
}

/// What the puzzle detail line says.
#[derive(Clone, Copy, Debug, PartialEq, Eq, Structural)]
pub enum DetailLine {
    /// "Progress: -".
    Pending,
    /// "Progress: n%".
    Percent(u32),
    /// "Sequence: Complete".
    SequenceComplete,
    /// "Sequence: step/total".
    Sequence(u16, u16),
    /// "Stacks: held/max", whole stacks.
    Stacks(u64, u64),
}

/// Whole stacks, rounded up.
pub open spec fn stacks_up(stacks: u64) -> u64 {
    (stacks / 1_000_000 + if stacks % 1_000_000 == 0 {
        0int
    } else {
        1int
    }) as u64
}

impl PuzzleDetailText {
    pub fn line(
        investigation: &InvestigationState,
        ghost_type: &GhostTypeState,
        status: &ExorcismStatus,
        banshee: &BansheeConfig,
    ) -> (r: DetailLine)
        ensures
            r == if awaiting(*investigation) {
                DetailLine::Pending
            } else {
                match panel_type(*investigation, *ghost_type) {
                    GhostType::Spirit => DetailLine::Percent(percent_of(status.progress)),
                    GhostType::Banshee => if status.state == ExorcismState::Complete {
                        DetailLine::SequenceComplete
                    } else {
                        let len = banshee.len_spec();
                        let last: int = if len == 0 {
                            0
                        } else {
                            len - 1
                        };
                        let step: int = if status.stage < last {
                            status.stage + 1
                        } else {
                            last + 1
                        };
                        DetailLine::Sequence(step as u16, if len == 0 {
                            1
                        } else {
                            len as u16
                        })
                    },
                    GhostType::Onryo => DetailLine::Stacks(
                        stacks_up(status.stacks),
                        status.max_stacks / 1_000_000,
                    ),
                }
            },
    {
        if !investigation.confirmed || investigation.guess.is_none() {
            return DetailLine::Pending;
        }
        match shown_type(investigation, ghost_type) {
            GhostType::Spirit => DetailLine::Percent(percent(status.progress)),
            GhostType::Banshee => {
                if status.state == ExorcismState::Complete {
                    DetailLine::SequenceComplete
                } else {
                    let len = banshee.sequence_len();
                    let last: u8 = if len == 0 {
                        0
                    } else {
                        len - 1
                    };
                    let step: u16 = if status.stage < last {
                        status.stage as u16 + 1
                    } else {
                        last as u16 + 1
                    };
                    DetailLine::Sequence(step, if len == 0 {
                        1
                    } else {
                        len as u16
                    })
                }
            },
            GhostType::Onryo => {
                let whole = status.stacks / 1_000_000;
                let up = if status.stacks % 1_000_000 == 0 {
                    whole
                } else {
                    whole + 1
                };
                DetailLine::Stacks(up, status.max_stacks / 1_000_000)
            },
        }
    }
}

} // verus!
