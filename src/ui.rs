use vstd::prelude::*;

use crate::exorcism::{InvestigationState, PuzzleSpawned};
use crate::states::{
    GhostType,
    GhostTypeState,
    JournalState,
    MenuFlowState,
    MenuScreen,
    MenuState,
    Role,
    RoleState,
    SessionState,
};
use crate::tools::{equipment_at_rest, EquipmentState, EvidenceState};

verus! {

/// The start screen of the menu.
pub struct StartScreenRoot;

/// The role choice screen.
pub struct RoleSelectRoot;

/// The ghost player's briefing screen.
pub struct GhostDetailRoot;

/// The investigator's briefing screen.
pub struct InvestigatorDetailRoot;

/// The investigator's HUD.
pub struct HudRoot;

/// The ghost player's HUD.
pub struct GhostHudRoot;

/// Every part of the investigator's journal panel.
pub struct JournalSection;

impl StartScreenRoot {
    pub fn visible(menu: &MenuState, flow: &MenuFlowState) -> (r: bool)
        ensures
            r == (menu.open && flow.screen == MenuScreen::Start),
    {
        menu.open && flow.screen == MenuScreen::Start
    }
}

impl RoleSelectRoot {
    pub fn visible(menu: &MenuState, flow: &MenuFlowState) -> (r: bool)
        ensures
            r == (menu.open && flow.screen == MenuScreen::RoleSelect),
    {
        menu.open && flow.screen == MenuScreen::RoleSelect
    }
}

impl GhostDetailRoot {
    pub fn visible(menu: &MenuState, flow: &MenuFlowState) -> (r: bool)
        ensures
            r == (menu.open && flow.screen == MenuScreen::GhostDetails),
    {
        menu.open && flow.screen == MenuScreen::GhostDetails
    }
}

impl InvestigatorDetailRoot {
    pub fn visible(menu: &MenuState, flow: &MenuFlowState) -> (r: bool)
        ensures
            r == (menu.open && flow.screen == MenuScreen::InvestigatorDetails),
    {
        menu.open && flow.screen == MenuScreen::InvestigatorDetails
    }
}

impl HudRoot {
    pub fn visible(menu: &MenuState, role: &RoleState) -> (r: bool)
        ensures
            r == (!menu.open && role.current == Role::Investigator),
    {
        !(menu.open || role.current == Role::Haunter)
    }
}

impl GhostHudRoot {
    pub fn visible(menu: &MenuState, role: &RoleState) -> (r: bool)
        ensures
            r == (!menu.open && role.current == Role::Haunter),
    {
        !(menu.open || role.current != Role::Haunter)
    }
}

impl JournalSection {
    /// The journal shows while the investigator, out of the menu, has it open.
    pub fn visible(menu: &MenuState, role: &RoleState, journal: &JournalState) -> (r: bool)
        ensures
            r == (!menu.open && role.current == Role::Investigator && journal.open),
    {
        if menu.open || role.current != Role::Investigator {
            return false;
        }
        journal.open
    }
}

/// Whether the pointer is free (shown, not captured): in the menu or the journal.
pub fn update_cursor_lock(menu: &MenuState, journal: &JournalState) -> (r: bool)
    ensures
        r == (menu.open || journal.open),
{
    menu.open || journal.open
}

/// Escape: from a briefing screen, back to the role choice; otherwise open or
/// close the menu, closing the journal on opening and, once a session has
/// started, opening at the role choice.
pub fn handle_menu_toggle(
    escape_pressed: bool,
    menu: &mut MenuState,
    journal: &mut JournalState,
    flow: &mut MenuFlowState,
    session: &SessionState,
)
    ensures
        final(menu).selected_role == old(menu).selected_role,
        !escape_pressed ==> *final(menu) == *old(menu) && *final(journal) == *old(journal) && *final(flow)
            == *old(flow),
        escape_pressed && old(menu).open && (old(flow).screen == MenuScreen::GhostDetails
            || old(flow).screen == MenuScreen::InvestigatorDetails) ==> *final(menu) == *old(menu)
            && *final(journal) == *old(journal) && final(flow).screen == MenuScreen::RoleSelect,
        escape_pressed && !(old(menu).open && (old(flow).screen == MenuScreen::GhostDetails
            || old(flow).screen == MenuScreen::InvestigatorDetails)) ==> {
            &&& final(menu).open == !old(menu).open
            &&& final(journal).open == (old(journal).open && !final(menu).open)
            &&& final(flow).screen == if final(menu).open && session.started {
                MenuScreen::RoleSelect
            } else {
                old(flow).screen
            }
        },
{
    if !escape_pressed {
        return;
    }
    if menu.open && (flow.screen == MenuScreen::GhostDetails || flow.screen == MenuScreen::InvestigatorDetails) {
        flow.screen = MenuScreen::RoleSelect;
        return;
    }
    menu.open = !menu.open;
    if menu.open {
        journal.open = false;
        if session.started {
            flow.screen = MenuScreen::RoleSelect;
        }
    }
}

/// J opens or closes the journal, for the investigator out of the menu.
pub fn handle_journal_toggle(j_pressed: bool, menu: &MenuState, role: &RoleState, journal: &mut JournalState)
    ensures
        final(journal).open == if j_pressed && !menu.open && role.current == Role::Investigator {
            !old(journal).open
        } else {
            old(journal).open
        },
{
    if menu.open || role.current != Role::Investigator {
        return;
    }
    if j_pressed {
        journal.open = !journal.open;
    }
}

/// Tab switches sides, out of the menu and the journal.
pub fn handle_role_toggle(tab_pressed: bool, menu: &MenuState, journal: &JournalState, role: &mut RoleState)
    ensures
        final(role).current == if tab_pressed && !menu.open && !journal.open {
            if old(role).current == Role::Haunter {
                Role::Investigator
            } else {
                Role::Haunter
            }
        } else {
            old(role).current
        },
{
    if menu.open || journal.open {
        return;
    }
    if tab_pressed {
        role.current = match role.current {
            Role::Haunter => Role::Investigator,
            Role::Investigator => Role::Haunter,
        };
    }
}

/// The journal's "Spirit" choice.
pub struct JournalSelectSpiritButton;

/// The journal's "Banshee" choice.
pub struct JournalSelectBansheeButton;

/// The journal's "Onryo" choice.
pub struct JournalSelectOnryoButton;

/// The journal's confirmation.
pub struct JournalConfirmButton;

/// A press on one of the journal's buttons.
#[derive(Clone, Copy, Debug, PartialEq, Eq, Structural)]
pub enum JournalButton {
    SelectSpirit,
    SelectBanshee,
    SelectOnryo,
    Confirm,
}

/// The accusation after a journal press: a choice replaces the guess; a
/// confirmation with a guess seals it and asks for the puzzle to be set out
/// anew, and without one does nothing.
pub open spec fn journal_press_of(button: JournalButton, inv: InvestigationState, spawned: bool) -> (
    InvestigationState,
    bool,
) {
    match button {
        JournalButton::SelectSpirit => (InvestigationState { guess: Some(GhostType::Spirit), ..inv }, spawned),
        JournalButton::SelectBanshee => (InvestigationState { guess: Some(GhostType::Banshee), ..inv }, spawned),
        JournalButton::SelectOnryo => (InvestigationState { guess: Some(GhostType::Onryo), ..inv }, spawned),
        JournalButton::Confirm => if inv.guess is Some {
            (InvestigationState { confirmed: true, ..inv }, false)
        } else {
            (inv, spawned)
        },
    }
}

impl JournalSelectSpiritButton {
    pub fn press(&self, investigation: &mut InvestigationState)
        ensures
            *final(investigation) == journal_press_of(JournalButton::SelectSpirit, *old(investigation), false).0,
    {
        investigation.guess = Some(GhostType::Spirit);
    }

    /// Shown as chosen while it is the guess.
    pub fn selected(&self, investigation: &InvestigationState) -> (r: bool)
        ensures
            r == (investigation.guess == Some(GhostType::Spirit)),
    {
        investigation.guess == Some(GhostType::Spirit)
    }
}

impl JournalSelectBansheeButton {
    pub fn press(&self, investigation: &mut InvestigationState)
        ensures
            *final(investigation) == journal_press_of(JournalButton::SelectBanshee, *old(investigation), false).0,
    {
        investigation.guess = Some(GhostType::Banshee);
    }

    pub fn selected(&self, investigation: &InvestigationState) -> (r: bool)
        ensures
            r == (investigation.guess == Some(GhostType::Banshee)),
    {
        investigation.guess == Some(GhostType::Banshee)
    }
}

impl JournalSelectOnryoButton {
    pub fn press(&self, investigation: &mut InvestigationState)
        ensures
            *final(investigation) == journal_press_of(JournalButton::SelectOnryo, *old(investigation), false).0,
    {
        investigation.guess = Some(GhostType::Onryo);
    }

    pub fn selected(&self, investigation: &InvestigationState) -> (r: bool)
        ensures
            r == (investigation.guess == Some(GhostType::Onryo)),
    {
        investigation.guess == Some(GhostType::Onryo)
    }
}

impl JournalConfirmButton {
    pub fn press(&self, investigation: &mut InvestigationState, spawned: &mut PuzzleSpawned)
        ensures
            (*final(investigation), final(spawned).0) == journal_press_of(
                JournalButton::Confirm,
                *old(investigation),
                old(spawned).0,
            ),
    {
        if investigation.guess.is_some() {
            investigation.confirmed = true;
            spawned.0 = false;
        }
    }

    /// Shown as done once the guess is confirmed.
    pub fn selected(&self, investigation: &InvestigationState) -> (r: bool)
        ensures
            r == investigation.confirmed,
    {
        investigation.confirmed
    }
}

/// The journal takes a press while the investigator, out of the menu, has it
/// open and has not yet confirmed; otherwise the press is ignored.
pub fn handle_journal_interactions(
    button: JournalButton,
    role: &RoleState,
    menu: &MenuState,
    journal: &JournalState,
    investigation: &mut InvestigationState,
    spawned: &mut PuzzleSpawned,
)
    ensures
        menu.open || role.current != Role::Investigator || old(investigation).confirmed || !journal.open
            ==> *final(investigation) == *old(investigation) && *final(spawned) == *old(spawned),
        !(menu.open || role.current != Role::Investigator || old(investigation).confirmed || !journal.open)
            ==> (*final(investigation), final(spawned).0) == journal_press_of(
            button,
            *old(investigation),
            old(spawned).0,
        ),
{
    if menu.open || role.current != Role::Investigator || investigation.confirmed || !journal.open {
        return;
    }
    match button {
        JournalButton::SelectSpirit => JournalSelectSpiritButton.press(investigation),
        JournalButton::SelectBanshee => JournalSelectBansheeButton.press(investigation),
        JournalButton::SelectOnryo => JournalSelectOnryoButton.press(investigation),
        JournalButton::Confirm => JournalConfirmButton.press(investigation, spawned),
    }
}

/// The journal's choice buttons show only before confirmation; `None` while
/// the journal is not in use (they keep whatever they showed).
pub fn sync_journal_visibility(
    investigation: &InvestigationState,
    role: &RoleState,
    menu: &MenuState,
    journal: &JournalState,
) -> (r: Option<bool>)
    ensures
        r == if menu.open || role.current != Role::Investigator || !journal.open {
            None
        } else {
            Some(!investigation.confirmed)
        },
{
    if menu.open || role.current != Role::Investigator || !journal.open {
        return None;
    }
    Some(!investigation.confirmed)
}

/// On the role choice screen, a side button is highlighted while hovered;
/// `None` elsewhere (it keeps its look).
pub fn sync_role_select_hover(menu: &MenuState, flow: &MenuFlowState, hovered: bool) -> (r: Option<bool>)
    ensures
        r == if menu.open && flow.screen == MenuScreen::RoleSelect {
            Some(hovered)
        } else {
            None
        },
{
    if !menu.open || flow.screen != MenuScreen::RoleSelect {
        return None;
    }
    Some(hovered)
}

/// The menu's start button.
pub struct StartScreenButton;

/// The menu's choice of the ghost side.
pub struct GhostSelectButton;

/// The menu's choice of the investigator side.
pub struct InvestigatorSelectButton;

/// The menu's "Spirit" ghost type.
pub struct SpiritGhostButton;

/// The menu's "Banshee" ghost type.
pub struct BansheeGhostButton;

/// The menu's "Onryo" ghost type.
pub struct OnryoGhostButton;

/// Starts a session on the ghost side.
pub struct BeginHauntButton;

/// Starts a session on the investigator side.
pub struct BeginInvestigationButton;

impl StartScreenButton {
    pub fn press(&self, flow: &mut MenuFlowState)
        ensures
            final(flow).screen == MenuScreen::RoleSelect,
    {
        flow.screen = MenuScreen::RoleSelect;
    }
}

impl GhostSelectButton {
    /// Highlighted when the ghost side is chosen; left alone on the role choice screen.
    pub fn selected(&self, menu: &MenuState, flow: &MenuFlowState) -> (r: Option<bool>)
        ensures
            r == if flow.screen == MenuScreen::RoleSelect {
                None
            } else {
                Some(menu.selected_role == Role::Haunter)
            },
    {
        if flow.screen == MenuScreen::RoleSelect {
            None
        } else {
            Some(menu.selected_role == Role::Haunter)
        }
    }

    pub fn press(&self, menu: &mut MenuState, flow: &mut MenuFlowState)
        ensures
            *final(menu) == (MenuState { selected_role: Role::Haunter, ..*old(menu) }),
            final(flow).screen == MenuScreen::GhostDetails,
    {
        menu.selected_role = Role::Haunter;
        flow.screen = MenuScreen::GhostDetails;
    }
}

impl InvestigatorSelectButton {
    /// Highlighted when the investigator side is chosen; left alone on the role choice screen.
    pub fn selected(&self, menu: &MenuState, flow: &MenuFlowState) -> (r: Option<bool>)
        ensures
            r == if flow.screen == MenuScreen::RoleSelect {
                None
            } else {
                Some(menu.selected_role == Role::Investigator)
            },
    {
        if flow.screen == MenuScreen::RoleSelect {
            None
        } else {
            Some(menu.selected_role == Role::Investigator)
        }
    }

    pub fn press(&self, menu: &mut MenuState, flow: &mut MenuFlowState)
        ensures
            *final(menu) == (MenuState { selected_role: Role::Investigator, ..*old(menu) }),
            final(flow).screen == MenuScreen::InvestigatorDetails,
    {
        menu.selected_role = Role::Investigator;
        flow.screen = MenuScreen::InvestigatorDetails;
    }
}

impl SpiritGhostButton {
    /// Highlighted while it is the ghost type picked.
    pub fn selected(&self, ghost_type: &GhostTypeState) -> (r: bool)
        ensures
            r == (ghost_type.selected == GhostType::Spirit),
    {
        ghost_type.selected == GhostType::Spirit
    }

    pub fn press(&self, ghost_type: &mut GhostTypeState)
        ensures
            *final(ghost_type) == (GhostTypeState { selected: GhostType::Spirit, ..*old(ghost_type) }),
    {
        ghost_type.selected = GhostType::Spirit;
    }
}

impl BansheeGhostButton {
    /// Highlighted while it is the ghost type picked.
    pub fn selected(&self, ghost_type: &GhostTypeState) -> (r: bool)
        ensures
            r == (ghost_type.selected == GhostType::Banshee),
    {
        ghost_type.selected == GhostType::Banshee
    }

    pub fn press(&self, ghost_type: &mut GhostTypeState)
        ensures
            *final(ghost_type) == (GhostTypeState { selected: GhostType::Banshee, ..*old(ghost_type) }),
    {
        ghost_type.selected = GhostType::Banshee;
    }
}

impl OnryoGhostButton {
    /// Highlighted while it is the ghost type picked.
    pub fn selected(&self, ghost_type: &GhostTypeState) -> (r: bool)
        ensures
            r == (ghost_type.selected == GhostType::Onryo),
    {
        ghost_type.selected == GhostType::Onryo
    }

    pub fn press(&self, ghost_type: &mut GhostTypeState)
        ensures
            *final(ghost_type) == (GhostTypeState { selected: GhostType::Onryo, ..*old(ghost_type) }),
    {
        ghost_type.selected = GhostType::Onryo;
    }
}

/// The state of every session-level record right after a session begins on
/// side `side`.
pub open spec fn session_begun(
    side: Role,
    selected: GhostType,
    menu: MenuState,
    flow: MenuFlowState,
    role: RoleState,
    ghost_type: GhostTypeState,
    evidence: EvidenceState,
    equipment: EquipmentState,
    spawned: PuzzleSpawned,
    investigation: InvestigationState,
    session: SessionState,
    journal: JournalState,
) -> bool {
    &&& role.current == side
    &&& menu == MenuState { open: false, selected_role: side }
    &&& flow.screen == MenuScreen::RoleSelect
    &&& ghost_type == GhostTypeState { selected, active: selected }
    &&& !evidence.emf_five && !evidence.spiritbox_response
    &&& equipment_at_rest(equipment)
    &&& !spawned.0
    &&& investigation == InvestigationState { guess: None, confirmed: false }
    &&& session.started
    &&& !journal.open
}

/// Begins a session on side `side`: the ghost type picked in the menu comes
/// into play, evidence, the investigator's kit and the accusation are reset,
/// the puzzle is to be set out anew, and the menu and journal close.
pub fn begin_session(
    side: Role,
    menu: &mut MenuState,
    flow: &mut MenuFlowState,
    role: &mut RoleState,
    ghost_type: &mut GhostTypeState,
    evidence: &mut EvidenceState,
    equipment: &mut EquipmentState,
    spawned: &mut PuzzleSpawned,
    investigation: &mut InvestigationState,
    session: &mut SessionState,
    journal: &mut JournalState,
)
    ensures
        session_begun(
            side,
            old(ghost_type).selected,
            *final(menu),
            *final(flow),
            *final(role),
            *final(ghost_type),
            *final(evidence),
            *final(equipment),
            *final(spawned),
            *final(investigation),
            *final(session),
            *final(journal),
        ),
{
    role.current = side;
    menu.selected_role = side;
    ghost_type.active = ghost_type.selected;
    *evidence = EvidenceState::new();
    *equipment = EquipmentState::new();
    spawned.0 = false;
    *investigation = InvestigationState::new();
    session.started = true;
    menu.open = false;
    journal.open = false;
    flow.screen = MenuScreen::RoleSelect;
}

/// A press on one of the menu's buttons.
#[derive(Clone, Copy, Debug, PartialEq, Eq, Structural)]
pub enum MenuButton {
    StartScreen,
    GhostSelect,
    InvestigatorSelect,
    SpiritGhost,
    BansheeGhost,
    OnryoGhost,
    BeginHaunt,
    BeginInvestigation,
    Exit,
}

/// Applies a menu press; returns whether the player asked to quit. The start
/// button leads to the role choice, a side leads to its briefing, a ghost type
/// is picked for the next session, and the two begin buttons start a session on
/// their side.
pub fn handle_menu_interactions(
    button: MenuButton,
    menu: &mut MenuState,
    flow: &mut MenuFlowState,
    role: &mut RoleState,
    ghost_type: &mut GhostTypeState,
    evidence: &mut EvidenceState,
    equipment: &mut EquipmentState,
    spawned: &mut PuzzleSpawned,
    investigation: &mut InvestigationState,
    session: &mut SessionState,
    journal: &mut JournalState,
) -> (exit: bool)
    ensures
        exit == (button == MenuButton::Exit),
        button == MenuButton::BeginHaunt || button == MenuButton::BeginInvestigation ==> session_begun(
            if button == MenuButton::BeginHaunt {
                Role::Haunter
            } else {
                Role::Investigator
            },
            old(ghost_type).selected,
            *final(menu),
            *final(flow),
            *final(role),
            *final(ghost_type),
            *final(evidence),
            *final(equipment),
            *final(spawned),
            *final(investigation),
            *final(session),
            *final(journal),
        ),
        !(button == MenuButton::BeginHaunt || button == MenuButton::BeginInvestigation) ==> {
            &&& *final(role) == *old(role)
            &&& *final(evidence) == *old(evidence)
            &&& *final(equipment) == *old(equipment)
            &&& *final(spawned) == *old(spawned)
            &&& *final(investigation) == *old(investigation)
            &&& *final(session) == *old(session)
            &&& *final(journal) == *old(journal)
            &&& *final(menu) == match button {
                MenuButton::GhostSelect => MenuState { selected_role: Role::Haunter, ..*old(menu) },
                MenuButton::InvestigatorSelect => MenuState {
                    selected_role: Role::Investigator,
                    ..*old(menu)
                },
                _ => *old(menu),
            }
            &&& final(flow).screen == match button {
                MenuButton::StartScreen => MenuScreen::RoleSelect,
                MenuButton::GhostSelect => MenuScreen::GhostDetails,
                MenuButton::InvestigatorSelect => MenuScreen::InvestigatorDetails,
                _ => old(flow).screen,
            }
            &&& final(ghost_type).active == old(ghost_type).active
            &&& final(ghost_type).selected == match button {
                MenuButton::SpiritGhost => GhostType::Spirit,
                MenuButton::BansheeGhost => GhostType::Banshee,
                MenuButton::OnryoGhost => GhostType::Onryo,
                _ => old(ghost_type).selected,
            }
        },
{
    match button {
        MenuButton::StartScreen => StartScreenButton.press(flow),
        MenuButton::GhostSelect => GhostSelectButton.press(menu, flow),
        MenuButton::InvestigatorSelect => InvestigatorSelectButton.press(menu, flow),
        MenuButton::SpiritGhost => SpiritGhostButton.press(ghost_type),
        MenuButton::BansheeGhost => BansheeGhostButton.press(ghost_type),
        MenuButton::OnryoGhost => OnryoGhostButton.press(ghost_type),
        MenuButton::BeginHaunt => begin_session(
            Role::Haunter,
            menu,
            flow,
            role,
            ghost_type,
            evidence,
            equipment,
            spawned,
            investigation,
            session,
            journal,
        ),
        MenuButton::BeginInvestigation => begin_session(
            Role::Investigator,
            menu,
            flow,
            role,
            ghost_type,
            evidence,
            equipment,
            spawned,
            investigation,
            session,
            journal,
        ),
        MenuButton::Exit => {},
    }
    button == MenuButton::Exit
}

/// Confirming an accusation and then beginning a new session leaves no guess,
/// no confirmation and no evidence behind, whatever was confirmed.
pub proof fn lemma_new_session_clears(
    investigation: InvestigationState,
    spawned: bool,
    side: Role,
    selected: GhostType,
    menu: MenuState,
    flow: MenuFlowState,
    role: RoleState,
    ghost_type: GhostTypeState,
    evidence: EvidenceState,
    equipment: EquipmentState,
    spawned_after: PuzzleSpawned,
    investigation_after: InvestigationState,
    session: SessionState,
    journal: JournalState,
)
    requires
        investigation.guess is Some,
        session_begun(
            side,
            selected,
            menu,
            flow,
            role,
            ghost_type,
            evidence,
            equipment,
            spawned_after,
            investigation_after,
            session,
            journal,
        ),
    ensures
        journal_press_of(JournalButton::Confirm, investigation, spawned).0.confirmed,
        !investigation_after.confirmed,
        investigation_after.guess is None,
        !evidence.emf_five && !evidence.spiritbox_response,
{
}

} // verus!
