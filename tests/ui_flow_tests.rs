use ghost_hunt::evidence::EvidenceTuning;
use ghost_hunt::exorcism::{
    maybe_reset_puzzle, spawn_puzzle_entities, BansheePuzzle, ExorcismState, ExorcismStatus,
    InvestigationState, OnryoPuzzle, PuzzleSpawned, RoomLights, SpiritPuzzle,
};
use ghost_hunt::geometry::{Heading, Point};
use ghost_hunt::ghost::GhostState;
use ghost_hunt::states::{
    Equipment, GhostType, GhostTypeState, JournalState, MenuFlowState, MenuScreen, MenuState, Role,
    RoleState, SessionState,
};
use ghost_hunt::tables::ExorcismTables;
use ghost_hunt::tools::{update_emf_reading, EquipmentState, EvidenceState};
use ghost_hunt::hud::PuzzleTitleText;
use ghost_hunt::ui::{
    begin_session, handle_journal_interactions, handle_menu_interactions, handle_menu_toggle, MenuButton, sync_journal_visibility,
    update_cursor_lock, JournalButton, RoleSelectRoot, StartScreenButton,
    StartScreenRoot,
};

fn empty_puzzles(tables: &ExorcismTables) -> (SpiritPuzzle, BansheePuzzle, OnryoPuzzle) {
    (
        SpiritPuzzle { anchors: Vec::new(), markers: Vec::new(), progress: 0 },
        BansheePuzzle { anchors: Vec::new(), stage: 0, time_since_trigger: 0, failed_timer: 0 },
        OnryoPuzzle {
            cursed: Vec::new(),
            rituals: Vec::new(),
            stage: 0,
            stacks: 0,
            max_stacks: tables.onryo.max_stacks,
            carrying: None,
        },
    )
}

fn inactive_status() -> ExorcismStatus {
    ExorcismStatus { state: ExorcismState::Inactive, progress: 0, stage: 0, stacks: 0, max_stacks: 0 }
}

#[test]
fn journal_confirm_updates_investigation_state() {
    let menu = MenuState { open: false, selected_role: Role::Investigator };
    let role = RoleState { current: Role::Investigator };
    let journal = JournalState { open: true };
    let mut investigation = InvestigationState::new();
    let mut spawned = PuzzleSpawned(true);

    handle_journal_interactions(JournalButton::SelectBanshee, &role, &menu, &journal, &mut investigation, &mut spawned);
    handle_journal_interactions(JournalButton::Confirm, &role, &menu, &journal, &mut investigation, &mut spawned);

    assert!(matches!(investigation.guess, Some(GhostType::Banshee)));
    assert!(investigation.confirmed);
    assert!(!spawned.0);
}

#[test]
fn journal_visibility_hides_after_confirm() {
    let menu = MenuState { open: false, selected_role: Role::Investigator };
    let role = RoleState { current: Role::Investigator };
    let journal = JournalState { open: true };
    let investigation = InvestigationState { guess: Some(GhostType::Spirit), confirmed: true };
    assert_eq!(sync_journal_visibility(&investigation, &role, &menu, &journal), Some(false));
}

#[test]
fn journal_visibility_shows_before_confirm() {
    let menu = MenuState { open: false, selected_role: Role::Investigator };
    let role = RoleState { current: Role::Investigator };
    let journal = JournalState { open: true };
    let investigation = InvestigationState::new();
    assert_eq!(sync_journal_visibility(&investigation, &role, &menu, &journal), Some(true));
}

#[test]
fn puzzle_spawns_only_after_confirm() {
    let tables = ExorcismTables::default();
    let menu = MenuState { open: false, selected_role: Role::Investigator };
    let mut investigation = InvestigationState::new();
    let mut spawned = PuzzleSpawned(false);
    let mut status = inactive_status();
    let (mut spirit, mut banshee, mut onryo) = empty_puzzles(&tables);
    let mut lights = RoomLights::all_on();

    maybe_reset_puzzle(&spawned, &tables, &mut status, &mut spirit, &mut banshee, &mut onryo, &mut lights, &menu, &investigation);
    spawn_puzzle_entities(&mut spawned, &investigation, &menu, &tables, &mut spirit, &mut banshee, &mut onryo);
    assert!(!spawned.0);

    investigation.guess = Some(GhostType::Spirit);
    investigation.confirmed = true;

    maybe_reset_puzzle(&spawned, &tables, &mut status, &mut spirit, &mut banshee, &mut onryo, &mut lights, &menu, &investigation);
    spawn_puzzle_entities(&mut spawned, &investigation, &menu, &tables, &mut spirit, &mut banshee, &mut onryo);
    assert!(spawned.0);
}

#[test]
fn puzzle_title_waits_for_confirmation() {
    let ghost_type = GhostTypeState { selected: GhostType::Spirit, active: GhostType::Spirit };
    let investigation = InvestigationState::new();
    assert_eq!(PuzzleTitleText::line(&investigation, &ghost_type), "Puzzle: Awaiting Confirmation");
}

#[test]
fn start_screen_visible_when_menu_open() {
    let menu = MenuState { open: true, selected_role: Role::Haunter };
    let flow = MenuFlowState { screen: MenuScreen::Start };
    assert!(StartScreenRoot::visible(&menu, &flow));
}

#[test]
fn role_select_visible_when_screen_active() {
    let menu = MenuState { open: true, selected_role: Role::Haunter };
    let flow = MenuFlowState { screen: MenuScreen::RoleSelect };
    assert!(RoleSelectRoot::visible(&menu, &flow));
}

#[test]
fn start_button_moves_to_role_select() {
    let mut menu = MenuState { open: true, selected_role: Role::Haunter };
    let mut flow = MenuFlowState { screen: MenuScreen::Start };
    let mut role = RoleState { current: Role::Haunter };
    let mut ghost_type = GhostTypeState { selected: GhostType::Spirit, active: GhostType::Spirit };
    let mut evidence = EvidenceState::new();
    let mut equipment = EquipmentState::new();
    let mut spawned = PuzzleSpawned(false);
    let mut investigation = InvestigationState::new();
    let mut session = SessionState { started: false };
    let mut journal = JournalState { open: false };

    let exit = handle_menu_interactions(
        MenuButton::StartScreen,
        &mut menu,
        &mut flow,
        &mut role,
        &mut ghost_type,
        &mut evidence,
        &mut equipment,
        &mut spawned,
        &mut investigation,
        &mut session,
        &mut journal,
    );

    assert!(!exit);
    assert!(matches!(flow.screen, MenuScreen::RoleSelect));
}

#[test]
fn start_button_alone_moves_the_flow() {
    let mut flow = MenuFlowState { screen: MenuScreen::Start };
    StartScreenButton.press(&mut flow);
    assert!(matches!(flow.screen, MenuScreen::RoleSelect));
}

#[test]
fn menu_choices_then_begin() {
    let mut menu = MenuState { open: true, selected_role: Role::Haunter };
    let mut flow = MenuFlowState { screen: MenuScreen::RoleSelect };
    let mut role = RoleState { current: Role::Haunter };
    let mut ghost_type = GhostTypeState { selected: GhostType::Spirit, active: GhostType::Spirit };
    let mut evidence = EvidenceState { emf_five: true, spiritbox_response: false };
    let mut equipment = EquipmentState::new();
    let mut spawned = PuzzleSpawned(true);
    let mut investigation = InvestigationState { guess: Some(GhostType::Spirit), confirmed: true };
    let mut session = SessionState { started: false };
    let mut journal = JournalState { open: false };
    for button in [MenuButton::InvestigatorSelect, MenuButton::OnryoGhost] {
        handle_menu_interactions(button, &mut menu, &mut flow, &mut role, &mut ghost_type, &mut evidence, &mut equipment, &mut spawned, &mut investigation, &mut session, &mut journal);
    }
    assert_eq!(flow.screen, MenuScreen::InvestigatorDetails);
    assert_eq!(menu.selected_role, Role::Investigator);
    assert_eq!(ghost_type.selected, GhostType::Onryo);
    assert_eq!(ghost_type.active, GhostType::Spirit);
    handle_menu_interactions(MenuButton::BeginInvestigation, &mut menu, &mut flow, &mut role, &mut ghost_type, &mut evidence, &mut equipment, &mut spawned, &mut investigation, &mut session, &mut journal);
    assert_eq!(role.current, Role::Investigator);
    assert_eq!(ghost_type.active, GhostType::Onryo);
    assert!(!evidence.emf_five && !spawned.0 && session.started && !menu.open);
    assert_eq!(investigation, InvestigationState::new());
    assert!(handle_menu_interactions(MenuButton::Exit, &mut menu, &mut flow, &mut role, &mut ghost_type, &mut evidence, &mut equipment, &mut spawned, &mut investigation, &mut session, &mut journal));
}

#[test]
fn escape_returns_to_role_select_from_details() {
    let mut menu = MenuState { open: true, selected_role: Role::Haunter };
    let mut flow = MenuFlowState { screen: MenuScreen::GhostDetails };
    let session = SessionState { started: false };
    let mut journal = JournalState { open: false };
    handle_menu_toggle(true, &mut menu, &mut journal, &mut flow, &session);
    assert!(menu.open);
    assert!(matches!(flow.screen, MenuScreen::RoleSelect));
}

#[test]
fn cursor_unlocks_when_journal_open() {
    let menu = MenuState { open: false, selected_role: Role::Investigator };
    let journal = JournalState { open: true };
    let free = update_cursor_lock(&menu, &journal);
    assert!(free);
}

/// The instrument noise wave at `t` seconds, as the presentation layer feeds it.
fn jitter_wave(t: f64, tuning: &EvidenceTuning) -> i32 {
    let t = t + tuning.emf_jitter_phase as f64 / 1000.0;
    let f1 = tuning.emf_jitter_f1 as f64 / 1000.0;
    let f2 = tuning.emf_jitter_f2 as f64 / 1000.0;
    (((t * f1).sin() * 0.6 + (t * f2).sin() * 0.4) * 1000.0).round() as i32
}

/// The display filter fraction for a tick of `dt_ms`, in millionths.
fn smooth_alpha(dt_ms: u32, tuning: &EvidenceTuning) -> u32 {
    let x = tuning.emf_smooth_rate as f64 * dt_ms as f64 / 1000.0;
    ((1.0 - (-x).exp()) * 1_000_000.0).round() as u32
}

#[test]
fn emf_updates_even_when_spiritbox_active() {
    let menu = MenuState { open: false, selected_role: Role::Investigator };
    let role = RoleState { current: Role::Investigator };
    let journal = JournalState { open: false };
    let ghost_type = GhostTypeState { selected: GhostType::Spirit, active: GhostType::Spirit };
    let ghost = GhostState { position: Point::new(0, 0, 0) };
    let tuning = EvidenceTuning::default();
    let mut equipment = EquipmentState::new();
    equipment.active = Equipment::Spiritbox;
    let mut evidence = EvidenceState::new();
    let player = Some(Point::new(0, 0, 500));
    let look = Heading::new(0, 0, -1000);

    for tick in 1..=5 {
        let t = tick as f64 * 0.2;
        update_emf_reading(
            200,
            smooth_alpha(200, &tuning),
            jitter_wave(t, &tuning),
            &role,
            &menu,
            &journal,
            &ghost,
            look,
            &tuning,
            &ghost_type,
            player,
            &mut equipment,
            &mut evidence,
        );
    }

    assert_eq!(equipment.emf_level, 5);
}

#[test]
fn spirit_markers_spawn_with_puzzle() {
    let tables = ExorcismTables::default();
    let menu = MenuState { open: false, selected_role: Role::Investigator };
    let investigation = InvestigationState { guess: Some(GhostType::Spirit), confirmed: true };
    let mut spawned = PuzzleSpawned(false);
    let mut status = inactive_status();
    let (mut spirit, mut banshee, mut onryo) = empty_puzzles(&tables);
    let mut lights = RoomLights::all_on();

    maybe_reset_puzzle(&spawned, &tables, &mut status, &mut spirit, &mut banshee, &mut onryo, &mut lights, &menu, &investigation);
    spawn_puzzle_entities(&mut spawned, &investigation, &menu, &tables, &mut spirit, &mut banshee, &mut onryo);

    assert!(spirit.markers.len() > 0);
    assert_eq!(spirit.markers.len(), spirit.anchors.len());
    assert_eq!(spirit.markers[0].position, Point::new(-6000, 20, -6000));
}

#[test]
fn new_session_clears_confirmed_guess_and_evidence() {
    let mut menu = MenuState { open: false, selected_role: Role::Investigator };
    let role_now = RoleState { current: Role::Investigator };
    let mut journal = JournalState { open: true };
    let mut investigation = InvestigationState::new();
    let mut spawned = PuzzleSpawned(true);
    handle_journal_interactions(JournalButton::SelectOnryo, &role_now, &menu, &journal, &mut investigation, &mut spawned);
    handle_journal_interactions(JournalButton::Confirm, &role_now, &menu, &journal, &mut investigation, &mut spawned);
    assert!(investigation.confirmed);

    let mut flow = MenuFlowState { screen: MenuScreen::GhostDetails };
    let mut role = RoleState { current: Role::Investigator };
    let mut ghost_type = GhostTypeState { selected: GhostType::Banshee, active: GhostType::Spirit };
    let mut evidence = EvidenceState { emf_five: true, spiritbox_response: true };
    let mut equipment = EquipmentState::new();
    equipment.active = Equipment::Spiritbox;
    equipment.emf_level = 4;
    equipment.emf_dwell = 600;
    equipment.emf_smoothed = 3900;
    equipment.emf_evidence_latch = 700;
    equipment.spiritbox_message = "Right... here.".to_string();
    equipment.spiritbox_cooldown = 1000;
    let mut session = SessionState { started: false };
    begin_session(
        Role::Haunter,
        &mut menu,
        &mut flow,
        &mut role,
        &mut ghost_type,
        &mut evidence,
        &mut equipment,
        &mut spawned,
        &mut investigation,
        &mut session,
        &mut journal,
    );
    assert!(!investigation.confirmed);
    assert_eq!(investigation.guess, None);
    assert!(!evidence.emf_five && !evidence.spiritbox_response);
    assert_eq!(role.current, Role::Haunter);
    assert_eq!(ghost_type.active, GhostType::Banshee);
    assert!(session.started && !menu.open && !journal.open && !spawned.0);
    assert_eq!(flow.screen, MenuScreen::RoleSelect);
    assert_eq!(equipment.active, Equipment::Emf);
    assert_eq!((equipment.emf_level, equipment.emf_dwell, equipment.emf_smoothed), (0, 0, 0));
    assert_eq!((equipment.emf_evidence_latch, equipment.spiritbox_cooldown), (0, 0));
    assert_eq!(equipment.spiritbox_message, "Silence...");
}
