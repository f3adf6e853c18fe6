use ghost_hunt::debug::{
    sync_debug_overlay, toggle_debug_overlay, DebugFacingRay, DebugGhostBubble, DebugOverlayState,
    DebugToolBubble,
};
use ghost_hunt::evidence::EvidenceTuning;
use ghost_hunt::geometry::{Heading, Point};
use ghost_hunt::ghost::GhostState;
use ghost_hunt::states::{Equipment, GhostType, GhostTypeState, JournalState, MenuState, Role, RoleState};
use ghost_hunt::tools::{
    facing_ghost, handle_equipment_input, handle_spiritbox, update_emf_reading, EquipmentState,
    EvidenceState,
};

fn wave_at(t: f64, tuning: &EvidenceTuning) -> i32 {
    let t = t + tuning.emf_jitter_phase as f64 / 1000.0;
    let f1 = tuning.emf_jitter_f1 as f64 / 1000.0;
    let f2 = tuning.emf_jitter_f2 as f64 / 1000.0;
    (((t * f1).sin() * 0.6 + (t * f2).sin() * 0.4) * 1000.0).round() as i32
}

fn alpha_for(dt_ms: u32, tuning: &EvidenceTuning) -> u32 {
    let x = tuning.emf_smooth_rate as f64 * dt_ms as f64 / 1000.0;
    ((1.0 - (-x).exp()) * 1_000_000.0).round() as u32
}

struct Bench {
    menu: MenuState,
    role: RoleState,
    journal: JournalState,
    ghost_type: GhostTypeState,
    tuning: EvidenceTuning,
    equipment: EquipmentState,
    evidence: EvidenceState,
}

fn bench(ghost: GhostType) -> Bench {
    Bench {
        menu: MenuState { open: false, selected_role: Role::Investigator },
        role: RoleState { current: Role::Investigator },
        journal: JournalState { open: false },
        ghost_type: GhostTypeState { selected: ghost, active: ghost },
        tuning: EvidenceTuning::default(),
        equipment: EquipmentState::new(),
        evidence: EvidenceState::new(),
    }
}

fn emf_tick(b: &mut Bench, t: f64, ghost: Point, player: Option<Point>, look: Heading) {
    let g = GhostState { position: ghost };
    update_emf_reading(
        200,
        alpha_for(200, &b.tuning),
        wave_at(t, &b.tuning),
        &b.role,
        &b.menu,
        &b.journal,
        &g,
        look,
        &b.tuning,
        &b.ghost_type,
        player,
        &mut b.equipment,
        &mut b.evidence,
    );
}

#[test]
fn emf_five_locks_and_stays() {
    let mut b = bench(GhostType::Spirit);
    let player = Point::new(0, 900, 0);
    let ghost = Point::new(0, 900, 2000);
    let look = Heading::new(0, 0, 1000);
    for tick in 1..=3 {
        emf_tick(&mut b, tick as f64 * 0.2, ghost, Some(player), look);
        assert!(!b.evidence.emf_five);
        assert!(b.equipment.emf_level <= 4);
    }
    emf_tick(&mut b, 0.8, ghost, Some(player), look);
    assert_eq!(b.equipment.emf_dwell, 800);
    assert_eq!(b.equipment.emf_evidence_latch, 1200);
    assert_eq!(b.equipment.emf_level, 5);
    assert!(b.evidence.emf_five);

    let far = Point::new(0, 900, 9000);
    for tick in 5..=20 {
        emf_tick(&mut b, tick as f64 * 0.2, far, Some(player), look);
    }
    assert_eq!(b.equipment.emf_dwell, 0);
    assert_eq!(b.equipment.emf_evidence_latch, 0);
    assert_eq!(b.equipment.emf_level, 1);
    assert!(b.evidence.emf_five);
}

#[test]
fn emf_not_facing_never_locks() {
    let mut b = bench(GhostType::Spirit);
    let player = Point::new(0, 900, 0);
    let ghost = Point::new(0, 900, 1000);
    let away = Heading::new(0, 0, -1000);
    for tick in 1..=10 {
        emf_tick(&mut b, tick as f64 * 0.2, ghost, Some(player), away);
    }
    assert_eq!(b.equipment.emf_dwell, 0);
    assert!(b.equipment.emf_level <= 4);
    assert!(!b.evidence.emf_five);
}

#[test]
fn emf_resets_without_player_or_in_menu() {
    let mut b = bench(GhostType::Spirit);
    b.equipment.emf_level = 3;
    b.equipment.emf_dwell = 400;
    b.equipment.emf_evidence_latch = 100;
    b.equipment.emf_smoothed = 3000;
    emf_tick(&mut b, 0.2, Point::new(0, 0, 0), None, Heading::new(0, 0, 1000));
    assert_eq!((b.equipment.emf_level, b.equipment.emf_dwell, b.equipment.emf_evidence_latch), (0, 0, 0));
    assert_eq!(b.equipment.emf_smoothed, 3000);
}

#[test]
fn emf_smoothing_exact_step() {
    let mut b = bench(GhostType::Banshee);
    let g = GhostState { position: Point::new(0, 0, 1000) };
    update_emf_reading(
        200, 500_000, 0, &b.role, &b.menu, &b.journal, &g, Heading::new(0, 0, 1000), &b.tuning,
        &b.ghost_type, Some(Point::new(0, 0, 0)), &mut b.equipment, &mut b.evidence,
    );
    assert_eq!(b.equipment.emf_smoothed, 500);
    assert_eq!(b.equipment.emf_level, 1);
}

#[test]
fn facing_is_flat_and_colocated_counts() {
    let p = Point::new(0, 0, 0);
    assert!(facing_ghost(p, Point::new(0, 5000, 0), Heading::new(0, 0, 1000), 600));
    assert!(facing_ghost(p, Point::new(500, 3000, 2000), Heading::new(0, -900, 400), 600));
    assert!(!facing_ghost(p, Point::new(2000, 0, 500), Heading::new(0, 0, 1000), 600));
}

#[test]
fn spiritbox_answers_and_cools_down() {
    let mut b = bench(GhostType::Banshee);
    b.equipment.active = Equipment::Spiritbox;
    let ghost = GhostState { position: Point::new(0, 0, 1500) };
    let near = Some(Point::new(0, 0, 0));
    handle_spiritbox(16, true, &b.role, &b.menu, &b.journal, &ghost, &b.tuning, &b.ghost_type, near, &mut b.equipment, &mut b.evidence);
    assert_eq!(b.equipment.spiritbox_message, "Right... here.");
    assert_eq!(b.equipment.spiritbox_cooldown, 1600);
    assert!(b.evidence.spiritbox_response);

    handle_spiritbox(600, true, &b.role, &b.menu, &b.journal, &ghost, &b.tuning, &b.ghost_type, near, &mut b.equipment, &mut b.evidence);
    assert_eq!(b.equipment.spiritbox_cooldown, 1000);

    handle_spiritbox(1000, true, &b.role, &b.menu, &b.journal, &ghost, &b.tuning, &b.ghost_type, Some(Point::new(0, 0, -5000)), &mut b.equipment, &mut b.evidence);
    assert_eq!(b.equipment.spiritbox_message, "Static...");
    assert_eq!(b.equipment.spiritbox_cooldown, 1200);
    assert!(b.evidence.spiritbox_response);
}

#[test]
fn spiritbox_without_player_is_static() {
    let mut b = bench(GhostType::Spirit);
    b.equipment.active = Equipment::Spiritbox;
    let ghost = GhostState { position: Point::new(0, 0, 0) };
    handle_spiritbox(16, true, &b.role, &b.menu, &b.journal, &ghost, &b.tuning, &b.ghost_type, None, &mut b.equipment, &mut b.evidence);
    assert_eq!(b.equipment.spiritbox_message, "Only static...");
    assert_eq!(b.equipment.spiritbox_cooldown, 1200);
    assert!(!b.evidence.spiritbox_response);
}

#[test]
fn equipment_keys_switch_tools() {
    let mut b = bench(GhostType::Spirit);
    handle_equipment_input(false, true, &b.menu, &b.role, &b.journal, &mut b.equipment);
    assert_eq!(b.equipment.active, Equipment::Spiritbox);
    handle_equipment_input(true, false, &b.menu, &b.role, &b.journal, &mut b.equipment);
    assert_eq!(b.equipment.active, Equipment::Emf);
    let journal_open = JournalState { open: true };
    handle_equipment_input(false, true, &b.menu, &b.role, &journal_open, &mut b.equipment);
    assert_eq!(b.equipment.active, Equipment::Emf);
}

#[test]
fn debug_overlay_follows_player() {
    let mut debug = DebugOverlayState { enabled: false };
    toggle_debug_overlay(true, &mut debug);
    assert!(debug.enabled);
    let menu = MenuState { open: false, selected_role: Role::Investigator };
    let journal = JournalState { open: false };
    let role = RoleState { current: Role::Investigator };
    let ghost = GhostState { position: Point::new(1, 2, 3) };
    let mut tool = DebugToolBubble { position: Point::new(0, 0, 0), visible: false };
    let mut bubble = DebugGhostBubble { position: Point::new(0, 0, 0), visible: false };
    let mut ray = DebugFacingRay { visible: false };
    sync_debug_overlay(&debug, &menu, &journal, &role, &ghost, Some(Point::new(7, 8, 9)), &mut tool, &mut bubble, &mut ray);
    assert_eq!(tool, DebugToolBubble { position: Point::new(7, 8, 9), visible: true });
    assert_eq!(bubble, DebugGhostBubble { position: Point::new(1, 2, 3), visible: true });
    assert!(ray.visible);
}
