use ghost_hunt::exorcism::{
    ghost_toggle_lights, maybe_reset_puzzle, spawn_puzzle_entities, update_banshee_puzzle,
    update_onryo_puzzle, update_spirit_puzzle, BansheePuzzle, ExorcismState, ExorcismStatus,
    InvestigationState, OnryoPuzzle, PuzzleSpawned, RoomLights, SpiritAnchor, SpiritPuzzle,
};
use ghost_hunt::geometry::{Heading, Point};
use ghost_hunt::ghost::{sync_ghost_marker, GhostMarker, GhostState};
use ghost_hunt::states::{GhostType, GhostTypeState, JournalState, MenuState, Role, RoleState};
use ghost_hunt::tables::ExorcismTables;

struct World {
    tables: ExorcismTables,
    menu: MenuState,
    role: RoleState,
    journal: JournalState,
    ghost_type: GhostTypeState,
    investigation: InvestigationState,
    spawned: PuzzleSpawned,
    status: ExorcismStatus,
    lights: RoomLights,
    spirit: SpiritPuzzle,
    banshee: BansheePuzzle,
    onryo: OnryoPuzzle,
}

fn confirmed_world(guess: GhostType, actual: GhostType) -> World {
    let tables = ExorcismTables::default();
    let max = tables.onryo.max_stacks;
    let mut w = World {
        tables,
        menu: MenuState { open: false, selected_role: Role::Investigator },
        role: RoleState { current: Role::Investigator },
        journal: JournalState { open: false },
        ghost_type: GhostTypeState { selected: actual, active: actual },
        investigation: InvestigationState { guess: Some(guess), confirmed: true },
        spawned: PuzzleSpawned(false),
        status: ExorcismStatus { state: ExorcismState::Inactive, progress: 0, stage: 0, stacks: 0, max_stacks: 0 },
        lights: RoomLights::all_on(),
        spirit: SpiritPuzzle { anchors: Vec::new(), markers: Vec::new(), progress: 0 },
        banshee: BansheePuzzle { anchors: Vec::new(), stage: 0, time_since_trigger: 0, failed_timer: 0 },
        onryo: OnryoPuzzle { cursed: Vec::new(), rituals: Vec::new(), stage: 0, stacks: 0, max_stacks: max, carrying: None },
    };
    maybe_reset_puzzle(&w.spawned, &w.tables, &mut w.status, &mut w.spirit, &mut w.banshee, &mut w.onryo, &mut w.lights, &w.menu, &w.investigation);
    spawn_puzzle_entities(&mut w.spawned, &w.investigation, &w.menu, &w.tables, &mut w.spirit, &mut w.banshee, &mut w.onryo);
    w
}

fn banshee_tick(w: &mut World, dt: u32, interact: bool, player: Point) {
    update_banshee_puzzle(dt, interact, &w.menu, &w.role, &w.ghost_type, &w.investigation, &w.tables, &w.journal, Some(player), &mut w.banshee, &mut w.status);
}

fn onryo_tick(w: &mut World, dt: u32, interact: bool, player: Point) {
    update_onryo_puzzle(dt, interact, &w.menu, &w.role, &w.ghost_type, &w.investigation, &w.tables, &w.journal, Some(player), &mut w.onryo, &mut w.status);
}

#[test]
fn banshee_wrong_order_fails_then_restarts() {
    let mut w = confirmed_world(GhostType::Banshee, GhostType::Banshee);
    assert_eq!(w.banshee.anchors.len(), 3);
    let a0 = w.tables.banshee.anchors[0];
    let a2 = w.tables.banshee.anchors[2];

    banshee_tick(&mut w, 16, true, a0);
    assert_eq!(w.banshee.stage, 1);
    assert_eq!(w.status.state, ExorcismState::Stage(1));

    banshee_tick(&mut w, 1000, true, a2);
    assert_eq!(w.status.state, ExorcismState::Failed);
    assert_eq!(w.banshee.failed_timer, 2500);
    assert_eq!(w.banshee.stage, 0);

    banshee_tick(&mut w, 1000, false, a2);
    assert_eq!(w.banshee.failed_timer, 1500);
    assert_eq!(w.status.state, ExorcismState::Failed);
    banshee_tick(&mut w, 1000, false, a2);
    banshee_tick(&mut w, 1000, false, a2);
    assert_eq!(w.banshee.failed_timer, 0);
    assert_eq!(w.banshee.stage, 0);
    assert_eq!(w.banshee.time_since_trigger, 0);

    banshee_tick(&mut w, 16, false, a2);
    assert_eq!(w.status.state, ExorcismState::Stage(0));
}

#[test]
fn banshee_full_sequence_needs_right_guess() {
    for (actual, outcome) in [(GhostType::Banshee, ExorcismState::Complete), (GhostType::Onryo, ExorcismState::Failed)] {
        let mut w = confirmed_world(GhostType::Banshee, actual);
        let anchors = w.tables.banshee.anchors.clone();
        banshee_tick(&mut w, 16, true, anchors[0]);
        banshee_tick(&mut w, 1000, true, anchors[1]);
        assert_eq!(w.status.state, ExorcismState::Stage(2));
        assert_eq!(w.status.progress, 333_333);
        banshee_tick(&mut w, 1000, true, anchors[2]);
        assert_eq!(w.status.state, outcome);
        assert_eq!(w.banshee.stage, 3);
        banshee_tick(&mut w, 16, false, anchors[2]);
        assert_eq!(w.status.state, outcome);
        banshee_tick(&mut w, 1000, true, anchors[0]);
        assert_eq!(w.status.state, outcome);
        assert_eq!(w.banshee.stage, 3);
        assert_eq!(w.banshee.failed_timer, 0);
    }
}

#[test]
fn banshee_too_fast_fails() {
    let mut w = confirmed_world(GhostType::Banshee, GhostType::Banshee);
    let anchors = w.tables.banshee.anchors.clone();
    banshee_tick(&mut w, 16, true, anchors[0]);
    banshee_tick(&mut w, 100, true, anchors[1]);
    assert_eq!(w.status.state, ExorcismState::Failed);
}

#[test]
fn onryo_holding_too_long_fails() {
    let mut w = confirmed_world(GhostType::Onryo, GhostType::Onryo);
    assert_eq!(w.tables.onryo.max_stacks, 5_000_000);
    assert_eq!(w.tables.onryo.stack_rate, 600);
    let spot = w.tables.onryo.cursed_positions[0];

    onryo_tick(&mut w, 16, true, spot);
    assert_eq!(w.onryo.carrying, Some(0));
    let mut failed_seen = false;
    for _ in 0..10 {
        onryo_tick(&mut w, 1000, false, spot);
        if w.status.state == ExorcismState::Failed {
            failed_seen = true;
        }
    }
    assert!(w.onryo.stacks > 5_000_000);
    assert!(failed_seen);
    assert_eq!(w.status.state, ExorcismState::Failed);
}

#[test]
fn onryo_wrong_spot_keeps_object() {
    let mut w = confirmed_world(GhostType::Onryo, GhostType::Onryo);
    let cursed = w.tables.onryo.cursed_positions[0];
    let wrong = w.tables.onryo.ritual_positions[1];
    onryo_tick(&mut w, 16, true, cursed);
    let before = w.onryo.stacks;
    onryo_tick(&mut w, 16, true, wrong);
    assert_eq!(w.onryo.carrying, Some(0));
    assert_eq!(w.onryo.stage, 0);
    assert_eq!(w.onryo.stacks, before + 16 * 600 + 1_000_000);
}

#[test]
fn onryo_all_spots_complete() {
    let mut w = confirmed_world(GhostType::Onryo, GhostType::Onryo);
    let cursed = w.tables.onryo.cursed_positions.clone();
    let spots = w.tables.onryo.ritual_positions.clone();
    for k in 0..3 {
        onryo_tick(&mut w, 10, true, cursed[k]);
        assert_eq!(w.onryo.carrying, Some(k));
        onryo_tick(&mut w, 10, true, spots[k]);
        assert_eq!(w.onryo.carrying, None);
        assert!(w.onryo.cursed[k].placed);
    }
    assert_eq!(w.onryo.stage, 3);
    assert_eq!(w.onryo.stacks, 0);
    assert_eq!(w.status.state, ExorcismState::Complete);
    onryo_tick(&mut w, 1000, true, cursed[0]);
    assert_eq!(w.status.state, ExorcismState::Complete);
    assert_eq!(w.onryo.carrying, None);
}

#[test]
fn spirit_vigil_builds_and_gates_on_guess() {
    for (actual, outcome) in [(GhostType::Spirit, ExorcismState::Complete), (GhostType::Banshee, ExorcismState::Failed)] {
        let mut w = confirmed_world(GhostType::Spirit, actual);
        w.spirit.anchors = vec![SpiritAnchor { position: Point::new(0, 700, 3000), room_id: 3, last_seen: 999_000 }];
        let camera = Some((Point::new(0, 1600, 0), Heading::new(0, 0, 1000)));
        update_spirit_puzzle(1000, &w.menu, &w.role, &w.ghost_type, &w.investigation, &w.tables, &w.journal, &w.lights, camera, &mut w.spirit, &mut w.status);
        assert_eq!(w.spirit.anchors[0].last_seen, 0);
        assert_eq!(w.spirit.progress, 160_000);
        assert_eq!(w.status.state, ExorcismState::Progress(160_000));
        update_spirit_puzzle(10_000, &w.menu, &w.role, &w.ghost_type, &w.investigation, &w.tables, &w.journal, &w.lights, camera, &mut w.spirit, &mut w.status);
        assert_eq!(w.status.state, outcome);
        assert_eq!(w.status.progress, 1_000_000);
        let away = Some((Point::new(0, 1600, 0), Heading::new(0, 0, -1000)));
        update_spirit_puzzle(5000, &w.menu, &w.role, &w.ghost_type, &w.investigation, &w.tables, &w.journal, &w.lights, away, &mut w.spirit, &mut w.status);
        assert_eq!(w.spirit.anchors[0].last_seen, 5000);
        assert_eq!(w.spirit.progress, 500_000);
        assert_eq!(w.status.state, ExorcismState::Progress(500_000));
    }
}

#[test]
fn spirit_vigil_falls_when_dark() {
    let mut w = confirmed_world(GhostType::Spirit, GhostType::Spirit);
    w.spirit.anchors = vec![SpiritAnchor { position: Point::new(0, 700, 3000), room_id: 3, last_seen: 0 }];
    w.spirit.progress = 500_000;
    w.lights.rooms[3] = false;
    let camera = Some((Point::new(0, 1600, 0), Heading::new(0, 0, 1000)));
    update_spirit_puzzle(1000, &w.menu, &w.role, &w.ghost_type, &w.investigation, &w.tables, &w.journal, &w.lights, camera, &mut w.spirit, &mut w.status);
    assert_eq!(w.spirit.anchors[0].last_seen, 1000);
    assert_eq!(w.spirit.progress, 660_000);
    update_spirit_puzzle(1500, &w.menu, &w.role, &w.ghost_type, &w.investigation, &w.tables, &w.journal, &w.lights, camera, &mut w.spirit, &mut w.status);
    assert_eq!(w.spirit.progress, 510_000);
}

#[test]
fn lights_toggle_in_ghost_room() {
    let menu = MenuState { open: false, selected_role: Role::Haunter };
    let role = RoleState { current: Role::Haunter };
    let ghost = GhostState { position: Point::new(2000, 0, -3000) };
    let mut lights = RoomLights::all_on();
    ghost_toggle_lights(true, &menu, &role, &ghost, &mut lights);
    assert_eq!(lights.rooms, [true, true, false, true]);
    let investigator = RoleState { current: Role::Investigator };
    ghost_toggle_lights(true, &menu, &investigator, &ghost, &mut lights);
    assert_eq!(lights.rooms, [true, true, false, true]);
}

#[test]
fn ghost_marker_follows_ghost() {
    let ghost = GhostState { position: Point::new(100, 1600, -200) };
    let mut marker = GhostMarker { position: Point::new(0, 0, 0) };
    sync_ghost_marker(&ghost, &mut marker);
    assert_eq!(marker.position, Point::new(100, 1200, -200));
}

#[test]
fn banshee_countdown_wins_over_finished_stage() {
    let mut w = confirmed_world(GhostType::Banshee, GhostType::Banshee);
    let a0 = w.tables.banshee.anchors[0];
    w.banshee.stage = 3;
    w.banshee.failed_timer = 1000;
    banshee_tick(&mut w, 500, false, a0);
    assert_eq!(w.status.state, ExorcismState::Failed);
    assert_eq!(w.banshee.failed_timer, 500);
    assert_eq!(w.banshee.stage, 3);
    banshee_tick(&mut w, 500, false, a0);
    assert_eq!(w.status.state, ExorcismState::Failed);
    assert_eq!((w.banshee.failed_timer, w.banshee.stage, w.banshee.time_since_trigger), (0, 0, 0));
}
