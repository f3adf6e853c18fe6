use ghost_hunt::exorcism::{finalize, ExorcismState};
use ghost_hunt::rules::{banshee_advance, onryo_stack_tick, spirit_progress};
use ghost_hunt::states::GhostType;
use ghost_hunt::tables::{puzzle_name, ExorcismTables};

#[test]
fn spirit_progress_increases_when_watched() {
    let tables = ExorcismTables::default();
    let next = spirit_progress(
        200_000,
        true,
        1000,
        tables.spirit.rate_up,
        tables.spirit.rate_down,
    );
    assert!(next > 200_000);
}

#[test]
fn spirit_progress_decays_when_unwatched() {
    let tables = ExorcismTables::default();
    let next = spirit_progress(
        200_000,
        false,
        1000,
        tables.spirit.rate_up,
        tables.spirit.rate_down,
    );
    assert!(next < 200_000);
}

#[test]
fn banshee_advance_fails_on_wrong_order() {
    let state = banshee_advance(1, 3, true, false);
    assert!(matches!(state, ExorcismState::Failed));
}

#[test]
fn banshee_advance_completes_on_last_step() {
    let state = banshee_advance(2, 3, true, true);
    assert!(matches!(state, ExorcismState::Complete));
}

#[test]
fn onryo_stack_fails_at_max() {
    let tables = ExorcismTables::default();
    let (stacks, failed) = onryo_stack_tick(
        4_900_000,
        1000,
        true,
        tables.onryo.max_stacks,
        tables.onryo.stack_rate,
    );
    assert!(stacks >= tables.onryo.max_stacks);
    assert!(failed);
}

#[test]
fn spirit_progress_exact_steps_and_clamps() {
    assert_eq!(spirit_progress(200_000, true, 1000, 160, 100), 360_000);
    assert_eq!(spirit_progress(200_000, false, 1000, 160, 100), 100_000);
    assert_eq!(spirit_progress(950_000, true, 1000, 160, 100), 1_000_000);
    assert_eq!(spirit_progress(50_000, false, 1000, 160, 100), 0);
    let small = spirit_progress(500_000, true, 100, 160, 100);
    let large = spirit_progress(500_000, true, 200, 160, 100);
    assert!(small <= large);
}

#[test]
fn banshee_advance_each_case() {
    assert_eq!(banshee_advance(1, 3, false, true), ExorcismState::Failed);
    assert_eq!(banshee_advance(0, 3, true, true), ExorcismState::Stage(1));
    assert_eq!(banshee_advance(1, 3, true, true), ExorcismState::Stage(2));
    assert_eq!(banshee_advance(255, 3, true, true), ExorcismState::Complete);
}

#[test]
fn onryo_stack_tick_cases() {
    assert_eq!(onryo_stack_tick(1_500_000, 10_000, false, 5_000_000, 600), (1_500_000, false));
    assert_eq!(onryo_stack_tick(1_000_000, 1000, true, 5_000_000, 600), (1_600_000, false));
    assert_eq!(onryo_stack_tick(4_400_000, 1000, true, 5_000_000, 600), (5_000_000, true));
    assert_eq!(onryo_stack_tick(u64::MAX - 1, 1000, true, 5_000_000, 600), (u64::MAX, true));
}

#[test]
fn completion_needs_the_right_guess() {
    assert_eq!(finalize(GhostType::Banshee, GhostType::Banshee), ExorcismState::Complete);
    assert_eq!(finalize(GhostType::Spirit, GhostType::Onryo), ExorcismState::Failed);
    assert_eq!(puzzle_name(GhostType::Onryo), "Onryo: The Containment");
}
