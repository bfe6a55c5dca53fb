use postflop_desk::bunching::{BunchingProgress, BunchingState, BunchingTracker};
use postflop_desk::error::ErrorKind;
use postflop_desk::game::{GameLifecycle, GamePhase};
use postflop_desk::tree::{check_editable, check_tree_config, NodeKind};

#[test]
fn step_before_allocation_is_state_error() {
    let mut g = GameLifecycle::new();
    assert_eq!(g.solve_step(), Err(ErrorKind::State));
    assert_eq!(g, GameLifecycle::new());
    g.init();
    let before = g;
    assert_eq!(g.solve_step(), Err(ErrorKind::State));
    assert_eq!(g, before);
    assert_eq!(g.allocated_bytes, 0);
}

#[test]
fn scenario_pot_100_stack_1000_three_steps() {
    assert_eq!(check_tree_config(100, 1000), Ok(()));
    let mut g = GameLifecycle::new();
    g.init();
    let required = g.memory_estimate(1 << 20, 1 << 21);
    assert_eq!(required, 1 << 20);
    assert_eq!(g.allocate_memory(required, 1 << 30), Ok(()));
    assert!(g.allocated_bytes > 0);
    assert_eq!(g.phase, GamePhase::Allocated);
    let a = g.solve_step().unwrap();
    let b = g.solve_step().unwrap();
    let c = g.solve_step().unwrap();
    assert!(a < b && b < c);
    assert_eq!((a, b, c), (1, 2, 3));
    assert_eq!(g.check_exploitability(), Ok(()));
}

#[test]
fn allocation_beyond_available_memory_is_resource_error() {
    let mut g = GameLifecycle::new();
    g.init();
    let before = g;
    assert_eq!(g.allocate_memory(2048, 2047), Err(ErrorKind::Resource));
    assert_eq!(g, before);
    assert_eq!(g.allocate_memory(2048, 2048), Ok(()));
    assert_eq!(g.allocated_bytes, 2048);
}

#[test]
fn allocation_before_init_is_state_error() {
    let mut g = GameLifecycle::new();
    assert_eq!(g.allocate_memory(10, 100), Err(ErrorKind::State));
    assert_eq!(g.phase, GamePhase::Empty);
}

#[test]
fn finalize_twice_is_noop_and_locks_steps() {
    let mut g = GameLifecycle::new();
    assert_eq!(g.finalize(), Err(ErrorKind::State));
    g.init();
    g.allocate_memory(64, 64).unwrap();
    assert_eq!(g.check_exploitability(), Err(ErrorKind::State));
    assert_eq!(g.check_finalized(), Err(ErrorKind::State));
    g.solve_step().unwrap();
    assert_eq!(g.finalize(), Ok(()));
    let after = g;
    assert_eq!(g.finalize(), Ok(()));
    assert_eq!(g, after);
    assert_eq!(g.check_finalized(), Ok(()));
    assert_eq!(g.solve_step(), Err(ErrorKind::State));
    assert_eq!(g.iterations, 1);
}

#[test]
fn init_resets_progress() {
    let mut g = GameLifecycle::new();
    g.init();
    g.allocate_memory(8, 8).unwrap();
    g.solve_step().unwrap();
    g.init();
    assert_eq!(g.phase, GamePhase::Initialized);
    assert_eq!(g.iterations, 0);
    assert_eq!(g.allocated_bytes, 0);
}

#[test]
fn bunching_attach_needs_completed_table() {
    let mut t = BunchingTracker::new();
    let mut g = GameLifecycle::new();
    g.init();
    assert_eq!(g.set_bunching(t.is_ready()), Err(ErrorKind::State));
    t.start().unwrap();
    t.finish().unwrap();
    assert_eq!(g.set_bunching(t.is_ready()), Ok(()));
    assert!(g.bunching);
    assert_eq!(g.memory_estimate(100, 300), 300);
    g.allocate_memory(300, 1000).unwrap();
    assert_eq!(g.set_bunching(true), Err(ErrorKind::State));
}

#[test]
fn bunching_progress_before_init_is_not_started() {
    let t = BunchingTracker::new();
    assert_eq!(t.progress(), BunchingProgress::NotStarted);
}

#[test]
fn bunching_progress_runs_and_completes() {
    let mut t = BunchingTracker::new();
    assert_eq!(t.start(), Ok(()));
    assert_eq!(t.progress(), BunchingProgress::Percent(0));
    t.report(40);
    assert_eq!(t.progress(), BunchingProgress::Percent(40));
    t.report(30);
    assert_eq!(t.progress(), BunchingProgress::Percent(40));
    t.report(250);
    assert_eq!(t.progress(), BunchingProgress::Percent(100));
    assert_eq!(t.start(), Err(ErrorKind::Busy));
    assert_eq!(t.clear(), Err(ErrorKind::Busy));
    assert_eq!(t.finish(), Ok(()));
    assert_eq!(t.state, BunchingState::Done);
    assert_eq!(t.progress(), BunchingProgress::Percent(100));
    assert_eq!(t.finish(), Err(ErrorKind::State));
    assert_eq!(t.clear(), Ok(()));
    assert_eq!(t.progress(), BunchingProgress::NotStarted);
}

#[test]
fn bunching_report_ignored_when_not_running() {
    let mut t = BunchingTracker::new();
    t.report(50);
    assert_eq!(t.progress(), BunchingProgress::NotStarted);
}

#[test]
fn tree_config_rules() {
    assert_eq!(check_tree_config(100, 1000), Ok(()));
    assert_eq!(check_tree_config(100, 100), Ok(()));
    assert_eq!(check_tree_config(100, 99), Err(ErrorKind::Validation));
    assert_eq!(check_tree_config(0, 1000), Err(ErrorKind::Validation));
    assert_eq!(check_tree_config(-5, 1000), Err(ErrorKind::Validation));
}

#[test]
fn tree_edits_need_player_node() {
    assert_eq!(check_editable(NodeKind::Player), Ok(()));
    assert_eq!(check_editable(NodeKind::Chance), Err(ErrorKind::State));
    assert_eq!(check_editable(NodeKind::Terminal), Err(ErrorKind::State));
}
