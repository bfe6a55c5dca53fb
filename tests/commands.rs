use postflop_desk::error::ErrorKind;
use postflop_desk::pool::WorkerPool;
use postflop_desk::range::{check_update, NUM_COMBOS};
use postflop_desk::registry::{contains_object, lock_plan, Command, ObjectId};
use postflop_desk::decimal::parse_decimal;
use postflop_desk::game::{GameLifecycle, GamePhase};
use postflop_desk::route::{ack_message, decode_route, handle_route, DriverSettings, RouteAction, RouteName};

#[test]
fn status_codes_distinct() {
    let kinds = [
        ErrorKind::Validation,
        ErrorKind::Parse,
        ErrorKind::State,
        ErrorKind::Resource,
        ErrorKind::Busy,
    ];
    for (i, a) in kinds.iter().enumerate() {
        for b in kinds.iter().skip(i + 1) {
            assert_ne!(a.status_code(), b.status_code());
        }
    }
    assert_eq!(ErrorKind::Parse.status_code(), 400);
    assert_eq!(ErrorKind::State.status_code(), 409);
    assert_eq!(ErrorKind::Busy.name(), "busy");
}

#[test]
fn lock_plan_orders_and_dedups() {
    let needs = vec![ObjectId::Pool, ObjectId::Range, ObjectId::Game, ObjectId::Range];
    assert_eq!(lock_plan(&needs), vec![ObjectId::Range, ObjectId::Game, ObjectId::Pool]);
    assert_eq!(lock_plan(&vec![]), Vec::<ObjectId>::new());
    assert!(contains_object(&needs, ObjectId::Game));
    assert!(!contains_object(&needs, ObjectId::Tree));
}

#[test]
fn range_update_and_tree_edit_are_independent() {
    let a = Command::RangeUpdate.footprint();
    let b = Command::TreeAddBetAction.footprint();
    for o in a.iter() {
        assert!(!b.contains(o));
    }
    assert_eq!(a, vec![ObjectId::Range]);
    assert_eq!(b, vec![ObjectId::Tree]);
}

#[test]
fn footprints_follow_lock_order() {
    let f = Command::GameInit.footprint();
    assert_eq!(f, vec![ObjectId::Range, ObjectId::Tree, ObjectId::Game]);
    assert_eq!(lock_plan(&f), f);
    assert_eq!(Command::GameSolveStep.footprint(), vec![ObjectId::Game, ObjectId::Pool]);
    assert_eq!(Command::OsName.footprint(), Vec::<ObjectId>::new());
    assert_eq!(Command::TreeAddBetAction.name(), "tree_add_bet_action");
    assert_eq!(Command::GameMemoryUsageBunching.name(), "game_memory_usage_bunching");
}

#[test]
fn reconfigure_shares_lock_with_step() {
    let a = Command::SetNumThreads.footprint();
    let b = Command::GameSolveStep.footprint();
    assert!(a.contains(&ObjectId::Pool) && b.contains(&ObjectId::Pool));
}

#[test]
fn range_update_checks() {
    assert_eq!(check_update(0, &vec![0, 5, NUM_COMBOS - 1]), Ok(()));
    assert_eq!(check_update(1, &vec![]), Ok(()));
    assert_eq!(check_update(2, &vec![0]), Err(ErrorKind::Validation));
    assert_eq!(check_update(0, &vec![3, NUM_COMBOS]), Err(ErrorKind::Validation));
}

#[test]
fn route_names_and_ack() {
    assert_eq!(ack_message("run_solver", ""), "run_solver ");
    assert_eq!(ack_message("set_board", "AsKdQh"), "set_board AsKdQh");
    let names: Vec<&str> = RouteName::all().iter().map(|r| r.name()).collect();
    assert_eq!(
        names,
        vec!["set_board", "set_starting_pot", "set_effective_stack", "set_num_threads", "build_tree", "run_solver"]
    );
}

#[test]
fn decimal_parameters() {
    assert_eq!(parse_decimal("0"), Ok(0));
    assert_eq!(parse_decimal("1000"), Ok(1000));
    assert_eq!(parse_decimal("18446744073709551615"), Ok(u64::MAX));
    assert_eq!(parse_decimal("18446744073709551616"), Err(ErrorKind::Validation));
    assert_eq!(parse_decimal("184467440737095516160x"), Err(ErrorKind::Parse));
    assert_eq!(parse_decimal(""), Err(ErrorKind::Parse));
    assert_eq!(parse_decimal("-1"), Err(ErrorKind::Parse));
    assert_eq!(parse_decimal("12a"), Err(ErrorKind::Parse));
    assert_eq!(decode_route(RouteName::SetStartingPot, "2147483648"), Err(ErrorKind::Validation));
    assert_eq!(decode_route(RouteName::SetStartingPot, "100"), Ok(RouteAction::SetStartingPot(100)));
    assert_eq!(decode_route(RouteName::SetNumThreads, "4"), Ok(RouteAction::SetNumThreads(4)));
    assert_eq!(decode_route(RouteName::RunSolver, "anything"), Ok(RouteAction::RunSolver));
}

fn fresh() -> (DriverSettings, GameLifecycle, WorkerPool) {
    (DriverSettings::new(), GameLifecycle::new(), WorkerPool::new(2).unwrap())
}

#[test]
fn run_solver_route_before_allocation_is_state_error() {
    let (mut s, mut g, mut p) = fresh();
    let r = handle_route(RouteName::RunSolver, "go", &mut s, &mut g, &mut p);
    assert_eq!(r.status, 409);
    assert_eq!(r.reply, "run_solver state");
    assert_eq!(r.event, "run_solver");
    assert_eq!(r.payload, "state");
    assert_eq!(g, GameLifecycle::new());
    assert_eq!(g.allocated_bytes, 0);
    assert_eq!(g.iterations, 0);
}

#[test]
fn route_drives_tree_and_solver() {
    let (mut s, mut g, mut p) = fresh();
    let r = handle_route(RouteName::SetBoard, "Td9d6h", &mut s, &mut g, &mut p);
    assert_eq!((r.status, r.reply.as_str()), (200, "set_board Td9d6h"));
    assert_eq!((r.event.as_str(), r.payload.as_str()), ("set_board", "Td9d6h"));
    assert_eq!(s.board, "Td9d6h");
    let r = handle_route(RouteName::BuildTree, "", &mut s, &mut g, &mut p);
    assert_eq!((r.status, r.reply.as_str()), (422, "build_tree validation"));
    assert_eq!(r.payload, "validation");
    assert_eq!(g.phase, GamePhase::Empty);
    assert_eq!(handle_route(RouteName::SetStartingPot, "100", &mut s, &mut g, &mut p).status, 200);
    assert_eq!(handle_route(RouteName::SetEffectiveStack, "1000", &mut s, &mut g, &mut p).status, 200);
    assert_eq!((s.starting_pot, s.effective_stack), (100, 1000));
    let r = handle_route(RouteName::SetEffectiveStack, "lots", &mut s, &mut g, &mut p);
    assert_eq!((r.status, r.reply.as_str()), (400, "set_effective_stack parse"));
    assert_eq!(s.effective_stack, 1000);
    assert_eq!(handle_route(RouteName::BuildTree, "", &mut s, &mut g, &mut p).status, 200);
    assert_eq!(g.phase, GamePhase::Initialized);
    assert_eq!(handle_route(RouteName::RunSolver, "", &mut s, &mut g, &mut p).status, 409);
    g.allocate_memory(1 << 20, 1 << 30).unwrap();
    for expected in 1..=3u64 {
        let r = handle_route(RouteName::RunSolver, "", &mut s, &mut g, &mut p);
        assert_eq!((r.status, r.reply.as_str()), (200, "run_solver "));
        assert_eq!(g.iterations, expected);
    }
}

#[test]
fn set_num_threads_route_reconfigures_pool() {
    let (mut s, mut g, mut p) = fresh();
    let r = handle_route(RouteName::SetNumThreads, "3", &mut s, &mut g, &mut p);
    assert_eq!((r.status, r.reply.as_str()), (200, "set_num_threads 3"));
    assert_eq!(p.requested(), 3);
    assert_eq!(p.thread_count(), 3);
    let r = handle_route(RouteName::SetNumThreads, "3", &mut s, &mut g, &mut p);
    assert_eq!(r.status, 200);
    assert_eq!(p.thread_count(), 3);
    let r = handle_route(RouteName::SetNumThreads, "three", &mut s, &mut g, &mut p);
    assert_eq!((r.status, r.reply.as_str()), (400, "set_num_threads parse"));
    assert_eq!(p.thread_count(), 3);
    let r = handle_route(RouteName::SetNumThreads, "99999999999999999999", &mut s, &mut g, &mut p);
    assert_eq!(r.status, 422);
    assert_eq!(p.thread_count(), 3);
    assert_eq!(handle_route(RouteName::SetNumThreads, "5", &mut s, &mut g, &mut p).status, 200);
    assert_eq!(p.thread_count(), 5);
}

#[test]
fn pool_builds_and_reconfigures() {
    let mut p = WorkerPool::new(2).unwrap();
    assert_eq!(p.requested(), 2);
    assert_eq!(p.thread_count(), 2);
    assert_eq!(p.reconfigure(3), Ok(()));
    assert_eq!(p.requested(), 3);
    assert_eq!(p.thread_count(), 3);
    assert_eq!(p.pool().install(|| 6 * 7), 42);
    assert_eq!(p.reconfigure(0), Ok(()));
    assert!(p.thread_count() >= 1);
}
