//! The local network routes and the notification each one forwards to the
//! user interface.
use vstd::prelude::*;
use crate::decimal::{parse_decimal, parse_spec};
use crate::error::{name_of, status_code_of, ErrorKind};
use crate::game::{initialized_state, step_spec, GameLifecycle, GamePhase};
use crate::pool::{threads_of, WorkerPool, EXACT_THREADS_MAX};
use crate::tree::{check_tree_config, valid_tree_config};

verus! {

/// A route of the loopback network endpoint; each carries one path
/// parameter and is forwarded to the user interface as an event of the same
/// name.
#[derive(Debug, Clone, Copy, PartialEq, Eq, Structural)]
pub enum RouteName {
    SetBoard,
    SetStartingPot,
    SetEffectiveStack,
    SetNumThreads,
    BuildTree,
    RunSolver,
}

/// Path segment of a route, which is also the name of its event.
pub open spec fn route_name_of(r: RouteName) -> Seq<char> {
    match r {
        RouteName::SetBoard => "set_board"@,
        RouteName::SetStartingPot => "set_starting_pot"@,
        RouteName::SetEffectiveStack => "set_effective_stack"@,
        RouteName::SetNumThreads => "set_num_threads"@,
        RouteName::BuildTree => "build_tree"@,
        RouteName::RunSolver => "run_solver"@,
    }
}

/// Plain-text acknowledgement of a request: the event name, one space, the
/// parameter.
pub open spec fn ack_of(event: Seq<char>, message: Seq<char>) -> Seq<char> {
    event + seq![' '] + message
}

impl RouteName {
    /// All routes, in the order in which the endpoint tries them.
    pub fn all() -> (r: Vec<RouteName>)
        ensures
            r@ == seq![
                RouteName::SetBoard,
                RouteName::SetStartingPot,
                RouteName::SetEffectiveStack,
                RouteName::SetNumThreads,
                RouteName::BuildTree,
                RouteName::RunSolver,
            ],
    {
        vec![
            RouteName::SetBoard,
            RouteName::SetStartingPot,
            RouteName::SetEffectiveStack,
            RouteName::SetNumThreads,
            RouteName::BuildTree,
            RouteName::RunSolver,
        ]
    }

    /// Path segment and event name of the route.
    pub fn name(&self) -> (r: &'static str)
        ensures
            r@ == route_name_of(*self),
    {
        match self {
            RouteName::SetBoard => "set_board",
            RouteName::SetStartingPot => "set_starting_pot",
            RouteName::SetEffectiveStack => "set_effective_stack",
            RouteName::SetNumThreads => "set_num_threads",
            RouteName::BuildTree => "build_tree",
            RouteName::RunSolver => "run_solver",
        }
    }
}

/// Acknowledgement text for `message` received on the route named `event`.
pub fn ack_message(event: &str, message: &str) -> (r: String)
    ensures
        r@ == ack_of(event@, message@),
{
    let head = String::from_str(event);
    let head = head.concat(" ");
    proof {
        reveal_strlit(" ");
    }
    head.concat(message)
}

/// Request a route stands for, once its parameter has been read.
#[derive(Debug, Clone, Copy, PartialEq, Eq, Structural)]
pub enum RouteAction {
    SetBoard,
    SetStartingPot(i32),
    SetEffectiveStack(i32),
    SetNumThreads(usize),
    BuildTree,
    RunSolver,
}

/// Reading a numeric parameter that must fit in `max`.
pub open spec fn bounded_spec(m: Seq<char>, max: u64) -> Result<u64, ErrorKind> {
    match parse_spec(m) {
        Ok(v) => if v <= max { Ok(v) } else { Err(ErrorKind::Validation) },
        Err(k) => Err(k),
    }
}

/// The request that `message` on `route` stands for: the pot and stack
/// routes take a decimal `i32`, the thread-count route a decimal `usize`;
/// the other routes take their parameter as it is.
pub open spec fn decode_spec(route: RouteName, m: Seq<char>) -> Result<RouteAction, ErrorKind> {
    match route {
        RouteName::SetBoard => Ok(RouteAction::SetBoard),
        RouteName::SetStartingPot => match bounded_spec(m, i32::MAX as u64) {
            Ok(v) => Ok(RouteAction::SetStartingPot(v as i32)),
            Err(k) => Err(k),
        },
        RouteName::SetEffectiveStack => match bounded_spec(m, i32::MAX as u64) {
            Ok(v) => Ok(RouteAction::SetEffectiveStack(v as i32)),
            Err(k) => Err(k),
        },
        RouteName::SetNumThreads => match bounded_spec(m, usize::MAX as u64) {
            Ok(v) => Ok(RouteAction::SetNumThreads(v as usize)),
            Err(k) => Err(k),
        },
        RouteName::BuildTree => Ok(RouteAction::BuildTree),
        RouteName::RunSolver => Ok(RouteAction::RunSolver),
    }
}

/// Reads the parameter of a request on `route`.
pub fn decode_route(route: RouteName, message: &str) -> (r: Result<RouteAction, ErrorKind>)
    ensures
        r == decode_spec(route, message@),
{
    match route {
        RouteName::SetBoard => Ok(RouteAction::SetBoard),
        RouteName::SetStartingPot => match parse_decimal(message) {
            Ok(v) => if v <= i32::MAX as u64 { Ok(RouteAction::SetStartingPot(v as i32)) } else { Err(ErrorKind::Validation) },
            Err(k) => Err(k),
        },
        RouteName::SetEffectiveStack => match parse_decimal(message) {
            Ok(v) => if v <= i32::MAX as u64 { Ok(RouteAction::SetEffectiveStack(v as i32)) } else { Err(ErrorKind::Validation) },
            Err(k) => Err(k),
        },
        RouteName::SetNumThreads => match parse_decimal(message) {
            Ok(v) => if v <= usize::MAX as u64 { Ok(RouteAction::SetNumThreads(v as usize)) } else { Err(ErrorKind::Validation) },
            Err(k) => Err(k),
        },
        RouteName::BuildTree => Ok(RouteAction::BuildTree),
        RouteName::RunSolver => Ok(RouteAction::RunSolver),
    }
}

/// Settings the network driver gathers before a tree is built.
pub struct DriverSettings {
    pub board: String,
    pub starting_pot: i32,
    pub effective_stack: i32,
}

impl DriverSettings {
    /// No board, no pot, no stack.
    pub fn new() -> (r: DriverSettings)
        ensures
            r.board@.len() == 0,
            r.starting_pot == 0,
            r.effective_stack == 0,
    {
        DriverSettings { board: String::new(), starting_pot: 0, effective_stack: 0 }
    }
}

/// The result of a solve step without its iteration count.
pub open spec fn unit_of(r: Result<u64, ErrorKind>) -> Result<(), ErrorKind> {
    match r {
        Ok(_) => Ok(()),
        Err(k) => Err(k),
    }
}

/// HTTP status of a handler result: 200 on success, the error's own code
/// otherwise.
pub open spec fn status_of(r: Result<(), ErrorKind>) -> u16 {
    match r {
        Ok(()) => 200,
        Err(k) => status_code_of(k),
    }
}

/// Runs a decoded request on the objects it concerns. A new tree needs a
/// positive pot and a stack that covers it, and re-initializes the game; a
/// solve step and a pool reconfiguration are those of the game and pool.
pub fn dispatch(
    action: RouteAction,
    message: &str,
    settings: &mut DriverSettings,
    game: &mut GameLifecycle,
    pool: &mut WorkerPool,
) -> (r: Result<(), ErrorKind>)
    requires
        old(game).wf(),
        old(pool).wf(),
    ensures
        final(game).wf(),
        final(pool).wf(),
        action != RouteAction::SetBoard ==> final(settings).board@ == old(settings).board@,
        !(action is SetStartingPot) ==> final(settings).starting_pot == old(settings).starting_pot,
        !(action is SetEffectiveStack) ==> final(settings).effective_stack == old(settings).effective_stack,
        !(action is SetNumThreads) ==> *final(pool) == *old(pool),
        action != RouteAction::BuildTree && action != RouteAction::RunSolver ==> *final(game) == *old(game),
        match action {
            RouteAction::SetBoard => r is Ok && final(settings).board@ == message@,
            RouteAction::SetStartingPot(v) => r is Ok && final(settings).starting_pot == v,
            RouteAction::SetEffectiveStack(v) => r is Ok && final(settings).effective_stack == v,
            RouteAction::SetNumThreads(n) => {
                &&& r is Ok ==> final(pool).spec_requested() == n
                &&& r is Ok ==> threads_of(final(pool).spec_pool()) >= 1
                &&& r is Ok ==> (0 < n <= EXACT_THREADS_MAX ==> threads_of(final(pool).spec_pool()) == n)
                &&& r is Err ==> r == Err::<(), ErrorKind>(ErrorKind::Resource) && *final(pool) == *old(pool)
            },
            RouteAction::BuildTree => if valid_tree_config(old(settings).starting_pot, old(settings).effective_stack) {
                r is Ok && *final(game) == initialized_state()
            } else {
                r == Err::<(), ErrorKind>(ErrorKind::Validation) && *final(game) == *old(game)
            },
            RouteAction::RunSolver => *final(game) == step_spec(*old(game)).0 && r == unit_of(step_spec(*old(game)).1),
        },
{
    match action {
        RouteAction::SetBoard => {
            settings.board = String::from_str(message);
            Ok(())
        },
        RouteAction::SetStartingPot(v) => {
            settings.starting_pot = v;
            Ok(())
        },
        RouteAction::SetEffectiveStack(v) => {
            settings.effective_stack = v;
            Ok(())
        },
        RouteAction::SetNumThreads(n) => pool.reconfigure(n),
        RouteAction::BuildTree => {
            match check_tree_config(settings.starting_pot, settings.effective_stack) {
                Ok(()) => {
                    game.init();
                    Ok(())
                },
                Err(k) => Err(k),
            }
        },
        RouteAction::RunSolver => match game.solve_step() {
            Ok(_) => Ok(()),
            Err(k) => Err(k),
        },
    }
}

/// What the endpoint does for one request: the status and text it answers
/// with, and the event it forwards to the user interface.
pub struct RouteOutcome {
    pub status: u16,
    pub event: String,
    pub payload: String,
    pub reply: String,
}

/// Whether `r` is the answer to a request on `route` with parameter `m`
/// whose handler returned `result`: on success status 200, the
/// acknowledgement as reply and the parameter, unchanged, as event payload;
/// on failure the error's status code, the route and error names as reply
/// and the error name as payload.
pub open spec fn outcome_fits(r: RouteOutcome, route: RouteName, m: Seq<char>, result: Result<(), ErrorKind>) -> bool {
    &&& r.status == status_of(result)
    &&& r.event@ == route_name_of(route)
    &&& match result {
        Ok(()) => r.reply@ == ack_of(route_name_of(route), m) && r.payload@ == m,
        Err(k) => r.reply@ == ack_of(route_name_of(route), name_of(k)) && r.payload@ == name_of(k),
    }
}

/// Answer to a request on `route` with parameter `message` whose handler
/// returned `result`.
pub fn route_outcome(route: RouteName, message: &str, result: Result<(), ErrorKind>) -> (r: RouteOutcome)
    ensures
        outcome_fits(r, route, message@, result),
{
    let name = route.name();
    match result {
        Ok(()) => RouteOutcome {
            status: 200,
            event: String::from_str(name),
            payload: String::from_str(message),
            reply: ack_message(name, message),
        },
        Err(k) => RouteOutcome {
            status: k.status_code(),
            event: String::from_str(name),
            payload: String::from_str(k.name()),
            reply: ack_message(name, k.name()),
        },
    }
}

/// Handles one request on `route`: reads its parameter, runs the request
/// on the settings, game and pool, and answers with the handler's result.
pub fn handle_route(
    route: RouteName,
    message: &str,
    settings: &mut DriverSettings,
    game: &mut GameLifecycle,
    pool: &mut WorkerPool,
) -> (r: RouteOutcome)
    requires
        old(game).wf(),
        old(pool).wf(),
    ensures
        final(game).wf(),
        final(pool).wf(),
        route != RouteName::SetBoard ==> final(settings).board@ == old(settings).board@,
        route != RouteName::SetStartingPot ==> final(settings).starting_pot == old(settings).starting_pot,
        route != RouteName::SetEffectiveStack ==> final(settings).effective_stack == old(settings).effective_stack,
        route != RouteName::SetNumThreads ==> *final(pool) == *old(pool),
        route != RouteName::BuildTree && route != RouteName::RunSolver ==> *final(game) == *old(game),
        decode_spec(route, message@) matches Err(k) ==> {
            &&& outcome_fits(r, route, message@, Err(k))
            &&& *final(game) == *old(game)
            &&& *final(pool) == *old(pool)
            &&& final(settings).board@ == old(settings).board@
            &&& final(settings).starting_pot == old(settings).starting_pot
            &&& final(settings).effective_stack == old(settings).effective_stack
        },
        route == RouteName::SetBoard ==> outcome_fits(r, route, message@, Ok(())) && final(settings).board@ == message@,
        decode_spec(route, message@) matches Ok(RouteAction::SetStartingPot(v)) ==> outcome_fits(r, route, message@, Ok(()))
            && final(settings).starting_pot == v,
        decode_spec(route, message@) matches Ok(RouteAction::SetEffectiveStack(v)) ==> outcome_fits(r, route, message@, Ok(()))
            && final(settings).effective_stack == v,
        decode_spec(route, message@) matches Ok(RouteAction::SetNumThreads(n)) ==> {
            ||| {
                &&& outcome_fits(r, route, message@, Ok(()))
                &&& final(pool).spec_requested() == n
                &&& threads_of(final(pool).spec_pool()) >= 1
                &&& (0 < n <= EXACT_THREADS_MAX ==> threads_of(final(pool).spec_pool()) == n)
            }
            ||| outcome_fits(r, route, message@, Err(ErrorKind::Resource)) && *final(pool) == *old(pool)
        },
        route == RouteName::BuildTree ==> if valid_tree_config(old(settings).starting_pot, old(settings).effective_stack) {
            outcome_fits(r, route, message@, Ok(())) && *final(game) == initialized_state()
        } else {
            outcome_fits(r, route, message@, Err(ErrorKind::Validation)) && *final(game) == *old(game)
        },
        route == RouteName::RunSolver ==> {
            &&& *final(game) == step_spec(*old(game)).0
            &&& outcome_fits(r, route, message@, unit_of(step_spec(*old(game)).1))
        },
{
    let result = match decode_route(route, message) {
        Ok(action) => dispatch(action, message, settings, game, pool),
        Err(k) => Err(k),
    };
    route_outcome(route, message, result)
}

} // verus!

verus! {

/// A solve step requested on the network route before memory is allocated
/// is answered with the state error's status and leaves the game as it was.
pub proof fn lemma_run_solver_route_before_allocation(g: GameLifecycle)
    requires
        g.wf(),
        g.phase == GamePhase::Empty || g.phase == GamePhase::Initialized,
    ensures
        step_spec(g).0 == g,
        status_of(unit_of(step_spec(g).1)) == status_code_of(ErrorKind::State),
{
}

} // verus!
