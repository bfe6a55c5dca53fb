//! The shared objects, the commands that touch them, and the single global
//! order in which a handler takes their locks.
use vstd::prelude::*;

verus! {

/// One of the independently locked shared objects.
#[derive(Debug, Clone, Copy, PartialEq, Eq, Structural)]
pub enum ObjectId {
    Range,
    Tree,
    Bunching,
    Game,
    Pool,
}

/// Position of an object in the global acquisition order:
/// range, then tree, then card-removal table, then game, then pool.
pub open spec fn rank(o: ObjectId) -> nat {
    match o {
        ObjectId::Range => 0,
        ObjectId::Tree => 1,
        ObjectId::Bunching => 2,
        ObjectId::Game => 3,
        ObjectId::Pool => 4,
    }
}

/// The objects of `s` appear in strictly increasing acquisition order, so
/// no object appears twice and two handlers never wait on each other in a
/// cycle.
pub open spec fn in_lock_order(s: Seq<ObjectId>) -> bool {
    forall|i: int, j: int| 0 <= i < j < s.len() ==> rank(#[trigger] s[i]) < rank(#[trigger] s[j])
}

impl ObjectId {
    /// Position of the object in the global acquisition order.
    pub fn rank(&self) -> (r: u8)
        ensures
            r as nat == rank(*self),
            r < 5,
    {
        match self {
            ObjectId::Range => 0,
            ObjectId::Tree => 1,
            ObjectId::Bunching => 2,
            ObjectId::Game => 3,
            ObjectId::Pool => 4,
        }
    }

    /// The object at position `k` of the acquisition order.
    pub fn at_rank(k: u8) -> (r: ObjectId)
        requires
            k < 5,
        ensures
            rank(r) == k as nat,
    {
        if k == 0 {
            ObjectId::Range
        } else if k == 1 {
            ObjectId::Tree
        } else if k == 2 {
            ObjectId::Bunching
        } else if k == 3 {
            ObjectId::Game
        } else {
            ObjectId::Pool
        }
    }
}

proof fn lemma_rank_injective(a: ObjectId, b: ObjectId)
    ensures
        rank(a) == rank(b) <==> a == b,
        rank(a) < 5,
{
}

/// Whether `o` occurs in `objs`.
pub fn contains_object(objs: &Vec<ObjectId>, o: ObjectId) -> (r: bool)
    ensures
        r == objs@.contains(o),
{
    let mut i: usize = 0;
    while i < objs.len()
        invariant
            i <= objs@.len(),
            forall|j: int| 0 <= j < i ==> objs@[j] != o,
        decreases objs@.len() - i,
    {
        if objs[i] == o {
            return true;
        }
        i = i + 1;
    }
    false
}

/// The objects of `needs`, each once, in the global acquisition order: the
/// order in which a handler that needs them all must lock them.
pub fn lock_plan(needs: &Vec<ObjectId>) -> (r: Vec<ObjectId>)
    ensures
        in_lock_order(r@),
        forall|o: ObjectId| r@.contains(o) <==> needs@.contains(o),
{
    let mut r: Vec<ObjectId> = Vec::new();
    let mut k: u8 = 0;
    while k < 5
        invariant
            k <= 5,
            in_lock_order(r@),
            forall|i: int| 0 <= i < r@.len() ==> rank(#[trigger] r@[i]) < k,
            forall|o: ObjectId| r@.contains(o) <==> (needs@.contains(o) && rank(o) < k),
        decreases 5 - k,
    {
        let o = ObjectId::at_rank(k);
        if contains_object(needs, o) {
            let ghost before = r@;
            r.push(o);
            assert forall|x: ObjectId| r@.contains(x) <==> (needs@.contains(x) && rank(x) < k + 1) by {
                lemma_rank_injective(x, o);
                if x == o {
                    assert(r@[r@.len() - 1] == x);
                } else if r@.contains(x) {
                    let j = choose|j: int| 0 <= j < r@.len() && r@[j] == x;
                    assert(before[j] == x);
                } else if needs@.contains(x) && rank(x) < k + 1 && rank(x) < k {
                    assert(before.contains(x));
                    let j = choose|j: int| 0 <= j < before.len() && before[j] == x;
                    assert(r@[j] == x);
                }
            }
        } else {
            assert forall|x: ObjectId| r@.contains(x) <==> (needs@.contains(x) && rank(x) < k + 1) by {
                lemma_rank_injective(x, o);
            }
        }
        k = k + 1;
    }
    assert forall|o: ObjectId| r@.contains(o) <==> needs@.contains(o) by {
        lemma_rank_injective(o, o);
    }
    r
}

/// A named command of the handler set, as reachable from either transport.
#[derive(Debug, Clone, Copy, PartialEq, Eq, Structural)]
pub enum Command {
    OsName,
    Memory,
    SetNumThreads,
    RangeNumCombos,
    RangeClear,
    RangeInvert,
    RangeUpdate,
    RangeFromString,
    RangeToString,
    RangeGetWeights,
    RangeRawData,
    TreeNew,
    TreeAddedLines,
    TreeRemovedLines,
    TreeInvalidTerminals,
    TreeActions,
    TreeIsTerminalNode,
    TreeIsChanceNode,
    TreeBackToRoot,
    TreeApplyHistory,
    TreePlay,
    TreeTotalBetAmount,
    TreeAddBetAction,
    TreeRemoveCurrentNode,
    TreeDeleteAddedLine,
    TreeDeleteRemovedLine,
    BunchingInit,
    BunchingClear,
    BunchingProgress,
    GameInit,
    GamePrivateCards,
    GameMemoryUsage,
    GameMemoryUsageBunching,
    GameAllocateMemory,
    GameSetBunching,
    GameSolveStep,
    GameExploitability,
    GameFinalize,
    GameApplyHistory,
    GameTotalBetAmount,
    GameActionsAfter,
    GamePossibleCards,
    GameGetResults,
    GameGetChanceReports,
}

/// The objects a command is declared to need, in the order in which a
/// handler for it must lock them.
pub open spec fn footprint_of(c: Command) -> Seq<ObjectId> {
    match c {
        Command::OsName => seq![],
        Command::Memory => seq![],
        Command::SetNumThreads => seq![ObjectId::Pool],
        Command::RangeNumCombos => seq![ObjectId::Range],
        Command::RangeClear => seq![ObjectId::Range],
        Command::RangeInvert => seq![ObjectId::Range],
        Command::RangeUpdate => seq![ObjectId::Range],
        Command::RangeFromString => seq![ObjectId::Range],
        Command::RangeToString => seq![ObjectId::Range],
        Command::RangeGetWeights => seq![ObjectId::Range],
        Command::RangeRawData => seq![ObjectId::Range],
        Command::TreeNew => seq![ObjectId::Tree],
        Command::TreeAddedLines => seq![ObjectId::Tree],
        Command::TreeRemovedLines => seq![ObjectId::Tree],
        Command::TreeInvalidTerminals => seq![ObjectId::Tree],
        Command::TreeActions => seq![ObjectId::Tree],
        Command::TreeIsTerminalNode => seq![ObjectId::Tree],
        Command::TreeIsChanceNode => seq![ObjectId::Tree],
        Command::TreeBackToRoot => seq![ObjectId::Tree],
        Command::TreeApplyHistory => seq![ObjectId::Tree],
        Command::TreePlay => seq![ObjectId::Tree],
        Command::TreeTotalBetAmount => seq![ObjectId::Tree],
        Command::TreeAddBetAction => seq![ObjectId::Tree],
        Command::TreeRemoveCurrentNode => seq![ObjectId::Tree],
        Command::TreeDeleteAddedLine => seq![ObjectId::Tree],
        Command::TreeDeleteRemovedLine => seq![ObjectId::Tree],
        Command::BunchingInit => seq![ObjectId::Bunching],
        Command::BunchingClear => seq![ObjectId::Bunching],
        Command::BunchingProgress => seq![ObjectId::Bunching],
        Command::GameInit => seq![ObjectId::Range, ObjectId::Tree, ObjectId::Game],
        Command::GamePrivateCards => seq![ObjectId::Game],
        Command::GameMemoryUsage => seq![ObjectId::Game],
        Command::GameMemoryUsageBunching => seq![ObjectId::Game],
        Command::GameAllocateMemory => seq![ObjectId::Game],
        Command::GameSetBunching => seq![ObjectId::Bunching, ObjectId::Game],
        Command::GameSolveStep => seq![ObjectId::Game, ObjectId::Pool],
        Command::GameExploitability => seq![ObjectId::Game, ObjectId::Pool],
        Command::GameFinalize => seq![ObjectId::Game, ObjectId::Pool],
        Command::GameApplyHistory => seq![ObjectId::Game],
        Command::GameTotalBetAmount => seq![ObjectId::Game],
        Command::GameActionsAfter => seq![ObjectId::Game],
        Command::GamePossibleCards => seq![ObjectId::Game],
        Command::GameGetResults => seq![ObjectId::Game],
        Command::GameGetChanceReports => seq![ObjectId::Game],
    }
}

/// The name under which a command is invoked.
pub open spec fn command_name_of(c: Command) -> Seq<char> {
    match c {
        Command::OsName => "os_name"@,
        Command::Memory => "memory"@,
        Command::SetNumThreads => "set_num_threads"@,
        Command::RangeNumCombos => "range_num_combos"@,
        Command::RangeClear => "range_clear"@,
        Command::RangeInvert => "range_invert"@,
        Command::RangeUpdate => "range_update"@,
        Command::RangeFromString => "range_from_string"@,
        Command::RangeToString => "range_to_string"@,
        Command::RangeGetWeights => "range_get_weights"@,
        Command::RangeRawData => "range_raw_data"@,
        Command::TreeNew => "tree_new"@,
        Command::TreeAddedLines => "tree_added_lines"@,
        Command::TreeRemovedLines => "tree_removed_lines"@,
        Command::TreeInvalidTerminals => "tree_invalid_terminals"@,
        Command::TreeActions => "tree_actions"@,
        Command::TreeIsTerminalNode => "tree_is_terminal_node"@,
        Command::TreeIsChanceNode => "tree_is_chance_node"@,
        Command::TreeBackToRoot => "tree_back_to_root"@,
        Command::TreeApplyHistory => "tree_apply_history"@,
        Command::TreePlay => "tree_play"@,
        Command::TreeTotalBetAmount => "tree_total_bet_amount"@,
        Command::TreeAddBetAction => "tree_add_bet_action"@,
        Command::TreeRemoveCurrentNode => "tree_remove_current_node"@,
        Command::TreeDeleteAddedLine => "tree_delete_added_line"@,
        Command::TreeDeleteRemovedLine => "tree_delete_removed_line"@,
        Command::BunchingInit => "bunching_init"@,
        Command::BunchingClear => "bunching_clear"@,
        Command::BunchingProgress => "bunching_progress"@,
        Command::GameInit => "game_init"@,
        Command::GamePrivateCards => "game_private_cards"@,
        Command::GameMemoryUsage => "game_memory_usage"@,
        Command::GameMemoryUsageBunching => "game_memory_usage_bunching"@,
        Command::GameAllocateMemory => "game_allocate_memory"@,
        Command::GameSetBunching => "game_set_bunching"@,
        Command::GameSolveStep => "game_solve_step"@,
        Command::GameExploitability => "game_exploitability"@,
        Command::GameFinalize => "game_finalize"@,
        Command::GameApplyHistory => "game_apply_history"@,
        Command::GameTotalBetAmount => "game_total_bet_amount"@,
        Command::GameActionsAfter => "game_actions_after"@,
        Command::GamePossibleCards => "game_possible_cards"@,
        Command::GameGetResults => "game_get_results"@,
        Command::GameGetChanceReports => "game_get_chance_reports"@,
    }
}

impl Command {
    /// The objects this command is declared to need, in acquisition order.
    pub fn footprint(&self) -> (r: Vec<ObjectId>)
        ensures
            r@ == footprint_of(*self),
            in_lock_order(r@),
    {
        let r = match self {
            Command::OsName => vec![],
            Command::Memory => vec![],
            Command::SetNumThreads => vec![ObjectId::Pool],
            Command::RangeNumCombos => vec![ObjectId::Range],
            Command::RangeClear => vec![ObjectId::Range],
            Command::RangeInvert => vec![ObjectId::Range],
            Command::RangeUpdate => vec![ObjectId::Range],
            Command::RangeFromString => vec![ObjectId::Range],
            Command::RangeToString => vec![ObjectId::Range],
            Command::RangeGetWeights => vec![ObjectId::Range],
            Command::RangeRawData => vec![ObjectId::Range],
            Command::TreeNew => vec![ObjectId::Tree],
            Command::TreeAddedLines => vec![ObjectId::Tree],
            Command::TreeRemovedLines => vec![ObjectId::Tree],
            Command::TreeInvalidTerminals => vec![ObjectId::Tree],
            Command::TreeActions => vec![ObjectId::Tree],
            Command::TreeIsTerminalNode => vec![ObjectId::Tree],
            Command::TreeIsChanceNode => vec![ObjectId::Tree],
            Command::TreeBackToRoot => vec![ObjectId::Tree],
            Command::TreeApplyHistory => vec![ObjectId::Tree],
            Command::TreePlay => vec![ObjectId::Tree],
            Command::TreeTotalBetAmount => vec![ObjectId::Tree],
            Command::TreeAddBetAction => vec![ObjectId::Tree],
            Command::TreeRemoveCurrentNode => vec![ObjectId::Tree],
            Command::TreeDeleteAddedLine => vec![ObjectId::Tree],
            Command::TreeDeleteRemovedLine => vec![ObjectId::Tree],
            Command::BunchingInit => vec![ObjectId::Bunching],
            Command::BunchingClear => vec![ObjectId::Bunching],
            Command::BunchingProgress => vec![ObjectId::Bunching],
            Command::GameInit => vec![ObjectId::Range, ObjectId::Tree, ObjectId::Game],
            Command::GamePrivateCards => vec![ObjectId::Game],
            Command::GameMemoryUsage => vec![ObjectId::Game],
            Command::GameMemoryUsageBunching => vec![ObjectId::Game],
            Command::GameAllocateMemory => vec![ObjectId::Game],
            Command::GameSetBunching => vec![ObjectId::Bunching, ObjectId::Game],
            Command::GameSolveStep => vec![ObjectId::Game, ObjectId::Pool],
            Command::GameExploitability => vec![ObjectId::Game, ObjectId::Pool],
            Command::GameFinalize => vec![ObjectId::Game, ObjectId::Pool],
            Command::GameApplyHistory => vec![ObjectId::Game],
            Command::GameTotalBetAmount => vec![ObjectId::Game],
            Command::GameActionsAfter => vec![ObjectId::Game],
            Command::GamePossibleCards => vec![ObjectId::Game],
            Command::GameGetResults => vec![ObjectId::Game],
            Command::GameGetChanceReports => vec![ObjectId::Game],
        };
        r
    }

    /// The name under which this command is invoked.
    pub fn name(&self) -> (r: &'static str)
        ensures
            r@ == command_name_of(*self),
    {
        match self {
            Command::OsName => "os_name",
            Command::Memory => "memory",
            Command::SetNumThreads => "set_num_threads",
            Command::RangeNumCombos => "range_num_combos",
            Command::RangeClear => "range_clear",
            Command::RangeInvert => "range_invert",
            Command::RangeUpdate => "range_update",
            Command::RangeFromString => "range_from_string",
            Command::RangeToString => "range_to_string",
            Command::RangeGetWeights => "range_get_weights",
            Command::RangeRawData => "range_raw_data",
            Command::TreeNew => "tree_new",
            Command::TreeAddedLines => "tree_added_lines",
            Command::TreeRemovedLines => "tree_removed_lines",
            Command::TreeInvalidTerminals => "tree_invalid_terminals",
            Command::TreeActions => "tree_actions",
            Command::TreeIsTerminalNode => "tree_is_terminal_node",
            Command::TreeIsChanceNode => "tree_is_chance_node",
            Command::TreeBackToRoot => "tree_back_to_root",
            Command::TreeApplyHistory => "tree_apply_history",
            Command::TreePlay => "tree_play",
            Command::TreeTotalBetAmount => "tree_total_bet_amount",
            Command::TreeAddBetAction => "tree_add_bet_action",
            Command::TreeRemoveCurrentNode => "tree_remove_current_node",
            Command::TreeDeleteAddedLine => "tree_delete_added_line",
            Command::TreeDeleteRemovedLine => "tree_delete_removed_line",
            Command::BunchingInit => "bunching_init",
            Command::BunchingClear => "bunching_clear",
            Command::BunchingProgress => "bunching_progress",
            Command::GameInit => "game_init",
            Command::GamePrivateCards => "game_private_cards",
            Command::GameMemoryUsage => "game_memory_usage",
            Command::GameMemoryUsageBunching => "game_memory_usage_bunching",
            Command::GameAllocateMemory => "game_allocate_memory",
            Command::GameSetBunching => "game_set_bunching",
            Command::GameSolveStep => "game_solve_step",
            Command::GameExploitability => "game_exploitability",
            Command::GameFinalize => "game_finalize",
            Command::GameApplyHistory => "game_apply_history",
            Command::GameTotalBetAmount => "game_total_bet_amount",
            Command::GameActionsAfter => "game_actions_after",
            Command::GamePossibleCards => "game_possible_cards",
            Command::GameGetResults => "game_get_results",
            Command::GameGetChanceReports => "game_get_chance_reports",
        }
    }
}

/// Every command's footprint respects the global acquisition order, so no
/// two handlers can deadlock on the shared objects.
pub proof fn lemma_footprints_in_lock_order(c: Command)
    ensures
        in_lock_order(footprint_of(c)),
{
}

/// Two commands whose declared footprints share no object.
pub open spec fn independent(a: Command, b: Command) -> bool {
    forall|o: ObjectId| !(footprint_of(a).contains(o) && footprint_of(b).contains(o))
}

/// The declared footprints of a range update and of adding a bet action to
/// the tree share no object: handlers that lock only their footprint never
/// wait on each other.
pub proof fn lemma_range_update_independent_of_tree_edit()
    ensures
        independent(Command::RangeUpdate, Command::TreeAddBetAction),
{
    assert forall|o: ObjectId| !(footprint_of(Command::RangeUpdate).contains(o)
        && footprint_of(Command::TreeAddBetAction).contains(o)) by {
        if footprint_of(Command::RangeUpdate).contains(o) {
            let j = choose|j: int| 0 <= j < footprint_of(Command::RangeUpdate).len()
                && footprint_of(Command::RangeUpdate)[j] == o;
            assert(o == ObjectId::Range);
        }
    }
}

} // verus!

verus! {

/// The declared footprints of a pool reconfiguration and of a solve step
/// both hold the pool: handlers that lock their footprint serialize the two,
/// so a reconfiguration requested during a step waits for the step.
pub proof fn lemma_reconfigure_waits_for_step()
    ensures
        footprint_of(Command::SetNumThreads).contains(ObjectId::Pool),
        footprint_of(Command::GameSolveStep).contains(ObjectId::Pool),
{
    assert(footprint_of(Command::SetNumThreads)[0] == ObjectId::Pool);
    assert(footprint_of(Command::GameSolveStep)[1] == ObjectId::Pool);
}

} // verus!
