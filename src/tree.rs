//! Argument and cursor checks of the tree commands.
use vstd::prelude::*;
use crate::error::ErrorKind;

verus! {

/// Kind of the node the tree cursor stands on.
#[derive(Debug, Clone, Copy, PartialEq, Eq, Structural)]
pub enum NodeKind {
    /// A node where a player acts.
    Player,
    /// A node where a card is dealt.
    Chance,
    /// A node that ends the hand.
    Terminal,
}

/// Whether a tree can be built for a starting pot and effective stack: the
/// pot is positive and the stack covers it.
pub open spec fn valid_tree_config(starting_pot: i32, effective_stack: i32) -> bool {
    starting_pot > 0 && effective_stack >= starting_pot
}

/// Checks the pot and stack of a new tree; a validation error unless the
/// pot is positive and the stack is at least the pot.
pub fn check_tree_config(starting_pot: i32, effective_stack: i32) -> (r: Result<(), ErrorKind>)
    ensures
        r is Ok <==> valid_tree_config(starting_pot, effective_stack),
        r is Err ==> r == Err::<(), ErrorKind>(ErrorKind::Validation),
{
    if starting_pot > 0 && effective_stack >= starting_pot {
        Ok(())
    } else {
        Err(ErrorKind::Validation)
    }
}

/// Checks that the tree may be edited at the cursor: adding a bet action or
/// removing a node needs a player node, and is a state error elsewhere.
pub fn check_editable(kind: NodeKind) -> (r: Result<(), ErrorKind>)
    ensures
        r is Ok <==> kind == NodeKind::Player,
        r is Err ==> r == Err::<(), ErrorKind>(ErrorKind::State),
{
    match kind {
        NodeKind::Player => Ok(()),
        _ => Err(ErrorKind::State),
    }
}

} // verus!
