//! Argument checks of the range commands.
use vstd::prelude::*;
use crate::error::ErrorKind;

verus! {

/// Number of two-card holdings from a 52-card deck.
pub const NUM_COMBOS: usize = 1326;

/// Number of players, each with a range of their own.
pub const NUM_PLAYERS: usize = 2;

/// Whether an update of `player`'s range at the holdings `indices` is well
/// formed: the player exists and every index names a holding.
pub open spec fn valid_update(player: usize, indices: Seq<usize>) -> bool {
    &&& player < NUM_PLAYERS
    &&& forall|i: int| 0 <= i < indices.len() ==> #[trigger] indices[i] < NUM_COMBOS
}

/// Checks an update of `player`'s range at `indices`; a validation error
/// when the player or one of the indices is out of range.
pub fn check_update(player: usize, indices: &Vec<usize>) -> (r: Result<(), ErrorKind>)
    ensures
        r is Ok <==> valid_update(player, indices@),
        r is Err ==> r == Err::<(), ErrorKind>(ErrorKind::Validation),
{
    if player >= NUM_PLAYERS {
        return Err(ErrorKind::Validation);
    }
    let mut i: usize = 0;
    while i < indices.len()
        invariant
            i <= indices@.len(),
            forall|j: int| 0 <= j < i ==> #[trigger] indices@[j] < NUM_COMBOS,
        decreases indices@.len() - i,
    {
        if indices[i] >= NUM_COMBOS {
            return Err(ErrorKind::Validation);
        }
        i = i + 1;
    }
    Ok(())
}

} // verus!
