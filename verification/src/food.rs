//! Where the food goes next.

use vstd::prelude::*;
use rand::Rng;
use rand::rngs::ThreadRng;
use crate::state::GameState;

verus! {

/// The random number generator of the current thread, as `rand` hands it out.
/// Nothing of its inside is known here.
#[verifier::external_type_specification]
#[verifier::external_body]
pub struct ExThreadRng(ThreadRng);

/// `rand::thread_rng` returns a handle to the generator of the current
/// thread. Nothing is claimed of the handle. The call takes no argument; it
/// panics only where the operating system cannot seed the generator.
pub assume_specification[ rand::thread_rng ]() -> (rng: ThreadRng);

/// `Rng::gen_range` on the half-open range `low..high` of `u16`. It panics on
/// an empty range, which the precondition leaves out. The value it draws lies
/// in the range; which value it is differs from call to call, so nothing more
/// is claimed.
#[verifier::external_body]
fn gen_range(rng: &mut ThreadRng, low: u16, high: u16) -> (value: u16)
    requires
        low < high,
    ensures
        low <= value < high,
{
    rng.gen_range(low..high)
}

/// A cell for the food, chosen at random among all cells but those of the last
/// column and the last row. Cells under the snake are not left out.
pub fn determine_food_location(state: &GameState) -> (food: (u16, u16))
    requires
        state.width >= 2,
        state.height >= 2,
    ensures
        state@.in_food_area(food),
{
    let mut rng = rand::thread_rng();
    let column = gen_range(&mut rng, 0, state.width - 1);
    let row = gen_range(&mut rng, 0, state.height - 1);
    (column, row)
}

} // verus!
