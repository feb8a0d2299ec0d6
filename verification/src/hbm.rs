//! The Home Button Menu.
use vstd::prelude::*;

verus! {

/// The state word of the Home Button Menu manager while the menu is shown.
pub const HBM_STATE_ACTIVE: i32 = 2;

/// Whether the Home Button Menu is shown, from the state word of its
/// manager (`None` when no manager instance exists).
pub fn is_hbm_active(manager_state: Option<i32>) -> (active: bool)
    ensures
        active == (manager_state == Some(HBM_STATE_ACTIVE)),
{
    match manager_state {
        None => false,
        Some(state) => state == HBM_STATE_ACTIVE,
    }
}

} // verus!
