//! What a system records about itself.

use crate::ChangeTick;
use vstd::prelude::*;

verus! {

/// The record that a system keeps of its runs. It belongs to that system
/// alone, which writes it when it is initialized and when it runs.
pub struct SystemMeta {
    /// The tick of the system's last run, 0 before the first.
    pub last_run: ChangeTick,
    /// Whether the system keeps changes back that `apply` carries out.
    pub has_deferred: bool,
}

impl Default for SystemMeta {
    fn default() -> (meta: Self)
        ensures
            meta.last_run == 0,
            !meta.has_deferred,
    {
        SystemMeta { last_run: 0, has_deferred: false }
    }
}

} // verus!
