//! Reading the whole state at once.

use crate::lists::copy_of;
use crate::obligation::Obligation;
use crate::registry::AssetRegistry;
use vstd::prelude::*;

verus! {

/// All that a registry and an obligation hold, copied at one moment.
#[derive(Clone, Debug, PartialEq, Eq)]
pub struct Snapshot {
    pub registry: AssetRegistry,
    pub obligation: Obligation,
}

/// Copies all that `registry` and `obligation` hold.
pub fn debug_read_all_data(registry: &AssetRegistry, obligation: &Obligation) -> (snapshot:
    Snapshot)
    ensures
        snapshot.registry@ == registry@,
        snapshot.obligation@ == obligation@,
{
    Snapshot {
        registry: AssetRegistry {
            authority: registry.authority,
            assets: copy_of(&registry.assets),
            risk_params: copy_of(&registry.risk_params),
        },
        obligation: Obligation {
            owner: obligation.owner,
            deposits: copy_of(&obligation.deposits),
            borrows: copy_of(&obligation.borrows),
            health_score: obligation.health_score,
        },
    }
}

} // verus!
