use vstd::prelude::*;

use crate::query::SearchQuery;
use crate::specifics::{allstars_pool, allstars_pool_model, basics, basics_model, commander_synergy, commander_synergy_model, constructed_pool, constructed_pool_model, draft_involved, draft_involved_model, draft_pool, draft_pool_model, meld_duds, meld_duds_model, rebalanced, rebalanced_model, sealed_pool, sealed_pool_model, unfun, unfun_model};

verus! {

/// The building blocks and the four card pools, each with the file that receives it.
pub fn default_formats() -> (res: [(&'static str, SearchQuery); 10])
    ensures
        res@[0].0 == "./basics.txt",
        res@[0].1@ == basics_model(),
        res@[1].0 == "./draft_involved.txt",
        res@[1].1@ == draft_involved_model(),
        res@[2].0 == "./meld_duds.txt",
        res@[2].1@ == meld_duds_model(),
        res@[3].0 == "./unfun.txt",
        res@[3].1@ == unfun_model(),
        res@[4].0 == "./commander_synergy.txt",
        res@[4].1@ == commander_synergy_model(),
        res@[5].0 == "./rebalanced.txt",
        res@[5].1@ == rebalanced_model(),
        res@[6].0 == "./for-subset-draft.txt",
        res@[6].1@ == draft_pool_model(),
        res@[7].0 == "./for-subset-constructed.txt",
        res@[7].1@ == constructed_pool_model(),
        res@[8].0 == "./for-subset-sealed.txt",
        res@[8].1@ == sealed_pool_model(),
        res@[9].0 == "./for-subset-allstars.txt",
        res@[9].1@ == allstars_pool_model(),
{
    [
        ("./basics.txt", basics()),
        ("./draft_involved.txt", draft_involved()),
        ("./meld_duds.txt", meld_duds()),
        ("./unfun.txt", unfun()),
        ("./commander_synergy.txt", commander_synergy()),
        ("./rebalanced.txt", rebalanced()),
        ("./for-subset-draft.txt", draft_pool()),
        ("./for-subset-constructed.txt", constructed_pool()),
        ("./for-subset-sealed.txt", sealed_pool()),
        ("./for-subset-allstars.txt", allstars_pool()),
    ]
}

} // verus!
