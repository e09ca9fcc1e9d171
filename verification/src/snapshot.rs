//! The state of a launchpad as plain values, for a host that stores it
//! between two calls.

use crate::account::AccountId;
use crate::allowlist::allowances_of;
use crate::pool::PoolState;
use crate::state::State;
use crate::status::MintingStatus;
use crate::types::{Config, RefundWindow};
use std::collections::HashMap;
use vstd::prelude::*;
use vstd::std_specs::iter::IteratorSpec;

verus! {

broadcast use vstd::std_specs::hash::group_hash_axioms;

/// The map that a list of records stands for: each token with the stage of
/// its last record.
pub open spec fn records_of(records: Seq<(u64, MintingStatus)>) -> Map<u64, MintingStatus>
    decreases records.len(),
{
    if records.len() == 0 {
        Map::empty()
    } else {
        records_of(records.drop_last()).insert(records.last().0, records.last().1)
    }
}

/// Everything a launchpad keeps, field by field.
pub struct Snapshot {
    pub config: Config,
    pub max_amount: u64,
    pub token_set: Vec<u64>,
    pub pseudo_random_salt: u64,
    pub forced_minting_status: Option<MintingStatus>,
    pub prepresale_whitelisted: Vec<(AccountId, u64)>,
    pub presale_whitelisted: Vec<(AccountId, u64)>,
    pub refund_schedule: Vec<RefundWindow>,
    pub minting_type_for_token: Vec<(u64, MintingStatus)>,
}

impl Snapshot {
    /// The state that the values stand for.
    pub open spec fn state(self) -> State {
        State {
            config: self.config,
            max_amount: self.max_amount,
            pool: PoolState {
                max_supply: self.config.max_supply,
                tokens: self.token_set@,
                salt: self.pseudo_random_salt,
            },
            forced: self.forced_minting_status,
            prepresale: allowances_of(self.prepresale_whitelisted@),
            presale: allowances_of(self.presale_whitelisted@),
            schedule: self.refund_schedule@,
            minted_in: records_of(self.minting_type_for_token@),
        }
    }
}

proof fn lemma_records_cover(
    records: Seq<(u64, MintingStatus)>,
    map: Map<u64, MintingStatus>,
)
    requires
        forall|j: int|
            0 <= j < records.len() ==> map.contains_key(#[trigger] records[j].0)
                && map[records[j].0] == records[j].1,
        forall|token_id: u64|
            map.contains_key(token_id) ==> exists|j: int|
                0 <= j < records.len() && #[trigger] records[j].0 == token_id,
    ensures
        records_of(records) == map,
{
    lemma_records_of(records);
    assert forall|token_id: u64| map.contains_key(token_id) implies records_of(
        records,
    ).contains_key(token_id) by {
        let j = choose|j: int| 0 <= j < records.len() && #[trigger] records[j].0 == token_id;
        assert(records[j].0 == token_id);
    }
    assert forall|token_id: u64| records_of(records).contains_key(token_id) implies map[token_id]
        == records_of(records)[token_id] && map.contains_key(token_id) by {
        let j = choose|j: int|
            0 <= j < records.len() && records[j].0 == token_id && records_of(records)[token_id]
                == records[j].1;
        assert(map.contains_key(records[j].0));
    }
    assert(records_of(records) =~= map);
}

proof fn lemma_records_of(records: Seq<(u64, MintingStatus)>)
    ensures
        forall|token_id: u64|
            #[trigger] records_of(records).contains_key(token_id) <==> exists|j: int|
                0 <= j < records.len() && records[j].0 == token_id,
        forall|token_id: u64|
            #[trigger] records_of(records).contains_key(token_id) ==> exists|j: int|
                0 <= j < records.len() && records[j].0 == token_id && records_of(
                    records,
                )[token_id] == records[j].1,
    decreases records.len(),
{
    if records.len() > 0 {
        let earlier = records.drop_last();
        lemma_records_of(earlier);
        let last = records.len() - 1;
        assert forall|token_id: u64|
            #[trigger] records_of(records).contains_key(token_id) <==> exists|j: int|
                0 <= j < records.len() && records[j].0 == token_id by {
            if records_of(earlier).contains_key(token_id) {
                let j = choose|j: int| 0 <= j < earlier.len() && earlier[j].0 == token_id;
                assert(records[j].0 == token_id);
            }
            if exists|j: int| 0 <= j < records.len() && records[j].0 == token_id {
                let j = choose|j: int| 0 <= j < records.len() && records[j].0 == token_id;
                if j < last {
                    assert(earlier[j].0 == token_id);
                }
            }
        }
        assert forall|token_id: u64| #[trigger]
            records_of(records).contains_key(token_id) implies exists|j: int|
            0 <= j < records.len() && records[j].0 == token_id && records_of(records)[token_id]
                == records[j].1 by {
            if token_id == records[last].0 {
                assert(records[last].0 == token_id);
            } else {
                let j = choose|j: int|
                    0 <= j < earlier.len() && earlier[j].0 == token_id && records_of(
                        earlier,
                    )[token_id] == earlier[j].1;
                assert(records[j].0 == token_id);
            }
        }
    }
}

/// The records of a map, one for each token that has one, in no order that
/// could be relied on.
pub fn export_records(map: &HashMap<u64, MintingStatus>) -> (records: Vec<(u64, MintingStatus)>)
    ensures
        records_of(records@) == map@,
        records@.len() == map@.dom().len(),
{
    let mut records: Vec<(u64, MintingStatus)> = Vec::new();
    let ghost listed = map.iter().remaining();
    for record in it: map.iter()
        invariant
            it.seq() == listed,
            records@.len() == it.index(),
            forall|j: int|
                0 <= j < records@.len() ==> #[trigger] records@[j] == (
                    *it.seq()[j].0,
                    *it.seq()[j].1,
                ),
    {
        records.push((*record.0, *record.1));
    }
    proof {
        assert forall|token_id: u64| map@.contains_key(token_id) implies exists|j: int|
            0 <= j < records@.len() && #[trigger] records@[j].0 == token_id by {
            let wanted = (&token_id, &map@[token_id]);
            assert(listed.contains(wanted));
            let j = choose|j: int| 0 <= j < listed.len() && listed[j] == wanted;
            assert(records@[j].0 == token_id);
        }
        lemma_records_cover(records@, map@);
    }
    records
}

/// The map that records stand for; of two records of one token the later
/// one counts.
pub fn import_records(records: &Vec<(u64, MintingStatus)>) -> (map: HashMap<u64, MintingStatus>)
    ensures
        map@ == records_of(records@),
{
    let mut map: HashMap<u64, MintingStatus> = HashMap::new();
    let mut i: usize = 0;
    while i < records.len()
        invariant
            i <= records@.len(),
            map@ == records_of(records@.take(i as int)),
        decreases records@.len() - i,
    {
        let record = records[i];
        map.insert(record.0, record.1);
        assert(records@.take(i as int + 1).drop_last() =~= records@.take(i as int));
        i += 1;
    }
    assert(records@.take(records@.len() as int) =~= records@);
    map
}

} // verus!
