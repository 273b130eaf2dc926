//! The chain specification: chain id, post-merge fork activation schedule,
//! and the base-fee parameters active at a given timestamp.

use vstd::prelude::*;

verus! {

/// The active protocol rule set, resolved post-merge from a timestamp.
#[derive(Clone, Copy, Debug, PartialEq, Eq, Structural)]
pub enum SpecId {
    Merge,
    Shanghai,
    Cancun,
    Prague,
}

/// Whether blob-carrying transactions exist under `s`.
pub open spec fn is_blob_active(s: SpecId) -> bool {
    s == SpecId::Cancun || s == SpecId::Prague
}

/// Parameters of the base-fee update formula.
#[derive(Clone, Copy, Debug, PartialEq, Eq, Structural)]
pub struct BaseFeeParams {
    /// Bounds how fast the base fee may change between blocks.
    pub max_change_denominator: u64,
    /// Ratio of a block's gas limit to its gas target.
    pub elasticity_multiplier: u64,
}

/// The parameters active at `t`: those of the last schedule entry whose
/// activation timestamp is at or before `t`.
pub open spec fn params_at(schedule: Seq<(u64, BaseFeeParams)>, t: u64) -> BaseFeeParams
    decreases schedule.len(),
{
    if schedule.len() == 0 {
        BaseFeeParams { max_change_denominator: 8, elasticity_multiplier: 2 }
    } else if schedule.last().0 <= t {
        schedule.last().1
    } else {
        params_at(schedule.drop_last(), t)
    }
}

/// Chain parameters shared read-only by every component: identity, fork
/// activation times, and the base-fee parameter schedule.
#[derive(Clone, Debug)]
pub struct ChainSpec {
    /// The chain's numeric identity.
    pub chain_id: u64,
    /// Activation timestamp of the Shanghai fork, if scheduled.
    pub shanghai_time: Option<u64>,
    /// Activation timestamp of the Cancun fork (the first blob-carrying
    /// fork), if scheduled.
    pub cancun_time: Option<u64>,
    /// Activation timestamp of the Prague fork, if scheduled.
    pub prague_time: Option<u64>,
    /// Base-fee parameters by activation timestamp, strictly ascending.
    pub base_fee_params: Vec<(u64, BaseFeeParams)>,
}

impl ChainSpec {
    /// The schedule is non-empty, starts at the dawn of time, and ascends
    /// strictly, so parameters are defined at every timestamp.
    pub open spec fn wf(self) -> bool {
        &&& self.base_fee_params@.len() >= 1
        &&& self.base_fee_params@[0].0 == 0
        &&& forall|i: int, j: int|
            0 <= i < j < self.base_fee_params@.len() ==> self.base_fee_params@[i].0
                < self.base_fee_params@[j].0
    }

    /// The rule set active at `t`, keyed on the post-merge timestamp-based
    /// activation schedule.
    pub open spec fn spec_id_at(self, t: u64) -> SpecId {
        if self.prague_time matches Some(pt) && t >= pt {
            SpecId::Prague
        } else if self.cancun_time matches Some(ct) && t >= ct {
            SpecId::Cancun
        } else if self.shanghai_time matches Some(st) && t >= st {
            SpecId::Shanghai
        } else {
            SpecId::Merge
        }
    }

    /// Resolve the rule set active at `timestamp`.
    pub fn spec_id_at_timestamp(&self, timestamp: u64) -> (r: SpecId)
        ensures
            r == self.spec_id_at(timestamp),
    {
        if let Some(pt) = self.prague_time {
            if timestamp >= pt {
                return SpecId::Prague;
            }
        }
        if let Some(ct) = self.cancun_time {
            if timestamp >= ct {
                return SpecId::Cancun;
            }
        }
        if let Some(st) = self.shanghai_time {
            if timestamp >= st {
                return SpecId::Shanghai;
            }
        }
        SpecId::Merge
    }

    /// The base-fee parameters active at `timestamp`.
    pub fn base_fee_params_at_timestamp(&self, timestamp: u64) -> (r: BaseFeeParams)
        requires
            self.wf(),
        ensures
            r == params_at(self.base_fee_params@, timestamp),
    {
        let n: usize = self.base_fee_params.len();
        let mut i: usize = n;
        proof {
            assert(self.base_fee_params@.subrange(0, n as int) =~= self.base_fee_params@);
        }
        while i > 0
            invariant
                0 <= i <= n,
                n == self.base_fee_params@.len(),
                self.wf(),
                params_at(self.base_fee_params@, timestamp) == params_at(
                    self.base_fee_params@.subrange(0, i as int),
                    timestamp,
                ),
                forall|j: int| i <= j < n ==> self.base_fee_params@[j].0 > timestamp,
            decreases i,
        {
            let entry = self.base_fee_params[i - 1];
            if entry.0 <= timestamp {
                proof {
                    let pre = self.base_fee_params@.subrange(0, i as int);
                    assert(pre.last() == self.base_fee_params@[i - 1]);
                }
                return entry.1;
            }
            proof {
                let pre = self.base_fee_params@.subrange(0, i as int);
                assert(pre.drop_last() =~= self.base_fee_params@.subrange(0, i - 1));
            }
            i = i - 1;
        }
        // Unreachable: the schedule's first entry activates at time zero.
        proof {
            assert(self.base_fee_params@[0].0 > timestamp);
            assert(false);
        }
        BaseFeeParams { max_change_denominator: 8, elasticity_multiplier: 2 }
    }
}

} // verus!
