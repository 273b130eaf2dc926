//! Derivation of the canonical per-block execution context from the chain
//! spec, the latest chain-head header, and the next block's attributes,
//! handling the base-fee update formula and the blob-gas fork transition.

use vstd::prelude::*;

use crate::attributes::BlockAttributes;
use crate::chain::{is_blob_active, params_at, BaseFeeParams, ChainSpec, SpecId};
use crate::types::{Address, Header, B256};

verus! {

/// Blob gas target of a block; the excess accumulates above it.
pub const TARGET_BLOB_GAS_PER_BLOCK: u64 = 393216;

/// A block's excess blob gas together with the blob gas price derived from
/// it.
#[derive(Clone, Copy, Debug, PartialEq, Eq)]
pub struct BlobExcessGasAndPrice {
    /// Running excess of blob gas carried into this block.
    pub excess_blob_gas: u64,
    /// Per-unit blob gas price derived from the excess.
    pub blob_gasprice: u128,
}

/// The canonical execution context of the block being built; immutable once
/// built.
#[derive(Clone, Copy, Debug, PartialEq, Eq)]
pub struct BlockEnv {
    /// Height of the block being built.
    pub number: u64,
    /// Timestamp of the block being built.
    pub timestamp: u64,
    /// Address credited with the block's fees.
    pub coinbase: Address,
    /// Gas limit of the block being built.
    pub gas_limit: u64,
    /// Base fee per gas unit.
    pub basefee: u64,
    /// Always zero after the merge.
    pub difficulty: u64,
    /// Randomness seed of the block being built.
    pub prevrandao: Option<B256>,
    /// Present iff the active rule set carries blob transactions.
    pub blob_excess_gas_and_price: Option<BlobExcessGasAndPrice>,
}

/// The blob gas price derived from a block's excess blob gas.
pub uninterp spec fn blob_gasprice_of(excess_blob_gas: u64) -> u128;

/// Relies on `alloy_eips::eip4844::calc_blob_gasprice`: the price is a
/// function of the excess blob gas alone (a Taylor approximation of an
/// exponential, bottoming out at the minimum blob gas price).
pub assume_specification[ alloy_eips::eip4844::calc_blob_gasprice ](excess_blob_gas: u64) -> (r:
    u128)
    ensures
        r == blob_gasprice_of(excess_blob_gas),
;

/// The next block's excess blob gas: the parent's excess plus what the
/// parent used, less the per-block target, saturating at zero.
pub open spec fn spec_excess_blob_gas_update(parent_excess: u64, parent_used: u64) -> int {
    if parent_excess + parent_used <= TARGET_BLOB_GAS_PER_BLOCK {
        0
    } else {
        parent_excess + parent_used - TARGET_BLOB_GAS_PER_BLOCK
    }
}

/// Relies on `alloy_eips::eip4844::calc_excess_blob_gas`: the sum of the
/// parent's excess blob gas and blob gas used, less the per-block target,
/// saturating at zero; the sum itself is taken unchecked.
pub assume_specification[ alloy_eips::eip4844::calc_excess_blob_gas ](
    parent_excess_blob_gas: u64,
    parent_blob_gas_used: u64,
) -> (r: u64)
    requires
        parent_excess_blob_gas + parent_blob_gas_used <= u64::MAX,
    ensures
        r == spec_excess_blob_gas_update(parent_excess_blob_gas, parent_blob_gas_used),
;

/// The base fee of the next block under the fee-market formula: unchanged at
/// the gas target, raised proportionally (at least by one) above it, lowered
/// proportionally below it. Degenerate parameters leave the fee unchanged.
pub open spec fn spec_next_block_base_fee(
    gas_used: u64,
    gas_limit: u64,
    base_fee: u64,
    p: BaseFeeParams,
) -> int {
    if p.elasticity_multiplier == 0 || p.max_change_denominator == 0 {
        base_fee as int
    } else {
        let gas_target = gas_limit as int / p.elasticity_multiplier as int;
        if gas_target == 0 {
            base_fee as int
        } else if gas_used == gas_target {
            base_fee as int
        } else if gas_used > gas_target {
            let incr = (base_fee as int * (gas_used - gas_target)) / (gas_target
                * p.max_change_denominator as int);
            base_fee + (if incr > 1 {
                incr
            } else {
                1
            })
        } else {
            let decr = (base_fee as int * (gas_target - gas_used)) / (gas_target
                * p.max_change_denominator as int);
            base_fee - decr
        }
    }
}

/// The product of two 64-bit values fits in 128 bits.
proof fn lemma_u64_products_fit(x: u64, y: u64)
    ensures
        (x as int) * (y as int) <= 0xffff_ffff_ffff_ffff * 0xffff_ffff_ffff_ffff,
        (x as int) * (y as int) >= 0,
{
    vstd::arithmetic::mul::lemma_mul_upper_bound(
        x as int,
        0xffff_ffff_ffff_ffff,
        y as int,
        0xffff_ffff_ffff_ffff,
    );
    vstd::arithmetic::mul::lemma_mul_nonnegative(x as int, y as int);
}

/// Compute the next block's base fee from the parent block's gas accounting.
pub fn next_block_base_fee(gas_used: u64, gas_limit: u64, base_fee: u64, params: BaseFeeParams) -> (
    r: u64)
    requires
        spec_next_block_base_fee(gas_used, gas_limit, base_fee, params) <= u64::MAX,
    ensures
        r as int == spec_next_block_base_fee(gas_used, gas_limit, base_fee, params),
{
    if params.elasticity_multiplier == 0 || params.max_change_denominator == 0 {
        return base_fee;
    }
    let gas_target: u64 = gas_limit / params.elasticity_multiplier;
    if gas_target == 0 {
        return base_fee;
    }
    if gas_used == gas_target {
        base_fee
    } else if gas_used > gas_target {
        let delta: u64 = gas_used - gas_target;
        proof {
            lemma_u64_products_fit(base_fee, delta);
            lemma_u64_products_fit(gas_target, params.max_change_denominator);
            vstd::arithmetic::mul::lemma_mul_strictly_positive(
                gas_target as int,
                params.max_change_denominator as int,
            );
        }
        let num: u128 = (base_fee as u128) * (delta as u128);
        let den: u128 = (gas_target as u128) * (params.max_change_denominator as u128);
        let incr: u128 = num / den;
        let incr_min: u128 = if incr > 1 {
            incr
        } else {
            1
        };
        proof {
            assert(incr_min <= u64::MAX - base_fee);
        }
        base_fee + (incr_min as u64)
    } else {
        let delta: u64 = gas_target - gas_used;
        proof {
            lemma_u64_products_fit(base_fee, delta);
            lemma_u64_products_fit(gas_target, params.max_change_denominator);
        }
        let num: u128 = (base_fee as u128) * (delta as u128);
        let den: u128 = (gas_target as u128) * (params.max_change_denominator as u128);
        proof {
            let bf = base_fee as int;
            let t = gas_target as int;
            let d = params.max_change_denominator as int;
            vstd::arithmetic::mul::lemma_mul_strictly_positive(t, d);
            vstd::arithmetic::mul::lemma_mul_inequality(1, d, t);
            vstd::arithmetic::mul::lemma_mul_inequality(delta as int, t * d, bf);
            vstd::arithmetic::div_mod::lemma_div_is_ordered(bf * (delta as int), bf * (t * d), t * d);
            vstd::arithmetic::div_mod::lemma_div_multiples_vanish(bf, t * d);
            assert((t * d) * bf == bf * (t * d)) by (nonlinear_arith);
            assert((delta as int) * bf == bf * (delta as int)) by (nonlinear_arith);
            assert(t * 1 == t) by (nonlinear_arith);
        }
        let decr: u128 = num / den;
        base_fee - (decr as u64)
    }
}

/// The parent header's signal for the next block's excess blob gas, present
/// iff the parent records both blob-gas fields.
pub open spec fn spec_next_excess_blob_gas(parent: Header) -> Option<int> {
    match (parent.excess_blob_gas, parent.blob_gas_used) {
        (Some(e), Some(u)) => Some(spec_excess_blob_gas_update(e, u)),
        _ => None,
    }
}

/// The excess blob gas of the block being built: the parent's signal when
/// present; zero in the first blob-fork block whose parent predates the
/// fork; absent before the blob fork.
pub open spec fn spec_blob_excess(spec_id: SpecId, parent: Header) -> Option<int> {
    match spec_next_excess_blob_gas(parent) {
        Some(e) => Some(e),
        None => if spec_id == SpecId::Cancun {
            Some(0)
        } else {
            None
        },
    }
}

/// The base fee carried into the built context: the formula applied to the
/// parent, or zero when the parent predates the fee market.
pub open spec fn spec_block_base_fee(chain_spec: ChainSpec, parent: Header, timestamp: u64) -> int {
    match parent.base_fee_per_gas {
        Some(bf) => spec_next_block_base_fee(
            parent.gas_used,
            parent.gas_limit,
            bf,
            params_at(chain_spec.base_fee_params@, timestamp),
        ),
        None => 0,
    }
}

/// The blob-gas pair of a built context matches `spec_blob_excess` at the
/// given rule set, with the price derived from the excess.
pub open spec fn blob_pair_matches(
    pair: Option<BlobExcessGasAndPrice>,
    spec_id: SpecId,
    parent: Header,
) -> bool {
    match pair {
        Some(bg) => spec_blob_excess(spec_id, parent) == Some(bg.excess_blob_gas as int)
            && bg.blob_gasprice == blob_gasprice_of(bg.excess_blob_gas),
        None => spec_blob_excess(spec_id, parent) is None,
    }
}

/// Combine chain spec, parent header, and block attributes into the
/// execution context of the block being built.
pub fn build(chain_spec: &ChainSpec, parent: &Header, attributes: &BlockAttributes) -> (r: BlockEnv)
    requires
        chain_spec.wf(),
        parent.number < u64::MAX,
        parent.base_fee_per_gas matches Some(bf) ==> spec_next_block_base_fee(
            parent.gas_used,
            parent.gas_limit,
            bf,
            params_at(chain_spec.base_fee_params@, attributes.timestamp),
        ) <= u64::MAX,
        parent.excess_blob_gas matches Some(e) ==> (parent.blob_gas_used matches Some(u) ==> e
            + u <= u64::MAX),
    ensures
        r.number == parent.number + 1,
        r.timestamp == attributes.timestamp,
        r.coinbase == attributes.suggested_fee_recipient,
        r.gas_limit == parent.gas_limit,
        r.basefee as int == spec_block_base_fee(*chain_spec, *parent, attributes.timestamp),
        r.difficulty == 0,
        r.prevrandao == Some(attributes.prev_randao),
        blob_pair_matches(
            r.blob_excess_gas_and_price,
            chain_spec.spec_id_at(attributes.timestamp),
            *parent,
        ),
{
    let spec_id = chain_spec.spec_id_at_timestamp(attributes.timestamp);

    let base_fee: u64 = match parent.base_fee_per_gas {
        Some(bf) => {
            let p = chain_spec.base_fee_params_at_timestamp(attributes.timestamp);
            next_block_base_fee(parent.gas_used, parent.gas_limit, bf, p)
        },
        None => 0,
    };

    let next_excess: Option<u64> = match (parent.excess_blob_gas, parent.blob_gas_used) {
        (Some(e), Some(u)) => Some(alloy_eips::eip4844::calc_excess_blob_gas(e, u)),
        _ => None,
    };
    let excess: Option<u64> = match next_excess {
        Some(e) => Some(e),
        None => if spec_id == SpecId::Cancun {
            Some(0)
        } else {
            None
        },
    };
    let blob_excess_gas_and_price: Option<BlobExcessGasAndPrice> = match excess {
        Some(e) => Some(
            BlobExcessGasAndPrice {
                excess_blob_gas: e,
                blob_gasprice: alloy_eips::eip4844::calc_blob_gasprice(e),
            },
        ),
        None => None,
    };

    BlockEnv {
        number: parent.number + 1,
        timestamp: attributes.timestamp,
        coinbase: attributes.suggested_fee_recipient,
        gas_limit: parent.gas_limit,
        basefee: base_fee,
        difficulty: 0,
        prevrandao: Some(attributes.prev_randao),
        blob_excess_gas_and_price,
    }
}

/// Build the execution context for replaying an already committed block:
/// number, timestamp, coinbase, base fee, and blob-gas excess are the
/// header's own recorded values.
pub fn build_replay(chain_spec: &ChainSpec, header: &Header) -> (r: BlockEnv)
    requires
        chain_spec.wf(),
    ensures
        r.number == header.number,
        r.timestamp == header.timestamp,
        r.coinbase == header.beneficiary,
        r.gas_limit == header.gas_limit,
        r.basefee as int == (match header.base_fee_per_gas {
            Some(bf) => bf as int,
            None => 0,
        }),
        r.difficulty == 0,
        r.prevrandao == Some(header.mix_hash),
        match r.blob_excess_gas_and_price {
            Some(bg) => (match header.excess_blob_gas {
                Some(e) => bg.excess_blob_gas == e,
                None => chain_spec.spec_id_at(header.timestamp) == SpecId::Cancun
                    && bg.excess_blob_gas == 0,
            }) && bg.blob_gasprice == blob_gasprice_of(bg.excess_blob_gas),
            None => header.excess_blob_gas is None && chain_spec.spec_id_at(header.timestamp)
                != SpecId::Cancun,
        },
{
    let spec_id = chain_spec.spec_id_at_timestamp(header.timestamp);
    let excess: Option<u64> = match header.excess_blob_gas {
        Some(e) => Some(e),
        None => if spec_id == SpecId::Cancun {
            Some(0)
        } else {
            None
        },
    };
    let blob_excess_gas_and_price: Option<BlobExcessGasAndPrice> = match excess {
        Some(e) => Some(
            BlobExcessGasAndPrice {
                excess_blob_gas: e,
                blob_gasprice: alloy_eips::eip4844::calc_blob_gasprice(e),
            },
        ),
        None => None,
    };
    BlockEnv {
        number: header.number,
        timestamp: header.timestamp,
        coinbase: header.beneficiary,
        gas_limit: header.gas_limit,
        basefee: match header.base_fee_per_gas {
            Some(bf) => bf,
            None => 0,
        },
        difficulty: 0,
        prevrandao: Some(header.mix_hash),
        blob_excess_gas_and_price,
    }
}

/// On any parent consistent with the fork schedule, the blob-gas pair of the
/// built context is present iff the active rule set carries blobs; in the
/// one-block transition window (first blob-fork block, parent predating the
/// fork) the excess defaults to zero rather than being absent.
pub proof fn lemma_blob_gas_presence(spec_id: SpecId, parent: Header)
    requires
        parent.excess_blob_gas is Some <==> parent.blob_gas_used is Some,
        parent.excess_blob_gas is Some ==> is_blob_active(spec_id),
        spec_id == SpecId::Prague ==> parent.excess_blob_gas is Some,
    ensures
        spec_blob_excess(spec_id, parent) is Some <==> is_blob_active(spec_id),
        spec_id == SpecId::Cancun && parent.excess_blob_gas is None ==> spec_blob_excess(
            spec_id,
            parent,
        ) == Some(0int),
{
}

} // verus!
