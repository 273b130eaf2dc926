//! Normalization of signed transactions, whatever their fee, access-list or
//! blob encoding, into one execution descriptor shape.
//!
//! Every field the encoding does not provide is cleared to its defined empty
//! value, so no descriptor carries leftovers from another variant; the nonce
//! is always populated explicitly.

use vstd::prelude::*;

use crate::types::{Address, B256};
use crate::u256::{be_bytes_value, U256};

verus! {

/// Call target as encoded in a transaction.
#[derive(Clone, Copy, Debug, PartialEq, Eq)]
pub enum TxKind {
    /// Create a new contract.
    Create,
    /// Call the given address.
    Call(Address),
}

/// Call target in the execution descriptor.
#[derive(Clone, Copy, Debug, PartialEq, Eq)]
pub enum TransactTo {
    /// Call the given address.
    Call(Address),
    /// Create a new contract.
    Create,
}

/// One access-list entry: an address and its pre-declared storage keys.
#[derive(Clone, Debug)]
pub struct AccessListItem {
    /// The address whose slots are pre-declared.
    pub address: Address,
    /// The pre-declared storage keys, as 32-byte words.
    pub storage_keys: Vec<B256>,
}

/// A pre-fee-market transaction with a single flat gas price.
#[derive(Clone, Debug)]
pub struct TxLegacy {
    /// Chain the transaction is replay-protected for, if any.
    pub chain_id: Option<u64>,
    /// The sender's transaction count.
    pub nonce: u64,
    /// Flat price paid per gas unit.
    pub gas_price: u128,
    /// Gas the transaction may spend.
    pub gas_limit: u64,
    /// Call target.
    pub to: TxKind,
    /// Value transferred, in wei.
    pub value: U256,
    /// Call data.
    pub input: Vec<u8>,
}

/// A flat-price transaction carrying an access list.
#[derive(Clone, Debug)]
pub struct TxEip2930 {
    /// Chain the transaction is bound to.
    pub chain_id: u64,
    /// The sender's transaction count.
    pub nonce: u64,
    /// Flat price paid per gas unit.
    pub gas_price: u128,
    /// Gas the transaction may spend.
    pub gas_limit: u64,
    /// Call target.
    pub to: TxKind,
    /// Value transferred, in wei.
    pub value: U256,
    /// Pre-declared addresses and storage keys.
    pub access_list: Vec<AccessListItem>,
    /// Call data.
    pub input: Vec<u8>,
}

/// A fee-market transaction with a fee cap and a priority fee.
#[derive(Clone, Debug)]
pub struct TxEip1559 {
    /// Chain the transaction is bound to.
    pub chain_id: u64,
    /// The sender's transaction count.
    pub nonce: u64,
    /// Gas the transaction may spend.
    pub gas_limit: u64,
    /// Cap on the total price paid per gas unit.
    pub max_fee_per_gas: u128,
    /// Cap on the priority part of the price per gas unit.
    pub max_priority_fee_per_gas: u128,
    /// Call target.
    pub to: TxKind,
    /// Value transferred, in wei.
    pub value: U256,
    /// Pre-declared addresses and storage keys.
    pub access_list: Vec<AccessListItem>,
    /// Call data.
    pub input: Vec<u8>,
}

/// A blob-carrying fee-market transaction; always a call, never a create.
#[derive(Clone, Debug)]
pub struct TxEip4844 {
    /// Chain the transaction is bound to.
    pub chain_id: u64,
    /// The sender's transaction count.
    pub nonce: u64,
    /// Gas the transaction may spend.
    pub gas_limit: u64,
    /// Cap on the total price paid per gas unit.
    pub max_fee_per_gas: u128,
    /// Cap on the priority part of the price per gas unit.
    pub max_priority_fee_per_gas: u128,
    /// The called address.
    pub to: Address,
    /// Value transferred, in wei.
    pub value: U256,
    /// Pre-declared addresses and storage keys.
    pub access_list: Vec<AccessListItem>,
    /// Versioned hashes of the attached blobs, in order.
    pub blob_versioned_hashes: Vec<B256>,
    /// Cap on the price paid per blob gas unit.
    pub max_fee_per_blob_gas: u128,
    /// Call data.
    pub input: Vec<u8>,
}

/// A transaction in one of the four supported encodings.
#[derive(Clone, Debug)]
pub enum Transaction {
    Legacy(TxLegacy),
    Eip2930(TxEip2930),
    Eip1559(TxEip1559),
    Eip4844(TxEip4844),
}

/// A 65-byte secp256k1 signature, as plain values.
#[derive(Clone, Copy, Debug, PartialEq, Eq)]
pub struct Signature {
    /// First half of the signature.
    pub r: B256,
    /// Second half of the signature.
    pub s: B256,
    /// Recovery parity bit.
    pub odd_y_parity: bool,
}

/// A transaction together with its signature.
#[derive(Clone, Debug)]
pub struct TransactionSigned {
    /// The transaction payload.
    pub transaction: Transaction,
    /// The signature the caller address is recovered from.
    pub signature: Signature,
}

/// The normalized execution descriptor handed to the execution engine; one
/// per transaction, immutable.
#[derive(Clone, Debug)]
pub struct TxEnv {
    /// The address recovered from the signature.
    pub caller: Address,
    /// Gas the transaction may spend.
    pub gas_limit: u64,
    /// Flat gas price, or the fee cap for fee-market encodings.
    pub gas_price: U256,
    /// Priority fee; absent for encodings without one.
    pub gas_priority_fee: Option<U256>,
    /// Call target.
    pub transact_to: TransactTo,
    /// Value transferred, in wei.
    pub value: U256,
    /// Call data.
    pub data: Vec<u8>,
    /// Always populated explicitly from the transaction.
    pub nonce: Option<u64>,
    /// Chain the transaction is bound to, when the encoding names one.
    pub chain_id: Option<u64>,
    /// Access list with storage keys as big-endian 256-bit integers; empty
    /// for the legacy encoding.
    pub access_list: Vec<(Address, Vec<U256>)>,
    /// Versioned blob hashes, in order; empty except for the blob encoding.
    pub blob_hashes: Vec<B256>,
    /// Blob fee cap; present only for the blob encoding.
    pub max_fee_per_blob_gas: Option<U256>,
}

/// The one way projection fails: the caller address cannot be recovered from
/// the signature.
#[derive(Clone, Copy, Debug, PartialEq, Eq, Structural)]
pub enum ProjectionError {
    InvalidSignature,
}

/// A projection failure located within a batch.
#[derive(Clone, Copy, Debug, PartialEq, Eq, Structural)]
pub struct ProjectionAt {
    /// Index of the failing transaction in the batch.
    pub index: usize,
    /// What went wrong with it.
    pub error: ProjectionError,
}

/// The descriptor's storage keys are the source keys read as big-endian
/// 256-bit integers, in order.
pub open spec fn projected_storage_keys(dst: Seq<U256>, src: Seq<B256>) -> bool {
    &&& dst.len() == src.len()
    &&& forall|k: int| 0 <= k < src.len() ==> #[trigger] dst[k].value() == be_bytes_value(
        src[k].bytes@,
    )
}

/// The descriptor's access list mirrors the source list entry for entry.
pub open spec fn projected_access_list(
    dst: Seq<(Address, Vec<U256>)>,
    src: Seq<AccessListItem>,
) -> bool {
    &&& dst.len() == src.len()
    &&& forall|j: int| 0 <= j < src.len() ==> (#[trigger] dst[j]).0 == src[j].address
        && projected_storage_keys(dst[j].1@, src[j].storage_keys@)
}

/// The call target the descriptor takes from an encoded `to` field.
pub open spec fn spec_transact_to(k: TxKind) -> TransactTo {
    match k {
        TxKind::Call(a) => TransactTo::Call(a),
        TxKind::Create => TransactTo::Create,
    }
}

/// What the execution descriptor holds for each transaction encoding: the
/// fields the encoding provides, and every other field at its defined empty
/// value.
pub open spec fn projects_to(env: TxEnv, tx: Transaction, caller: Address) -> bool {
    match tx {
        Transaction::Legacy(t) => {
            &&& env.caller == caller
            &&& env.gas_limit == t.gas_limit
            &&& env.gas_price.value() == t.gas_price
            &&& env.gas_priority_fee is None
            &&& env.transact_to == spec_transact_to(t.to)
            &&& env.value == t.value
            &&& env.data@ == t.input@
            &&& env.nonce == Some(t.nonce)
            &&& env.chain_id == t.chain_id
            &&& env.access_list@.len() == 0
            &&& env.blob_hashes@.len() == 0
            &&& env.max_fee_per_blob_gas is None
        },
        Transaction::Eip2930(t) => {
            &&& env.caller == caller
            &&& env.gas_limit == t.gas_limit
            &&& env.gas_price.value() == t.gas_price
            &&& env.gas_priority_fee is None
            &&& env.transact_to == spec_transact_to(t.to)
            &&& env.value == t.value
            &&& env.data@ == t.input@
            &&& env.nonce == Some(t.nonce)
            &&& env.chain_id == Some(t.chain_id)
            &&& projected_access_list(env.access_list@, t.access_list@)
            &&& env.blob_hashes@.len() == 0
            &&& env.max_fee_per_blob_gas is None
        },
        Transaction::Eip1559(t) => {
            &&& env.caller == caller
            &&& env.gas_limit == t.gas_limit
            &&& env.gas_price.value() == t.max_fee_per_gas
            &&& env.gas_priority_fee matches Some(p) && p.value() == t.max_priority_fee_per_gas
            &&& env.transact_to == spec_transact_to(t.to)
            &&& env.value == t.value
            &&& env.data@ == t.input@
            &&& env.nonce == Some(t.nonce)
            &&& env.chain_id == Some(t.chain_id)
            &&& projected_access_list(env.access_list@, t.access_list@)
            &&& env.blob_hashes@.len() == 0
            &&& env.max_fee_per_blob_gas is None
        },
        Transaction::Eip4844(t) => {
            &&& env.caller == caller
            &&& env.gas_limit == t.gas_limit
            &&& env.gas_price.value() == t.max_fee_per_gas
            &&& env.gas_priority_fee matches Some(p) && p.value() == t.max_priority_fee_per_gas
            &&& env.transact_to == TransactTo::Call(t.to)
            &&& env.value == t.value
            &&& env.data@ == t.input@
            &&& env.nonce == Some(t.nonce)
            &&& env.chain_id == Some(t.chain_id)
            &&& projected_access_list(env.access_list@, t.access_list@)
            &&& env.blob_hashes@ == t.blob_versioned_hashes@
            &&& env.max_fee_per_blob_gas matches Some(m) && m.value() == t.max_fee_per_blob_gas
        },
    }
}

/// Copy a vector of plain values.
fn copy_vec<T: Copy>(v: &Vec<T>) -> (r: Vec<T>)
    ensures
        r@ == v@,
{
    let mut out: Vec<T> = Vec::new();
    let mut i: usize = 0;
    while i < v.len()
        invariant
            0 <= i <= v@.len(),
            out@ == v@.subrange(0, i as int),
        decreases v@.len() - i,
    {
        out.push(v[i]);
        i = i + 1;
        proof {
            assert(out@ =~= v@.subrange(0, i as int));
        }
    }
    proof {
        assert(v@.subrange(0, v@.len() as int) =~= v@);
    }
    out
}

/// Convert an encoded call target.
fn transact_to_of(k: &TxKind) -> (r: TransactTo)
    ensures
        r == spec_transact_to(*k),
{
    match k {
        TxKind::Call(a) => TransactTo::Call(*a),
        TxKind::Create => TransactTo::Create,
    }
}

/// Project an access list, reading each storage key as a big-endian 256-bit
/// integer.
fn project_access_list(src: &Vec<AccessListItem>) -> (r: Vec<(Address, Vec<U256>)>)
    ensures
        projected_access_list(r@, src@),
{
    let mut out: Vec<(Address, Vec<U256>)> = Vec::new();
    let mut j: usize = 0;
    while j < src.len()
        invariant
            0 <= j <= src@.len(),
            out@.len() == j,
            forall|q: int| 0 <= q < j ==> (#[trigger] out@[q]).0 == src@[q].address
                && projected_storage_keys(out@[q].1@, src@[q].storage_keys@),
        decreases src@.len() - j,
    {
        let item = &src[j];
        let mut keys: Vec<U256> = Vec::new();
        let mut k: usize = 0;
        while k < item.storage_keys.len()
            invariant
                0 <= k <= item.storage_keys@.len(),
                keys@.len() == k,
                forall|q: int| 0 <= q < k ==> #[trigger] keys@[q].value() == be_bytes_value(
                    item.storage_keys@[q].bytes@,
                ),
            decreases item.storage_keys@.len() - k,
        {
            let u = U256::from_be_bytes(&item.storage_keys[k].bytes);
            keys.push(u);
            k = k + 1;
        }
        out.push((item.address, keys));
        j = j + 1;
    }
    out
}

/// Project one signed transaction into its execution descriptor, given the
/// outcome of recovering the caller address from its signature. A failed
/// recovery is the one error: no descriptor is produced for a transaction
/// whose signer is unknown.
pub fn get_tx_env(tx: &TransactionSigned, recovered_signer: Option<Address>) -> (r: Result<
    TxEnv,
    ProjectionError,
>)
    ensures
        r is Err <==> recovered_signer is None,
        r matches Err(e) ==> e == ProjectionError::InvalidSignature,
        recovered_signer matches Some(caller) ==> (r matches Ok(env) && projects_to(
            env,
            tx.transaction,
            caller,
        )),
{
    let caller = match recovered_signer {
        Some(c) => c,
        None => {
            return Err(ProjectionError::InvalidSignature);
        },
    };
    let env = match &tx.transaction {
        Transaction::Legacy(t) => TxEnv {
            caller,
            gas_limit: t.gas_limit,
            gas_price: U256::from_u128(t.gas_price),
            gas_priority_fee: None,
            transact_to: transact_to_of(&t.to),
            value: t.value,
            data: copy_vec(&t.input),
            nonce: Some(t.nonce),
            chain_id: t.chain_id,
            access_list: Vec::new(),
            blob_hashes: Vec::new(),
            max_fee_per_blob_gas: None,
        },
        Transaction::Eip2930(t) => TxEnv {
            caller,
            gas_limit: t.gas_limit,
            gas_price: U256::from_u128(t.gas_price),
            gas_priority_fee: None,
            transact_to: transact_to_of(&t.to),
            value: t.value,
            data: copy_vec(&t.input),
            nonce: Some(t.nonce),
            chain_id: Some(t.chain_id),
            access_list: project_access_list(&t.access_list),
            blob_hashes: Vec::new(),
            max_fee_per_blob_gas: None,
        },
        Transaction::Eip1559(t) => TxEnv {
            caller,
            gas_limit: t.gas_limit,
            gas_price: U256::from_u128(t.max_fee_per_gas),
            gas_priority_fee: Some(U256::from_u128(t.max_priority_fee_per_gas)),
            transact_to: transact_to_of(&t.to),
            value: t.value,
            data: copy_vec(&t.input),
            nonce: Some(t.nonce),
            chain_id: Some(t.chain_id),
            access_list: project_access_list(&t.access_list),
            blob_hashes: Vec::new(),
            max_fee_per_blob_gas: None,
        },
        Transaction::Eip4844(t) => TxEnv {
            caller,
            gas_limit: t.gas_limit,
            gas_price: U256::from_u128(t.max_fee_per_gas),
            gas_priority_fee: Some(U256::from_u128(t.max_priority_fee_per_gas)),
            transact_to: TransactTo::Call(t.to),
            value: t.value,
            data: copy_vec(&t.input),
            nonce: Some(t.nonce),
            chain_id: Some(t.chain_id),
            access_list: project_access_list(&t.access_list),
            blob_hashes: copy_vec(&t.blob_versioned_hashes),
            max_fee_per_blob_gas: Some(U256::from_u128(t.max_fee_per_blob_gas)),
        },
    };
    Ok(env)
}

/// Project a whole batch, in input order, failing fast at the first
/// transaction whose signer could not be recovered: a batch with a malformed
/// signature yields no descriptors at all rather than silently dropping the
/// transaction.
pub fn project_all(txs: &Vec<TransactionSigned>, signers: &Vec<Option<Address>>) -> (r: Result<
    Vec<TxEnv>,
    ProjectionAt,
>)
    requires
        txs@.len() == signers@.len(),
    ensures
        r is Ok <==> (forall|i: int| 0 <= i < signers@.len() ==> (#[trigger] signers@[i]) is Some),
        r matches Ok(envs) ==> envs@.len() == txs@.len() && (forall|i: int|
            #![trigger signers@[i]]
            0 <= i < txs@.len() ==> (signers@[i] matches Some(c) && projects_to(
                envs@[i],
                txs@[i].transaction,
                c,
            ))),
        r matches Err(e) ==> e.index < signers@.len() && signers@[e.index as int] is None && (
        forall|j: int| 0 <= j < e.index ==> (#[trigger] signers@[j]) is Some) && e.error
            == ProjectionError::InvalidSignature,
{
    let mut envs: Vec<TxEnv> = Vec::new();
    let mut i: usize = 0;
    while i < txs.len()
        invariant
            txs@.len() == signers@.len(),
            0 <= i <= txs@.len(),
            envs@.len() == i,
            forall|j: int| 0 <= j < i ==> (#[trigger] signers@[j]) is Some,
            forall|j: int|
                #![trigger signers@[j]]
                0 <= j < i ==> (signers@[j] matches Some(c) && projects_to(
                    envs@[j],
                    txs@[j].transaction,
                    c,
                )),
        decreases txs@.len() - i,
    {
        match get_tx_env(&txs[i], signers[i]) {
            Ok(env) => {
                envs.push(env);
            },
            Err(e) => {
                return Err(ProjectionAt { index: i, error: e });
            },
        }
        i = i + 1;
    }
    Ok(envs)
}

} // verus!
