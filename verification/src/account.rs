//! Construction of the account state handed to the execution engine: plain
//! balance, nonce and code hash, with the account's bytecode analyzed into
//! the engine's shape.

use vstd::prelude::*;

use crate::bytecode::{analyzed_form, bit_seq, bytecode_to_evmcode, Bytecode, EvmCode};
use crate::types::B256;
use crate::u256::U256;

verus! {

/// The basic part of an account's state.
pub struct AccountBasic {
    /// Balance, in wei.
    pub balance: U256,
    /// Transaction count of the account.
    pub nonce: u64,
    /// Hash of the account's code, when known.
    pub code_hash: Option<B256>,
    /// The account's code, analyzed for the engine.
    pub code: Option<EvmCode>,
}

/// An account as the execution engine reads it.
pub struct EvmAccount {
    /// Balance, nonce, code hash and analyzed code.
    pub basic: AccountBasic,
    /// Storage slots, keyed and valued by 256-bit integers.
    pub storage: Vec<(U256, U256)>,
}

/// Assemble one engine account from a snapshot's plain fields, analyzing the
/// account's bytecode on the way.
pub fn evm_account_from_parts(
    balance: U256,
    nonce: u64,
    code_hash: B256,
    code: Bytecode,
    storage: Vec<(U256, U256)>,
) -> (r: EvmAccount)
    requires
        code matches Bytecode::LegacyRaw(c) ==> c@.len() + 65 <= usize::MAX,
    ensures
        r.basic.balance == balance,
        r.basic.nonce == nonce,
        r.basic.code_hash == Some(code_hash),
        r.basic.code matches Some(ec) && (code matches Bytecode::LegacyRaw(c) ==> analyzed_form(
            ec.bytecode@,
            ec.original_len as int,
            bit_seq(ec.jump_table),
            c@,
        )),
        r.basic.code matches Some(ec) && (code matches Bytecode::LegacyAnalyzed(a) ==> (
        ec.bytecode@ == a.bytecode@ && ec.original_len == a.original_len && bit_seq(ec.jump_table)
            == bit_seq(a.jump_table))),
        r.storage == storage,
{
    EvmAccount {
        basic: AccountBasic {
            balance,
            nonce,
            code_hash: Some(code_hash),
            code: Some(bytecode_to_evmcode(code)),
        },
        storage,
    }
}

} // verus!
